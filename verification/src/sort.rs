//! Sorting public items: a merge sort that moves the items and never
//! copies one.

use crate::order::{lemma_or_equal_total, or_equal, Order, strict_total};
use crate::public_item::{
    ascending, item_order, item_views, lemma_item_order_strict_total, PublicItem, PublicItemView,
};
use vstd::prelude::*;
use vstd::relations::{sorted_by, total_ordering};
use vstd::seq_lib::{
    group_to_multiset_ensures, lemma_multiset_commutative, lemma_sorted_unique, to_multiset_build,
};

verus! {

/// The ascending arrangement of a sequence of public items.
pub open spec fn sorted_items(items: Seq<PublicItemView>) -> Seq<PublicItemView> {
    items.sort_by(or_equal(item_order()))
}

/// The ascending arrangement is ascending and holds the same items, each
/// as often as the sequence it was made from.
pub proof fn lemma_sorted_items(items: Seq<PublicItemView>)
    ensures
        ascending(sorted_items(items)),
        sorted_items(items).to_multiset() == items.to_multiset(),
        sorted_items(items).len() == items.len(),
{
    broadcast use group_to_multiset_ensures;

    lemma_item_order_strict_total();
    lemma_or_equal_total(item_order());
    items.lemma_sort_by_ensures(or_equal(item_order()));
    assert(sorted_items(items).to_multiset().len() == sorted_items(items).len());
}

/// There is only one ascending arrangement of given items.
pub proof fn lemma_ascending_unique(a: Seq<PublicItemView>, b: Seq<PublicItemView>)
    requires
        ascending(a),
        ascending(b),
        a.to_multiset() == b.to_multiset(),
    ensures
        a == b,
{
    lemma_item_order_strict_total();
    lemma_or_equal_total(item_order());
    lemma_sorted_unique(a, b, or_equal(item_order()));
}

/// A sequence and its reverse hold the same elements, each as often.
pub proof fn lemma_reverse_to_multiset<A>(s: Seq<A>)
    ensures
        s.reverse().to_multiset() == s.to_multiset(),
    decreases s.len(),
{
    broadcast use group_to_multiset_ensures;

    if !(s.len() == 0) {
        let rest = s.drop_last();
        let x = s.last();
        lemma_reverse_to_multiset(rest);
        assert(s =~= rest.push(x));
        assert(s.reverse() =~= seq![x] + rest.reverse());
        lemma_multiset_commutative(seq![x], rest.reverse());
    }
}

/// The elements of a vector in reverse order.
pub fn reversed<T>(v: Vec<T>) -> (r: Vec<T>)
    ensures
        r@ == v@.reverse(),
{
    let ghost all = v@;
    let mut v = v;
    let mut r: Vec<T> = Vec::new();
    while v.len() > 0
        invariant
            v@ == all.take(v.len() as int),
            v.len() <= all.len(),
            r.len() + v.len() == all.len(),
            forall|k: int| 0 <= k < r.len() ==> r@[k] == all[all.len() - 1 - k],
        decreases v.len(),
    {
        let x = v.pop().unwrap();
        r.push(x);
    }
    r
}

/// Merges two ascending sequences of public items into one.
pub fn merge(left: Vec<PublicItem>, right: Vec<PublicItem>) -> (merged: Vec<PublicItem>)
    requires
        ascending(item_views(left@)),
        ascending(item_views(right@)),
    ensures
        item_views(merged@) == sorted_items(item_views(left@) + item_views(right@)),
        ascending(item_views(merged@)),
        item_views(merged@).to_multiset() == item_views(left@).to_multiset().add(
            item_views(right@).to_multiset(),
        ),
{
    broadcast use group_to_multiset_ensures;

    let ghost l = item_views(left@);
    let ghost r = item_views(right@);
    let ghost le = or_equal(item_order());
    let mut a = left;
    let mut b = right;
    // The items from the largest down.
    let mut back: Vec<PublicItem> = Vec::new();
    proof {
        lemma_item_order_strict_total();
        lemma_or_equal_total(item_order());
    }
    while a.len() > 0 || b.len() > 0
        invariant
            le == or_equal(item_order()),
            strict_total(item_order()),
            total_ordering(le),
            sorted_by(l, le),
            sorted_by(r, le),
            a.len() <= l.len(),
            b.len() <= r.len(),
            item_views(a@) == l.take(a.len() as int),
            item_views(b@) == r.take(b.len() as int),
            forall|i: int, j: int|
                0 <= i < j < back.len() ==> #[trigger] le(
                    item_views(back@)[j],
                    #[trigger] item_views(back@)[i],
                ),
            forall|i: int, k: int|
                0 <= i < back.len() && 0 <= k < a.len() ==> #[trigger] le(
                    l[k],
                    #[trigger] item_views(back@)[i],
                ),
            forall|i: int, k: int|
                0 <= i < back.len() && 0 <= k < b.len() ==> #[trigger] le(
                    r[k],
                    #[trigger] item_views(back@)[i],
                ),
            item_views(a@).to_multiset().add(item_views(b@).to_multiset()).add(
                item_views(back@).to_multiset(),
            ) == l.to_multiset().add(r.to_multiset()),
        decreases a.len() + b.len(),
    {
        let from_left = if b.len() == 0 {
            true
        } else if a.len() == 0 {
            false
        } else {
            match a[a.len() - 1].compare(&b[b.len() - 1]) {
                Order::Greater => true,
                _ => false,
            }
        };
        let ghost before_a = item_views(a@);
        let ghost before_b = item_views(b@);
        let ghost before_back = item_views(back@);
        let ghost old_a = a@;
        let ghost old_b = b@;
        proof {
            if a.len() > 0 && b.len() > 0 {
                let x = old_a[a.len() - 1]@;
                let y = old_b[b.len() - 1]@;
                assert(before_a[a.len() - 1] == x);
                assert(before_b[b.len() - 1] == y);
                if x != y {
                    assert(item_order()(x, y) || item_order()(y, x));
                }
            }
        }
        if from_left {
            let x = a.pop().unwrap();
            back.push(x);
            proof {
                let n = a.len() as int;
                assert(before_a[n] == x@);
                assert(before_a =~= item_views(a@).push(x@));
                assert(item_views(back@) =~= before_back.push(x@));
                to_multiset_build(item_views(a@), x@);
                to_multiset_build(before_back, x@);
                assert forall|k: int| 0 <= k < b.len() implies le(r[k], x@) by {
                    let top = r[b.len() - 1];
                    assert(le(r[k], top));
                }
            }
        } else {
            let x = b.pop().unwrap();
            back.push(x);
            proof {
                let n = b.len() as int;
                assert(before_b[n] == x@);
                assert(before_b =~= item_views(b@).push(x@));
                assert(item_views(back@) =~= before_back.push(x@));
                to_multiset_build(item_views(b@), x@);
                to_multiset_build(before_back, x@);
                assert forall|k: int| 0 <= k < a.len() implies le(l[k], x@) by {
                    let top = l[a.len() - 1];
                    assert(le(l[k], top));
                }
            }
        }
    }
    let ghost down = item_views(back@);
    let merged = reversed(back);
    proof {
        assert(down.to_multiset() =~= l.to_multiset().add(r.to_multiset()));
        assert(item_views(merged@) =~= down.reverse());
        lemma_reverse_to_multiset(down);
        lemma_multiset_commutative(l, r);
        lemma_sorted_items(l + r);
        lemma_ascending_unique(item_views(merged@), sorted_items(l + r));
    }
    merged
}

/// Sorts public items into ascending order.
pub fn sort(items: Vec<PublicItem>) -> (sorted: Vec<PublicItem>)
    ensures
        item_views(sorted@) == sorted_items(item_views(items@)),
        ascending(item_views(sorted@)),
        item_views(sorted@).to_multiset() == item_views(items@).to_multiset(),
    decreases items.len(),
{
    let ghost all = item_views(items@);
    proof {
        lemma_sorted_items(all);
    }
    if items.len() <= 1 {
        proof {
            lemma_ascending_unique(all, sorted_items(all));
        }
        return items;
    }
    let mut left = items;
    let right = left.split_off(left.len() / 2);
    proof {
        assert(all =~= item_views(left@) + item_views(right@));
        lemma_multiset_commutative(item_views(left@), item_views(right@));
    }
    let left = sort(left);
    let right = sort(right);
    let sorted = merge(left, right);
    proof {
        lemma_ascending_unique(item_views(sorted@), sorted_items(all));
    }
    sorted
}

} // verus!
