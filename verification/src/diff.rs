//! The difference between two versions of a public surface: what was
//! removed, what changed, and what was added.
//!
//! Items are matched by their place in the sorted listings, never by
//! hashing: two different items may render to the same signature, and
//! neither of them may get lost.

use crate::order::{lemma_strict_total_asymmetric, or_equal, Order};
use crate::public_item::{
    ascending, compare_paths, compare_tokens, item_order, item_views, lemma_item_order_strict_total,
    path_order, PublicItem, PublicItemView,
};
use crate::sort::{lemma_ascending_unique, lemma_sorted_items, reversed, sort, sorted_items};
use vstd::multiset::Multiset;
use vstd::prelude::*;
use vstd::relations::sorted_by;
use vstd::seq_lib::{group_to_multiset_ensures, to_multiset_build};

verus! {

/// A changed item as a mathematical value.
pub struct ChangedView {
    pub old: PublicItemView,
    pub new: PublicItemView,
}

/// An item whose signature changed: the same path, another signature.
#[derive(Clone, Debug, PartialEq, Eq, PartialOrd, Ord)]
pub struct ChangedPublicItem {
    /// How the item used to look.
    pub old: PublicItem,
    /// How the item looks now.
    pub new: PublicItem,
}

impl View for ChangedPublicItem {
    type V = ChangedView;

    open spec fn view(&self) -> ChangedView {
        ChangedView { old: self.old@, new: self.new@ }
    }
}

/// The changed items of a sequence as mathematical values.
pub open spec fn changed_views(changed: Seq<ChangedPublicItem>) -> Seq<ChangedView> {
    changed.map_values(|c: ChangedPublicItem| c@)
}

/// How the changed items used to look.
pub open spec fn olds(changed: Seq<ChangedView>) -> Seq<PublicItemView> {
    changed.map_values(|c: ChangedView| c.old)
}

/// How the changed items look now.
pub open spec fn news(changed: Seq<ChangedView>) -> Seq<PublicItemView> {
    changed.map_values(|c: ChangedView| c.new)
}

/// The order of changed items: by the old item, and by the new item where
/// the old items are equal.
pub open spec fn changed_order() -> spec_fn(ChangedView, ChangedView) -> bool {
    |a: ChangedView, b: ChangedView|
        item_order()(a.old, b.old) || (a.old == b.old && item_order()(a.new, b.new))
}

/// Whether a sequence of changed items is in ascending order.
pub open spec fn ascending_changes(changed: Seq<ChangedView>) -> bool {
    sorted_by(changed, or_equal(changed_order()))
}

/// A difference as a mathematical value.
pub struct DiffView {
    pub removed: Seq<PublicItemView>,
    pub changed: Seq<ChangedView>,
    pub added: Seq<PublicItemView>,
}

/// The difference between two versions of a public surface.
#[derive(Clone, Debug, PartialEq, Eq)]
pub struct PublicItemsDiff {
    /// Items of the old version that the new one lacks. Sorted.
    pub removed: Vec<PublicItem>,
    /// Items whose signature changed. Sorted.
    pub changed: Vec<ChangedPublicItem>,
    /// Items of the new version that the old one lacks. Sorted.
    pub added: Vec<PublicItem>,
}

impl View for PublicItemsDiff {
    type V = DiffView;

    open spec fn view(&self) -> DiffView {
        DiffView {
            removed: item_views(self.removed@),
            changed: changed_views(self.changed@),
            added: item_views(self.added@),
        }
    }
}

/// Two versions of a surface, split four ways: the difference between
/// them, and the items that they have in common.
pub struct Partition {
    pub diff: DiffView,
    pub unchanged: Seq<PublicItemView>,
}

/// The split of nothing.
pub open spec fn empty_partition() -> Partition {
    Partition {
        diff: DiffView { removed: Seq::empty(), changed: Seq::empty(), added: Seq::empty() },
        unchanged: Seq::empty(),
    }
}

/// What one step of matching does with the last items of two listings.
#[derive(Clone, Copy, Debug, PartialEq, Eq, Structural)]
pub enum Step {
    /// Both listings are used up.
    Done,
    /// The last old item has no partner: it was removed.
    Removed,
    /// The last new item has no partner: it was added.
    Added,
    /// The last items are one item that changed.
    Changed,
    /// The last items are one item that did not change.
    Unchanged,
}

/// The step that the last items of two listings call for:
///
/// - where only one listing has items left, its last item was removed
///   (old) or added (new);
/// - two equal items are one item that did not change;
/// - two items with the same path and different signatures are one item
///   that changed;
/// - else the larger of the two has no partner: it was added if it is the
///   new one and removed if it is the old one, and the smaller one stays
///   for the next step.
pub open spec fn step(old: Seq<PublicItemView>, new: Seq<PublicItemView>) -> Step {
    if old.len() == 0 && new.len() == 0 {
        Step::Done
    } else if new.len() == 0 {
        Step::Removed
    } else if old.len() == 0 {
        Step::Added
    } else if old.last() == new.last() {
        Step::Unchanged
    } else if old.last().path == new.last().path {
        Step::Changed
    } else if item_order()(old.last(), new.last()) {
        Step::Added
    } else {
        Step::Removed
    }
}

/// The split of two ascending sequences, decided step by step from their
/// last items down. Every list of the result holds its items in the order
/// of the steps reversed, which for ascending sequences is ascending
/// order.
pub open spec fn partition_sorted(old: Seq<PublicItemView>, new: Seq<PublicItemView>) -> Partition
    decreases old.len() + new.len(),
{
    match step(old, new) {
        Step::Done => empty_partition(),
        Step::Removed => with_removed(partition_sorted(old.drop_last(), new), old.last()),
        Step::Added => with_added(partition_sorted(old, new.drop_last()), new.last()),
        Step::Changed => with_changed(
            partition_sorted(old.drop_last(), new.drop_last()),
            old.last(),
            new.last(),
        ),
        Step::Unchanged => with_unchanged(
            partition_sorted(old.drop_last(), new.drop_last()),
            old.last(),
        ),
    }
}

/// `p` with one more removed item at the end.
pub open spec fn with_removed(p: Partition, item: PublicItemView) -> Partition {
    Partition {
        diff: DiffView { removed: p.diff.removed.push(item), ..p.diff },
        unchanged: p.unchanged,
    }
}

/// `p` with one more added item at the end.
pub open spec fn with_added(p: Partition, item: PublicItemView) -> Partition {
    Partition { diff: DiffView { added: p.diff.added.push(item), ..p.diff }, unchanged: p.unchanged }
}

/// `p` with one more changed item at the end.
pub open spec fn with_changed(p: Partition, old: PublicItemView, new: PublicItemView) -> Partition {
    Partition {
        diff: DiffView { changed: p.diff.changed.push(ChangedView { old, new }), ..p.diff },
        unchanged: p.unchanged,
    }
}

/// `p` with one more unchanged item at the end.
pub open spec fn with_unchanged(p: Partition, item: PublicItemView) -> Partition {
    Partition { diff: p.diff, unchanged: p.unchanged.push(item) }
}

/// The split of two versions of a surface, whatever order their items are
/// given in: both are put in ascending order first.
pub open spec fn partition(old: Seq<PublicItemView>, new: Seq<PublicItemView>) -> Partition {
    partition_sorted(sorted_items(old), sorted_items(new))
}

/// The difference between two versions of a surface.
pub open spec fn diff_of(old: Seq<PublicItemView>, new: Seq<PublicItemView>) -> DiffView {
    partition(old, new).diff
}

/// The items that two versions of a surface have in common.
pub open spec fn unchanged_of(old: Seq<PublicItemView>, new: Seq<PublicItemView>) -> Seq<
    PublicItemView,
> {
    partition(old, new).unchanged
}

/// Whether the removed items, the old sides of the changed items and the
/// unchanged items together are the old version, and the added items, the
/// new sides of the changed items and the unchanged items together are
/// the new version, each item as often as there.
pub open spec fn reconstructs(
    p: Partition,
    old: Seq<PublicItemView>,
    new: Seq<PublicItemView>,
) -> bool {
    &&& p.diff.removed.to_multiset().add(olds(p.diff.changed).to_multiset()).add(
        p.unchanged.to_multiset(),
    ) == old.to_multiset()
    &&& p.diff.added.to_multiset().add(news(p.diff.changed).to_multiset()).add(
        p.unchanged.to_multiset(),
    ) == new.to_multiset()
}

/// Whether every changed item has one path and two different signatures.
pub open spec fn changes_keep_path(changed: Seq<ChangedView>) -> bool {
    forall|i: int|
        0 <= i < changed.len() ==> (#[trigger] changed[i]).old.path == changed[i].new.path
            && changed[i].old != changed[i].new
}

/// Whether every item of `part` is an item of `whole`.
pub open spec fn within(part: Seq<PublicItemView>, whole: Seq<PublicItemView>) -> bool {
    forall|i: int| 0 <= i < part.len() ==> whole.contains(#[trigger] part[i])
}

proof fn lemma_empty_to_multiset(s: Seq<PublicItemView>)
    requires
        s.len() == 0,
    ensures
        s.to_multiset() == Multiset::<PublicItemView>::empty(),
{
    broadcast use group_to_multiset_ensures;
}

proof fn lemma_within_longer(part: Seq<PublicItemView>, whole: Seq<PublicItemView>)
    requires
        whole.len() > 0,
        within(part, whole.drop_last()),
    ensures
        within(part, whole),
{
}

proof fn lemma_within_push(part: Seq<PublicItemView>, whole: Seq<PublicItemView>)
    requires
        whole.len() > 0,
        within(part, whole),
    ensures
        within(part.push(whole.last()), whole),
{
}

/// Every list of a split holds only items of the version that it belongs
/// to, and every changed item has one path and two different signatures.
pub proof fn lemma_partition_within(old: Seq<PublicItemView>, new: Seq<PublicItemView>)
    ensures
        within(partition_sorted(old, new).diff.removed, old),
        within(olds(partition_sorted(old, new).diff.changed), old),
        within(partition_sorted(old, new).diff.added, new),
        within(news(partition_sorted(old, new).diff.changed), new),
        changes_keep_path(partition_sorted(old, new).diff.changed),
    decreases old.len() + new.len(),
{
    match step(old, new) {
        Step::Done => {},
        Step::Removed => {
            let q = partition_sorted(old.drop_last(), new);
            lemma_partition_within(old.drop_last(), new);
            lemma_within_longer(q.diff.removed, old);
            lemma_within_longer(olds(q.diff.changed), old);
            lemma_within_push(q.diff.removed, old);
        },
        Step::Added => {
            let q = partition_sorted(old, new.drop_last());
            lemma_partition_within(old, new.drop_last());
            lemma_within_longer(q.diff.added, new);
            lemma_within_longer(news(q.diff.changed), new);
            lemma_within_push(q.diff.added, new);
        },
        Step::Changed => {
            let q = partition_sorted(old.drop_last(), new.drop_last());
            let c = ChangedView { old: old.last(), new: new.last() };
            lemma_partition_within(old.drop_last(), new.drop_last());
            lemma_within_longer(q.diff.removed, old);
            lemma_within_longer(olds(q.diff.changed), old);
            lemma_within_longer(q.diff.added, new);
            lemma_within_longer(news(q.diff.changed), new);
            assert(olds(q.diff.changed.push(c)) =~= olds(q.diff.changed).push(old.last()));
            assert(news(q.diff.changed.push(c)) =~= news(q.diff.changed).push(new.last()));
            lemma_within_push(olds(q.diff.changed), old);
            lemma_within_push(news(q.diff.changed), new);
        },
        Step::Unchanged => {
            let q = partition_sorted(old.drop_last(), new.drop_last());
            lemma_partition_within(old.drop_last(), new.drop_last());
            lemma_within_longer(q.diff.removed, old);
            lemma_within_longer(olds(q.diff.changed), old);
            lemma_within_longer(q.diff.added, new);
            lemma_within_longer(news(q.diff.changed), new);
        },
    }
}

/// The partition law for sequences in any order: a split loses no item
/// and invents none.
pub proof fn lemma_partition_sorted_reconstructs(old: Seq<PublicItemView>, new: Seq<PublicItemView>)
    ensures
        reconstructs(partition_sorted(old, new), old, new),
    decreases old.len() + new.len(),
{
    let p = partition_sorted(old, new);
    match step(old, new) {
        Step::Done => {
            lemma_empty_to_multiset(old);
            lemma_empty_to_multiset(new);
            lemma_empty_to_multiset(p.diff.removed);
            lemma_empty_to_multiset(p.diff.added);
            lemma_empty_to_multiset(p.unchanged);
            lemma_empty_to_multiset(olds(p.diff.changed));
            lemma_empty_to_multiset(news(p.diff.changed));
            let none = Multiset::<PublicItemView>::empty();
            assert(none.add(none).add(none) =~= none);
        },
        Step::Removed => {
            let q = partition_sorted(old.drop_last(), new);
            lemma_partition_sorted_reconstructs(old.drop_last(), new);
            assert(old =~= old.drop_last().push(old.last()));
            to_multiset_build(old.drop_last(), old.last());
            to_multiset_build(q.diff.removed, old.last());
            assert(p.diff.removed.to_multiset().add(olds(p.diff.changed).to_multiset()).add(
                p.unchanged.to_multiset(),
            ) =~= old.to_multiset());
        },
        Step::Added => {
            let q = partition_sorted(old, new.drop_last());
            lemma_partition_sorted_reconstructs(old, new.drop_last());
            assert(new =~= new.drop_last().push(new.last()));
            to_multiset_build(new.drop_last(), new.last());
            to_multiset_build(q.diff.added, new.last());
            assert(p.diff.added.to_multiset().add(news(p.diff.changed).to_multiset()).add(
                p.unchanged.to_multiset(),
            ) =~= new.to_multiset());
        },
        Step::Changed => {
            let q = partition_sorted(old.drop_last(), new.drop_last());
            let c = ChangedView { old: old.last(), new: new.last() };
            lemma_partition_sorted_reconstructs(old.drop_last(), new.drop_last());
            assert(old =~= old.drop_last().push(old.last()));
            assert(new =~= new.drop_last().push(new.last()));
            to_multiset_build(old.drop_last(), old.last());
            to_multiset_build(new.drop_last(), new.last());
            assert(olds(q.diff.changed.push(c)) =~= olds(q.diff.changed).push(old.last()));
            assert(news(q.diff.changed.push(c)) =~= news(q.diff.changed).push(new.last()));
            to_multiset_build(olds(q.diff.changed), old.last());
            to_multiset_build(news(q.diff.changed), new.last());
            assert(p.diff.removed.to_multiset().add(olds(p.diff.changed).to_multiset()).add(
                p.unchanged.to_multiset(),
            ) =~= old.to_multiset());
            assert(p.diff.added.to_multiset().add(news(p.diff.changed).to_multiset()).add(
                p.unchanged.to_multiset(),
            ) =~= new.to_multiset());
        },
        Step::Unchanged => {
            let q = partition_sorted(old.drop_last(), new.drop_last());
            lemma_partition_sorted_reconstructs(old.drop_last(), new.drop_last());
            assert(old =~= old.drop_last().push(old.last()));
            assert(new =~= new.drop_last().push(new.last()));
            to_multiset_build(old.drop_last(), old.last());
            to_multiset_build(new.drop_last(), new.last());
            to_multiset_build(q.unchanged, old.last());
            assert(p.diff.removed.to_multiset().add(olds(p.diff.changed).to_multiset()).add(
                p.unchanged.to_multiset(),
            ) =~= old.to_multiset());
            assert(p.diff.added.to_multiset().add(news(p.diff.changed).to_multiset()).add(
                p.unchanged.to_multiset(),
            ) =~= new.to_multiset());
        },
    }
}

proof fn lemma_ascending_shorter(s: Seq<PublicItemView>)
    requires
        s.len() > 0,
        ascending(s),
    ensures
        ascending(s.drop_last()),
{
}

proof fn lemma_ascending_push(part: Seq<PublicItemView>, whole: Seq<PublicItemView>)
    requires
        whole.len() > 0,
        ascending(whole),
        ascending(part),
        within(part, whole),
    ensures
        ascending(part.push(whole.last())),
{
    let le = or_equal(item_order());
    let more = part.push(whole.last());
    assert forall|i: int, j: int| 0 <= i < j < more.len() implies #[trigger] le(more[i], more[j]) by {
        if !(j < part.len()) {
        }
    }
}

/// A split of ascending sequences holds each of its lists in ascending
/// order.
pub proof fn lemma_partition_sorted_ascending(old: Seq<PublicItemView>, new: Seq<PublicItemView>)
    requires
        ascending(old),
        ascending(new),
    ensures
        ascending(partition_sorted(old, new).diff.removed),
        ascending_changes(partition_sorted(old, new).diff.changed),
        ascending(partition_sorted(old, new).diff.added),
    decreases old.len() + new.len(),
{
    match step(old, new) {
        Step::Done => {},
        Step::Removed => {
            let q = partition_sorted(old.drop_last(), new);
            lemma_ascending_shorter(old);
            lemma_partition_sorted_ascending(old.drop_last(), new);
            lemma_partition_within(old.drop_last(), new);
            lemma_within_longer(q.diff.removed, old);
            lemma_ascending_push(q.diff.removed, old);
        },
        Step::Added => {
            let q = partition_sorted(old, new.drop_last());
            lemma_ascending_shorter(new);
            lemma_partition_sorted_ascending(old, new.drop_last());
            lemma_partition_within(old, new.drop_last());
            lemma_within_longer(q.diff.added, new);
            lemma_ascending_push(q.diff.added, new);
        },
        Step::Changed => {
            let q = partition_sorted(old.drop_last(), new.drop_last());
            lemma_ascending_shorter(old);
            lemma_ascending_shorter(new);
            lemma_partition_sorted_ascending(old.drop_last(), new.drop_last());
            lemma_partition_within(old.drop_last(), new.drop_last());
            let more = q.diff.changed.push(ChangedView { old: old.last(), new: new.last() });
            let le = or_equal(item_order());
            let pair_le = or_equal(changed_order());
            assert forall|i: int, j: int| 0 <= i < j < more.len() implies #[trigger] pair_le(
                more[i],
                more[j],
            ) by {
                if j == q.diff.changed.len() {
                    // Both sides of an earlier pair come from further down
                    // their listings than the sides of this one.
                    let before = q.diff.changed[i];
                    assert(olds(q.diff.changed)[i] == before.old);
                    assert(news(q.diff.changed)[i] == before.new);
                    let k = choose|k: int|
                        0 <= k < old.drop_last().len() && old.drop_last()[k] == before.old;
                    let m = choose|m: int|
                        0 <= m < new.drop_last().len() && new.drop_last()[m] == before.new;
                    assert(le(old[k], old[old.len() - 1]));
                    assert(le(new[m], new[new.len() - 1]));
                }
            }
        },
        Step::Unchanged => {
            lemma_ascending_shorter(old);
            lemma_ascending_shorter(new);
            lemma_partition_sorted_ascending(old.drop_last(), new.drop_last());
        },
    }
}

/// A version of a surface does not differ from itself: the split of a
/// sequence with itself has nothing removed, changed or added, and
/// everything unchanged.
pub proof fn lemma_partition_sorted_same(items: Seq<PublicItemView>)
    ensures
        partition_sorted(items, items) == (Partition {
            diff: empty_partition().diff,
            unchanged: items,
        }),
    decreases items.len(),
{
    if items.len() > 0 {
        lemma_partition_sorted_same(items.drop_last());
        assert(items.drop_last().push(items.last()) =~= items);
    } else {
        assert(items =~= Seq::empty());
    }
}

/// The partition law. For all `old` and `new`: the removed items, the old
/// sides of the changed items and the unchanged items together are `old`,
/// and the added items, the new sides of the changed items and the
/// unchanged items together are `new`, each item as often as there.
pub proof fn lemma_partition_law(old: Seq<PublicItemView>, new: Seq<PublicItemView>)
    ensures
        reconstructs(partition(old, new), old, new),
        changes_keep_path(diff_of(old, new).changed),
{
    lemma_sorted_items(old);
    lemma_sorted_items(new);
    lemma_partition_sorted_reconstructs(sorted_items(old), sorted_items(new));
    lemma_partition_within(sorted_items(old), sorted_items(new));
}

/// Idempotence. The difference between a surface and itself is empty,
/// and so is the difference between two listings of the same items in
/// different orders.
pub proof fn lemma_diff_same(old: Seq<PublicItemView>, new: Seq<PublicItemView>)
    requires
        old.to_multiset() == new.to_multiset(),
    ensures
        diff_of(old, new).removed.len() == 0,
        diff_of(old, new).changed.len() == 0,
        diff_of(old, new).added.len() == 0,
        unchanged_of(old, new) == sorted_items(old),
{
    lemma_sorted_items(old);
    lemma_sorted_items(new);
    lemma_ascending_unique(sorted_items(old), sorted_items(new));
    lemma_partition_sorted_same(sorted_items(old));
}

/// Order independence. The difference depends on which items each version
/// holds and how often, not on the order in which they are given.
pub proof fn lemma_diff_order_independent(
    old: Seq<PublicItemView>,
    new: Seq<PublicItemView>,
    old_shuffled: Seq<PublicItemView>,
    new_shuffled: Seq<PublicItemView>,
)
    requires
        old.to_multiset() == old_shuffled.to_multiset(),
        new.to_multiset() == new_shuffled.to_multiset(),
    ensures
        diff_of(old, new) == diff_of(old_shuffled, new_shuffled),
{
    lemma_sorted_items(old);
    lemma_sorted_items(new);
    lemma_sorted_items(old_shuffled);
    lemma_sorted_items(new_shuffled);
    lemma_ascending_unique(sorted_items(old), sorted_items(old_shuffled));
    lemma_ascending_unique(sorted_items(new), sorted_items(new_shuffled));
}

/// Stability of the output order. Whatever order the versions are given
/// in, each list of the difference is in ascending order.
pub proof fn lemma_diff_ascending(old: Seq<PublicItemView>, new: Seq<PublicItemView>)
    ensures
        ascending(diff_of(old, new).removed),
        ascending_changes(diff_of(old, new).changed),
        ascending(diff_of(old, new).added),
{
    lemma_sorted_items(old);
    lemma_sorted_items(new);
    lemma_partition_sorted_ascending(sorted_items(old), sorted_items(new));
}

/// What a split comes to when the lists `removed`, `changed` and `added`,
/// which hold later steps first, follow it.
pub open spec fn followed_by(
    p: Partition,
    removed: Seq<PublicItemView>,
    changed: Seq<ChangedView>,
    added: Seq<PublicItemView>,
) -> DiffView {
    DiffView {
        removed: p.diff.removed + removed.reverse(),
        changed: p.diff.changed + changed.reverse(),
        added: p.diff.added + added.reverse(),
    }
}

proof fn lemma_reverse_push<A>(s: Seq<A>, x: A)
    ensures
        s.push(x).reverse() == seq![x] + s.reverse(),
{
}

/// Decides the step that the last items of two listings call for.
pub fn next_step(old: &Vec<PublicItem>, new: &Vec<PublicItem>) -> (next: Step)
    ensures
        next == step(item_views(old@), item_views(new@)),
{
    if new.len() == 0 {
        if old.len() == 0 {
            Step::Done
        } else {
            Step::Removed
        }
    } else if old.len() == 0 {
        Step::Added
    } else {
        let last_old = &old[old.len() - 1];
        let last_new = &new[new.len() - 1];
        proof {
            lemma_item_order_strict_total();
            if path_order()(last_old@.path, last_new@.path) {
                lemma_strict_total_asymmetric(path_order(), last_old@.path, last_new@.path);
            }
        }
        // Items are ordered by path first: where the paths differ, they
        // decide, and where they agree, the items are the same or changed.
        match compare_paths(&last_old.path, &last_new.path) {
            Order::Less => Step::Added,
            Order::Greater => Step::Removed,
            Order::Equal => match compare_tokens(&last_old.tokens, &last_new.tokens) {
                Order::Equal => Step::Unchanged,
                _ => Step::Changed,
            },
        }
    }
}

impl PublicItemsDiff {
    /// The difference between two versions of a public surface.
    ///
    /// The items are matched from the end of the sorted listings: two
    /// items with the same path and different signatures are one changed
    /// item, two equal items are an unchanged one, and of two items that
    /// are no such pair the larger one has no partner. The order in which
    /// the items are given makes no difference, each list of the result is
    /// in ascending order, and no item is lost: what was removed, what
    /// changed and what stayed make up `old_items`, and what was added,
    /// what changed and what stayed make up `new_items`.
    pub fn between(old_items: Vec<PublicItem>, new_items: Vec<PublicItem>) -> (diff: Self)
        ensures
            diff@ == diff_of(item_views(old_items@), item_views(new_items@)),
            ascending(diff@.removed),
            ascending_changes(diff@.changed),
            ascending(diff@.added),
            changes_keep_path(diff@.changed),
            reconstructs(
                Partition {
                    diff: diff@,
                    unchanged: unchanged_of(item_views(old_items@), item_views(new_items@)),
                },
                item_views(old_items@),
                item_views(new_items@),
            ),
            item_views(old_items@).to_multiset() == item_views(new_items@).to_multiset() ==> {
                &&& diff.removed@.len() == 0
                &&& diff.changed@.len() == 0
                &&& diff.added@.len() == 0
            },
    {
        let ghost old_views = item_views(old_items@);
        let ghost new_views = item_views(new_items@);
        let mut old_sorted = sort(old_items);
        let mut new_sorted = sort(new_items);
        let ghost total = partition_sorted(item_views(old_sorted@), item_views(new_sorted@));
        // Each list is filled from its largest item down.
        let mut removed: Vec<PublicItem> = Vec::new();
        let mut changed: Vec<ChangedPublicItem> = Vec::new();
        let mut added: Vec<PublicItem> = Vec::new();
        loop
            invariant
                total.diff == followed_by(
                    partition_sorted(item_views(old_sorted@), item_views(new_sorted@)),
                    item_views(removed@),
                    changed_views(changed@),
                    item_views(added@),
                ),
            ensures
                old_sorted.len() == 0,
                new_sorted.len() == 0,
            decreases old_sorted.len() + new_sorted.len(),
        {
            let ghost olds_before = item_views(old_sorted@);
            let ghost news_before = item_views(new_sorted@);
            let ghost removed_before = item_views(removed@);
            let ghost changed_before = changed_views(changed@);
            let ghost added_before = item_views(added@);
            match next_step(&old_sorted, &new_sorted) {
                Step::Done => {
                    break ;
                },
                Step::Removed => {
                    let old = old_sorted.pop().unwrap();
                    removed.push(old);
                    proof {
                        let rest = partition_sorted(item_views(old_sorted@), news_before);
                        assert(item_views(old_sorted@) =~= olds_before.drop_last());
                        assert(item_views(removed@) =~= removed_before.push(old@));
                        lemma_reverse_push(removed_before, old@);
                        assert(rest.diff.removed + (seq![old@] + removed_before.reverse())
                            =~= rest.diff.removed.push(old@) + removed_before.reverse());
                    }
                },
                Step::Added => {
                    let new = new_sorted.pop().unwrap();
                    added.push(new);
                    proof {
                        let rest = partition_sorted(olds_before, item_views(new_sorted@));
                        assert(item_views(new_sorted@) =~= news_before.drop_last());
                        assert(item_views(added@) =~= added_before.push(new@));
                        lemma_reverse_push(added_before, new@);
                        assert(rest.diff.added + (seq![new@] + added_before.reverse())
                            =~= rest.diff.added.push(new@) + added_before.reverse());
                    }
                },
                Step::Changed => {
                    let old = old_sorted.pop().unwrap();
                    let new = new_sorted.pop().unwrap();
                    let pair = ChangedPublicItem { old, new };
                    let ghost pair_view = pair@;
                    changed.push(pair);
                    proof {
                        let rest = partition_sorted(
                            item_views(old_sorted@),
                            item_views(new_sorted@),
                        );
                        assert(item_views(old_sorted@) =~= olds_before.drop_last());
                        assert(item_views(new_sorted@) =~= news_before.drop_last());
                        assert(changed_views(changed@) =~= changed_before.push(pair_view));
                        lemma_reverse_push(changed_before, pair_view);
                        assert(rest.diff.changed + (seq![pair_view] + changed_before.reverse())
                            =~= rest.diff.changed.push(pair_view) + changed_before.reverse());
                    }
                },
                Step::Unchanged => {
                    old_sorted.pop();
                    new_sorted.pop();
                    proof {
                        assert(item_views(old_sorted@) =~= olds_before.drop_last());
                        assert(item_views(new_sorted@) =~= news_before.drop_last());
                    }
                },
            }
        }
        let ghost removed_down = item_views(removed@);
        let ghost changed_down = changed_views(changed@);
        let ghost added_down = item_views(added@);
        let diff = PublicItemsDiff {
            removed: reversed(removed),
            changed: reversed(changed),
            added: reversed(added),
        };
        proof {
            assert(item_views(diff.removed@) =~= removed_down.reverse());
            assert(changed_views(diff.changed@) =~= changed_down.reverse());
            assert(item_views(diff.added@) =~= added_down.reverse());
            lemma_partition_law(old_views, new_views);
            lemma_diff_ascending(old_views, new_views);
            if old_views.to_multiset() == new_views.to_multiset() {
                lemma_diff_same(old_views, new_views);
            }
        }
        diff
    }
}

} // verus!
