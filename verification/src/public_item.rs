//! An item of a public surface: its path and its rendered signature, with
//! the total order that listings and diffs are sorted by.

use crate::order::{
    compare_text, lemma_lex_strict_total, lemma_strict_total_asymmetric,
    lemma_text_order_strict_total, lex, lex_lt, lex_lt_from, or_equal, Order, order_by,
    strict_total, text_order,
};
use crate::tokens::{
    concat_text, lemma_token_order_strict_total, Token, token_order, tokens_to_string, TokenView,
    views,
};
use vstd::prelude::*;
use vstd::relations::sorted_by;

verus! {

/// A public item as a mathematical value.
pub struct PublicItemView {
    pub path: Seq<Seq<char>>,
    pub tokens: Seq<TokenView>,
}

/// One item of the public surface of a library.
#[derive(Clone, Debug, PartialEq, Eq, PartialOrd, Ord)]
pub struct PublicItem {
    /// The path of the item, outermost segment first.
    pub path: Vec<String>,
    /// The rendered signature of the item.
    pub tokens: Vec<Token>,
}

/// The segments of a path as mathematical values.
pub open spec fn path_view(path: Seq<String>) -> Seq<Seq<char>> {
    path.map_values(|s: String| s@)
}

impl View for PublicItem {
    type V = PublicItemView;

    open spec fn view(&self) -> PublicItemView {
        PublicItemView { path: path_view(self.path@), tokens: views(self.tokens@) }
    }
}

/// The items of a sequence as mathematical values.
pub open spec fn item_views(items: Seq<PublicItem>) -> Seq<PublicItemView> {
    items.map_values(|i: PublicItem| i@)
}

/// The order of paths: lexicographic, segment by segment.
pub open spec fn path_order() -> spec_fn(Seq<Seq<char>>, Seq<Seq<char>>) -> bool {
    lex(text_order())
}

/// The order of signatures: lexicographic, token by token.
pub open spec fn tokens_order() -> spec_fn(Seq<TokenView>, Seq<TokenView>) -> bool {
    lex(token_order())
}

/// The order of public items: by path, and by signature where the paths
/// are equal.
pub open spec fn item_order() -> spec_fn(PublicItemView, PublicItemView) -> bool {
    |a: PublicItemView, b: PublicItemView|
        path_order()(a.path, b.path) || (a.path == b.path && tokens_order()(a.tokens, b.tokens))
}

/// Whether a sequence of public items is in ascending order.
pub open spec fn ascending(items: Seq<PublicItemView>) -> bool {
    sorted_by(items, or_equal(item_order()))
}

/// The order of public items is a strict total order, and so are the
/// orders of paths and of signatures that it is made of.
pub proof fn lemma_item_order_strict_total()
    ensures
        strict_total(path_order()),
        strict_total(tokens_order()),
        strict_total(item_order()),
{
    lemma_text_order_strict_total();
    lemma_token_order_strict_total();
    lemma_lex_strict_total(text_order());
    lemma_lex_strict_total(token_order());
}

/// Compares two paths segment by segment.
pub fn compare_paths(a: &Vec<String>, b: &Vec<String>) -> (r: Order)
    ensures
        r == order_by(path_order(), path_view(a@), path_view(b@)),
{
    let ghost av = path_view(a@);
    let ghost bv = path_view(b@);
    let ghost lt = text_order();
    let mut i: usize = 0;
    loop
        invariant
            i <= a.len(),
            i <= b.len(),
            av == path_view(a@),
            bv == path_view(b@),
            lt == text_order(),
            av.take(i as int) == bv.take(i as int),
            lex_lt(av, bv, lt) == lex_lt_from(av, bv, lt, i as int),
        decreases a.len() - i,
    {
        if i == a.len() && i == b.len() {
            proof {
                assert(av =~= av.take(i as int));
                assert(bv =~= bv.take(i as int));
            }
            return Order::Equal;
        } else if i == a.len() {
            return Order::Less;
        } else if i == b.len() {
            return Order::Greater;
        }
        match compare_text(a[i].as_str(), b[i].as_str()) {
            Order::Less => {
                return Order::Less;
            },
            Order::Greater => {
                return Order::Greater;
            },
            Order::Equal => {
                i += 1;
            },
        }
    }
}

/// Compares two signatures token by token.
pub fn compare_tokens(a: &Vec<Token>, b: &Vec<Token>) -> (r: Order)
    ensures
        r == order_by(tokens_order(), views(a@), views(b@)),
{
    let ghost av = views(a@);
    let ghost bv = views(b@);
    let ghost lt = token_order();
    let mut i: usize = 0;
    loop
        invariant
            i <= a.len(),
            i <= b.len(),
            av == views(a@),
            bv == views(b@),
            lt == token_order(),
            av.take(i as int) == bv.take(i as int),
            lex_lt(av, bv, lt) == lex_lt_from(av, bv, lt, i as int),
        decreases a.len() - i,
    {
        if i == a.len() && i == b.len() {
            proof {
                assert(av =~= av.take(i as int));
                assert(bv =~= bv.take(i as int));
            }
            return Order::Equal;
        } else if i == a.len() {
            return Order::Less;
        } else if i == b.len() {
            return Order::Greater;
        }
        match a[i].compare(&b[i]) {
            Order::Less => {
                return Order::Less;
            },
            Order::Greater => {
                return Order::Greater;
            },
            Order::Equal => {
                i += 1;
            },
        }
    }
}

impl PublicItem {
    /// Compares two public items: by path, then by signature.
    pub fn compare(&self, other: &PublicItem) -> (r: Order)
        ensures
            r == order_by(item_order(), self@, other@),
    {
        proof {
            lemma_item_order_strict_total();
            if path_order()(self@.path, other@.path) {
                lemma_strict_total_asymmetric(path_order(), self@.path, other@.path);
            }
            if tokens_order()(self@.tokens, other@.tokens) {
                lemma_strict_total_asymmetric(tokens_order(), self@.tokens, other@.tokens);
            }
        }
        match compare_paths(&self.path, &other.path) {
            Order::Less => Order::Less,
            Order::Greater => Order::Greater,
            Order::Equal => compare_tokens(&self.tokens, &other.tokens),
        }
    }

    /// The signature as text: the texts of its tokens, one after the other.
    pub fn to_string(&self) -> (s: String)
        ensures
            s@ == concat_text(self@.tokens),
    {
        tokens_to_string(&self.tokens)
    }
}

} // verus!
