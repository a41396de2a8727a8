//! Lexicographic order on sequences, and the order of text by code point.
//!
//! The orders of this crate are built from a strict total order on
//! elements and the lexicographic order that it induces on sequences. The
//! laws of that construction are proved once here.

use vstd::prelude::*;
use vstd::std_specs::iter::IteratorSpec;

verus! {

/// The outcome of comparing two values.
#[derive(Clone, Copy, Debug, PartialEq, Eq, Structural)]
pub enum Order {
    Less,
    Equal,
    Greater,
}

/// `lt` is irreflexive and transitive, and any two distinct values are
/// related one way or the other.
pub open spec fn strict_total<A>(lt: spec_fn(A, A) -> bool) -> bool {
    &&& forall|a: A| !#[trigger] lt(a, a)
    &&& forall|a: A, b: A, c: A| #[trigger] lt(a, b) && #[trigger] lt(b, c) ==> lt(a, c)
    &&& forall|a: A, b: A| a != b ==> #[trigger] lt(a, b) || #[trigger] lt(b, a)
}

/// Whether `a` comes before `b` lexicographically, given that they agree
/// below index `i`: the first position from `i` on at which they differ
/// decides, and a sequence that ends first comes first.
pub open spec fn lex_lt_from<A>(a: Seq<A>, b: Seq<A>, lt: spec_fn(A, A) -> bool, i: int) -> bool
    decreases a.len() - i,
{
    if i >= b.len() {
        false
    } else if i >= a.len() {
        true
    } else if a[i] == b[i] {
        lex_lt_from(a, b, lt, i + 1)
    } else {
        lt(a[i], b[i])
    }
}

/// The lexicographic order that `lt` induces on sequences.
pub open spec fn lex_lt<A>(a: Seq<A>, b: Seq<A>, lt: spec_fn(A, A) -> bool) -> bool {
    lex_lt_from(a, b, lt, 0)
}

/// The lexicographic order as a relation.
pub open spec fn lex<A>(lt: spec_fn(A, A) -> bool) -> spec_fn(Seq<A>, Seq<A>) -> bool {
    |a: Seq<A>, b: Seq<A>| lex_lt(a, b, lt)
}

/// The three-way outcome that belongs to a strict order.
pub open spec fn order_by<A>(lt: spec_fn(A, A) -> bool, a: A, b: A) -> Order {
    if a == b {
        Order::Equal
    } else if lt(a, b) {
        Order::Less
    } else {
        Order::Greater
    }
}

/// The reflexive closure of a strict order.
pub open spec fn or_equal<A>(lt: spec_fn(A, A) -> bool) -> spec_fn(A, A) -> bool {
    |a: A, b: A| a == b || lt(a, b)
}

proof fn lemma_lex_irreflexive<A>(a: Seq<A>, lt: spec_fn(A, A) -> bool, i: int)
    requires
        0 <= i,
    ensures
        !lex_lt_from(a, a, lt, i),
    decreases a.len() - i,
{
    if i < a.len() {
        lemma_lex_irreflexive(a, lt, i + 1);
    }
}

proof fn lemma_lex_transitive<A>(a: Seq<A>, b: Seq<A>, c: Seq<A>, lt: spec_fn(A, A) -> bool, i: int)
    requires
        strict_total(lt),
        0 <= i,
        lex_lt_from(a, b, lt, i),
        lex_lt_from(b, c, lt, i),
    ensures
        lex_lt_from(a, c, lt, i),
    decreases a.len() - i,
{
    if i < a.len() && i < b.len() && i < c.len() {
        if a[i] == b[i] && b[i] == c[i] {
            lemma_lex_transitive(a, b, c, lt, i + 1);
        }
    }
}

proof fn lemma_lex_connected<A>(a: Seq<A>, b: Seq<A>, lt: spec_fn(A, A) -> bool, i: int)
    requires
        strict_total(lt),
        0 <= i <= a.len(),
        i <= b.len(),
        a.take(i) == b.take(i),
        a != b,
    ensures
        lex_lt_from(a, b, lt, i) || lex_lt_from(b, a, lt, i),
    decreases a.len() - i,
{
    if i < a.len() && i < b.len() {
        if a[i] == b[i] {
            assert(a.take(i + 1) =~= a.take(i).push(a[i]));
            assert(b.take(i + 1) =~= b.take(i).push(b[i]));
            lemma_lex_connected(a, b, lt, i + 1);
        }
    } else if i == a.len() && i == b.len() {
        assert(a =~= a.take(i));
        assert(b =~= b.take(i));
    }
}

/// The lexicographic order over a strict total order is a strict total order.
pub proof fn lemma_lex_strict_total<A>(lt: spec_fn(A, A) -> bool)
    requires
        strict_total(lt),
    ensures
        strict_total(lex(lt)),
{
    let r = lex(lt);
    assert forall|a: Seq<A>| !#[trigger] r(a, a) by {
        lemma_lex_irreflexive(a, lt, 0);
    }
    assert forall|a: Seq<A>, b: Seq<A>, c: Seq<A>| #[trigger] r(a, b) && #[trigger] r(b, c) implies r(
        a,
        c,
    ) by {
        lemma_lex_transitive(a, b, c, lt, 0);
    }
    assert forall|a: Seq<A>, b: Seq<A>| a != b implies #[trigger] r(a, b) || #[trigger] r(b, a) by {
        assert(a.take(0) =~= b.take(0));
        lemma_lex_connected(a, b, lt, 0);
    }
}

/// A strict total order never holds both ways.
pub proof fn lemma_strict_total_asymmetric<A>(lt: spec_fn(A, A) -> bool, a: A, b: A)
    requires
        strict_total(lt),
        lt(a, b),
    ensures
        !lt(b, a),
        a != b,
{
}

/// The reflexive closure of a strict total order is a total order.
pub proof fn lemma_or_equal_total<A>(lt: spec_fn(A, A) -> bool)
    requires
        strict_total(lt),
    ensures
        vstd::relations::total_ordering(or_equal(lt)),
{
    let le = or_equal(lt);
    assert forall|x: A, y: A| #[trigger] le(x, y) && #[trigger] le(y, x) implies x == y by {
        if x != y {
            lemma_strict_total_asymmetric(lt, x, y);
        }
    }
}

/// The order of characters: by code point.
pub open spec fn char_order() -> spec_fn(char, char) -> bool {
    |a: char, b: char| a < b
}

/// The order of text: lexicographic by code point.
pub open spec fn text_order() -> spec_fn(Seq<char>, Seq<char>) -> bool {
    lex(char_order())
}

/// The order of text is a strict total order.
pub proof fn lemma_text_order_strict_total()
    ensures
        strict_total(char_order()),
        strict_total(text_order()),
{
    let lt = char_order();
    lemma_lex_strict_total(lt);
}

/// Compares two pieces of text, character by character.
pub fn compare_text(a: &str, b: &str) -> (r: Order)
    ensures
        r == order_by(text_order(), a@, b@),
{
    let mut rest_a = a.chars();
    let mut rest_b = b.chars();
    let ghost lt = char_order();
    let ghost mut i: int = 0;
    loop
        invariant
            0 <= i <= a@.len(),
            i <= b@.len(),
            rest_a.remaining() == a@.skip(i),
            rest_b.remaining() == b@.skip(i),
            a@.take(i) == b@.take(i),
            lex_lt(a@, b@, lt) == lex_lt_from(a@, b@, lt, i),
            lt == char_order(),
        decreases a@.len() - i,
    {
        let next_a = rest_a.next();
        let next_b = rest_b.next();
        match (next_a, next_b) {
            (None, None) => {
                proof {
                    assert(a@ =~= a@.take(i));
                    assert(b@ =~= b@.take(i));
                }
                return Order::Equal;
            },
            (None, Some(_)) => {
                return Order::Less;
            },
            (Some(_), None) => {
                return Order::Greater;
            },
            (Some(x), Some(y)) => {
                if x < y {
                    return Order::Less;
                } else if y < x {
                    return Order::Greater;
                }
                proof {
                    i = i + 1;
                }
            },
        }
    }
}

/// Whether two pieces of text are the same.
pub fn same_text(a: &str, b: &str) -> (r: bool)
    ensures
        r == (a@ == b@),
{
    match compare_text(a, b) {
        Order::Equal => true,
        _ => false,
    }
}

} // verus!
