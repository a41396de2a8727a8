//! The smallest unit of a rendered signature: a piece of text with a tag.

use crate::order::{
    compare_text, lemma_strict_total_asymmetric, lemma_text_order_strict_total, Order, order_by,
    strict_total, text_order,
};
use vstd::prelude::*;

verus! {

/// What a piece of text in a signature stands for.
///
/// The kinds are listed in the order in which tokens of different kinds
/// are ranked.
#[derive(Clone, Copy, Debug, PartialEq, Eq, Structural)]
pub enum TokenKind {
    /// `pub`, `unsafe`, `const`, `async`, or the name of an ABI.
    Qualifier,
    /// The kind of an item, like `struct` or `fn`.
    Kind,
    /// A name that is none of the more specific kinds.
    Identifier,
    /// The name of a type.
    Type,
    /// The name of a function.
    Function,
    /// The name of a generic parameter.
    Generic,
    /// A lifetime, apostrophe included.
    Lifetime,
    /// A primitive type or a literal.
    Primitive,
    /// `as`, `for`, `where`, `mut` and the like.
    Keyword,
    /// Punctuation.
    Symbol,
    /// `self`.
    Self_,
    /// A single space.
    Whitespace,
}

impl TokenKind {
    /// The position of this kind in the ranking of kinds.
    pub open spec fn rank(self) -> nat {
        match self {
            TokenKind::Qualifier => 0,
            TokenKind::Kind => 1,
            TokenKind::Identifier => 2,
            TokenKind::Type => 3,
            TokenKind::Function => 4,
            TokenKind::Generic => 5,
            TokenKind::Lifetime => 6,
            TokenKind::Primitive => 7,
            TokenKind::Keyword => 8,
            TokenKind::Symbol => 9,
            TokenKind::Self_ => 10,
            TokenKind::Whitespace => 11,
        }
    }

    /// The position of this kind in the ranking of kinds.
    pub fn position(self) -> (r: u8)
        ensures
            r == self.rank(),
    {
        match self {
            TokenKind::Qualifier => 0,
            TokenKind::Kind => 1,
            TokenKind::Identifier => 2,
            TokenKind::Type => 3,
            TokenKind::Function => 4,
            TokenKind::Generic => 5,
            TokenKind::Lifetime => 6,
            TokenKind::Primitive => 7,
            TokenKind::Keyword => 8,
            TokenKind::Symbol => 9,
            TokenKind::Self_ => 10,
            TokenKind::Whitespace => 11,
        }
    }
}

/// A token as a mathematical value: its kind and its text.
pub struct TokenView {
    pub kind: TokenKind,
    pub text: Seq<char>,
}

/// A piece of a rendered signature.
///
/// Two tokens are equal when kind and text agree. Tokens are ordered by
/// the rank of their kind, and by their text where the kinds agree.
#[derive(Debug, PartialEq, Eq, PartialOrd, Ord)]
pub enum Token {
    /// `pub`, `unsafe`, `const`, `async`, or the name of an ABI.
    Qualifier(String),
    /// The kind of an item, like `struct` or `fn`.
    Kind(String),
    /// A name that is none of the more specific kinds.
    Identifier(String),
    /// The name of a type, like `Iterator`.
    Type(String),
    /// The name of a function.
    Function(String),
    /// The name of a generic parameter, like `T`.
    Generic(String),
    /// A lifetime, apostrophe included, like `'a`.
    Lifetime(String),
    /// A primitive type or a literal, like `usize` or `20`.
    Primitive(String),
    /// `as`, `for`, `where`, `mut` and the like.
    Keyword(String),
    /// Punctuation, like `::` or `->`.
    Symbol(String),
    /// `self`.
    Self_(String),
    /// A single space.
    Whitespace,
}

impl View for Token {
    type V = TokenView;

    open spec fn view(&self) -> TokenView {
        match self {
            Token::Qualifier(s) => TokenView { kind: TokenKind::Qualifier, text: s@ },
            Token::Kind(s) => TokenView { kind: TokenKind::Kind, text: s@ },
            Token::Identifier(s) => TokenView { kind: TokenKind::Identifier, text: s@ },
            Token::Type(s) => TokenView { kind: TokenKind::Type, text: s@ },
            Token::Function(s) => TokenView { kind: TokenKind::Function, text: s@ },
            Token::Generic(s) => TokenView { kind: TokenKind::Generic, text: s@ },
            Token::Lifetime(s) => TokenView { kind: TokenKind::Lifetime, text: s@ },
            Token::Primitive(s) => TokenView { kind: TokenKind::Primitive, text: s@ },
            Token::Keyword(s) => TokenView { kind: TokenKind::Keyword, text: s@ },
            Token::Symbol(s) => TokenView { kind: TokenKind::Symbol, text: s@ },
            Token::Self_(s) => TokenView { kind: TokenKind::Self_, text: s@ },
            Token::Whitespace => TokenView { kind: TokenKind::Whitespace, text: " "@ },
        }
    }
}

impl Clone for Token {
    fn clone(&self) -> (r: Self)
        ensures
            r@ == self@,
    {
        match self {
            Token::Qualifier(s) => Token::Qualifier(s.clone()),
            Token::Kind(s) => Token::Kind(s.clone()),
            Token::Identifier(s) => Token::Identifier(s.clone()),
            Token::Type(s) => Token::Type(s.clone()),
            Token::Function(s) => Token::Function(s.clone()),
            Token::Generic(s) => Token::Generic(s.clone()),
            Token::Lifetime(s) => Token::Lifetime(s.clone()),
            Token::Primitive(s) => Token::Primitive(s.clone()),
            Token::Keyword(s) => Token::Keyword(s.clone()),
            Token::Symbol(s) => Token::Symbol(s.clone()),
            Token::Self_(s) => Token::Self_(s.clone()),
            Token::Whitespace => Token::Whitespace,
        }
    }
}

impl TokenView {
    /// A qualifier with the given text.
    pub open spec fn qualifier(text: Seq<char>) -> TokenView {
        TokenView { kind: TokenKind::Qualifier, text }
    }

    /// An item kind with the given text.
    pub open spec fn kind(text: Seq<char>) -> TokenView {
        TokenView { kind: TokenKind::Kind, text }
    }

    /// An identifier with the given text.
    pub open spec fn identifier(text: Seq<char>) -> TokenView {
        TokenView { kind: TokenKind::Identifier, text }
    }

    /// A type name with the given text.
    pub open spec fn type_(text: Seq<char>) -> TokenView {
        TokenView { kind: TokenKind::Type, text }
    }

    /// A function name with the given text.
    pub open spec fn function(text: Seq<char>) -> TokenView {
        TokenView { kind: TokenKind::Function, text }
    }

    /// A generic parameter name with the given text.
    pub open spec fn generic(text: Seq<char>) -> TokenView {
        TokenView { kind: TokenKind::Generic, text }
    }

    /// A lifetime with the given text.
    pub open spec fn lifetime(text: Seq<char>) -> TokenView {
        TokenView { kind: TokenKind::Lifetime, text }
    }

    /// A primitive with the given text.
    pub open spec fn primitive(text: Seq<char>) -> TokenView {
        TokenView { kind: TokenKind::Primitive, text }
    }

    /// A keyword with the given text.
    pub open spec fn keyword(text: Seq<char>) -> TokenView {
        TokenView { kind: TokenKind::Keyword, text }
    }

    /// A symbol with the given text.
    pub open spec fn symbol(text: Seq<char>) -> TokenView {
        TokenView { kind: TokenKind::Symbol, text }
    }

    /// A self reference with the given text.
    pub open spec fn self_(text: Seq<char>) -> TokenView {
        TokenView { kind: TokenKind::Self_, text }
    }

    /// The whitespace token: a single space.
    pub open spec fn whitespace() -> TokenView {
        TokenView { kind: TokenKind::Whitespace, text: " "@ }
    }
}

impl Token {
    /// A qualifier with the given text.
    pub fn qualifier(text: &str) -> (t: Self)
        ensures
            t@ == TokenView::qualifier(text@),
    {
        Token::Qualifier(text.to_owned())
    }

    /// An item kind with the given text.
    pub fn kind(text: &str) -> (t: Self)
        ensures
            t@ == TokenView::kind(text@),
    {
        Token::Kind(text.to_owned())
    }

    /// An identifier with the given text.
    pub fn identifier(text: &str) -> (t: Self)
        ensures
            t@ == TokenView::identifier(text@),
    {
        Token::Identifier(text.to_owned())
    }

    /// A type name with the given text.
    pub fn type_(text: &str) -> (t: Self)
        ensures
            t@ == TokenView::type_(text@),
    {
        Token::Type(text.to_owned())
    }

    /// A function name with the given text.
    pub fn function(text: &str) -> (t: Self)
        ensures
            t@ == TokenView::function(text@),
    {
        Token::Function(text.to_owned())
    }

    /// A generic parameter name with the given text.
    pub fn generic(text: &str) -> (t: Self)
        ensures
            t@ == TokenView::generic(text@),
    {
        Token::Generic(text.to_owned())
    }

    /// A lifetime with the given text.
    pub fn lifetime(text: &str) -> (t: Self)
        ensures
            t@ == TokenView::lifetime(text@),
    {
        Token::Lifetime(text.to_owned())
    }

    /// A primitive with the given text.
    pub fn primitive(text: &str) -> (t: Self)
        ensures
            t@ == TokenView::primitive(text@),
    {
        Token::Primitive(text.to_owned())
    }

    /// A keyword with the given text.
    pub fn keyword(text: &str) -> (t: Self)
        ensures
            t@ == TokenView::keyword(text@),
    {
        Token::Keyword(text.to_owned())
    }

    /// A symbol with the given text.
    pub fn symbol(text: &str) -> (t: Self)
        ensures
            t@ == TokenView::symbol(text@),
    {
        Token::Symbol(text.to_owned())
    }

    /// A self reference with the given text.
    pub fn self_(text: &str) -> (t: Self)
        ensures
            t@ == TokenView::self_(text@),
    {
        Token::Self_(text.to_owned())
    }

    /// The kind of this token.
    pub fn tag(&self) -> (k: TokenKind)
        ensures
            k == self@.kind,
    {
        match self {
            Token::Qualifier(_) => TokenKind::Qualifier,
            Token::Kind(_) => TokenKind::Kind,
            Token::Identifier(_) => TokenKind::Identifier,
            Token::Type(_) => TokenKind::Type,
            Token::Function(_) => TokenKind::Function,
            Token::Generic(_) => TokenKind::Generic,
            Token::Lifetime(_) => TokenKind::Lifetime,
            Token::Primitive(_) => TokenKind::Primitive,
            Token::Keyword(_) => TokenKind::Keyword,
            Token::Symbol(_) => TokenKind::Symbol,
            Token::Self_(_) => TokenKind::Self_,
            Token::Whitespace => TokenKind::Whitespace,
        }
    }

    /// The text of this token, verbatim.
    pub fn text(&self) -> (s: &str)
        ensures
            s@ == self@.text,
    {
        match self {
            Token::Qualifier(s)
            | Token::Kind(s)
            | Token::Identifier(s)
            | Token::Type(s)
            | Token::Function(s)
            | Token::Generic(s)
            | Token::Lifetime(s)
            | Token::Primitive(s)
            | Token::Keyword(s)
            | Token::Symbol(s)
            | Token::Self_(s) => s.as_str(),
            Token::Whitespace => " ",
        }
    }

    /// Compares two tokens: by the rank of the kind, then by the text.
    pub fn compare(&self, other: &Token) -> (r: Order)
        ensures
            r == order_by(token_order(), self@, other@),
    {
        let a = self.tag().position();
        let b = other.tag().position();
        if a < b {
            Order::Less
        } else if b < a {
            Order::Greater
        } else {
            let r = compare_text(self.text(), other.text());
            proof {
                lemma_text_order_strict_total();
                if self@.text != other@.text && text_order()(self@.text, other@.text) {
                    lemma_strict_total_asymmetric(text_order(), self@.text, other@.text);
                }
            }
            r
        }
    }
}

/// The order of tokens: by the rank of the kind, then by the text.
pub open spec fn token_order() -> spec_fn(TokenView, TokenView) -> bool {
    |a: TokenView, b: TokenView|
        a.kind.rank() < b.kind.rank() || (a.kind == b.kind && text_order()(a.text, b.text))
}

/// The order of tokens is a strict total order.
pub proof fn lemma_token_order_strict_total()
    ensures
        strict_total(token_order()),
{
    lemma_text_order_strict_total();
}

/// The tokens of a sequence as mathematical values.
pub open spec fn views(tokens: Seq<Token>) -> Seq<TokenView> {
    tokens.map_values(|t: Token| t@)
}

/// The texts of the tokens, one after the other, with nothing between.
pub open spec fn concat_text(tokens: Seq<TokenView>) -> Seq<char>
    decreases tokens.len(),
{
    if tokens.len() == 0 {
        Seq::empty()
    } else {
        concat_text(tokens.drop_last()) + tokens.last().text
    }
}

/// Taking views distributes over concatenation.
pub broadcast proof fn lemma_views_add(a: Seq<Token>, b: Seq<Token>)
    ensures
        #[trigger] views(a + b) == views(a) + views(b),
{
}

/// Taking views distributes over `push`.
pub broadcast proof fn lemma_views_push(a: Seq<Token>, t: Token)
    ensures
        #[trigger] views(a.push(t)) == views(a).push(t@),
{
}

/// The empty sequence has no views.
pub broadcast proof fn lemma_views_empty(a: Seq<Token>)
    requires
        a.len() == 0,
    ensures
        #[trigger] views(a) == Seq::<TokenView>::empty(),
{
}

pub broadcast group group_views {
    lemma_views_add,
    lemma_views_push,
    lemma_views_empty,
}

/// The text that a sequence of tokens stands for: the texts of the tokens
/// in order, with no separator added.
pub fn tokens_to_string(tokens: &Vec<Token>) -> (s: String)
    ensures
        s@ == concat_text(views(tokens@)),
{
    let mut s = String::new();
    let mut i: usize = 0;
    while i < tokens.len()
        invariant
            i <= tokens.len(),
            s@ == concat_text(views(tokens@.take(i as int))),
        decreases tokens.len() - i,
    {
        proof {
            let next = views(tokens@.take(i + 1));
            assert(next.drop_last() =~= views(tokens@.take(i as int)));
        }
        s.append(tokens[i].text());
        i += 1;
    }
    proof {
        assert(tokens@.take(i as int) =~= tokens@);
    }
    s
}

} // verus!
