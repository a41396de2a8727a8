use public_api::order::{compare_text, same_text, Order};
use public_api::public_item::{compare_paths, compare_tokens, PublicItem};
use public_api::tokens::{tokens_to_string, Token, TokenKind};

fn number(order: std::cmp::Ordering) -> i8 {
    match order {
        std::cmp::Ordering::Less => -1,
        std::cmp::Ordering::Equal => 0,
        std::cmp::Ordering::Greater => 1,
    }
}

fn outcome(order: Order) -> i8 {
    match order {
        Order::Less => -1,
        Order::Equal => 0,
        Order::Greater => 1,
    }
}

fn sample_tokens() -> Vec<Token> {
    vec![
        Token::qualifier("pub"),
        Token::qualifier("unsafe"),
        Token::kind("fn"),
        Token::kind("struct"),
        Token::identifier("a"),
        Token::identifier("b"),
        Token::type_("A"),
        Token::type_("a"),
        Token::function("f"),
        Token::generic("T"),
        Token::lifetime("'a"),
        Token::primitive("u8"),
        Token::keyword("mut"),
        Token::symbol("::"),
        Token::symbol(""),
        Token::self_("self"),
        Token::Whitespace,
    ]
}

#[test]
fn text_is_ordered_by_code_point() {
    assert_eq!(outcome(compare_text("", "")), 0);
    assert_eq!(outcome(compare_text("", "a")), -1);
    assert_eq!(outcome(compare_text("a", "")), 1);
    assert_eq!(outcome(compare_text("abc", "abd")), -1);
    assert_eq!(outcome(compare_text("abd", "abc")), 1);
    assert_eq!(outcome(compare_text("ab", "abc")), -1);
    assert_eq!(outcome(compare_text("abc", "abc")), 0);
    assert_eq!(outcome(compare_text("Z", "a")), -1);
    assert_eq!(outcome(compare_text("é", "z")), 1);
    assert_eq!(outcome(compare_text("\u{ff5e}", "\u{10000}")), -1);
}

#[test]
fn text_order_agrees_with_the_order_of_strings() {
    let texts = ["", "a", "ab", "b", "B", "é", "\u{ff5e}", "\u{10000}", "a::b", "a:b", " "];
    for a in texts {
        for b in texts {
            assert_eq!(outcome(compare_text(a, b)), number(a.cmp(b)), "{a:?} and {b:?}");
            assert_eq!(same_text(a, b), a == b);
        }
    }
}

#[test]
fn kinds_are_ranked_in_the_order_listed() {
    let kinds = [
        TokenKind::Qualifier,
        TokenKind::Kind,
        TokenKind::Identifier,
        TokenKind::Type,
        TokenKind::Function,
        TokenKind::Generic,
        TokenKind::Lifetime,
        TokenKind::Primitive,
        TokenKind::Keyword,
        TokenKind::Symbol,
        TokenKind::Self_,
        TokenKind::Whitespace,
    ];
    for (index, kind) in kinds.iter().enumerate() {
        assert_eq!(usize::from(kind.position()), index);
    }
}

#[test]
fn tokens_are_ordered_by_kind_then_text() {
    assert_eq!(outcome(Token::qualifier("z").compare(&Token::kind("a"))), -1);
    assert_eq!(outcome(Token::symbol("a").compare(&Token::identifier("z"))), 1);
    assert_eq!(outcome(Token::identifier("a").compare(&Token::identifier("b"))), -1);
    assert_eq!(outcome(Token::identifier("a").compare(&Token::identifier("a"))), 0);
    assert_eq!(outcome(Token::Whitespace.compare(&Token::Whitespace)), 0);
    assert_eq!(outcome(Token::self_("self").compare(&Token::Whitespace)), -1);
}

#[test]
fn token_order_agrees_with_the_order_of_the_type() {
    let tokens = sample_tokens();
    for a in &tokens {
        for b in &tokens {
            assert_eq!(outcome(a.compare(b)), number(a.cmp(b)), "{a:?} and {b:?}");
            assert_eq!(matches!(a.compare(b), Order::Equal), a == b);
        }
    }
}

#[test]
fn token_text_and_tag() {
    assert_eq!(Token::symbol("->").text(), "->");
    assert_eq!(Token::Whitespace.text(), " ");
    assert_eq!(Token::self_("self").text(), "self");
    assert_eq!(Token::keyword("mut").tag(), TokenKind::Keyword);
    assert_eq!(Token::Whitespace.tag(), TokenKind::Whitespace);
    assert_eq!(Token::type_("T").clone(), Token::Type("T".to_string()));
    assert_ne!(Token::type_("T"), Token::generic("T"));
}

#[test]
fn tokens_to_string_adds_no_separator() {
    assert_eq!(tokens_to_string(&vec![]), "");
    assert_eq!(
        tokens_to_string(&vec![
            Token::qualifier("pub"),
            Token::Whitespace,
            Token::kind("fn"),
            Token::Whitespace,
            Token::function("f"),
            Token::symbol("("),
            Token::symbol(")"),
        ]),
        "pub fn f()"
    );
}

#[test]
fn paths_are_ordered_segment_by_segment() {
    let path = |text: &str| -> Vec<String> { text.split("::").map(String::from).collect() };
    assert_eq!(outcome(compare_paths(&path("a::b"), &path("a::b"))), 0);
    assert_eq!(outcome(compare_paths(&path("a"), &path("a::b"))), -1);
    assert_eq!(outcome(compare_paths(&path("a::c"), &path("a::b::z"))), 1);
    assert_eq!(outcome(compare_paths(&path("ab"), &path("a::b"))), 1);
    assert_eq!(outcome(compare_paths(&vec![], &path("a"))), -1);
    assert_eq!(outcome(compare_paths(&vec![], &vec![])), 0);
}

#[test]
fn signatures_are_ordered_token_by_token() {
    let a = vec![Token::qualifier("pub"), Token::Whitespace, Token::kind("fn")];
    let b = vec![Token::qualifier("pub"), Token::Whitespace, Token::kind("struct")];
    let c = vec![Token::qualifier("pub"), Token::Whitespace];
    assert_eq!(outcome(compare_tokens(&a, &b)), -1);
    assert_eq!(outcome(compare_tokens(&b, &a)), 1);
    assert_eq!(outcome(compare_tokens(&c, &a)), -1);
    assert_eq!(outcome(compare_tokens(&a, &a)), 0);
}

#[test]
fn item_order_agrees_with_the_order_of_the_type() {
    let make = |path: &str, tokens: Vec<Token>| PublicItem {
        path: path.split("::").map(String::from).collect(),
        tokens,
    };
    let items = vec![
        make("a", vec![Token::identifier("x")]),
        make("a", vec![Token::identifier("y")]),
        make("a", vec![Token::identifier("x"), Token::Whitespace]),
        make("a::b", vec![Token::identifier("a")]),
        make("b", vec![]),
        make("b", vec![Token::type_("x")]),
        make("B", vec![Token::Whitespace]),
    ];
    for a in &items {
        for b in &items {
            assert_eq!(outcome(a.compare(b)), number(a.cmp(b)), "{a:?} and {b:?}");
        }
    }
}

#[test]
fn public_item_to_string() {
    let item = PublicItem {
        path: vec!["a".to_string(), "S".to_string()],
        tokens: vec![
            Token::qualifier("pub"),
            Token::Whitespace,
            Token::kind("struct"),
            Token::Whitespace,
            Token::identifier("a"),
            Token::symbol("::"),
            Token::type_("S"),
        ],
    };
    assert_eq!(item.to_string(), "pub struct a::S");
}
