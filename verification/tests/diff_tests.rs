use public_api::diff::{next_step, ChangedPublicItem, PublicItemsDiff, Step};
use public_api::order::Order;
use public_api::public_item::PublicItem;
use public_api::sort::{merge, reversed, sort};
use public_api::tokens::Token;

fn item_with_path(path: &str) -> PublicItem {
    PublicItem {
        path: path.split("::").map(std::string::ToString::to_string).collect(),
        tokens: vec![Token::identifier(path)],
    }
}

/// An item whose signature is one identifier that differs from its path.
fn item(path: &str, signature: &str) -> PublicItem {
    PublicItem {
        path: path.split("::").map(std::string::ToString::to_string).collect(),
        tokens: vec![Token::identifier(signature)],
    }
}

fn enum_variant(path: &str, payload: Option<&str>) -> PublicItem {
    let segments: Vec<String> = path.split("::").map(std::string::ToString::to_string).collect();
    let mut tokens = vec![
        Token::qualifier("pub"),
        Token::Whitespace,
        Token::kind("enum"),
        Token::Whitespace,
        Token::kind("variant"),
        Token::Whitespace,
    ];
    for (index, segment) in segments.iter().enumerate() {
        if index > 0 {
            tokens.push(Token::symbol("::"));
        }
        tokens.push(Token::identifier(segment));
    }
    if let Some(payload) = payload {
        tokens.push(Token::symbol("("));
        tokens.push(Token::type_(payload));
        tokens.push(Token::symbol(")"));
    }
    PublicItem { path: segments, tokens }
}

fn strings(items: &[PublicItem]) -> Vec<String> {
    items.iter().map(PublicItem::to_string).collect()
}

fn is_ascending(items: &[PublicItem]) -> bool {
    items.windows(2).all(|pair| !matches!(pair[1].compare(&pair[0]), Order::Less))
}

#[test]
fn single_and_only_item_removed() {
    let old = vec![item_with_path("foo")];
    let new = vec![];

    let actual = PublicItemsDiff::between(old, new);
    let expected = PublicItemsDiff {
        removed: vec![item_with_path("foo")],
        changed: vec![],
        added: vec![],
    };
    assert_eq!(actual, expected);
}

#[test]
fn single_and_only_item_added() {
    let old = vec![];
    let new = vec![item_with_path("foo")];

    let actual = PublicItemsDiff::between(old, new);
    let expected = PublicItemsDiff {
        removed: vec![],
        changed: vec![],
        added: vec![item_with_path("foo")],
    };
    assert_eq!(actual, expected);
}

#[test]
fn middle_item_added() {
    let old = vec![item_with_path("1"), item_with_path("3")];
    let new = vec![item_with_path("1"), item_with_path("2"), item_with_path("3")];

    let actual = PublicItemsDiff::between(old, new);
    let expected = PublicItemsDiff {
        removed: vec![],
        changed: vec![],
        added: vec![item_with_path("2")],
    };
    assert_eq!(actual, expected);
}

#[test]
fn middle_item_removed() {
    let old = vec![item_with_path("1"), item_with_path("2"), item_with_path("3")];
    let new = vec![item_with_path("1"), item_with_path("3")];

    let actual = PublicItemsDiff::between(old, new);
    let expected = PublicItemsDiff {
        removed: vec![item_with_path("2")],
        changed: vec![],
        added: vec![],
    };
    assert_eq!(actual, expected);
}

/// Items are added in the middle of a long run of items that stay: none of
/// the items that stay may be reported, and none of the new ones missed.
#[test]
fn no_off_by_one_diff_skewing() {
    let old = vec![
        enum_variant("bat::error::Error::GlobParsingError", Some("::globset::Error")),
        enum_variant("bat::error::Error::InvalidPagerValueBat", None),
        enum_variant("bat::error::Error::Io", Some("::std::io::Error")),
        enum_variant("bat::error::Error::Msg", Some("String")),
        enum_variant("bat::error::Error::ParseIntError", Some("::std::num::ParseIntError")),
        enum_variant("bat::error::Error::SerdeYamlError", Some("::serde_yaml::Error")),
        enum_variant("bat::error::Error::SyntectError", Some("::syntect::LoadingError")),
        enum_variant("bat::error::Error::UndetectedSyntax", Some("String")),
        enum_variant("bat::error::Error::UnknownStyle", Some("String")),
        enum_variant("bat::error::Error::UnknownSyntax", Some("String")),
        enum_variant("bat::style::StyleComponent::Auto", None),
        enum_variant("bat::style::StyleComponent::Changes", None),
        enum_variant("bat::style::StyleComponent::Full", None),
        enum_variant("bat::style::StyleComponent::Grid", None),
    ];
    let new = vec![
        enum_variant("bat::error::Error::GlobParsingError", Some("::globset::Error")),
        enum_variant("bat::error::Error::InvalidPagerValueBat", None),
        enum_variant("bat::error::Error::Io", Some("::std::io::Error")),
        enum_variant("bat::error::Error::Msg", Some("String")),
        enum_variant("bat::error::Error::ParseIntError", Some("::std::num::ParseIntError")),
        enum_variant("bat::error::Error::SerdeYamlError", Some("::serde_yaml::Error")),
        enum_variant("bat::error::Error::SyntectError", Some("::syntect::Error")),
        enum_variant("bat::error::Error::SyntectLoadingError", Some("::syntect::LoadingError")),
        enum_variant("bat::error::Error::UndetectedSyntax", Some("String")),
        enum_variant("bat::error::Error::UnknownStyle", Some("String")),
        enum_variant("bat::error::Error::UnknownSyntax", Some("String")),
        enum_variant("bat::style::StyleComponent::Auto", None),
        enum_variant("bat::style::StyleComponent::Changes", None),
        enum_variant("bat::style::StyleComponent::Default", None),
        enum_variant("bat::style::StyleComponent::Full", None),
        enum_variant("bat::style::StyleComponent::Grid", None),
    ];

    let actual = PublicItemsDiff::between(old, new);
    let expected = PublicItemsDiff {
        removed: vec![],
        changed: vec![ChangedPublicItem {
            old: enum_variant("bat::error::Error::SyntectError", Some("::syntect::LoadingError")),
            new: enum_variant("bat::error::Error::SyntectError", Some("::syntect::Error")),
        }],
        added: vec![
            enum_variant("bat::error::Error::SyntectLoadingError", Some("::syntect::LoadingError")),
            enum_variant("bat::style::StyleComponent::Default", None),
        ],
    };
    assert_eq!(actual, expected);
}

#[test]
fn adjacent_middle_insertion_by_path_only() {
    let old = vec![item_with_path("A::1"), item_with_path("A::3")];
    let new = vec![item_with_path("A::1"), item_with_path("A::2"), item_with_path("A::3")];
    let actual = PublicItemsDiff::between(old, new);
    assert_eq!(actual.added, vec![item_with_path("A::2")]);
    assert_eq!(actual.removed, vec![]);
    assert_eq!(actual.changed, vec![]);
}

#[test]
fn changed_function_and_added_struct() {
    let old = vec![item("crate::function", "pub fn crate::function(v1_param: Struct)")];
    let new = vec![
        item("crate::function", "pub fn crate::function(v1_param: Struct, v2_param: usize)"),
        item("crate::StructV2", "pub struct crate::StructV2"),
    ];
    let diff = PublicItemsDiff::between(old, new);
    assert_eq!(diff.removed, vec![]);
    assert_eq!(diff.changed.len(), 1);
    assert_eq!(diff.changed[0].old.to_string(), "pub fn crate::function(v1_param: Struct)");
    assert_eq!(
        diff.changed[0].new.to_string(),
        "pub fn crate::function(v1_param: Struct, v2_param: usize)"
    );
    assert_eq!(strings(&diff.added), vec!["pub struct crate::StructV2".to_string()]);
}

#[test]
fn both_empty() {
    let diff = PublicItemsDiff::between(vec![], vec![]);
    assert_eq!(diff, PublicItemsDiff { removed: vec![], changed: vec![], added: vec![] });
}

#[test]
fn diff_of_a_listing_with_itself_is_empty() {
    let listing = vec![
        item_with_path("b::c"),
        item_with_path("a"),
        item("a", "other"),
        item_with_path("b"),
        item_with_path("a"),
    ];
    let diff = PublicItemsDiff::between(listing.clone(), listing);
    assert_eq!(diff, PublicItemsDiff { removed: vec![], changed: vec![], added: vec![] });
}

#[test]
fn input_order_makes_no_difference() {
    let old = vec![item_with_path("a"), item("b", "b1"), item_with_path("c"), item_with_path("e")];
    let new = vec![item_with_path("a"), item("b", "b2"), item_with_path("d"), item_with_path("e")];
    let expected = PublicItemsDiff::between(old.clone(), new.clone());
    assert_eq!(
        expected,
        PublicItemsDiff {
            removed: vec![item_with_path("c")],
            changed: vec![ChangedPublicItem { old: item("b", "b1"), new: item("b", "b2") }],
            added: vec![item_with_path("d")],
        }
    );
    let old_shuffled = vec![old[2].clone(), old[0].clone(), old[3].clone(), old[1].clone()];
    let new_shuffled = vec![new[3].clone(), new[2].clone(), new[1].clone(), new[0].clone()];
    assert_eq!(PublicItemsDiff::between(old_shuffled.clone(), new.clone()), expected);
    assert_eq!(PublicItemsDiff::between(old.clone(), new_shuffled.clone()), expected);
    assert_eq!(PublicItemsDiff::between(old_shuffled, new_shuffled), expected);
}

#[test]
fn output_is_in_ascending_order() {
    let old = vec![
        item_with_path("z"),
        item_with_path("m::n"),
        item("k", "k1"),
        item_with_path("c"),
        item("d", "d1"),
        item_with_path("a"),
    ];
    let new = vec![
        item_with_path("y"),
        item("k", "k2"),
        item_with_path("b"),
        item("d", "d2"),
        item_with_path("x::y"),
        item_with_path("m"),
    ];
    let diff = PublicItemsDiff::between(old, new);
    assert_eq!(
        diff.removed,
        vec![
            item_with_path("a"),
            item_with_path("c"),
            item_with_path("m::n"),
            item_with_path("z")
        ]
    );
    assert_eq!(
        diff.added,
        vec![item_with_path("b"), item_with_path("m"), item_with_path("x::y"), item_with_path("y")]
    );
    assert_eq!(
        diff.changed,
        vec![
            ChangedPublicItem { old: item("d", "d1"), new: item("d", "d2") },
            ChangedPublicItem { old: item("k", "k1"), new: item("k", "k2") },
        ]
    );
    assert!(is_ascending(&diff.removed));
    assert!(is_ascending(&diff.added));
}

#[test]
fn nothing_is_lost_and_nothing_invented() {
    let old = vec![
        item_with_path("a"),
        item_with_path("a"),
        item("b", "b1"),
        item_with_path("c"),
        item_with_path("d"),
    ];
    let new = vec![
        item_with_path("a"),
        item("b", "b2"),
        item_with_path("d"),
        item_with_path("d"),
        item_with_path("e"),
    ];
    let diff = PublicItemsDiff::between(old.clone(), new.clone());
    // `a` and `d` stay once each.
    let unchanged = vec![item_with_path("a"), item_with_path("d")];

    let mut from_old = diff.removed.clone();
    from_old.extend(diff.changed.iter().map(|c| c.old.clone()));
    from_old.extend(unchanged.clone());
    from_old.sort();
    let mut old_sorted = old;
    old_sorted.sort();
    assert_eq!(from_old, old_sorted);

    let mut from_new = diff.added.clone();
    from_new.extend(diff.changed.iter().map(|c| c.new.clone()));
    from_new.extend(unchanged);
    from_new.sort();
    let mut new_sorted = new;
    new_sorted.sort();
    assert_eq!(from_new, new_sorted);

    assert_eq!(diff.removed, vec![item_with_path("a"), item_with_path("c")]);
    assert_eq!(diff.added, vec![item_with_path("d"), item_with_path("e")]);
}

#[test]
fn items_that_render_alike_are_all_kept() {
    let old = vec![item_with_path("a"), item_with_path("a"), item_with_path("a")];
    let new = vec![item_with_path("a")];
    let diff = PublicItemsDiff::between(old, new);
    assert_eq!(diff.removed, vec![item_with_path("a"), item_with_path("a")]);
    assert_eq!(diff.changed, vec![]);
    assert_eq!(diff.added, vec![]);
}

#[test]
fn same_path_pairs_are_matched_from_the_end() {
    // The largest old signature meets the largest new one.
    let old = vec![item("p", "s1"), item("p", "s3")];
    let new = vec![item("p", "s2")];
    let diff = PublicItemsDiff::between(old, new);
    assert_eq!(diff.removed, vec![item("p", "s1")]);
    assert_eq!(
        diff.changed,
        vec![ChangedPublicItem { old: item("p", "s3"), new: item("p", "s2") }]
    );
    assert_eq!(diff.added, vec![]);
}

#[test]
fn changed_items_keep_their_path() {
    let old = vec![item("a", "1"), item("b", "1"), item("c", "1")];
    let new = vec![item("a", "2"), item("b", "1"), item("c", "3")];
    let diff = PublicItemsDiff::between(old, new);
    assert_eq!(diff.changed.len(), 2);
    for changed in &diff.changed {
        assert_eq!(changed.old.path, changed.new.path);
        assert_ne!(changed.old.tokens, changed.new.tokens);
    }
}

#[test]
fn sort_puts_items_in_ascending_order() {
    let items = vec![
        item_with_path("b::a"),
        item_with_path("b"),
        item("a", "z"),
        item_with_path("c"),
        item("a", "y"),
        item_with_path("a::b::c"),
    ];
    let mut expected = items.clone();
    expected.sort();
    let sorted = sort(items);
    assert_eq!(sorted, expected);
    assert_eq!(
        sorted,
        vec![
            item("a", "y"),
            item("a", "z"),
            item_with_path("a::b::c"),
            item_with_path("b"),
            item_with_path("b::a"),
            item_with_path("c"),
        ]
    );
}

#[test]
fn sort_of_nothing_and_of_one() {
    assert_eq!(sort(vec![]), vec![]);
    assert_eq!(sort(vec![item_with_path("a")]), vec![item_with_path("a")]);
}

#[test]
fn merge_interleaves() {
    let left = vec![item_with_path("a"), item_with_path("c"), item_with_path("e")];
    let right = vec![item_with_path("b"), item_with_path("c"), item_with_path("d")];
    assert_eq!(
        merge(left, right),
        vec![
            item_with_path("a"),
            item_with_path("b"),
            item_with_path("c"),
            item_with_path("c"),
            item_with_path("d"),
            item_with_path("e"),
        ]
    );
}

#[test]
fn reversed_turns_round() {
    assert_eq!(reversed(vec![1, 2, 3]), vec![3, 2, 1]);
    assert_eq!(reversed(Vec::<u8>::new()), Vec::<u8>::new());
}

#[test]
fn steps_are_decided_by_the_last_items() {
    assert_eq!(next_step(&vec![], &vec![]), Step::Done);
    assert_eq!(next_step(&vec![item_with_path("a")], &vec![]), Step::Removed);
    assert_eq!(next_step(&vec![], &vec![item_with_path("a")]), Step::Added);
    assert_eq!(
        next_step(&vec![item_with_path("z"), item_with_path("a")], &vec![item_with_path("a")]),
        Step::Unchanged
    );
    assert_eq!(next_step(&vec![item("a", "1")], &vec![item("a", "2")]), Step::Changed);
    assert_eq!(next_step(&vec![item("a", "2")], &vec![item("a", "1")]), Step::Changed);
    assert_eq!(next_step(&vec![item_with_path("a")], &vec![item_with_path("b")]), Step::Added);
    assert_eq!(next_step(&vec![item_with_path("b")], &vec![item_with_path("a")]), Step::Removed);
    assert_eq!(next_step(&vec![item_with_path("a::b")], &vec![item_with_path("a")]), Step::Removed);
}
