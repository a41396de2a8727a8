use public_api::ast::{
    Abi, FnDecl, Function, Generics, Header, IntermediatePublicItem, Item, ItemEnum, ItemIndex,
    ItemKind, PathSegment, Type,
};
use public_api::attributes::{doc_hidden, NonExhaustive, C};
use public_api::diff::PublicItemsDiff;
use public_api::public_item::PublicItem;
use public_api::{public_api, public_item, Options};

struct ExpectedDiff<'a> {
    removed: &'a [&'a str],
    changed: &'a [(&'a str, &'a str)],
    added: &'a [&'a str],
}

fn s(value: &str) -> String {
    value.to_string()
}

fn segment(name: &str, kind: ItemKind) -> PathSegment {
    PathSegment { name: s(name), kind }
}

fn no_generics() -> Generics {
    Generics { params: Vec::new(), where_predicates: Vec::new() }
}

fn resolved(name: &str) -> Type {
    Type::ResolvedPath { name: s(name), id: s("0:3"), args: None, param_names: Vec::new() }
}

fn function(inputs: Vec<(String, Type)>, output: Option<Type>) -> ItemEnum {
    ItemEnum::Function(Function {
        decl: FnDecl { inputs, output },
        generics: no_generics(),
        header: Header { const_: false, unsafe_: false, async_: false, abi: Abi::Rust },
    })
}

/// The description of an item: its path below the root, and its kind.
struct Described {
    path: Vec<PathSegment>,
    item: Item,
}

fn described(name: &str, path: &[(&str, ItemKind)], inner: ItemEnum) -> Described {
    let mut segments = vec![segment(name, ItemKind::Module)];
    segments.extend(path.iter().map(|(name, kind)| segment(name, *kind)));
    let item = Item { name: path.last().map(|(name, _)| s(name)), inner };
    Described { path: segments, item }
}

fn list(root: &ItemIndex, items: &[Described], options: Options) -> Vec<PublicItem> {
    let intermediate: Vec<IntermediatePublicItem> = items
        .iter()
        .map(|d| IntermediatePublicItem { root, path: d.path.clone(), item: &d.item })
        .collect();
    public_api(&intermediate, options)
}

/// A small surface: a module, a struct with a field, and a function.
fn example_api_v1() -> Vec<Described> {
    let name = "example_api";
    vec![
        described(name, &[], ItemEnum::Module),
        described(
            name,
            &[("Struct", ItemKind::Struct)],
            ItemEnum::Struct { generics: no_generics() },
        ),
        described(
            name,
            &[("Struct", ItemKind::Struct), ("v1_field", ItemKind::StructField)],
            ItemEnum::StructField(Type::Primitive(s("usize"))),
        ),
        described(
            name,
            &[("function", ItemKind::Function)],
            function(vec![(s("v1_param"), resolved("Struct"))], None),
        ),
    ]
}

/// The same surface later: the function takes one parameter more, the
/// struct has one field more, and there is a second struct.
fn example_api_v2() -> Vec<Described> {
    let name = "example_api";
    vec![
        described(name, &[], ItemEnum::Module),
        described(
            name,
            &[("Struct", ItemKind::Struct)],
            ItemEnum::Struct { generics: no_generics() },
        ),
        described(
            name,
            &[("Struct", ItemKind::Struct), ("v1_field", ItemKind::StructField)],
            ItemEnum::StructField(Type::Primitive(s("usize"))),
        ),
        described(
            name,
            &[("Struct", ItemKind::Struct), ("v2_field", ItemKind::StructField)],
            ItemEnum::StructField(Type::Primitive(s("usize"))),
        ),
        described(
            name,
            &[("StructV2", ItemKind::Struct)],
            ItemEnum::Struct { generics: no_generics() },
        ),
        described(
            name,
            &[("StructV2", ItemKind::Struct), ("field", ItemKind::StructField)],
            ItemEnum::StructField(Type::Primitive(s("usize"))),
        ),
        described(
            name,
            &[("function", ItemKind::Function)],
            function(
                vec![
                    (s("v1_param"), resolved("Struct")),
                    (s("v2_param"), Type::Primitive(s("usize"))),
                ],
                None,
            ),
        ),
    ]
}

fn into_strings(items: Vec<PublicItem>) -> Vec<String> {
    items.into_iter().map(|x| x.to_string()).collect()
}

fn assert_public_api_diff(old: &[Described], new: &[Described], expected: &ExpectedDiff) {
    let root = ItemIndex::new();
    let old = list(&root, old, Options::default());
    let new = list(&root, new, Options::default());

    let diff = PublicItemsDiff::between(old, new);

    assert_eq!(expected.added, into_strings(diff.added));
    assert_eq!(expected.removed, into_strings(diff.removed));

    let expected_changed: Vec<_> =
        expected.changed.iter().map(|x| (x.0.to_owned(), x.1.to_owned())).collect();
    let actual_changed: Vec<_> =
        diff.changed.iter().map(|x| (x.old.to_string(), x.new.to_string())).collect();
    assert_eq!(expected_changed, actual_changed);
}

/// A struct comes right in front of its fields, and `Struct` with its
/// fields in front of `StructV2`: items are ordered by path.
#[test]
fn later_version_adds_items() {
    assert_public_api_diff(
        &example_api_v1(),
        &example_api_v2(),
        &ExpectedDiff {
            removed: &[],
            changed: &[(
                "pub fn example_api::function(v1_param: Struct)",
                "pub fn example_api::function(v1_param: Struct, v2_param: usize)",
            )],
            added: &[
                "pub struct field example_api::Struct::v2_field: usize",
                "pub struct example_api::StructV2",
                "pub struct field example_api::StructV2::field: usize",
            ],
        },
    );
}

#[test]
fn no_diff() {
    // No change to the public API
    assert_public_api_diff(
        &example_api_v2(),
        &example_api_v2(),
        &ExpectedDiff { removed: &[], changed: &[], added: &[] },
    );
}

#[test]
fn earlier_version_lacks_items() {
    assert_public_api_diff(
        &example_api_v2(),
        &example_api_v1(),
        &ExpectedDiff {
            removed: &[
                "pub struct field example_api::Struct::v2_field: usize",
                "pub struct example_api::StructV2",
                "pub struct field example_api::StructV2::field: usize",
            ],
            changed: &[(
                "pub fn example_api::function(v1_param: Struct, v2_param: usize)",
                "pub fn example_api::function(v1_param: Struct)",
            )],
            added: &[],
        },
    );
}

#[test]
fn public_item_ord() {
    let root = ItemIndex::new();
    let items = vec![
        described(
            "comprehensive_api",
            &[("functions", ItemKind::Module), ("generic_bound", ItemKind::Function)],
            function(Vec::new(), None),
        ),
        described(
            "comprehensive_api",
            &[("functions", ItemKind::Module), ("generic_arg", ItemKind::Function)],
            function(Vec::new(), None),
        ),
    ];
    let public_api = list(&root, &items, Options::default());

    let generic_arg =
        public_api.clone().into_iter().find(|x| x.to_string().contains("generic_arg")).unwrap();

    let generic_bound =
        public_api.into_iter().find(|x| x.to_string().contains("generic_bound")).unwrap();

    assert_eq!(generic_arg.max(generic_bound.clone()), generic_bound);
}

#[test]
fn options() {
    let options = Options::default();
    println!("Yes, this can be debugged: {:?}", options);

    #[allow(clippy::clone_on_copy)]
    let _ = options.clone();
}

#[test]
fn default_options() {
    let options = Options::default();
    assert!(options.sorted);
    assert!(!options.with_blanket_implementations);
}

#[test]
fn listing_is_sorted_on_request() {
    let root = ItemIndex::new();
    let mut options = Options::default();
    assert_eq!(
        into_strings(list(&root, &example_api_v1(), options)),
        vec![
            "pub mod example_api",
            "pub struct example_api::Struct",
            "pub struct field example_api::Struct::v1_field: usize",
            "pub fn example_api::function(v1_param: Struct)",
        ]
    );
    options.sorted = false;
    let reordered = {
        let mut items = example_api_v1();
        items.reverse();
        items
    };
    assert_eq!(
        into_strings(list(&root, &reordered, options)),
        vec![
            "pub fn example_api::function(v1_param: Struct)",
            "pub struct field example_api::Struct::v1_field: usize",
            "pub struct example_api::Struct",
            "pub mod example_api",
        ]
    );
    options.sorted = true;
    assert_eq!(
        into_strings(list(&root, &reordered, options)),
        into_strings(list(&root, &example_api_v1(), options))
    );
}

#[test]
fn public_item_holds_path_and_signature() {
    let root = ItemIndex::new();
    let items = example_api_v1();
    let field = &items[2];
    let listed = public_item(&IntermediatePublicItem {
        root: &root,
        path: field.path.clone(),
        item: &field.item,
    });
    assert_eq!(listed.path, vec![s("example_api"), s("Struct"), s("v1_field")]);
    assert_eq!(listed.to_string(), "pub struct field example_api::Struct::v1_field: usize");
}

#[test]
fn items_with_attributes() {
    doc_hidden();
    assert_eq!(public_api::attributes::must_use(), 0);
    let c = C { b: true };
    assert!(c.b);
    assert!(matches!(NonExhaustive::MoreToCome, NonExhaustive::MoreToCome));

    let root = ItemIndex::new();
    let module = ("attributes", ItemKind::Module);
    let items = vec![
        described("public_api", &[module, ("doc_hidden", ItemKind::Function)], function(Vec::new(), None)),
        described(
            "public_api",
            &[module, ("must_use", ItemKind::Function)],
            function(Vec::new(), Some(Type::Primitive(s("usize")))),
        ),
        described(
            "public_api",
            &[module, ("NonExhaustive", ItemKind::Enum)],
            ItemEnum::Enum { generics: no_generics() },
        ),
        described(
            "public_api",
            &[module, ("C", ItemKind::Struct), ("b", ItemKind::StructField)],
            ItemEnum::StructField(Type::Primitive(s("bool"))),
        ),
    ];
    assert_eq!(
        into_strings(list(&root, &items, Options::default())),
        vec![
            "pub struct field public_api::attributes::C::b: bool",
            "pub enum public_api::attributes::NonExhaustive",
            "pub fn public_api::attributes::doc_hidden()",
            "pub fn public_api::attributes::must_use() -> usize",
        ]
    );
}

#[test]
fn invalid_json() {
    let result = public_api::crate_from_rustdoc_json_str("}}}}}}}}}");
    println!("Yes, this can be debugged: {:?}", result.as_ref().err());
    assert!(matches!(result, Err(public_api::PublicApiError::SerdeJsonError(_))));
}

#[test]
fn json_of_another_shape_is_no_description() {
    assert!(public_api::crate_from_rustdoc_json_str("").is_err());
    assert!(public_api::crate_from_rustdoc_json_str("{}").is_err());
    assert!(public_api::crate_from_rustdoc_json_str("[1, 2, 3]").is_err());
}

#[test]
fn valid_json() {
    let json = r#"{
        "root": "0:0",
        "crate_version": null,
        "includes_private": false,
        "index": {
            "0:0": {
                "id": "0:0",
                "crate_id": 0,
                "name": "example_api",
                "span": null,
                "visibility": "public",
                "docs": null,
                "links": {},
                "attrs": [],
                "deprecation": null,
                "kind": "module",
                "inner": { "is_crate": true, "items": [] }
            }
        },
        "paths": {},
        "external_crates": {},
        "format_version": 15
    }"#;
    let description = public_api::crate_from_rustdoc_json_str(json).unwrap();
    assert_eq!(description.format_version, 15);
    assert_eq!(description.index.len(), 1);
    assert_eq!(description.root.0, "0:0");
}

#[test]
fn parser_errors_become_errors_of_the_library() {
    let failed = serde_json::from_str::<rustdoc_types::Crate>("no description");
    assert!(failed.is_err());
    let message = failed.as_ref().unwrap_err().to_string();
    match public_api::rustdoc_json::read_outcome(failed) {
        Err(public_api::PublicApiError::SerdeJsonError(error)) => {
            assert_eq!(error.to_string(), message);
        }
        Ok(_) => panic!("an error was expected"),
    }
    let empty = r#"{"root": "0", "crate_version": "1.0.0", "includes_private": true,
        "index": {}, "paths": {}, "external_crates": {}, "format_version": 15}"#;
    let read = serde_json::from_str::<rustdoc_types::Crate>(empty);
    let description = public_api::rustdoc_json::read_outcome(read).unwrap();
    assert_eq!(description.crate_version.as_deref(), Some("1.0.0"));
    assert!(description.includes_private);
}
