//! What the canonical signature of an item is: for every node of the
//! description of a surface, the sequence of tokens that stands for it.
//!
//! Everything here is specification and proof: the definitions, and laws
//! that follow from them. The functions that compute these sequences are
//! in [`crate::render`].

use crate::ast::{
    Abi, Constant, FnDecl, Function, GenericArg, GenericArgs, GenericBound, GenericParamDef,
    GenericParamDefKind, Generics, Header, IntermediatePublicItem, ItemEnum, ItemIndex, ItemKind,
    MacroKind, PathSegment, Term, Type, TypeBinding, TypeBindingKind, Variant, WherePredicate,
};
use crate::tokens::{concat_text, TokenView};
use vstd::prelude::*;

verus! {

/// The symbol with the given text.
pub open spec fn sym(text: &str) -> TokenView {
    TokenView::symbol(text@)
}

/// The keyword with the given text.
pub open spec fn kw(text: &str) -> TokenView {
    TokenView::keyword(text@)
}

/// The qualifier with the given text.
pub open spec fn qual(text: &str) -> TokenView {
    TokenView::qualifier(text@)
}

/// A single space.
pub open spec fn ws() -> TokenView {
    TokenView::whitespace()
}

/// ` + `
pub open spec fn plus_tokens() -> Seq<TokenView> {
    seq![ws(), sym("+"), ws()]
}

/// `: `
pub open spec fn colon_tokens() -> Seq<TokenView> {
    seq![sym(":"), ws()]
}

/// `, `
pub open spec fn comma_tokens() -> Seq<TokenView> {
    seq![sym(","), ws()]
}

/// ` = `
pub open spec fn equals_tokens() -> Seq<TokenView> {
    seq![ws(), sym("="), ws()]
}

/// ` -> `
pub open spec fn arrow_tokens() -> Seq<TokenView> {
    seq![ws(), sym("->"), ws()]
}

/// The parts in order, with `between` between each two neighbours.
pub open spec fn joined<A>(parts: Seq<Seq<A>>, between: Seq<A>) -> Seq<A>
    decreases parts.len(),
{
    if parts.len() == 0 {
        Seq::empty()
    } else if parts.len() == 1 {
        parts[0]
    } else {
        joined(parts.drop_last(), between) + between + parts.last()
    }
}

/// A list: the parts separated by `between`, enclosed in `start` and `end`.
/// Where `return_nothing_if_empty` is set and the parts contribute no token,
/// the list is empty altogether, `start` and `end` included.
pub open spec fn sequence_tokens(
    start: Seq<TokenView>,
    end: Seq<TokenView>,
    between: Seq<TokenView>,
    return_nothing_if_empty: bool,
    parts: Seq<Seq<TokenView>>,
) -> Seq<TokenView> {
    let body = joined(parts, between);
    if return_nothing_if_empty && body.len() == 0 {
        Seq::empty()
    } else {
        start + body + end
    }
}

/// The token for one segment of a path: a function name for a function or
/// a method, a type name for a trait, a struct, a union, an enum or a type
/// alias, and an identifier for everything else.
pub open spec fn segment_token(segment: &PathSegment) -> TokenView {
    match segment.kind {
        ItemKind::Function | ItemKind::Method => TokenView::function(segment.name@),
        ItemKind::Trait | ItemKind::Struct | ItemKind::Union | ItemKind::Enum | ItemKind::Typedef =>
            TokenView::type_(segment.name@),
        _ => TokenView::identifier(segment.name@),
    }
}

/// The names of the segments of a path.
pub open spec fn segment_names(path: Seq<PathSegment>) -> Seq<Seq<char>> {
    path.map_values(|s: PathSegment| s.name@)
}

/// Each segment of a path as a part of its own.
pub open spec fn segment_parts(path: Seq<PathSegment>) -> Seq<Seq<TokenView>> {
    Seq::new(path.len(), |i: int| seq![segment_token(&path[i])])
}

/// A path: its segments joined by `::`.
pub open spec fn path_tokens(path: Seq<PathSegment>) -> Seq<TokenView> {
    joined(segment_parts(path), seq![sym("::")])
}

/// Each tag as an item kind, followed by a space.
pub open spec fn tags_tokens(tags: Seq<&str>) -> Seq<TokenView>
    decreases tags.len(),
{
    if tags.len() == 0 {
        Seq::empty()
    } else {
        tags_tokens(tags.drop_last()) + seq![TokenView::kind(tags.last()@), ws()]
    }
}

/// The signature of an item that shows nothing but its kind and its path:
/// `pub`, the tags, the path.
pub open spec fn simple_tokens(tags: Seq<&str>, path: Seq<PathSegment>) -> Seq<TokenView> {
    seq![qual("pub"), ws()] + tags_tokens(tags) + path_tokens(path)
}

/// The name that the index holds for an identifier, as an identifier
/// token; nothing where the index holds no name for it.
pub open spec fn id_tokens(root: &ItemIndex, id: Seq<char>) -> Seq<TokenView> {
    match root.name_of(id) {
        Some(name) => seq![TokenView::identifier(name)],
        None => Seq::empty(),
    }
}

/// Whether `::` stands at index `i` of `s`.
pub open spec fn separator_at(s: Seq<char>, i: int) -> bool {
    0 <= i && i + 1 < s.len() && s[i] == ':' && s[i + 1] == ':'
}

/// The segments of `s` from index `start` on, where `s` has been read up
/// to index `from` without meeting a separator since `start`.
pub open spec fn split_from(s: Seq<char>, from: int, start: int) -> Seq<Seq<char>>
    decreases s.len() - from,
{
    if from >= s.len() || from < start || start < 0 {
        seq![s.subrange(start, s.len() as int)]
    } else if separator_at(s, from) {
        seq![s.subrange(start, from)] + split_from(s, from + 2, from + 2)
    } else {
        split_from(s, from + 1, start)
    }
}

/// The segments of a path written with `::`, read from the left. There is
/// always at least one segment.
pub open spec fn split_path(s: Seq<char>) -> Seq<Seq<char>> {
    split_from(s, 0, 0)
}

/// The token for segment `i` of a written path: `$crate` in front is an
/// identifier, the last segment is a type name, the others are
/// identifiers.
pub open spec fn name_part_token(parts: Seq<Seq<char>>, i: int) -> TokenView {
    if i == 0 && parts[i] == "$crate"@ {
        TokenView::identifier(parts[i])
    } else if i == parts.len() - 1 {
        TokenView::type_(parts[i])
    } else {
        TokenView::identifier(parts[i])
    }
}

/// Each segment of a written path as a part of its own.
pub open spec fn name_parts(parts: Seq<Seq<char>>) -> Seq<Seq<TokenView>> {
    Seq::new(parts.len(), |i: int| seq![name_part_token(parts, i)])
}

/// A written path: its segments joined by `::`.
pub open spec fn name_tokens(name: Seq<char>) -> Seq<TokenView> {
    joined(name_parts(split_path(name)), seq![sym("::")])
}

/// Whether a parameter is `self` of type `Self`, `&Self` or `&mut Self`
/// (with or without a lifetime).
pub open spec fn is_plain_self(name: Seq<char>, ty: &Type) -> bool {
    name == "self"@ && match ty {
        Type::Generic(n) => n@ == "Self"@,
        Type::BorrowedRef { type_, .. } => match **type_ {
            Type::Generic(n) => n@ == "Self"@,
            _ => false,
        },
        _ => false,
    }
}

/// What stands in front of the referent of a reference: `&`, the lifetime
/// if there is one, `mut` if it is mutable.
pub open spec fn borrow_tokens(lifetime: Option<String>, mutable: bool) -> Seq<TokenView> {
    seq![sym("&")] + match lifetime {
        Some(lt) => seq![TokenView::lifetime(lt@), ws()],
        None => Seq::empty(),
    } + if mutable {
        seq![kw("mut"), ws()]
    } else {
        Seq::empty()
    }
}

/// The short form of a `self` parameter: `self`, `&self`, `&mut self`.
pub open spec fn self_tokens(ty: &Type) -> Seq<TokenView> {
    match ty {
        Type::BorrowedRef { lifetime, mutable, .. } => borrow_tokens(*lifetime, *mutable)
            + seq![TokenView::self_("self"@)],
        _ => seq![TokenView::self_("self"@)],
    }
}

/// The signature of a type.
pub open spec fn type_tokens(root: &ItemIndex, ty: &Type) -> Seq<TokenView>
    decreases ty, 0int,
{
    match ty {
        Type::ResolvedPath { name, id, args, param_names } => {
            (if name@.len() == 0 {
                id_tokens(root, id@)
            } else {
                name_tokens(name@) + match args {
                    Some(a) => generic_args_tokens(root, a),
                    None => Seq::empty(),
                }
            }) + (if param_names.len() == 0 {
                Seq::empty()
            } else {
                plus_tokens() + generic_bounds_tokens(root, param_names)
            })
        },
        Type::Generic(name) => seq![TokenView::generic(name@)],
        Type::Primitive(name) => seq![TokenView::primitive(name@)],
        Type::FunctionPointer(ptr) => higher_rank_tokens(root, &ptr.generic_params) + seq![
            TokenView::kind("fn"@),
        ] + fn_decl_tokens(root, &ptr.decl),
        Type::Tuple(types) => tuple_tokens(root, types),
        Type::Slice(inner) => seq![sym("[")] + type_tokens(root, inner) + seq![sym("]")],
        Type::Array { type_, len } => seq![sym("[")] + type_tokens(root, type_) + seq![
            sym(";"),
            ws(),
            TokenView::primitive(len@),
            sym("]"),
        ],
        Type::ImplTrait(bounds) => seq![kw("impl"), ws()] + generic_bounds_tokens(root, bounds),
        Type::Infer => seq![sym("_")],
        Type::RawPointer { mutable, type_ } => seq![
            sym("*"),
            if *mutable {
                kw("mut")
            } else {
                kw("const")
            },
            ws(),
        ] + type_tokens(root, type_),
        Type::BorrowedRef { lifetime, mutable, type_ } => borrow_tokens(*lifetime, *mutable)
            + type_tokens(root, type_),
        Type::QualifiedPath { name, self_type, trait_ } => seq![sym("<")] + type_tokens(
            root,
            self_type,
        ) + seq![ws(), kw("as"), ws()] + type_tokens(root, trait_) + seq![
            sym(">::"),
            TokenView::identifier(name@),
        ],
    }
}

/// Each type as a part of its own.
pub open spec fn type_parts(root: &ItemIndex, types: &Vec<Type>) -> Seq<Seq<TokenView>>
    decreases types, 0int,
{
    Seq::new(
        types.len() as nat,
        |i: int|
            if 0 <= i < types.len() {
                type_tokens(root, &types[i])
            } else {
                Seq::empty()
            },
    )
}

/// A tuple: the types separated by commas, in parentheses.
pub open spec fn tuple_tokens(root: &ItemIndex, types: &Vec<Type>) -> Seq<TokenView>
    decreases types, 1int,
{
    sequence_tokens(seq![sym("(")], seq![sym(")")], comma_tokens(), false, type_parts(root, types))
}

/// One parameter of a function: the short form for a plain `self`, else
/// the name with a colon (left out where the name is `_`) and the type.
pub open spec fn param_tokens(root: &ItemIndex, name: Seq<char>, ty: &Type) -> Seq<TokenView>
    decreases ty, 1int,
{
    if is_plain_self(name, ty) {
        self_tokens(ty)
    } else {
        (if name != "_"@ {
            seq![TokenView::identifier(name), sym(":"), ws()]
        } else {
            Seq::empty()
        }) + type_tokens(root, ty)
    }
}

/// Each parameter as a part of its own.
pub open spec fn param_parts(root: &ItemIndex, inputs: &Vec<(String, Type)>) -> Seq<Seq<TokenView>>
    decreases inputs, 0int,
{
    Seq::new(
        inputs.len() as nat,
        |i: int|
            if 0 <= i < inputs.len() {
                param_tokens(root, inputs[i].0@, &inputs[i].1)
            } else {
                Seq::empty()
            },
    )
}

/// Parameters and return type: the parameters separated by commas, in
/// parentheses that are always there, then the arrow and the return type
/// if there is one.
pub open spec fn fn_decl_tokens(root: &ItemIndex, decl: &FnDecl) -> Seq<TokenView>
    decreases decl, 0int,
{
    sequence_tokens(
        seq![sym("(")],
        seq![sym(")")],
        comma_tokens(),
        false,
        param_parts(root, &decl.inputs),
    ) + match &decl.output {
        Some(ty) => arrow_tokens() + type_tokens(root, ty),
        None => Seq::empty(),
    }
}

/// A constant: its type, then ` = ` and the value where it is known, as a
/// primitive if it is a literal and as an identifier if not.
pub open spec fn constant_tokens(root: &ItemIndex, constant: &Constant) -> Seq<TokenView>
    decreases constant, 0int,
{
    type_tokens(root, &constant.type_) + match &constant.value {
        Some(value) => equals_tokens() + seq![
            if constant.is_literal {
                TokenView::primitive(value@)
            } else {
                TokenView::identifier(value@)
            },
        ],
        None => Seq::empty(),
    }
}

/// A type or a constant.
pub open spec fn term_tokens(root: &ItemIndex, term: &Term) -> Seq<TokenView>
    decreases term, 0int,
{
    match term {
        Term::Type(ty) => type_tokens(root, ty),
        Term::Constant(c) => constant_tokens(root, c),
    }
}

/// One generic argument.
pub open spec fn generic_arg_tokens(root: &ItemIndex, arg: &GenericArg) -> Seq<TokenView>
    decreases arg, 0int,
{
    match arg {
        GenericArg::Lifetime(name) => seq![TokenView::lifetime(name@)],
        GenericArg::Type(ty) => type_tokens(root, ty),
        GenericArg::Const(c) => constant_tokens(root, c),
        GenericArg::Infer => seq![sym("_")],
    }
}

/// One binding of an associated type: its name, its generic arguments, and
/// what it is bound to.
pub open spec fn binding_tokens(root: &ItemIndex, binding: &TypeBinding) -> Seq<TokenView>
    decreases binding, 0int,
{
    seq![TokenView::identifier(binding.name@)] + generic_args_tokens(root, &binding.args)
        + match &binding.binding {
        TypeBindingKind::Equality(term) => equals_tokens() + term_tokens(root, term),
        TypeBindingKind::Constraint(bounds) => generic_bounds_tokens(root, bounds),
    }
}

/// Each generic argument as a part of its own.
pub open spec fn generic_arg_parts(root: &ItemIndex, args: &Vec<GenericArg>) -> Seq<Seq<TokenView>>
    decreases args, 0int,
{
    Seq::new(
        args.len() as nat,
        |i: int|
            if 0 <= i < args.len() {
                generic_arg_tokens(root, &args[i])
            } else {
                Seq::empty()
            },
    )
}

/// Each binding as a part of its own.
pub open spec fn binding_parts(root: &ItemIndex, bindings: &Vec<TypeBinding>) -> Seq<Seq<TokenView>>
    decreases bindings, 0int,
{
    Seq::new(
        bindings.len() as nat,
        |i: int|
            if 0 <= i < bindings.len() {
                binding_tokens(root, &bindings[i])
            } else {
                Seq::empty()
            },
    )
}

/// Generic arguments. In angle brackets: the arguments, then the
/// bindings, separated by commas; nothing at all where there is neither.
/// In parentheses: the inputs separated by commas, in parentheses that are
/// always there, then the arrow and the output if there is one.
pub open spec fn generic_args_tokens(root: &ItemIndex, args: &GenericArgs) -> Seq<TokenView>
    decreases args, 0int,
{
    match args {
        GenericArgs::AngleBracketed { args, bindings } => sequence_tokens(
            seq![sym("<")],
            seq![sym(">")],
            comma_tokens(),
            true,
            generic_arg_parts(root, args) + binding_parts(root, bindings),
        ),
        GenericArgs::Parenthesized { inputs, output } => sequence_tokens(
            seq![sym("(")],
            seq![sym(")")],
            comma_tokens(),
            false,
            type_parts(root, inputs),
        ) + match output {
            Some(ty) => arrow_tokens() + type_tokens(root, ty),
            None => Seq::empty(),
        },
    }
}

/// One bound: a trait with what `for<..>` introduces in front of it, or a
/// lifetime.
pub open spec fn bound_tokens(root: &ItemIndex, bound: &GenericBound) -> Seq<TokenView>
    decreases bound, 0int,
{
    match bound {
        GenericBound::TraitBound { trait_, generic_params } => higher_rank_tokens(
            root,
            generic_params,
        ) + type_tokens(root, trait_),
        GenericBound::Outlives(lifetime) => seq![TokenView::lifetime(lifetime@)],
    }
}

/// Each bound as a part of its own.
pub open spec fn bound_parts(root: &ItemIndex, bounds: &Vec<GenericBound>) -> Seq<Seq<TokenView>>
    decreases bounds, 0int,
{
    Seq::new(
        bounds.len() as nat,
        |i: int|
            if 0 <= i < bounds.len() {
                bound_tokens(root, &bounds[i])
            } else {
                Seq::empty()
            },
    )
}

/// Bounds: joined by ` + `; nothing where there are none.
pub open spec fn generic_bounds_tokens(root: &ItemIndex, bounds: &Vec<GenericBound>) -> Seq<TokenView>
    decreases bounds, 1int,
{
    sequence_tokens(Seq::empty(), Seq::empty(), plus_tokens(), true, bound_parts(root, bounds))
}

/// Whether the compiler introduced the parameter.
pub open spec fn is_synthetic(param: &GenericParamDef) -> bool {
    match param.kind {
        GenericParamDefKind::Type { synthetic, .. } => synthetic,
        _ => false,
    }
}

/// Each lifetime as a part of its own.
pub open spec fn lifetime_parts(lifetimes: Seq<String>) -> Seq<Seq<TokenView>> {
    Seq::new(lifetimes.len(), |i: int| seq![TokenView::lifetime(lifetimes[i]@)])
}

/// The declaration of one generic parameter: a lifetime with what it
/// outlives, a type parameter with its bounds, or `const`, the name and
/// the type.
pub open spec fn generic_param_def_tokens(root: &ItemIndex, param: &GenericParamDef) -> Seq<TokenView>
    decreases param, 0int,
{
    match &param.kind {
        GenericParamDefKind::Lifetime { outlives } => seq![TokenView::lifetime(param.name@)] + (
        if outlives.len() == 0 {
            Seq::empty()
        } else {
            colon_tokens() + sequence_tokens(
                Seq::empty(),
                Seq::empty(),
                plus_tokens(),
                true,
                lifetime_parts(outlives@),
            )
        }),
        GenericParamDefKind::Type { bounds, .. } => seq![TokenView::generic(param.name@)] + (
        if bounds.len() == 0 {
            Seq::empty()
        } else {
            colon_tokens() + generic_bounds_tokens(root, bounds)
        }),
        GenericParamDefKind::Const { type_ } => seq![
            qual("const"),
            ws(),
            TokenView::identifier(param.name@),
        ] + colon_tokens() + type_tokens(root, type_),
    }
}

/// Each declared parameter that the compiler did not introduce, as a part
/// of its own.
pub open spec fn generic_param_def_parts(root: &ItemIndex, params: Seq<GenericParamDef>) -> Seq<
    Seq<TokenView>,
>
    decreases params, 0int,
{
    if params.len() == 0 {
        Seq::empty()
    } else {
        let rest = generic_param_def_parts(root, params.drop_last());
        if is_synthetic(&params.last()) {
            rest
        } else {
            rest.push(generic_param_def_tokens(root, &params.last()))
        }
    }
}

/// A list of generic parameters: those that the compiler did not
/// introduce, separated by commas, in angle brackets; nothing where none
/// is left.
pub open spec fn generic_param_defs_tokens(root: &ItemIndex, params: &Vec<GenericParamDef>) -> Seq<
    TokenView,
>
    decreases params, 1int,
{
    sequence_tokens(
        seq![sym("<")],
        seq![sym(">")],
        comma_tokens(),
        true,
        generic_param_def_parts(root, params@),
    )
}

/// What `for<..>` introduces: `for`, the parameters, a space; nothing
/// where there are no parameters.
pub open spec fn higher_rank_tokens(root: &ItemIndex, params: &Vec<GenericParamDef>) -> Seq<TokenView>
    decreases params, 2int,
{
    if params.len() == 0 {
        Seq::empty()
    } else {
        seq![kw("for")] + generic_param_defs_tokens(root, params) + seq![ws()]
    }
}

/// One predicate of a `where` clause.
pub open spec fn where_predicate_tokens(
    root: &ItemIndex,
    predicate: &WherePredicate,
) -> Seq<TokenView> {
    match predicate {
        WherePredicate::BoundPredicate { type_, bounds, generic_params } => higher_rank_tokens(
            root,
            generic_params,
        ) + type_tokens(root, type_) + colon_tokens() + generic_bounds_tokens(root, bounds),
        WherePredicate::RegionPredicate { lifetime } => seq![TokenView::lifetime(lifetime@)],
        WherePredicate::EqPredicate { lhs, rhs } => type_tokens(root, lhs) + equals_tokens()
            + term_tokens(root, rhs),
    }
}

/// Each predicate as a part of its own.
pub open spec fn where_predicate_parts(root: &ItemIndex, predicates: Seq<WherePredicate>) -> Seq<
    Seq<TokenView>,
> {
    Seq::new(predicates.len(), |i: int| where_predicate_tokens(root, &predicates[i]))
}

/// A `where` clause: ` where ` and the predicates separated by commas;
/// nothing where there are no predicates.
pub open spec fn where_predicates_tokens(root: &ItemIndex, predicates: &Vec<WherePredicate>) -> Seq<
    TokenView,
> {
    if predicates.len() == 0 {
        Seq::empty()
    } else {
        seq![ws(), kw("where"), ws()] + sequence_tokens(
            Seq::empty(),
            Seq::empty(),
            comma_tokens(),
            true,
            where_predicate_parts(root, predicates@),
        )
    }
}

/// Generic parameters followed by the `where` clause.
pub open spec fn generics_tokens(root: &ItemIndex, generics: &Generics) -> Seq<TokenView> {
    generic_param_defs_tokens(root, &generics.params) + where_predicates_tokens(
        root,
        &generics.where_predicates,
    )
}

/// The name under which a calling convention is shown.
pub open spec fn abi_name(abi: &Abi) -> Seq<char> {
    match abi {
        Abi::Rust => Seq::empty(),
        Abi::C => "c"@,
        Abi::Cdecl => "cdecl"@,
        Abi::Stdcall => "stdcall"@,
        Abi::Fastcall => "fastcall"@,
        Abi::Aapcs => "aapcs"@,
        Abi::Win64 => "win64"@,
        Abi::SysV64 => "sysV64"@,
        Abi::System => "system"@,
        Abi::Other(text) => text@,
    }
}

/// The qualifiers of a function, in their fixed order: `unsafe`, `const`,
/// `async`, then the calling convention unless it is the default one; each
/// followed by a space.
pub open spec fn header_tokens(header: &Header) -> Seq<TokenView> {
    (if header.unsafe_ {
        seq![qual("unsafe"), ws()]
    } else {
        Seq::empty()
    }) + (if header.const_ {
        seq![qual("const"), ws()]
    } else {
        Seq::empty()
    }) + (if header.async_ {
        seq![qual("async"), ws()]
    } else {
        Seq::empty()
    }) + (if header.abi is Rust {
        Seq::empty()
    } else {
        seq![TokenView::qualifier(abi_name(&header.abi)), ws()]
    })
}

/// The signature of a function: `pub`, the qualifiers, `fn`, the name, the
/// generic parameters, the parameters and the return type, the `where`
/// clause.
pub open spec fn function_tokens(
    root: &ItemIndex,
    name: Seq<TokenView>,
    decl: &FnDecl,
    generics: &Generics,
    header: &Header,
) -> Seq<TokenView> {
    seq![qual("pub"), ws()] + header_tokens(header) + seq![TokenView::kind("fn"@), ws()] + name
        + generic_param_defs_tokens(root, &generics.params) + fn_decl_tokens(root, decl)
        + where_predicates_tokens(root, &generics.where_predicates)
}

/// The invocation of a procedural macro by name: `name!()`, `#[name]` or
/// `#[derive(name)]`.
pub open spec fn proc_macro_tokens(kind: MacroKind, name: Seq<char>) -> Seq<TokenView> {
    match kind {
        MacroKind::Bang => seq![TokenView::identifier(name), sym("!()")],
        MacroKind::Attr => seq![sym("#["), TokenView::identifier(name), sym("]")],
        MacroKind::Derive => seq![sym("#[derive("), TokenView::identifier(name), sym(")]")],
    }
}

/// The words that say what kind of item a signature declares. A function
/// or a method has none here: its qualifiers are part of its header.
pub open spec fn item_tags(inner: &ItemEnum) -> Seq<&'static str> {
    match inner {
        ItemEnum::Module => seq!["mod"],
        ItemEnum::ExternCrate => seq!["extern", "crate"],
        ItemEnum::Import => seq!["use"],
        ItemEnum::Union => seq!["union"],
        ItemEnum::Struct { .. } => seq!["struct"],
        ItemEnum::StructField(_) => seq!["struct", "field"],
        ItemEnum::Enum { .. } => seq!["enum"],
        ItemEnum::Variant(_) => seq!["enum", "variant"],
        ItemEnum::Function(_) | ItemEnum::Method(_) => Seq::empty(),
        ItemEnum::Trait { is_unsafe, .. } => if *is_unsafe {
            seq!["unsafe", "trait"]
        } else {
            seq!["trait"]
        },
        ItemEnum::TraitAlias => seq!["trait", "alias"],
        ItemEnum::Impl => seq!["impl"],
        ItemEnum::Typedef { .. } => seq!["type"],
        ItemEnum::AssocType { .. } => seq!["type"],
        ItemEnum::OpaqueTy => seq!["opaque", "type"],
        ItemEnum::Constant(_) => seq!["const"],
        ItemEnum::AssocConst { .. } => seq!["const"],
        ItemEnum::Static { mutable, .. } => if *mutable {
            seq!["mut", "static"]
        } else {
            seq!["static"]
        },
        ItemEnum::ForeignType => seq!["type"],
        ItemEnum::Macro => seq!["macro"],
        ItemEnum::ProcMacro(_) => seq!["proc", "macro"],
        ItemEnum::PrimitiveType => seq!["primitive", "type"],
    }
}

/// What the signature of an item shows after its path. A function, a
/// method and a procedural macro show nothing here: their signatures are
/// built otherwise.
pub open spec fn detail_tokens(root: &ItemIndex, inner: &ItemEnum) -> Seq<TokenView> {
    match inner {
        ItemEnum::Struct { generics } => generics_tokens(root, generics),
        ItemEnum::StructField(ty) => colon_tokens() + type_tokens(root, ty),
        ItemEnum::Enum { generics } => generics_tokens(root, generics),
        ItemEnum::Variant(variant) => match variant {
            Variant::Tuple(types) => tuple_tokens(root, types),
            Variant::Plain | Variant::Struct => Seq::empty(),
        },
        ItemEnum::Trait { generics, .. } => generics_tokens(root, generics),
        ItemEnum::Typedef { type_, generics } => generics_tokens(root, generics) + equals_tokens()
            + type_tokens(root, type_),
        ItemEnum::AssocType { generics, bounds, default } => generics_tokens(root, generics)
            + generic_bounds_tokens(root, bounds) + match default {
            Some(ty) => equals_tokens() + type_tokens(root, ty),
            None => Seq::empty(),
        },
        ItemEnum::Constant(constant) => colon_tokens() + constant_tokens(root, constant),
        ItemEnum::AssocConst { type_ } => colon_tokens() + type_tokens(root, type_),
        ItemEnum::Static { type_, .. } => colon_tokens() + type_tokens(root, type_),
        ItemEnum::Macro => seq![sym("!")],
        _ => Seq::empty(),
    }
}

/// The canonical signature of an item.
///
/// A function or a method is shown with its header. A procedural macro is
/// shown as it is invoked, with its name inside the invocation in place of
/// the last token of the path. Every other item is shown as `pub`, its
/// kind, its path, and what its kind adds after the path.
pub open spec fn item_tokens(item: &IntermediatePublicItem) -> Seq<TokenView> {
    let root = item.root;
    let path = item.path@;
    let inner = &item.item.inner;
    match inner {
        ItemEnum::Function(f) | ItemEnum::Method(f) => function_tokens(
            root,
            path_tokens(path),
            &f.decl,
            &f.generics,
            &f.header,
        ),
        ItemEnum::ProcMacro(kind) => simple_tokens(item_tags(inner), path).drop_last()
            + proc_macro_tokens(
            *kind,
            match item.item.name {
                Some(name) => name@,
                None => Seq::empty(),
            },
        ),
        _ => simple_tokens(item_tags(inner), path) + detail_tokens(root, inner),
    }
}

/// Each tag gives two tokens.
pub proof fn lemma_tags_tokens_len(tags: Seq<&str>)
    ensures
        tags_tokens(tags).len() == 2 * tags.len(),
    decreases tags.len(),
{
    if tags.len() > 0 {
        lemma_tags_tokens_len(tags.drop_last());
    }
}

/// Rendering is total and never comes out empty: whatever the item, its
/// kind and its path, its signature starts with `pub`.
pub proof fn lemma_item_tokens_start_with_pub(item: &IntermediatePublicItem)
    ensures
        item_tokens(item).len() > 0,
        item_tokens(item)[0] == qual("pub"),
{
    let inner = &item.item.inner;
    lemma_tags_tokens_len(item_tags(inner));
}

/// Self simplification, where it applies. A parameter named `self` of type
/// `Self`, `&Self` or `&mut Self` is shown without its type: as `self`,
/// or as `self` behind what the reference shows in front of its referent.
pub proof fn lemma_plain_self_is_short(root: &ItemIndex, ty: &Type)
    requires
        is_plain_self("self"@, ty),
    ensures
        ty is Generic ==> param_tokens(root, "self"@, ty) == seq![TokenView::self_("self"@)],
        ty matches Type::BorrowedRef { lifetime: None, mutable, .. } ==> param_tokens(
            root,
            "self"@,
            ty,
        ) == if *mutable {
            seq![sym("&"), kw("mut"), ws(), TokenView::self_("self"@)]
        } else {
            seq![sym("&"), TokenView::self_("self"@)]
        },
{
    match ty {
        Type::BorrowedRef { lifetime: None, mutable, .. } => {
        },
        _ => {},
    }
}

/// Self simplification, where it does not apply. Any other parameter is
/// shown verbatim, a parameter `self` of another type included: its name
/// and a colon, unless the name is `_`, and its type.
pub proof fn lemma_nothing_else_is_short(root: &ItemIndex, name: Seq<char>, ty: &Type)
    requires
        !is_plain_self(name, ty),
    ensures
        name != "_"@ ==> param_tokens(root, name, ty) == seq![
            TokenView::identifier(name),
            sym(":"),
            ws(),
        ] + type_tokens(root, ty),
        name == "_"@ ==> param_tokens(root, name, ty) == type_tokens(root, ty),
        name == "self"@ ==> param_tokens(root, name, ty) == seq![
            TokenView::identifier(name),
            sym(":"),
            ws(),
        ] + type_tokens(root, ty),
{
    reveal_strlit("self");
    reveal_strlit("_");
    assert("self"@.len() != "_"@.len());
}

/// The text of two sequences of tokens, one after the other.
pub proof fn lemma_concat_text_add(a: Seq<TokenView>, b: Seq<TokenView>)
    ensures
        concat_text(a + b) == concat_text(a) + concat_text(b),
    decreases b.len(),
{
    if b.len() == 0 {
        assert(a + b =~= a);
        assert(concat_text(a) + concat_text(b) =~= concat_text(a));
    } else {
        lemma_concat_text_add(a, b.drop_last());
        assert((a + b).drop_last() =~= a + b.drop_last());
        assert(concat_text(a + b) =~= concat_text(a) + concat_text(b));
    }
}

/// Joining with one part more in front.
pub proof fn lemma_joined_prepend<A>(first: Seq<A>, parts: Seq<Seq<A>>, between: Seq<A>)
    requires
        parts.len() > 0,
    ensures
        joined(seq![first] + parts, between) == first + between + joined(parts, between),
    decreases parts.len(),
{
    let all = seq![first] + parts;
    assert(all.drop_last() =~= seq![first] + parts.drop_last());
    assert(all.last() == parts.last());
    if parts.len() == 1 {
        assert(all.drop_last() =~= seq![first]);
        assert(joined(all.drop_last(), between) == first);
    } else {
        lemma_joined_prepend(first, parts.drop_last(), between);
        assert(joined(all, between) =~= first + between + joined(parts, between));
    }
}

/// A text splits into at least one segment.
pub proof fn lemma_split_nonempty(s: Seq<char>, from: int, start: int)
    ensures
        split_from(s, from, start).len() > 0,
    decreases s.len() - from,
{
    if from >= s.len() || from < start || start < 0 {
    } else if separator_at(s, from) {
        lemma_split_nonempty(s, from + 2, from + 2);
    } else {
        lemma_split_nonempty(s, from + 1, start);
    }
}

/// Splitting loses nothing: the segments from `start` on, joined by `::`,
/// are the text from `start` on.
pub proof fn lemma_split_joins(s: Seq<char>, from: int, start: int)
    requires
        0 <= start <= from <= s.len(),
    ensures
        joined(split_from(s, from, start), seq![':', ':']) == s.subrange(start, s.len() as int),
    decreases s.len() - from,
{
    let sep = seq![':', ':'];
    if from >= s.len() {
    } else if separator_at(s, from) {
        let rest = split_from(s, from + 2, from + 2);
        lemma_split_nonempty(s, from + 2, from + 2);
        lemma_split_joins(s, from + 2, from + 2);
        lemma_joined_prepend(s.subrange(start, from), rest, sep);
        assert(s.subrange(start, from) + sep + s.subrange(from + 2, s.len() as int) =~= s.subrange(
            start,
            s.len() as int,
        ));
    } else {
        lemma_split_joins(s, from + 1, start);
    }
}

/// The text of a single token.
pub proof fn lemma_concat_text_single(tokens: Seq<TokenView>)
    requires
        tokens.len() == 1,
    ensures
        concat_text(tokens) == tokens[0].text,
{
    assert(concat_text(tokens.drop_last()) =~= Seq::<char>::empty());
    assert(concat_text(tokens) =~= tokens[0].text);
}

/// The texts of parts that are one token each.
pub open spec fn single_texts(parts: Seq<Seq<TokenView>>) -> Seq<Seq<char>> {
    Seq::new(parts.len(), |i: int| parts[i][0].text)
}

/// The text of tokens joined by a token is the texts of the tokens joined
/// by the text of that token.
pub proof fn lemma_joined_text(parts: Seq<Seq<TokenView>>, between: TokenView)
    requires
        forall|i: int| 0 <= i < parts.len() ==> (#[trigger] parts[i]).len() == 1,
    ensures
        concat_text(joined(parts, seq![between])) == joined(single_texts(parts), between.text),
    decreases parts.len(),
{
    let sep = seq![between];
    if parts.len() == 0 {
    } else if parts.len() == 1 {
        lemma_concat_text_single(parts[0]);
    } else {
        let last = parts.last();
        lemma_joined_text(parts.drop_last(), between);
        lemma_concat_text_add(joined(parts.drop_last(), sep), sep);
        lemma_concat_text_add(joined(parts.drop_last(), sep) + sep, last);
        lemma_concat_text_single(sep);
        lemma_concat_text_single(last);
        assert(single_texts(parts).drop_last() =~= single_texts(parts.drop_last()));
    }
}

/// A written path reads as it was written: the text of its tokens is the
/// path.
pub proof fn lemma_name_reads_as_written(name: Seq<char>)
    ensures
        concat_text(name_tokens(name)) == name,
{
    reveal_strlit("::");
    let segments = split_path(name);
    let parts = name_parts(segments);
    assert("::"@ =~= seq![':', ':']);
    lemma_joined_text(parts, sym("::"));
    assert(single_texts(parts) =~= segments);
    lemma_split_joins(name, 0, 0);
    assert(name.subrange(0, name.len() as int) =~= name);
}

/// A path reads as the names of its segments joined by `::`.
pub proof fn lemma_path_reads_as_names(path: Seq<PathSegment>)
    ensures
        concat_text(path_tokens(path)) == joined(segment_names(path), "::"@),
{
    let parts = segment_parts(path);
    lemma_joined_text(parts, sym("::"));
    assert(single_texts(parts) =~= segment_names(path));
}

} // verus!
