//! Renders the description of an item into its canonical signature.
//!
//! Every function here computes one of the sequences that
//! [`crate::signature`] defines, and its contract says which.

use crate::ast::{
    Abi, Constant, FnDecl, GenericArg, GenericArgs, GenericBound, GenericParamDef,
    GenericParamDefKind, Generics, Header, IntermediatePublicItem, ItemEnum, ItemIndex, ItemKind,
    MacroKind, PathSegment, Term, Type, TypeBinding, TypeBindingKind, Variant, WherePredicate,
};
use crate::order::same_text;
use crate::signature::{
    arrow_tokens, binding_parts, binding_tokens, borrow_tokens, bound_parts, bound_tokens,
    colon_tokens, comma_tokens, constant_tokens, detail_tokens, equals_tokens, fn_decl_tokens,
    function_tokens, generic_arg_parts, generic_arg_tokens, generic_args_tokens,
    generic_bounds_tokens, generic_param_def_parts, generic_param_def_tokens,
    generic_param_defs_tokens, generics_tokens, header_tokens, higher_rank_tokens, id_tokens,
    is_plain_self, is_synthetic, item_tags, item_tokens, joined, lemma_item_tokens_start_with_pub,
    lemma_name_reads_as_written, lemma_path_reads_as_names, lemma_tags_tokens_len, lifetime_parts,
    name_part_token, name_parts, name_tokens, param_parts, param_tokens, path_tokens, plus_tokens,
    proc_macro_tokens, qual, segment_names, segment_parts, segment_token, self_tokens,
    sequence_tokens, simple_tokens, split_from, split_path, sym, tags_tokens, term_tokens,
    tuple_tokens, type_parts, type_tokens, where_predicate_parts, where_predicate_tokens,
    where_predicates_tokens, ws,
};
use crate::tokens::{concat_text, group_views, Token, TokenView, views};
use vstd::prelude::*;
use vstd::std_specs::iter::IteratorSpec;

verus! {

/// The parts of a list as mathematical values.
pub open spec fn parts_views(parts: Seq<Vec<Token>>) -> Seq<Seq<TokenView>> {
    parts.map_values(|p: Vec<Token>| views(p@))
}

/// Appends `more` to `output`.
pub fn extend(output: &mut Vec<Token>, more: Vec<Token>)
    ensures
        final(output)@ == old(output)@ + more@,
{
    let mut more = more;
    output.append(&mut more);
}

/// Appends a copy of `more` to `output`.
pub fn extend_from(output: &mut Vec<Token>, more: &Vec<Token>)
    ensures
        views(final(output)@) == views(old(output)@) + views(more@),
{
    broadcast use group_views;

    let mut i: usize = 0;
    while i < more.len()
        invariant
            i <= more.len(),
            views(output@) == views(old(output)@) + views(more@.take(i as int)),
        decreases more.len() - i,
    {
        let ghost before = output@;
        let token = more[i].clone();
        output.push(token);
        proof {
            assert(views(output@) == views(before).push(token@));
        }
        i += 1;
    }
}

/// ` + `
pub fn plus() -> (output: Vec<Token>)
    ensures
        views(output@) == plus_tokens(),
{
    vec![Token::Whitespace, Token::symbol("+"), Token::Whitespace]
}

/// `: `
pub fn colon() -> (output: Vec<Token>)
    ensures
        views(output@) == colon_tokens(),
{
    vec![Token::symbol(":"), Token::Whitespace]
}

/// `, `
pub fn comma() -> (output: Vec<Token>)
    ensures
        views(output@) == comma_tokens(),
{
    vec![Token::symbol(","), Token::Whitespace]
}

/// ` = `
pub fn equals() -> (output: Vec<Token>)
    ensures
        views(output@) == equals_tokens(),
{
    vec![Token::Whitespace, Token::symbol("="), Token::Whitespace]
}

/// ` -> `
pub fn arrow() -> (output: Vec<Token>)
    ensures
        views(output@) == arrow_tokens(),
{
    vec![Token::Whitespace, Token::symbol("->"), Token::Whitespace]
}

/// Joining one part more: the separator comes between the parts so far and
/// the new one, unless the new one is the first.
pub proof fn lemma_joined_push<A>(parts: Seq<Seq<A>>, part: Seq<A>, between: Seq<A>)
    ensures
        joined(parts.push(part), between) == if parts.len() == 0 {
            part
        } else {
            joined(parts, between) + between + part
        },
{
    assert(parts.push(part).drop_last() =~= parts);
}

/// Renders a list: the parts separated by `between`, enclosed in `start`
/// and `end`. Where `return_nothing_if_empty` is set and the parts
/// contribute no token, the result is empty, `start` and `end` included.
pub fn render_sequence(
    start: Vec<Token>,
    end: Vec<Token>,
    between: Vec<Token>,
    return_nothing_if_empty: bool,
    parts: Vec<Vec<Token>>,
) -> (output: Vec<Token>)
    ensures
        views(output@) == sequence_tokens(
            views(start@),
            views(end@),
            views(between@),
            return_nothing_if_empty,
            parts_views(parts@),
        ),
{
    broadcast use group_views;

    let ghost all = parts_views(parts@);
    let ghost sep = views(between@);
    let mut body: Vec<Token> = Vec::new();
    let mut first = true;
    for part in it: parts
        invariant
            all == parts_views(it.seq()),
            sep == views(between@),
            first == (it.index() == 0),
            views(body@) == joined(all.take(it.index()), sep),
    {
        proof {
            assert(all.take(it.index() + 1) =~= all.take(it.index()).push(views(part@)));
            lemma_joined_push(all.take(it.index()), views(part@), sep);
        }
        if !first {
            extend_from(&mut body, &between);
        }
        extend(&mut body, part);
        first = false;
    }
    proof {
        assert(all.take(all.len() as int) =~= all);
    }
    if return_nothing_if_empty && body.len() == 0 {
        return Vec::new();
    }
    let mut output = start;
    extend(&mut output, body);
    extend(&mut output, end);
    output
}

/// The token for one segment of a path.
pub fn render_segment(segment: &PathSegment) -> (token: Token)
    ensures
        token@ == segment_token(segment),
{
    match segment.kind {
        ItemKind::Function | ItemKind::Method => Token::function(segment.name.as_str()),
        ItemKind::Trait | ItemKind::Struct | ItemKind::Union | ItemKind::Enum | ItemKind::Typedef => {
            Token::type_(segment.name.as_str())
        },
        _ => Token::identifier(segment.name.as_str()),
    }
}

/// Renders a path: its segments joined by `::`.
pub fn render_path(path: &Vec<PathSegment>) -> (output: Vec<Token>)
    ensures
        views(output@) == path_tokens(path@),
        concat_text(views(output@)) == joined(segment_names(path@), "::"@),
{
    broadcast use group_views;

    proof {
        lemma_path_reads_as_names(path@);
    }

    let ghost parts = segment_parts(path@);
    let ghost sep = seq![sym("::")];
    let mut output: Vec<Token> = Vec::new();
    let mut i: usize = 0;
    while i < path.len()
        invariant
            i <= path.len(),
            parts == segment_parts(path@),
            sep == seq![sym("::")],
            views(output@) == joined(parts.take(i as int), sep),
        decreases path.len() - i,
    {
        if i > 0 {
            output.push(Token::symbol("::"));
        }
        output.push(render_segment(&path[i]));
        proof {
            let part = seq![segment_token(&path@[i as int])];
            assert(parts.take(i + 1) =~= parts.take(i as int).push(part));
            lemma_joined_push(parts.take(i as int), part, sep);
        }
        i += 1;
    }
    proof {
        assert(parts.take(i as int) =~= parts);
    }
    output
}

/// Renders an item that shows nothing but its kind and its path: `pub`,
/// the tags, the path.
pub fn render_simple(tags: &[&str], path: &Vec<PathSegment>) -> (output: Vec<Token>)
    ensures
        views(output@) == simple_tokens(tags@, path@),
{
    broadcast use group_views;

    let mut output = vec![Token::qualifier("pub"), Token::Whitespace];
    let ghost head = views(output@);
    let mut i: usize = 0;
    while i < tags.len()
        invariant
            i <= tags.len(),
            views(output@) == head + tags_tokens(tags@.take(i as int)),
        decreases tags.len() - i,
    {
        let ghost before = views(output@);
        output.push(Token::kind(tags[i]));
        output.push(Token::Whitespace);
        proof {
            assert(tags@.take(i + 1).drop_last() =~= tags@.take(i as int));
            assert(views(output@) =~= before + seq![TokenView::kind(tags@[i as int]@), ws()]);
        }
        i += 1;
    }
    proof {
        assert(tags@.take(i as int) =~= tags@);
    }
    extend(&mut output, render_path(path));
    output
}

/// Renders the name that the index holds for an identifier; nothing where
/// it holds none.
pub fn render_id(root: &ItemIndex, id: &str) -> (output: Vec<Token>)
    ensures
        views(output@) == id_tokens(root, id@),
{
    broadcast use group_views;

    match root.name(id) {
        Some(name) => {
            vec![Token::identifier(name.as_str())]
        },
        None => Vec::new(),
    }
}

/// The characters of a piece of text.
pub fn text_chars(text: &str) -> (chars: Vec<char>)
    ensures
        chars@ == text@,
{
    let mut chars: Vec<char> = Vec::new();
    let mut rest = text.chars();
    loop
        invariant
            chars@ + rest.remaining() == text@,
        decreases text@.len() - chars@.len(),
    {
        match rest.next() {
            Some(c) => {
                chars.push(c);
            },
            None => {
                return chars;
            },
        }
    }
}

/// The texts of a sequence of string slices.
pub open spec fn texts(parts: Seq<&str>) -> Seq<Seq<char>> {
    parts.map_values(|p: &str| p@)
}

/// Splits a path written with `::` into its segments, read from the left.
pub fn split<'a>(name: &'a str) -> (parts: Vec<&'a str>)
    ensures
        texts(parts@) == split_path(name@),
{
    let chars = text_chars(name);
    let n = chars.len();
    let mut parts: Vec<&'a str> = Vec::new();
    let mut start: usize = 0;
    let mut from: usize = 0;
    while from < n
        invariant
            n == name@.len(),
            chars@ == name@,
            start <= from <= n,
            texts(parts@) + split_from(name@, from as int, start as int) == split_path(name@),
        decreases n - from,
    {
        if chars[from] == ':' && from + 1 < n && chars[from + 1] == ':' {
            let part = name.substring_char(start, from);
            parts.push(part);
            from = from + 2;
            start = from;
        } else {
            from = from + 1;
        }
    }
    let part = name.substring_char(start, n);
    parts.push(part);
    parts
}

/// Renders a written path: its segments joined by `::`, the last one as a
/// type name, the others as identifiers, and `$crate` in front as an
/// identifier.
pub fn render_name(name: &str) -> (output: Vec<Token>)
    ensures
        views(output@) == name_tokens(name@),
        concat_text(views(output@)) == name@,
{
    broadcast use group_views;

    proof {
        lemma_name_reads_as_written(name@);
    }

    let segments = split(name);
    let ghost all = texts(segments@);
    let ghost parts = name_parts(all);
    let ghost sep = seq![sym("::")];
    let len = segments.len();
    let mut output: Vec<Token> = Vec::new();
    let mut i: usize = 0;
    while i < len
        invariant
            i <= len,
            len == segments.len(),
            all == texts(segments@),
            parts == name_parts(all),
            sep == seq![sym("::")],
            views(output@) == joined(parts.take(i as int), sep),
        decreases len - i,
    {
        if i > 0 {
            output.push(Token::symbol("::"));
        }
        let segment = segments[i];
        let token = if i == 0 && same_text(segment, "$crate") {
            Token::identifier(segment)
        } else if i == len - 1 {
            Token::type_(segment)
        } else {
            Token::identifier(segment)
        };
        output.push(token);
        proof {
            let part = seq![name_part_token(all, i as int)];
            assert(parts.take(i + 1) =~= parts.take(i as int).push(part));
            lemma_joined_push(parts.take(i as int), part, sep);
        }
        i += 1;
    }
    proof {
        assert(parts.take(i as int) =~= parts);
    }
    output
}

/// Renders what stands in front of the referent of a reference: `&`, the
/// lifetime if there is one, `mut` if it is mutable.
pub fn render_borrow(lifetime: &Option<String>, mutable: bool) -> (output: Vec<Token>)
    ensures
        views(output@) == borrow_tokens(*lifetime, mutable),
{
    broadcast use group_views;

    let mut output = vec![Token::symbol("&")];
    if let Some(lt) = lifetime {
        output.push(Token::lifetime(lt.as_str()));
        output.push(Token::Whitespace);
    }
    if mutable {
        output.push(Token::keyword("mut"));
        output.push(Token::Whitespace);
    }
    output
}

/// Whether a type is the generic parameter `Self`.
pub fn is_self_type(ty: &Type) -> (r: bool)
    ensures
        r == match ty {
            Type::Generic(n) => n@ == "Self"@,
            _ => false,
        },
{
    match ty {
        Type::Generic(n) => same_text(n.as_str(), "Self"),
        _ => false,
    }
}

/// The short form of a parameter `self` of type `Self`, `&Self` or
/// `&mut Self`: `self`, `&self`, `&mut self`. Any other parameter has no
/// short form.
pub fn simplified_self(name: &str, ty: &Type) -> (output: Option<Vec<Token>>)
    ensures
        output is Some <==> is_plain_self(name@, ty),
        output is Some ==> views(output->0@) == self_tokens(ty),
{
    broadcast use group_views;

    if !same_text(name, "self") {
        return None;
    }
    match ty {
        Type::Generic(_) => {
            if is_self_type(ty) {
                let output = vec![Token::self_("self")];
                Some(output)
            } else {
                None
            }
        },
        Type::BorrowedRef { lifetime, mutable, type_ } => {
            if is_self_type(type_) {
                let mut output = render_borrow(lifetime, *mutable);
                output.push(Token::self_("self"));
                Some(output)
            } else {
                None
            }
        },
        _ => None,
    }
}

/// One part more at the end of a list of parts.
pub proof fn lemma_parts_views_push(parts: Seq<Vec<Token>>, part: Vec<Token>)
    ensures
        parts_views(parts.push(part)) == parts_views(parts).push(views(part@)),
{
}

/// Renders a type.
pub fn render_type(root: &ItemIndex, ty: &Type) -> (output: Vec<Token>)
    ensures
        views(output@) == type_tokens(root, ty),
    decreases ty, 0int,
{
    broadcast use group_views;

    match ty {
        Type::ResolvedPath { name, id, args, param_names } => {
            let mut output: Vec<Token> = Vec::new();
            if name.as_str().is_empty() {
                extend(&mut output, render_id(root, id.as_str()));
            } else {
                extend(&mut output, render_name(name.as_str()));
                if let Some(a) = args {
                    extend(&mut output, render_generic_args(root, a));
                }
            }
            if param_names.len() > 0 {
                extend(&mut output, plus());
                extend(&mut output, render_generic_bounds(root, param_names));
            }
            output
        },
        Type::Generic(name) => {
            vec![Token::generic(name.as_str())]
        },
        Type::Primitive(name) => {
            vec![Token::primitive(name.as_str())]
        },
        Type::FunctionPointer(ptr) => {
            let mut output = render_higher_rank_trait_bounds(root, &ptr.generic_params);
            output.push(Token::kind("fn"));
            extend(&mut output, render_fn_decl(root, &ptr.decl));
            output
        },
        Type::Tuple(types) => render_tuple(root, types),
        Type::Slice(inner) => {
            let mut output = vec![Token::symbol("[")];
            extend(&mut output, render_type(root, inner));
            output.push(Token::symbol("]"));
            output
        },
        Type::Array { type_, len } => {
            let mut output = vec![Token::symbol("[")];
            extend(&mut output, render_type(root, type_));
            output.push(Token::symbol(";"));
            output.push(Token::Whitespace);
            output.push(Token::primitive(len.as_str()));
            output.push(Token::symbol("]"));
            output
        },
        Type::ImplTrait(bounds) => {
            let mut output = vec![Token::keyword("impl"), Token::Whitespace];
            extend(&mut output, render_generic_bounds(root, bounds));
            output
        },
        Type::Infer => {
            vec![Token::symbol("_")]
        },
        Type::RawPointer { mutable, type_ } => {
            let mut output = vec![Token::symbol("*")];
            output.push(Token::keyword(if *mutable { "mut" } else { "const" }));
            output.push(Token::Whitespace);
            extend(&mut output, render_type(root, type_));
            output
        },
        Type::BorrowedRef { lifetime, mutable, type_ } => {
            let mut output = render_borrow(lifetime, *mutable);
            extend(&mut output, render_type(root, type_));
            output
        },
        Type::QualifiedPath { name, self_type, trait_ } => {
            let mut output = vec![Token::symbol("<")];
            extend(&mut output, render_type(root, self_type));
            output.push(Token::Whitespace);
            output.push(Token::keyword("as"));
            output.push(Token::Whitespace);
            extend(&mut output, render_type(root, trait_));
            output.push(Token::symbol(">::"));
            output.push(Token::identifier(name.as_str()));
            output
        },
    }
}

/// Renders each type as a part of its own.
pub fn render_types(root: &ItemIndex, types: &Vec<Type>) -> (parts: Vec<Vec<Token>>)
    ensures
        parts_views(parts@) == type_parts(root, types),
    decreases types, 0int,
{
    let ghost all = type_parts(root, types);
    let mut parts: Vec<Vec<Token>> = Vec::new();
    let mut i: usize = 0;
    while i < types.len()
        invariant
            i <= types.len(),
            all == type_parts(root, types),
            parts_views(parts@) == all.take(i as int),
        decreases types.len() - i,
    {
        let ghost before = parts@;
        let part = render_type(root, &types[i]);
        parts.push(part);
        proof {
            lemma_parts_views_push(before, part);
        }
        i += 1;
    }
    parts
}

/// Renders a tuple: the types separated by commas, in parentheses.
pub fn render_tuple(root: &ItemIndex, types: &Vec<Type>) -> (output: Vec<Token>)
    ensures
        views(output@) == tuple_tokens(root, types),
    decreases types, 1int,
{
    broadcast use group_views;

    let start = vec![Token::symbol("(")];
    let end = vec![Token::symbol(")")];
    render_sequence(start, end, comma(), false, render_types(root, types))
}

/// Renders one parameter of a function: the short form for a plain
/// `self`, else the name with a colon (left out where the name is `_`)
/// and the type.
pub fn render_param(root: &ItemIndex, name: &str, ty: &Type) -> (output: Vec<Token>)
    ensures
        views(output@) == param_tokens(root, name@, ty),
    decreases ty, 1int,
{
    broadcast use group_views;

    match simplified_self(name, ty) {
        Some(output) => output,
        None => {
            let mut output: Vec<Token> = Vec::new();
            if !same_text(name, "_") {
                output.push(Token::identifier(name));
                output.push(Token::symbol(":"));
                output.push(Token::Whitespace);
            }
            extend(&mut output, render_type(root, ty));
            output
        },
    }
}

/// Renders each parameter as a part of its own.
pub fn render_params(root: &ItemIndex, inputs: &Vec<(String, Type)>) -> (parts: Vec<Vec<Token>>)
    ensures
        parts_views(parts@) == param_parts(root, inputs),
    decreases inputs, 0int,
{
    let ghost all = param_parts(root, inputs);
    let mut parts: Vec<Vec<Token>> = Vec::new();
    let mut i: usize = 0;
    while i < inputs.len()
        invariant
            i <= inputs.len(),
            all == param_parts(root, inputs),
            parts_views(parts@) == all.take(i as int),
        decreases inputs.len() - i,
    {
        let ghost before = parts@;
        let part = render_param(root, inputs[i].0.as_str(), &inputs[i].1);
        parts.push(part);
        proof {
            lemma_parts_views_push(before, part);
        }
        i += 1;
    }
    parts
}

/// Renders parameters and return type: the parameters separated by commas,
/// in parentheses that are always there, then the arrow and the return
/// type if there is one.
pub fn render_fn_decl(root: &ItemIndex, decl: &FnDecl) -> (output: Vec<Token>)
    ensures
        views(output@) == fn_decl_tokens(root, decl),
    decreases decl, 0int,
{
    broadcast use group_views;

    let start = vec![Token::symbol("(")];
    let end = vec![Token::symbol(")")];
    let mut output = render_sequence(start, end, comma(), false, render_params(root, &decl.inputs));
    if let Some(ty) = &decl.output {
        extend(&mut output, arrow());
        extend(&mut output, render_type(root, ty));
    }
    output
}

/// Renders a constant: its type, then ` = ` and the value where it is
/// known.
pub fn render_constant(root: &ItemIndex, constant: &Constant) -> (output: Vec<Token>)
    ensures
        views(output@) == constant_tokens(root, constant),
    decreases constant, 0int,
{
    broadcast use group_views;

    let mut output = render_type(root, &constant.type_);
    if let Some(value) = &constant.value {
        extend(&mut output, equals());
        if constant.is_literal {
            output.push(Token::primitive(value.as_str()));
        } else {
            output.push(Token::identifier(value.as_str()));
        }
    }
    output
}

/// Renders a type or a constant.
pub fn render_term(root: &ItemIndex, term: &Term) -> (output: Vec<Token>)
    ensures
        views(output@) == term_tokens(root, term),
    decreases term, 0int,
{
    match term {
        Term::Type(ty) => render_type(root, ty),
        Term::Constant(c) => render_constant(root, c),
    }
}

/// Renders one generic argument.
pub fn render_generic_arg(root: &ItemIndex, arg: &GenericArg) -> (output: Vec<Token>)
    ensures
        views(output@) == generic_arg_tokens(root, arg),
    decreases arg, 0int,
{
    broadcast use group_views;

    match arg {
        GenericArg::Lifetime(name) => {
            vec![Token::lifetime(name.as_str())]
        },
        GenericArg::Type(ty) => render_type(root, ty),
        GenericArg::Const(c) => render_constant(root, c),
        GenericArg::Infer => {
            vec![Token::symbol("_")]
        },
    }
}

/// Renders one binding of an associated type: its name, its generic
/// arguments, and what it is bound to.
pub fn render_binding(root: &ItemIndex, binding: &TypeBinding) -> (output: Vec<Token>)
    ensures
        views(output@) == binding_tokens(root, binding),
    decreases binding, 0int,
{
    broadcast use group_views;

    let mut output = vec![Token::identifier(binding.name.as_str())];
    extend(&mut output, render_generic_args(root, &binding.args));
    match &binding.binding {
        TypeBindingKind::Equality(term) => {
            extend(&mut output, equals());
            extend(&mut output, render_term(root, term));
        },
        TypeBindingKind::Constraint(bounds) => {
            extend(&mut output, render_generic_bounds(root, bounds));
        },
    }
    output
}

/// Renders each generic argument as a part of its own.
pub fn render_generic_arg_list(root: &ItemIndex, args: &Vec<GenericArg>) -> (parts: Vec<Vec<Token>>)
    ensures
        parts_views(parts@) == generic_arg_parts(root, args),
    decreases args, 0int,
{
    let ghost all = generic_arg_parts(root, args);
    let mut parts: Vec<Vec<Token>> = Vec::new();
    let mut i: usize = 0;
    while i < args.len()
        invariant
            i <= args.len(),
            all == generic_arg_parts(root, args),
            parts_views(parts@) == all.take(i as int),
        decreases args.len() - i,
    {
        let ghost before = parts@;
        let part = render_generic_arg(root, &args[i]);
        parts.push(part);
        proof {
            lemma_parts_views_push(before, part);
        }
        i += 1;
    }
    parts
}

/// Renders each binding as a part of its own.
pub fn render_bindings(root: &ItemIndex, bindings: &Vec<TypeBinding>) -> (parts: Vec<Vec<Token>>)
    ensures
        parts_views(parts@) == binding_parts(root, bindings),
    decreases bindings, 0int,
{
    let ghost all = binding_parts(root, bindings);
    let mut parts: Vec<Vec<Token>> = Vec::new();
    let mut i: usize = 0;
    while i < bindings.len()
        invariant
            i <= bindings.len(),
            all == binding_parts(root, bindings),
            parts_views(parts@) == all.take(i as int),
        decreases bindings.len() - i,
    {
        let ghost before = parts@;
        let part = render_binding(root, &bindings[i]);
        parts.push(part);
        proof {
            lemma_parts_views_push(before, part);
        }
        i += 1;
    }
    parts
}

/// Renders generic arguments. In angle brackets: the arguments, then the
/// bindings, separated by commas; nothing at all where there is neither.
/// In parentheses: the inputs separated by commas, in parentheses that are
/// always there, then the arrow and the output if there is one.
pub fn render_generic_args(root: &ItemIndex, args: &GenericArgs) -> (output: Vec<Token>)
    ensures
        views(output@) == generic_args_tokens(root, args),
    decreases args, 0int,
{
    broadcast use group_views;

    match args {
        GenericArgs::AngleBracketed { args: arguments, bindings } => {
            let mut parts = render_generic_arg_list(root, arguments);
            let mut more = render_bindings(root, bindings);
            let ghost first = parts@;
            let ghost second = more@;
            parts.append(&mut more);
            proof {
                assert(parts_views(parts@) =~= parts_views(first) + parts_views(second));
            }
            let start = vec![Token::symbol("<")];
            let end = vec![Token::symbol(">")];
            render_sequence(start, end, comma(), true, parts)
        },
        GenericArgs::Parenthesized { inputs, output: return_ty } => {
            let start = vec![Token::symbol("(")];
            let end = vec![Token::symbol(")")];
            let mut output = render_sequence(start, end, comma(), false, render_types(root, inputs));
            if let Some(ty) = return_ty {
                extend(&mut output, arrow());
                extend(&mut output, render_type(root, ty));
            }
            output
        },
    }
}

/// Renders one bound: a trait with what `for<..>` introduces in front of
/// it, or a lifetime.
pub fn render_generic_bound(root: &ItemIndex, bound: &GenericBound) -> (output: Vec<Token>)
    ensures
        views(output@) == bound_tokens(root, bound),
    decreases bound, 0int,
{
    broadcast use group_views;

    match bound {
        GenericBound::TraitBound { trait_, generic_params } => {
            let mut output = render_higher_rank_trait_bounds(root, generic_params);
            extend(&mut output, render_type(root, trait_));
            output
        },
        GenericBound::Outlives(lifetime) => {
            vec![Token::lifetime(lifetime.as_str())]
        },
    }
}

/// Renders bounds: joined by ` + `; nothing where there are none.
pub fn render_generic_bounds(root: &ItemIndex, bounds: &Vec<GenericBound>) -> (output: Vec<Token>)
    ensures
        views(output@) == generic_bounds_tokens(root, bounds),
    decreases bounds, 1int,
{
    broadcast use group_views;

    let ghost all = bound_parts(root, bounds);
    let mut parts: Vec<Vec<Token>> = Vec::new();
    let mut i: usize = 0;
    while i < bounds.len()
        invariant
            i <= bounds.len(),
            all == bound_parts(root, bounds),
            parts_views(parts@) == all.take(i as int),
        decreases bounds.len() - i,
    {
        let ghost before = parts@;
        let part = render_generic_bound(root, &bounds[i]);
        parts.push(part);
        proof {
            lemma_parts_views_push(before, part);
        }
        i += 1;
    }
    proof {
        assert(all.take(i as int) =~= all);
    }
    render_sequence(Vec::new(), Vec::new(), plus(), true, parts)
}

/// Renders each lifetime as a part of its own.
pub fn render_lifetimes(lifetimes: &Vec<String>) -> (parts: Vec<Vec<Token>>)
    ensures
        parts_views(parts@) == lifetime_parts(lifetimes@),
{
    broadcast use group_views;

    let ghost all = lifetime_parts(lifetimes@);
    let mut parts: Vec<Vec<Token>> = Vec::new();
    let mut i: usize = 0;
    while i < lifetimes.len()
        invariant
            i <= lifetimes.len(),
            all == lifetime_parts(lifetimes@),
            parts_views(parts@) == all.take(i as int),
        decreases lifetimes.len() - i,
    {
        let ghost before = parts@;
        let part = vec![Token::lifetime(lifetimes[i].as_str())];
        parts.push(part);
        proof {
            lemma_parts_views_push(before, part);
            assert(views(part@) =~= seq![TokenView::lifetime(lifetimes@[i as int]@)]);
        }
        i += 1;
    }
    parts
}

/// Renders the declaration of one generic parameter: a lifetime with what
/// it outlives, a type parameter with its bounds, or `const`, the name and
/// the type.
pub fn render_generic_param_def(
    root: &ItemIndex,
    generic_param_def: &GenericParamDef,
) -> (output: Vec<Token>)
    ensures
        views(output@) == generic_param_def_tokens(root, generic_param_def),
    decreases generic_param_def, 0int,
{
    broadcast use group_views;

    let mut output: Vec<Token> = Vec::new();
    match &generic_param_def.kind {
        GenericParamDefKind::Lifetime { outlives } => {
            output.push(Token::lifetime(generic_param_def.name.as_str()));
            if outlives.len() > 0 {
                extend(&mut output, colon());
                extend(
                    &mut output,
                    render_sequence(Vec::new(), Vec::new(), plus(), true, render_lifetimes(outlives)),
                );
            }
        },
        GenericParamDefKind::Type { bounds, .. } => {
            output.push(Token::generic(generic_param_def.name.as_str()));
            if bounds.len() > 0 {
                extend(&mut output, colon());
                extend(&mut output, render_generic_bounds(root, bounds));
            }
        },
        GenericParamDefKind::Const { type_ } => {
            output.push(Token::qualifier("const"));
            output.push(Token::Whitespace);
            output.push(Token::identifier(generic_param_def.name.as_str()));
            extend(&mut output, colon());
            extend(&mut output, render_type(root, type_));
        },
    }
    output
}

/// Whether the compiler introduced the parameter.
pub fn synthetic(param: &GenericParamDef) -> (r: bool)
    ensures
        r == is_synthetic(param),
{
    match &param.kind {
        GenericParamDefKind::Type { synthetic, .. } => *synthetic,
        _ => false,
    }
}

/// Renders a list of generic parameters: those that the compiler did not
/// introduce, separated by commas, in angle brackets; nothing where none
/// is left.
pub fn render_generic_param_defs(
    root: &ItemIndex,
    params: &Vec<GenericParamDef>,
) -> (output: Vec<Token>)
    ensures
        views(output@) == generic_param_defs_tokens(root, params),
    decreases params, 1int,
{
    broadcast use group_views;

    let mut parts: Vec<Vec<Token>> = Vec::new();
    let mut i: usize = 0;
    while i < params.len()
        invariant
            i <= params.len(),
            parts_views(parts@) == generic_param_def_parts(root, params@.take(i as int)),
        decreases params.len() - i,
    {
        proof {
            assert(params@.take(i + 1).drop_last() =~= params@.take(i as int));
        }
        if !synthetic(&params[i]) {
            let ghost before = parts@;
            let part = render_generic_param_def(root, &params[i]);
            parts.push(part);
            proof {
                lemma_parts_views_push(before, part);
            }
        }
        i += 1;
    }
    proof {
        assert(params@.take(i as int) =~= params@);
    }
    let start = vec![Token::symbol("<")];
    let end = vec![Token::symbol(">")];
    render_sequence(start, end, comma(), true, parts)
}

/// Renders what `for<..>` introduces: `for`, the parameters, a space;
/// nothing where there are no parameters.
pub fn render_higher_rank_trait_bounds(
    root: &ItemIndex,
    generic_params: &Vec<GenericParamDef>,
) -> (output: Vec<Token>)
    ensures
        views(output@) == higher_rank_tokens(root, generic_params),
    decreases generic_params, 2int,
{
    broadcast use group_views;

    let mut output: Vec<Token> = Vec::new();
    if generic_params.len() > 0 {
        output.push(Token::keyword("for"));
        extend(&mut output, render_generic_param_defs(root, generic_params));
        output.push(Token::Whitespace);
    }
    output
}

/// Renders one predicate of a `where` clause.
pub fn render_where_predicate(
    root: &ItemIndex,
    where_predicate: &WherePredicate,
) -> (output: Vec<Token>)
    ensures
        views(output@) == where_predicate_tokens(root, where_predicate),
{
    broadcast use group_views;

    let mut output: Vec<Token> = Vec::new();
    match where_predicate {
        WherePredicate::BoundPredicate { type_, bounds, generic_params } => {
            extend(&mut output, render_higher_rank_trait_bounds(root, generic_params));
            extend(&mut output, render_type(root, type_));
            extend(&mut output, colon());
            extend(&mut output, render_generic_bounds(root, bounds));
        },
        WherePredicate::RegionPredicate { lifetime } => {
            output.push(Token::lifetime(lifetime.as_str()));
        },
        WherePredicate::EqPredicate { lhs, rhs } => {
            extend(&mut output, render_type(root, lhs));
            extend(&mut output, equals());
            extend(&mut output, render_term(root, rhs));
        },
    }
    output
}

/// Renders a `where` clause: ` where ` and the predicates separated by
/// commas; nothing where there are no predicates.
pub fn render_where_predicates(
    root: &ItemIndex,
    where_predicates: &Vec<WherePredicate>,
) -> (output: Vec<Token>)
    ensures
        views(output@) == where_predicates_tokens(root, where_predicates),
{
    broadcast use group_views;

    let mut output: Vec<Token> = Vec::new();
    if where_predicates.len() > 0 {
        let ghost all = where_predicate_parts(root, where_predicates@);
        let mut parts: Vec<Vec<Token>> = Vec::new();
        let mut i: usize = 0;
        while i < where_predicates.len()
            invariant
                i <= where_predicates.len(),
                all == where_predicate_parts(root, where_predicates@),
                parts_views(parts@) == all.take(i as int),
            decreases where_predicates.len() - i,
        {
            let ghost before = parts@;
            let part = render_where_predicate(root, &where_predicates[i]);
            parts.push(part);
            proof {
                lemma_parts_views_push(before, part);
            }
            i += 1;
        }
        proof {
            assert(all.take(i as int) =~= all);
        }
        output.push(Token::Whitespace);
        output.push(Token::keyword("where"));
        output.push(Token::Whitespace);
        extend(&mut output, render_sequence(Vec::new(), Vec::new(), comma(), true, parts));
    }
    output
}

/// Renders generic parameters followed by the `where` clause.
pub fn render_generics(root: &ItemIndex, generics: &Generics) -> (output: Vec<Token>)
    ensures
        views(output@) == generics_tokens(root, generics),
{
    broadcast use group_views;

    let mut output = render_generic_param_defs(root, &generics.params);
    extend(&mut output, render_where_predicates(root, &generics.where_predicates));
    output
}

/// Renders the qualifiers of a function in their fixed order: `unsafe`,
/// `const`, `async`, then the calling convention unless it is the default
/// one; each followed by a space.
pub fn render_header(header: &Header) -> (output: Vec<Token>)
    ensures
        views(output@) == header_tokens(header),
{
    broadcast use group_views;

    let mut output: Vec<Token> = Vec::new();
    if header.unsafe_ {
        output.push(Token::qualifier("unsafe"));
        output.push(Token::Whitespace);
    }
    if header.const_ {
        output.push(Token::qualifier("const"));
        output.push(Token::Whitespace);
    }
    if header.async_ {
        output.push(Token::qualifier("async"));
        output.push(Token::Whitespace);
    }
    let abi = match &header.abi {
        Abi::Rust => None,
        Abi::C => Some(Token::qualifier("c")),
        Abi::Cdecl => Some(Token::qualifier("cdecl")),
        Abi::Stdcall => Some(Token::qualifier("stdcall")),
        Abi::Fastcall => Some(Token::qualifier("fastcall")),
        Abi::Aapcs => Some(Token::qualifier("aapcs")),
        Abi::Win64 => Some(Token::qualifier("win64")),
        Abi::SysV64 => Some(Token::qualifier("sysV64")),
        Abi::System => Some(Token::qualifier("system")),
        Abi::Other(text) => Some(Token::qualifier(text.as_str())),
    };
    if let Some(token) = abi {
        output.push(token);
        output.push(Token::Whitespace);
    }
    output
}

/// Renders a function: `pub`, the qualifiers, `fn`, the name, the generic
/// parameters, the parameters and the return type, the `where` clause.
pub fn render_function(
    root: &ItemIndex,
    name: Vec<Token>,
    decl: &FnDecl,
    generics: &Generics,
    header: &Header,
) -> (output: Vec<Token>)
    ensures
        views(output@) == function_tokens(root, views(name@), decl, generics, header),
{
    broadcast use group_views;

    let mut output = vec![Token::qualifier("pub"), Token::Whitespace];
    extend(&mut output, render_header(header));
    output.push(Token::kind("fn"));
    output.push(Token::Whitespace);
    extend(&mut output, name);
    extend(&mut output, render_generic_param_defs(root, &generics.params));
    extend(&mut output, render_fn_decl(root, decl));
    extend(&mut output, render_where_predicates(root, &generics.where_predicates));
    output
}

/// Renders the invocation of a procedural macro by name: `name!()`,
/// `#[name]` or `#[derive(name)]`.
pub fn render_proc_macro(kind: MacroKind, name: &str) -> (output: Vec<Token>)
    ensures
        views(output@) == proc_macro_tokens(kind, name@),
{
    broadcast use group_views;

    let name = Token::identifier(name);
    match kind {
        MacroKind::Bang => vec![name, Token::symbol("!()")],
        MacroKind::Attr => vec![Token::symbol("#["), name, Token::symbol("]")],
        MacroKind::Derive => vec![Token::symbol("#[derive("), name, Token::symbol(")]")],
    }
}

/// The words that say what kind of item a signature declares.
pub fn tags(inner: &ItemEnum) -> (tags: &'static [&'static str])
    ensures
        tags@ == item_tags(inner),
{
    let tags: &'static [&'static str] = match inner {
        ItemEnum::Module => &["mod"],
        ItemEnum::ExternCrate => &["extern", "crate"],
        ItemEnum::Import => &["use"],
        ItemEnum::Union => &["union"],
        ItemEnum::Struct { .. } => &["struct"],
        ItemEnum::StructField(_) => &["struct", "field"],
        ItemEnum::Enum { .. } => &["enum"],
        ItemEnum::Variant(_) => &["enum", "variant"],
        ItemEnum::Function(_) | ItemEnum::Method(_) => &[],
        ItemEnum::Trait { is_unsafe, .. } => if *is_unsafe {
            &["unsafe", "trait"]
        } else {
            &["trait"]
        },
        ItemEnum::TraitAlias => &["trait", "alias"],
        ItemEnum::Impl => &["impl"],
        ItemEnum::Typedef { .. } => &["type"],
        ItemEnum::AssocType { .. } => &["type"],
        ItemEnum::OpaqueTy => &["opaque", "type"],
        ItemEnum::Constant(_) => &["const"],
        ItemEnum::AssocConst { .. } => &["const"],
        ItemEnum::Static { mutable, .. } => if *mutable {
            &["mut", "static"]
        } else {
            &["static"]
        },
        ItemEnum::ForeignType => &["type"],
        ItemEnum::Macro => &["macro"],
        ItemEnum::ProcMacro(_) => &["proc", "macro"],
        ItemEnum::PrimitiveType => &["primitive", "type"],
    };
    tags
}

/// Renders what the signature of an item shows after its path.
pub fn render_detail(root: &ItemIndex, inner: &ItemEnum) -> (output: Vec<Token>)
    ensures
        views(output@) == detail_tokens(root, inner),
{
    broadcast use group_views;

    match inner {
        ItemEnum::Struct { generics } => render_generics(root, generics),
        ItemEnum::StructField(ty) => {
            let mut output = colon();
            extend(&mut output, render_type(root, ty));
            output
        },
        ItemEnum::Enum { generics } => render_generics(root, generics),
        ItemEnum::Variant(variant) => match variant {
            Variant::Tuple(types) => render_tuple(root, types),
            Variant::Plain | Variant::Struct => Vec::new(),
        },
        ItemEnum::Trait { generics, .. } => render_generics(root, generics),
        ItemEnum::Typedef { type_, generics } => {
            let mut output = render_generics(root, generics);
            extend(&mut output, equals());
            extend(&mut output, render_type(root, type_));
            output
        },
        ItemEnum::AssocType { generics, bounds, default } => {
            let mut output = render_generics(root, generics);
            extend(&mut output, render_generic_bounds(root, bounds));
            if let Some(ty) = default {
                extend(&mut output, equals());
                extend(&mut output, render_type(root, ty));
            }
            output
        },
        ItemEnum::Constant(constant) => {
            let mut output = colon();
            extend(&mut output, render_constant(root, constant));
            output
        },
        ItemEnum::AssocConst { type_ } => {
            let mut output = colon();
            extend(&mut output, render_type(root, type_));
            output
        },
        ItemEnum::Static { type_, .. } => {
            let mut output = colon();
            extend(&mut output, render_type(root, type_));
            output
        },
        ItemEnum::Macro => {
            vec![Token::symbol("!")]
        },
        _ => Vec::new(),
    }
}

/// Renders the canonical signature of an item. The result is never empty:
/// it starts with `pub`.
pub fn token_stream(item: &IntermediatePublicItem) -> (output: Vec<Token>)
    ensures
        views(output@) == item_tokens(item),
        output@.len() > 0,
        views(output@)[0] == qual("pub"),
{
    broadcast use group_views;

    let root = item.root;
    let inner = &item.item.inner;
    proof {
        lemma_item_tokens_start_with_pub(item);
    }
    match inner {
        ItemEnum::Function(f) | ItemEnum::Method(f) => {
            render_function(root, render_path(&item.path), &f.decl, &f.generics, &f.header)
        },
        ItemEnum::ProcMacro(kind) => {
            let mut output = render_simple(tags(inner), &item.path);
            // The name goes inside the invocation, not at the end of the path.
            output.pop();
            let name = match &item.item.name {
                Some(name) => name.as_str(),
                None => "",
            };
            proof {
                lemma_tags_tokens_len(item_tags(inner));
                assert(""@ =~= Seq::<char>::empty()) by {
                    reveal_strlit("");
                }
            }
            extend(&mut output, render_proc_macro(*kind, name));
            output
        },
        _ => {
            let mut output = render_simple(tags(inner), &item.path);
            extend(&mut output, render_detail(root, inner));
            output
        },
    }
}

} // verus!
