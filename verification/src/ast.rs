//! The description of a library's surface that signatures are rendered from.
//!
//! The types here hold what rendering reads of an item: its kind with the
//! payload of that kind, types with their generic arguments and bounds, and
//! an index from identifiers to names for references that carry no name of
//! their own.

use vstd::hash_map::StringHashMap;
use vstd::prelude::*;

verus! {

/// A type, as it is written in a signature.
#[derive(Debug, PartialEq, Eq)]
pub enum Type {
    /// A struct, an enum or a trait, referred to by path.
    ResolvedPath {
        /// The path as written, segments joined by `::`. May be empty.
        name: String,
        /// The identifier of the item that the path resolves to.
        id: String,
        /// Generic arguments, if any were given.
        args: Option<Box<GenericArgs>>,
        /// Further bounds, as in `dyn Trait + Send`.
        param_names: Vec<GenericBound>,
    },
    /// A generic parameter, like `T`.
    Generic(String),
    /// A primitive type, like `usize`.
    Primitive(String),
    /// A function pointer, like `fn(u8) -> u8`.
    FunctionPointer(Box<FunctionPointer>),
    /// A tuple, like `(String, u32)`.
    Tuple(Vec<Type>),
    /// A slice, like `[u32]`.
    Slice(Box<Type>),
    /// An array, like `[u32; 15]`.
    Array {
        type_: Box<Type>,
        /// The length, as text.
        len: String,
    },
    /// `impl TraitA + TraitB`.
    ImplTrait(Vec<GenericBound>),
    /// `_`.
    Infer,
    /// A raw pointer, like `*mut u32` or `*const u8`.
    RawPointer { mutable: bool, type_: Box<Type> },
    /// A reference, like `&'a mut String`.
    BorrowedRef { lifetime: Option<String>, mutable: bool, type_: Box<Type> },
    /// `<Type as Trait>::Name`.
    QualifiedPath { name: String, self_type: Box<Type>, trait_: Box<Type> },
}

/// The type of a function pointer.
#[derive(Debug, PartialEq, Eq)]
pub struct FunctionPointer {
    pub decl: FnDecl,
    /// Parameters introduced by `for<..>`.
    pub generic_params: Vec<GenericParamDef>,
}

/// The parameters and the return type of a function.
#[derive(Debug, PartialEq, Eq)]
pub struct FnDecl {
    /// Each parameter with its name and type.
    pub inputs: Vec<(String, Type)>,
    pub output: Option<Type>,
}

/// The generic arguments of a path segment.
#[derive(Debug, PartialEq, Eq)]
pub enum GenericArgs {
    /// `<'a, 32, B: Copy, C = u32>`
    AngleBracketed { args: Vec<GenericArg>, bindings: Vec<TypeBinding> },
    /// `Fn(A, B) -> C`
    Parenthesized { inputs: Vec<Type>, output: Option<Type> },
}

/// One generic argument.
#[derive(Debug, PartialEq, Eq)]
pub enum GenericArg {
    Lifetime(String),
    Type(Type),
    Const(Constant),
    Infer,
}

/// A constant: its type and, where known, its value.
#[derive(Debug, PartialEq, Eq)]
pub struct Constant {
    pub type_: Type,
    pub value: Option<String>,
    /// Whether the value is a literal rather than a name.
    pub is_literal: bool,
}

/// A binding of an associated type, like `Item = u8` in `Iterator<Item = u8>`.
#[derive(Debug, PartialEq, Eq)]
pub struct TypeBinding {
    pub name: String,
    pub args: GenericArgs,
    pub binding: TypeBindingKind,
}

/// What an associated type is bound to.
#[derive(Debug, PartialEq, Eq)]
pub enum TypeBindingKind {
    Equality(Term),
    Constraint(Vec<GenericBound>),
}

/// A type or a constant.
#[derive(Debug, PartialEq, Eq)]
pub enum Term {
    Type(Type),
    Constant(Constant),
}

/// A bound on a type or a lifetime.
#[derive(Debug, PartialEq, Eq)]
pub enum GenericBound {
    TraitBound {
        trait_: Type,
        /// Parameters introduced by `for<..>`.
        generic_params: Vec<GenericParamDef>,
    },
    Outlives(String),
}

/// The declaration of a generic parameter.
#[derive(Debug, PartialEq, Eq)]
pub struct GenericParamDef {
    pub name: String,
    pub kind: GenericParamDefKind,
}

/// The kind of a generic parameter.
#[derive(Debug, PartialEq, Eq)]
pub enum GenericParamDefKind {
    Lifetime { outlives: Vec<String> },
    Type {
        bounds: Vec<GenericBound>,
        /// Whether the compiler introduced the parameter, as it does for
        /// `impl Trait` in argument position.
        synthetic: bool,
    },
    Const { type_: Type },
}

/// Generic parameters and the `where` clause of an item.
#[derive(Debug, PartialEq, Eq)]
pub struct Generics {
    pub params: Vec<GenericParamDef>,
    pub where_predicates: Vec<WherePredicate>,
}

/// One predicate of a `where` clause.
#[derive(Debug, PartialEq, Eq)]
pub enum WherePredicate {
    BoundPredicate {
        type_: Type,
        bounds: Vec<GenericBound>,
        /// Parameters introduced by `for<..>`.
        generic_params: Vec<GenericParamDef>,
    },
    RegionPredicate { lifetime: String },
    EqPredicate { lhs: Type, rhs: Term },
}

/// The calling convention of a function.
#[derive(Clone, Debug, PartialEq, Eq)]
pub enum Abi {
    Rust,
    C,
    Cdecl,
    Stdcall,
    Fastcall,
    Aapcs,
    Win64,
    SysV64,
    System,
    Other(String),
}

/// The qualifiers in front of `fn`.
#[derive(Clone, Debug, PartialEq, Eq)]
pub struct Header {
    pub const_: bool,
    pub unsafe_: bool,
    pub async_: bool,
    pub abi: Abi,
}

/// A function or a method.
#[derive(Debug, PartialEq, Eq)]
pub struct Function {
    pub decl: FnDecl,
    pub generics: Generics,
    pub header: Header,
}

/// The shape of an enum variant.
#[derive(Debug, PartialEq, Eq)]
pub enum Variant {
    Plain,
    Tuple(Vec<Type>),
    /// The fields of a struct variant are items of their own.
    Struct,
}

/// How a procedural macro is invoked.
#[derive(Clone, Copy, Debug, PartialEq, Eq)]
pub enum MacroKind {
    /// `foo!()`
    Bang,
    /// `#[foo]`
    Attr,
    /// `#[derive(Foo)]`
    Derive,
}

/// The kind of an item, with what a signature of that kind shows.
#[derive(Debug, PartialEq, Eq)]
pub enum ItemEnum {
    Module,
    ExternCrate,
    Import,
    Union,
    Struct { generics: Generics },
    StructField(Type),
    Enum { generics: Generics },
    Variant(Variant),
    Function(Function),
    Method(Function),
    Trait { is_unsafe: bool, generics: Generics },
    TraitAlias,
    Impl,
    Typedef { type_: Type, generics: Generics },
    AssocType { generics: Generics, bounds: Vec<GenericBound>, default: Option<Type> },
    OpaqueTy,
    Constant(Constant),
    AssocConst { type_: Type },
    Static { type_: Type, mutable: bool },
    ForeignType,
    Macro,
    ProcMacro(MacroKind),
    PrimitiveType,
}

/// The kind of an item, without its payload.
#[derive(Clone, Copy, Debug, PartialEq, Eq, Structural)]
pub enum ItemKind {
    Module,
    ExternCrate,
    Import,
    Union,
    Struct,
    StructField,
    Enum,
    Variant,
    Function,
    Method,
    Trait,
    TraitAlias,
    Impl,
    Typedef,
    AssocType,
    OpaqueTy,
    Constant,
    AssocConst,
    Static,
    ForeignType,
    Macro,
    ProcMacro,
    PrimitiveType,
}

impl ItemEnum {
    /// The kind of this item.
    pub open spec fn spec_kind(&self) -> ItemKind {
        match self {
            ItemEnum::Module => ItemKind::Module,
            ItemEnum::ExternCrate => ItemKind::ExternCrate,
            ItemEnum::Import => ItemKind::Import,
            ItemEnum::Union => ItemKind::Union,
            ItemEnum::Struct { .. } => ItemKind::Struct,
            ItemEnum::StructField(_) => ItemKind::StructField,
            ItemEnum::Enum { .. } => ItemKind::Enum,
            ItemEnum::Variant(_) => ItemKind::Variant,
            ItemEnum::Function(_) => ItemKind::Function,
            ItemEnum::Method(_) => ItemKind::Method,
            ItemEnum::Trait { .. } => ItemKind::Trait,
            ItemEnum::TraitAlias => ItemKind::TraitAlias,
            ItemEnum::Impl => ItemKind::Impl,
            ItemEnum::Typedef { .. } => ItemKind::Typedef,
            ItemEnum::AssocType { .. } => ItemKind::AssocType,
            ItemEnum::OpaqueTy => ItemKind::OpaqueTy,
            ItemEnum::Constant(_) => ItemKind::Constant,
            ItemEnum::AssocConst { .. } => ItemKind::AssocConst,
            ItemEnum::Static { .. } => ItemKind::Static,
            ItemEnum::ForeignType => ItemKind::ForeignType,
            ItemEnum::Macro => ItemKind::Macro,
            ItemEnum::ProcMacro(_) => ItemKind::ProcMacro,
            ItemEnum::PrimitiveType => ItemKind::PrimitiveType,
        }
    }

    /// The kind of this item.
    #[verifier::when_used_as_spec(spec_kind)]
    pub fn kind(&self) -> (k: ItemKind)
        ensures
            k == self.spec_kind(),
    {
        match self {
            ItemEnum::Module => ItemKind::Module,
            ItemEnum::ExternCrate => ItemKind::ExternCrate,
            ItemEnum::Import => ItemKind::Import,
            ItemEnum::Union => ItemKind::Union,
            ItemEnum::Struct { .. } => ItemKind::Struct,
            ItemEnum::StructField(_) => ItemKind::StructField,
            ItemEnum::Enum { .. } => ItemKind::Enum,
            ItemEnum::Variant(_) => ItemKind::Variant,
            ItemEnum::Function(_) => ItemKind::Function,
            ItemEnum::Method(_) => ItemKind::Method,
            ItemEnum::Trait { .. } => ItemKind::Trait,
            ItemEnum::TraitAlias => ItemKind::TraitAlias,
            ItemEnum::Impl => ItemKind::Impl,
            ItemEnum::Typedef { .. } => ItemKind::Typedef,
            ItemEnum::AssocType { .. } => ItemKind::AssocType,
            ItemEnum::OpaqueTy => ItemKind::OpaqueTy,
            ItemEnum::Constant(_) => ItemKind::Constant,
            ItemEnum::AssocConst { .. } => ItemKind::AssocConst,
            ItemEnum::Static { .. } => ItemKind::Static,
            ItemEnum::ForeignType => ItemKind::ForeignType,
            ItemEnum::Macro => ItemKind::Macro,
            ItemEnum::ProcMacro(_) => ItemKind::ProcMacro,
            ItemEnum::PrimitiveType => ItemKind::PrimitiveType,
        }
    }
}

/// An item of a library's surface.
#[derive(Debug, PartialEq, Eq)]
pub struct Item {
    /// The name of the item. Some items, such as impls, have none.
    pub name: Option<String>,
    pub inner: ItemEnum,
}

/// The index of a crate: for each identifier, the name of the item that it
/// stands for, if that item has one.
pub struct ItemIndex {
    pub index: StringHashMap<Option<String>>,
}

impl ItemIndex {
    /// The name that the index holds for `id`, if it holds one.
    pub open spec fn name_of(&self, id: Seq<char>) -> Option<Seq<char>> {
        if self.index@.contains_key(id) {
            match self.index@[id] {
                Some(name) => Some(name@),
                None => None,
            }
        } else {
            None
        }
    }

    /// An index without entries.
    pub fn new() -> (r: Self)
        ensures
            forall|id: Seq<char>| r.name_of(id) is None,
    {
        ItemIndex { index: StringHashMap::new() }
    }

    /// Records `name` as the name of `id`, in place of what the index held
    /// for `id` before.
    pub fn insert(&mut self, id: String, name: Option<String>)
        ensures
            final(self).name_of(id@) == match name {
                Some(n) => Some(n@),
                None => None,
            },
            forall|other: Seq<char>|
                other != id@ ==> final(self).name_of(other) == old(self).name_of(other),
    {
        self.index.insert(id, name);
    }

    /// The name that the index holds for `id`, if it holds one.
    pub fn name<'a>(&'a self, id: &str) -> (r: Option<&'a String>)
        ensures
            self.name_of(id@) == match r {
                Some(n) => Some(n@),
                None => None,
            },
    {
        match self.index.get(id) {
            Some(Some(name)) => Some(name),
            _ => None,
        }
    }
}

/// One segment of the path of an item: the name under which the segment is
/// shown, and the kind of the item that it names.
#[derive(Clone, Debug, PartialEq, Eq)]
pub struct PathSegment {
    pub name: String,
    pub kind: ItemKind,
}

/// An item together with what rendering it needs: the index of its crate
/// and its path, outermost segment first.
pub struct IntermediatePublicItem<'a> {
    pub root: &'a ItemIndex,
    pub path: Vec<PathSegment>,
    pub item: &'a Item,
}

} // verus!
