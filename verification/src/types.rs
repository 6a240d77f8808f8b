//! The typed data model of the documentation export: entities, type
//! expressions, generics and the root [`Crate`] value, together with the
//! mathematical views the contracts speak of.
//!
//! Every executable type `X` has a view type `XV` whose fields replace
//! `String` by `Seq<char>` and `Vec` by `Seq`; shared subtrees behind [`Arc`]
//! handles view as the value they point to.

use std::sync::Arc;
use vstd::prelude::*;

verus! {

/// An opaque identifier: unique within one decoded document, compared as an
/// exact string.
#[derive(Debug, Eq, Hash)]
pub struct Id(pub String);

impl View for Id {
    type V = Seq<char>;

    open spec fn view(&self) -> Seq<char> {
        self.0@
    }
}

impl Clone for Id {
    fn clone(&self) -> (r: Self)
        ensures
            r == *self,
    {
        Id(self.0.clone())
    }
}

impl PartialEq for Id {
    fn eq(&self, other: &Self) -> (r: bool) {
        self.0.eq(&other.0)
    }
}

impl vstd::std_specs::cmp::PartialEqSpecImpl for Id {
    open spec fn obeys_eq_spec() -> bool {
        true
    }

    open spec fn eq_spec(&self, other: &Self) -> bool {
        self.0@ == other.0@
    }
}

/// What kind of entity an item is: the flat tag that mirrors the active
/// variant of [`ItemEnum`].
#[derive(Debug, Copy, PartialEq, Eq, Structural, Hash)]
pub enum ItemKind {
    Module,
    ExternCrate,
    Import,
    Struct,
    StructField,
    Union,
    Enum,
    Variant,
    Function,
    Typedef,
    OpaqueTy,
    Constant,
    Trait,
    TraitAlias,
    Method,
    Impl,
    Static,
    ForeignType,
    Macro,
    ProcAttribute,
    ProcDerive,
    AssocConst,
    AssocType,
    Primitive,
    Keyword,
}

impl Clone for ItemKind {
    fn clone(&self) -> (r: Self)
        ensures
            r == *self,
    {
        *self
    }
}

#[derive(Debug, Copy, PartialEq, Eq, Structural, Hash)]
pub enum StructType {
    Plain,
    Tuple,
    Unit,
    Union,
}

impl Clone for StructType {
    fn clone(&self) -> (r: Self)
        ensures
            r == *self,
    {
        *self
    }
}

#[derive(Debug, Copy, PartialEq, Eq, Structural, Hash)]
#[non_exhaustive]
pub enum Qualifiers {
    Const,
    Unsafe,
    Async,
}

impl Clone for Qualifiers {
    fn clone(&self) -> (r: Self)
        ensures
            r == *self,
    {
        *self
    }
}

#[derive(Debug, Copy, PartialEq, Eq, Structural, Hash)]
pub enum MacroKind {
    Bang,
    Attr,
    Derive,
}

impl Clone for MacroKind {
    fn clone(&self) -> (r: Self)
        ensures
            r == *self,
    {
        *self
    }
}

#[derive(Debug, Copy, PartialEq, Eq, Structural, Hash)]
pub enum TraitBoundModifier {
    /// An unmodified bound.
    Plain,
    Maybe,
    MaybeConst,
}

impl Clone for TraitBoundModifier {
    fn clone(&self) -> (r: Self)
        ensures
            r == *self,
    {
        *self
    }
}

pub enum VisibilityV {
    Public,
    Default,
    Crate,
    Restricted { parent: Seq<char>, path: Seq<char> },
}

/// Who may see an item.
#[derive(Debug, PartialEq, Eq)]
pub enum Visibility {
    Public,
    /// Private, or public only through its container (trait items, enum
    /// variants).
    Default,
    Crate,
    /// `pub(in path)` visibility: `parent` is the module it is restricted to
    /// and `path` is how that module was written.
    Restricted { parent: Id, path: String },
}

impl View for Visibility {
    type V = VisibilityV;

    open spec fn view(&self) -> VisibilityV {
        match self {
            Visibility::Public => VisibilityV::Public,
            Visibility::Default => VisibilityV::Default,
            Visibility::Crate => VisibilityV::Crate,
            Visibility::Restricted { parent, path } => VisibilityV::Restricted {
                parent: parent@,
                path: path@,
            },
        }
    }
}

pub struct SpanV {
    pub filename: Seq<char>,
    pub begin: (usize, usize),
    pub end: (usize, usize),
}

/// A source location: file plus zero-indexed line/column of the first and
/// last character.
#[derive(Debug, PartialEq, Eq)]
pub struct Span {
    pub filename: String,
    pub begin: (usize, usize),
    pub end: (usize, usize),
}

impl View for Span {
    type V = SpanV;

    open spec fn view(&self) -> SpanV {
        SpanV { filename: self.filename@, begin: self.begin, end: self.end }
    }
}

pub struct DeprecationV {
    pub since: Option<Seq<char>>,
    pub note: Option<Seq<char>>,
}

#[derive(Debug, PartialEq, Eq)]
pub struct Deprecation {
    pub since: Option<String>,
    pub note: Option<String>,
}

impl View for Deprecation {
    type V = DeprecationV;

    open spec fn view(&self) -> DeprecationV {
        DeprecationV { since: view_opt_string(self.since), note: view_opt_string(self.note) }
    }
}

pub open spec fn view_opt_string(s: Option<String>) -> Option<Seq<char>> {
    match s {
        Some(x) => Some(x@),
        None => None,
    }
}

pub open spec fn view_strings(s: Seq<String>) -> Seq<Seq<char>> {
    Seq::new(s.len(), |i: int| s[i]@)
}

pub open spec fn view_ids(s: Seq<Id>) -> Seq<Seq<char>> {
    Seq::new(s.len(), |i: int| s[i]@)
}

pub struct ExternalCrateV {
    pub name: Seq<char>,
    pub html_root_url: Option<Seq<char>>,
}

/// A crate other than the local one, known only by name and possibly by the
/// root URL of its published documentation.
#[derive(Debug, PartialEq, Eq)]
pub struct ExternalCrate {
    pub name: String,
    pub html_root_url: Option<String>,
}

impl View for ExternalCrate {
    type V = ExternalCrateV;

    open spec fn view(&self) -> ExternalCrateV {
        ExternalCrateV { name: self.name@, html_root_url: view_opt_string(self.html_root_url) }
    }
}

pub struct ItemSummaryV {
    pub crate_id: u32,
    pub path: Seq<Seq<char>>,
    pub kind: ItemKind,
}

/// The fully qualified path and kind of an item, used for display and
/// linking; present independently of the full item.
#[derive(Debug, PartialEq, Eq)]
pub struct ItemSummary {
    pub crate_id: u32,
    /// Path components outer-to-inner, ending with the item's own name.
    pub path: Vec<String>,
    pub kind: ItemKind,
}

impl View for ItemSummary {
    type V = ItemSummaryV;

    open spec fn view(&self) -> ItemSummaryV {
        ItemSummaryV { crate_id: self.crate_id, path: view_strings(self.path@), kind: self.kind }
    }
}

// ---------------------------------------------------------------------------
// The mutually recursive type-expression group.
// ---------------------------------------------------------------------------

pub enum TypeV {
    ResolvedPath {
        name: Seq<char>,
        id: Seq<char>,
        args: Option<Box<GenericArgsV>>,
        param_names: Seq<GenericBoundV>,
    },
    Generic(Seq<char>),
    Primitive(Seq<char>),
    FunctionPointer(FunctionPointerV),
    Tuple(Seq<TypeV>),
    Slice(Box<TypeV>),
    Array { type_: Box<TypeV>, len: Seq<char> },
    ImplTrait(Seq<GenericBoundV>),
    Never,
    Infer,
    RawPointer { mutable: bool, type_: Box<TypeV> },
    BorrowedRef { lifetime: Option<Seq<char>>, mutable: bool, type_: Box<TypeV> },
    QualifiedPath { name: Seq<char>, self_type: Box<TypeV>, trait_: Box<TypeV> },
}

pub enum GenericArgsV {
    AngleBracketed { args: Seq<GenericArgV>, bindings: Seq<TypeBindingV> },
    Parenthesized { inputs: Seq<TypeV>, output: Option<Box<TypeV>> },
}

pub enum GenericArgV {
    Lifetime(Seq<char>),
    Type(TypeV),
    Const(ConstantV),
}

pub struct ConstantV {
    pub type_: Box<TypeV>,
    pub expr: Seq<char>,
    pub value: Option<Seq<char>>,
    pub is_literal: bool,
}

pub struct TypeBindingV {
    pub name: Seq<char>,
    pub binding: TypeBindingKindV,
}

pub enum TypeBindingKindV {
    Equality(TypeV),
    Constraint(Seq<GenericBoundV>),
}

pub enum GenericBoundV {
    TraitBound {
        trait_: TypeV,
        generic_params: Seq<GenericParamDefV>,
        modifier: TraitBoundModifier,
    },
    Outlives(Seq<char>),
}

pub struct GenericParamDefV {
    pub name: Seq<char>,
    pub kind: GenericParamDefKindV,
}

pub enum GenericParamDefKindV {
    Lifetime,
    Type { bounds: Seq<GenericBoundV>, default: Option<Box<TypeV>> },
    Const(Box<TypeV>),
}

pub enum WherePredicateV {
    BoundPredicate { ty: TypeV, bounds: Seq<GenericBoundV> },
    RegionPredicate { lifetime: Seq<char>, bounds: Seq<GenericBoundV> },
    EqPredicate { lhs: TypeV, rhs: TypeV },
}

pub struct GenericsV {
    pub params: Seq<GenericParamDefV>,
    pub where_predicates: Seq<WherePredicateV>,
}

pub struct FunctionPointerV {
    pub decl: FnDeclV,
    pub generic_params: Seq<GenericParamDefV>,
    pub header: Seq<Qualifiers>,
    pub abi: Seq<char>,
}

pub struct FnDeclV {
    pub inputs: Seq<(Seq<char>, TypeV)>,
    pub output: Option<Box<TypeV>>,
    pub c_variadic: bool,
}

/// One type expression. Nested expressions sit behind shared, immutable
/// [`Arc`] handles so that subtrees can be reused across many snapshots
/// without deep copies.
#[derive(Debug, PartialEq)]
pub enum Type {
    /// A named type with a known identifier: structs, enums and traits.
    ResolvedPath {
        name: String,
        id: Id,
        args: Option<Arc<GenericArgs>>,
        param_names: Vec<GenericBound>,
    },
    /// A type parameter, by name.
    Generic(String),
    Primitive(String),
    FunctionPointer(Arc<FunctionPointer>),
    Tuple(Vec<Type>),
    Slice(Arc<Type>),
    /// The length is kept as source text: it may be any constant expression.
    Array { type_: Arc<Type>, len: String },
    ImplTrait(Vec<GenericBound>),
    Never,
    Infer,
    RawPointer { mutable: bool, type_: Arc<Type> },
    BorrowedRef { lifetime: Option<String>, mutable: bool, type_: Arc<Type> },
    /// `<Self as Trait>::Name`; a trait whose name is empty stands for an
    /// inherent qualified path.
    QualifiedPath { name: String, self_type: Arc<Type>, trait_: Arc<Type> },
}

#[derive(Debug, PartialEq)]
pub enum GenericArgs {
    AngleBracketed { args: Vec<GenericArg>, bindings: Vec<TypeBinding> },
    Parenthesized { inputs: Vec<Type>, output: Option<Type> },
}

#[derive(Debug, PartialEq)]
pub enum GenericArg {
    Lifetime(String),
    Type(Type),
    Const(Constant),
}

#[derive(Debug, PartialEq)]
pub struct Constant {
    pub type_: Arc<Type>,
    pub expr: String,
    pub value: Option<String>,
    pub is_literal: bool,
}

#[derive(Debug, PartialEq)]
pub struct TypeBinding {
    pub name: String,
    pub binding: TypeBindingKind,
}

#[derive(Debug, PartialEq)]
pub enum TypeBindingKind {
    Equality(Type),
    Constraint(Vec<GenericBound>),
}

#[derive(Debug, PartialEq)]
pub enum GenericBound {
    TraitBound {
        trait_: Type,
        /// Parameters introduced by `for<..>`, for higher-ranked bounds.
        generic_params: Vec<GenericParamDef>,
        modifier: TraitBoundModifier,
    },
    Outlives(String),
}

#[derive(Debug, PartialEq)]
pub struct GenericParamDef {
    pub name: String,
    pub kind: GenericParamDefKind,
}

#[derive(Debug, PartialEq)]
pub enum GenericParamDefKind {
    Lifetime,
    Type { bounds: Vec<GenericBound>, default: Option<Arc<Type>> },
    Const(Arc<Type>),
}

#[derive(Debug, PartialEq)]
pub enum WherePredicate {
    BoundPredicate { ty: Type, bounds: Vec<GenericBound> },
    RegionPredicate { lifetime: String, bounds: Vec<GenericBound> },
    EqPredicate { lhs: Type, rhs: Type },
}

#[derive(Debug, PartialEq)]
pub struct Generics {
    pub params: Vec<GenericParamDef>,
    pub where_predicates: Vec<WherePredicate>,
}

#[derive(Debug, PartialEq)]
pub struct FunctionPointer {
    pub decl: FnDecl,
    pub generic_params: Vec<GenericParamDef>,
    pub header: Vec<Qualifiers>,
    pub abi: String,
}

#[derive(Debug, PartialEq)]
pub struct FnDecl {
    pub inputs: Vec<(String, Type)>,
    pub output: Option<Type>,
    pub c_variadic: bool,
}

// Views of the recursive group, as one mutually recursive family.

pub open spec fn view_type(t: Type) -> TypeV
    decreases t,
{
    match t {
        Type::ResolvedPath { name, id, args, param_names } => TypeV::ResolvedPath {
            name: name@,
            id: id@,
            args: match args {
                Some(a) => Some(Box::new(view_generic_args(*a))),
                None => None,
            },
            param_names: view_bounds(param_names@),
        },
        Type::Generic(g) => TypeV::Generic(g@),
        Type::Primitive(p) => TypeV::Primitive(p@),
        Type::FunctionPointer(f) => TypeV::FunctionPointer(view_function_pointer(*f)),
        Type::Tuple(ts) => TypeV::Tuple(view_types(ts@)),
        Type::Slice(s) => TypeV::Slice(Box::new(view_type(*s))),
        Type::Array { type_, len } => TypeV::Array {
            type_: Box::new(view_type(*type_)),
            len: len@,
        },
        Type::ImplTrait(bs) => TypeV::ImplTrait(view_bounds(bs@)),
        Type::Never => TypeV::Never,
        Type::Infer => TypeV::Infer,
        Type::RawPointer { mutable, type_ } => TypeV::RawPointer {
            mutable,
            type_: Box::new(view_type(*type_)),
        },
        Type::BorrowedRef { lifetime, mutable, type_ } => TypeV::BorrowedRef {
            lifetime: view_opt_string(lifetime),
            mutable,
            type_: Box::new(view_type(*type_)),
        },
        Type::QualifiedPath { name, self_type, trait_ } => TypeV::QualifiedPath {
            name: name@,
            self_type: Box::new(view_type(*self_type)),
            trait_: Box::new(view_type(*trait_)),
        },
    }
}

pub open spec fn view_types(ts: Seq<Type>) -> Seq<TypeV>
    decreases ts,
{
    if ts.len() == 0 {
        Seq::empty()
    } else {
        seq![view_type(ts[0])] + view_types(ts.drop_first())
    }
}

pub open spec fn view_opt_type(t: Option<Type>) -> Option<Box<TypeV>>
    decreases t,
{
    match t {
        Some(x) => Some(Box::new(view_type(x))),
        None => None,
    }
}

pub open spec fn view_generic_args(a: GenericArgs) -> GenericArgsV
    decreases a,
{
    match a {
        GenericArgs::AngleBracketed { args, bindings } => GenericArgsV::AngleBracketed {
            args: view_generic_arg_seq(args@),
            bindings: view_bindings(bindings@),
        },
        GenericArgs::Parenthesized { inputs, output } => GenericArgsV::Parenthesized {
            inputs: view_types(inputs@),
            output: view_opt_type(output),
        },
    }
}

pub open spec fn view_generic_arg(a: GenericArg) -> GenericArgV
    decreases a,
{
    match a {
        GenericArg::Lifetime(s) => GenericArgV::Lifetime(s@),
        GenericArg::Type(t) => GenericArgV::Type(view_type(t)),
        GenericArg::Const(c) => GenericArgV::Const(view_constant(c)),
    }
}

pub open spec fn view_generic_arg_seq(s: Seq<GenericArg>) -> Seq<GenericArgV>
    decreases s,
{
    if s.len() == 0 {
        Seq::empty()
    } else {
        seq![view_generic_arg(s[0])] + view_generic_arg_seq(s.drop_first())
    }
}

pub open spec fn view_constant(c: Constant) -> ConstantV
    decreases c,
{
    ConstantV {
        type_: Box::new(view_type(*c.type_)),
        expr: c.expr@,
        value: view_opt_string(c.value),
        is_literal: c.is_literal,
    }
}

pub open spec fn view_binding(b: TypeBinding) -> TypeBindingV
    decreases b,
{
    TypeBindingV { name: b.name@, binding: view_binding_kind(b.binding) }
}

pub open spec fn view_bindings(s: Seq<TypeBinding>) -> Seq<TypeBindingV>
    decreases s,
{
    if s.len() == 0 {
        Seq::empty()
    } else {
        seq![view_binding(s[0])] + view_bindings(s.drop_first())
    }
}

pub open spec fn view_binding_kind(k: TypeBindingKind) -> TypeBindingKindV
    decreases k,
{
    match k {
        TypeBindingKind::Equality(t) => TypeBindingKindV::Equality(view_type(t)),
        TypeBindingKind::Constraint(bs) => TypeBindingKindV::Constraint(view_bounds(bs@)),
    }
}

pub open spec fn view_bound(b: GenericBound) -> GenericBoundV
    decreases b,
{
    match b {
        GenericBound::TraitBound { trait_, generic_params, modifier } => {
            GenericBoundV::TraitBound {
                trait_: view_type(trait_),
                generic_params: view_params(generic_params@),
                modifier,
            }
        },
        GenericBound::Outlives(s) => GenericBoundV::Outlives(s@),
    }
}

pub open spec fn view_bounds(s: Seq<GenericBound>) -> Seq<GenericBoundV>
    decreases s,
{
    if s.len() == 0 {
        Seq::empty()
    } else {
        seq![view_bound(s[0])] + view_bounds(s.drop_first())
    }
}

pub open spec fn view_param(p: GenericParamDef) -> GenericParamDefV
    decreases p,
{
    GenericParamDefV { name: p.name@, kind: view_param_kind(p.kind) }
}

pub open spec fn view_params(s: Seq<GenericParamDef>) -> Seq<GenericParamDefV>
    decreases s,
{
    if s.len() == 0 {
        Seq::empty()
    } else {
        seq![view_param(s[0])] + view_params(s.drop_first())
    }
}

pub open spec fn view_param_kind(k: GenericParamDefKind) -> GenericParamDefKindV
    decreases k,
{
    match k {
        GenericParamDefKind::Lifetime => GenericParamDefKindV::Lifetime,
        GenericParamDefKind::Type { bounds, default } => GenericParamDefKindV::Type {
            bounds: view_bounds(bounds@),
            default: match default {
                Some(t) => Some(Box::new(view_type(*t))),
                None => None,
            },
        },
        GenericParamDefKind::Const(t) => GenericParamDefKindV::Const(Box::new(view_type(*t))),
    }
}

pub open spec fn view_where_predicate(w: WherePredicate) -> WherePredicateV
    decreases w,
{
    match w {
        WherePredicate::BoundPredicate { ty, bounds } => WherePredicateV::BoundPredicate {
            ty: view_type(ty),
            bounds: view_bounds(bounds@),
        },
        WherePredicate::RegionPredicate { lifetime, bounds } => {
            WherePredicateV::RegionPredicate { lifetime: lifetime@, bounds: view_bounds(bounds@) }
        },
        WherePredicate::EqPredicate { lhs, rhs } => WherePredicateV::EqPredicate {
            lhs: view_type(lhs),
            rhs: view_type(rhs),
        },
    }
}

pub open spec fn view_wheres(s: Seq<WherePredicate>) -> Seq<WherePredicateV>
    decreases s,
{
    if s.len() == 0 {
        Seq::empty()
    } else {
        seq![view_where_predicate(s[0])] + view_wheres(s.drop_first())
    }
}

pub open spec fn view_generics(g: Generics) -> GenericsV
    decreases g,
{
    GenericsV {
        params: view_params(g.params@),
        where_predicates: view_wheres(g.where_predicates@),
    }
}

pub open spec fn view_function_pointer(f: FunctionPointer) -> FunctionPointerV
    decreases f,
{
    FunctionPointerV {
        decl: view_fn_decl(f.decl),
        generic_params: view_params(f.generic_params@),
        header: f.header@,
        abi: f.abi@,
    }
}

pub open spec fn view_fn_decl(d: FnDecl) -> FnDeclV
    decreases d,
{
    FnDeclV {
        inputs: view_inputs(d.inputs@),
        output: view_opt_type(d.output),
        c_variadic: d.c_variadic,
    }
}

pub open spec fn view_inputs(s: Seq<(String, Type)>) -> Seq<(Seq<char>, TypeV)>
    decreases s,
{
    if s.len() == 0 {
        Seq::empty()
    } else {
        seq![(s[0].0@, view_type(s[0].1))] + view_inputs(s.drop_first())
    }
}

impl View for Type {
    type V = TypeV;

    open spec fn view(&self) -> TypeV {
        view_type(*self)
    }
}

impl View for GenericArgs {
    type V = GenericArgsV;

    open spec fn view(&self) -> GenericArgsV {
        view_generic_args(*self)
    }
}

impl View for GenericArg {
    type V = GenericArgV;

    open spec fn view(&self) -> GenericArgV {
        view_generic_arg(*self)
    }
}

impl View for Constant {
    type V = ConstantV;

    open spec fn view(&self) -> ConstantV {
        view_constant(*self)
    }
}

impl View for TypeBinding {
    type V = TypeBindingV;

    open spec fn view(&self) -> TypeBindingV {
        view_binding(*self)
    }
}

impl View for TypeBindingKind {
    type V = TypeBindingKindV;

    open spec fn view(&self) -> TypeBindingKindV {
        view_binding_kind(*self)
    }
}

impl View for GenericBound {
    type V = GenericBoundV;

    open spec fn view(&self) -> GenericBoundV {
        view_bound(*self)
    }
}

impl View for GenericParamDef {
    type V = GenericParamDefV;

    open spec fn view(&self) -> GenericParamDefV {
        view_param(*self)
    }
}

impl View for GenericParamDefKind {
    type V = GenericParamDefKindV;

    open spec fn view(&self) -> GenericParamDefKindV {
        view_param_kind(*self)
    }
}

impl View for WherePredicate {
    type V = WherePredicateV;

    open spec fn view(&self) -> WherePredicateV {
        view_where_predicate(*self)
    }
}

impl View for Generics {
    type V = GenericsV;

    open spec fn view(&self) -> GenericsV {
        view_generics(*self)
    }
}

impl View for FunctionPointer {
    type V = FunctionPointerV;

    open spec fn view(&self) -> FunctionPointerV {
        view_function_pointer(*self)
    }
}

impl View for FnDecl {
    type V = FnDeclV;

    open spec fn view(&self) -> FnDeclV {
        view_fn_decl(*self)
    }
}


// Pointwise readings of the list views, available as ambient lemmas.

pub broadcast proof fn lemma_view_types_len(s: Seq<Type>)
    ensures
        #[trigger] view_types(s).len() == s.len(),
    decreases s.len(),
{
    if s.len() > 0 {
        lemma_view_types_len(s.drop_first());
    }
}

pub broadcast proof fn lemma_view_types_index(s: Seq<Type>, i: int)
    requires
        0 <= i < s.len(),
    ensures
        view_types(s).len() == s.len(),
        #[trigger] view_types(s)[i] == view_type(s[i]),
    decreases s.len(),
{
    lemma_view_types_len(s);
    if i > 0 {
        lemma_view_types_index(s.drop_first(), i - 1);
    }
}

pub broadcast proof fn lemma_view_bounds_len(s: Seq<GenericBound>)
    ensures
        #[trigger] view_bounds(s).len() == s.len(),
    decreases s.len(),
{
    if s.len() > 0 {
        lemma_view_bounds_len(s.drop_first());
    }
}

pub broadcast proof fn lemma_view_bounds_index(s: Seq<GenericBound>, i: int)
    requires
        0 <= i < s.len(),
    ensures
        view_bounds(s).len() == s.len(),
        #[trigger] view_bounds(s)[i] == view_bound(s[i]),
    decreases s.len(),
{
    lemma_view_bounds_len(s);
    if i > 0 {
        lemma_view_bounds_index(s.drop_first(), i - 1);
    }
}

pub broadcast proof fn lemma_view_params_len(s: Seq<GenericParamDef>)
    ensures
        #[trigger] view_params(s).len() == s.len(),
    decreases s.len(),
{
    if s.len() > 0 {
        lemma_view_params_len(s.drop_first());
    }
}

pub broadcast proof fn lemma_view_params_index(s: Seq<GenericParamDef>, i: int)
    requires
        0 <= i < s.len(),
    ensures
        view_params(s).len() == s.len(),
        #[trigger] view_params(s)[i] == view_param(s[i]),
    decreases s.len(),
{
    lemma_view_params_len(s);
    if i > 0 {
        lemma_view_params_index(s.drop_first(), i - 1);
    }
}

pub broadcast proof fn lemma_view_wheres_len(s: Seq<WherePredicate>)
    ensures
        #[trigger] view_wheres(s).len() == s.len(),
    decreases s.len(),
{
    if s.len() > 0 {
        lemma_view_wheres_len(s.drop_first());
    }
}

pub broadcast proof fn lemma_view_wheres_index(s: Seq<WherePredicate>, i: int)
    requires
        0 <= i < s.len(),
    ensures
        view_wheres(s).len() == s.len(),
        #[trigger] view_wheres(s)[i] == view_where_predicate(s[i]),
    decreases s.len(),
{
    lemma_view_wheres_len(s);
    if i > 0 {
        lemma_view_wheres_index(s.drop_first(), i - 1);
    }
}

pub broadcast proof fn lemma_view_generic_arg_seq_len(s: Seq<GenericArg>)
    ensures
        #[trigger] view_generic_arg_seq(s).len() == s.len(),
    decreases s.len(),
{
    if s.len() > 0 {
        lemma_view_generic_arg_seq_len(s.drop_first());
    }
}

pub broadcast proof fn lemma_view_generic_arg_seq_index(s: Seq<GenericArg>, i: int)
    requires
        0 <= i < s.len(),
    ensures
        view_generic_arg_seq(s).len() == s.len(),
        #[trigger] view_generic_arg_seq(s)[i] == view_generic_arg(s[i]),
    decreases s.len(),
{
    lemma_view_generic_arg_seq_len(s);
    if i > 0 {
        lemma_view_generic_arg_seq_index(s.drop_first(), i - 1);
    }
}

pub broadcast proof fn lemma_view_bindings_len(s: Seq<TypeBinding>)
    ensures
        #[trigger] view_bindings(s).len() == s.len(),
    decreases s.len(),
{
    if s.len() > 0 {
        lemma_view_bindings_len(s.drop_first());
    }
}

pub broadcast proof fn lemma_view_bindings_index(s: Seq<TypeBinding>, i: int)
    requires
        0 <= i < s.len(),
    ensures
        view_bindings(s).len() == s.len(),
        #[trigger] view_bindings(s)[i] == view_binding(s[i]),
    decreases s.len(),
{
    lemma_view_bindings_len(s);
    if i > 0 {
        lemma_view_bindings_index(s.drop_first(), i - 1);
    }
}

pub broadcast proof fn lemma_view_inputs_len(s: Seq<(String, Type)>)
    ensures
        #[trigger] view_inputs(s).len() == s.len(),
    decreases s.len(),
{
    if s.len() > 0 {
        lemma_view_inputs_len(s.drop_first());
    }
}

pub broadcast proof fn lemma_view_inputs_index(s: Seq<(String, Type)>, i: int)
    requires
        0 <= i < s.len(),
    ensures
        view_inputs(s).len() == s.len(),
        #[trigger] view_inputs(s)[i] == (s[i].0@, view_type(s[i].1)),
    decreases s.len(),
{
    lemma_view_inputs_len(s);
    if i > 0 {
        lemma_view_inputs_index(s.drop_first(), i - 1);
    }
}


pub broadcast group group_view_lemmas {
    lemma_view_types_len,
    lemma_view_types_index,
    lemma_view_bounds_len,
    lemma_view_bounds_index,
    lemma_view_params_len,
    lemma_view_params_index,
    lemma_view_wheres_len,
    lemma_view_wheres_index,
    lemma_view_generic_arg_seq_len,
    lemma_view_generic_arg_seq_index,
    lemma_view_bindings_len,
    lemma_view_bindings_index,
    lemma_view_inputs_len,
    lemma_view_inputs_index,
}


// ---------------------------------------------------------------------------
// Items and the crate root.
// ---------------------------------------------------------------------------

pub struct ModuleV {
    pub is_crate: bool,
    pub items: Seq<Seq<char>>,
}

/// A module: a container of other items, by identifier.
#[derive(Debug, PartialEq)]
pub struct Module {
    pub is_crate: bool,
    pub items: Vec<Id>,
}

impl View for Module {
    type V = ModuleV;

    open spec fn view(&self) -> ModuleV {
        ModuleV { is_crate: self.is_crate, items: view_ids(self.items@) }
    }
}

pub struct UnionV {
    pub generics: GenericsV,
    pub fields_stripped: bool,
    pub fields: Seq<Seq<char>>,
    pub impls: Seq<Seq<char>>,
}

#[derive(Debug, PartialEq)]
pub struct Union {
    pub generics: Generics,
    pub fields_stripped: bool,
    pub fields: Vec<Id>,
    pub impls: Vec<Id>,
}

impl View for Union {
    type V = UnionV;

    open spec fn view(&self) -> UnionV {
        UnionV {
            generics: self.generics@,
            fields_stripped: self.fields_stripped,
            fields: view_ids(self.fields@),
            impls: view_ids(self.impls@),
        }
    }
}

pub struct StructV {
    pub struct_type: StructType,
    pub generics: GenericsV,
    pub fields_stripped: bool,
    pub fields: Seq<Seq<char>>,
    pub impls: Seq<Seq<char>>,
}

#[derive(Debug, PartialEq)]
pub struct Struct {
    pub struct_type: StructType,
    pub generics: Generics,
    /// True when the producer left private fields out of `fields`.
    pub fields_stripped: bool,
    pub fields: Vec<Id>,
    pub impls: Vec<Id>,
}

impl View for Struct {
    type V = StructV;

    open spec fn view(&self) -> StructV {
        StructV {
            struct_type: self.struct_type,
            generics: self.generics@,
            fields_stripped: self.fields_stripped,
            fields: view_ids(self.fields@),
            impls: view_ids(self.impls@),
        }
    }
}

pub struct EnumV {
    pub generics: GenericsV,
    pub variants_stripped: bool,
    pub variants: Seq<Seq<char>>,
    pub impls: Seq<Seq<char>>,
}

#[derive(Debug, PartialEq)]
pub struct Enum {
    pub generics: Generics,
    pub variants_stripped: bool,
    pub variants: Vec<Id>,
    pub impls: Vec<Id>,
}

impl View for Enum {
    type V = EnumV;

    open spec fn view(&self) -> EnumV {
        EnumV {
            generics: self.generics@,
            variants_stripped: self.variants_stripped,
            variants: view_ids(self.variants@),
            impls: view_ids(self.impls@),
        }
    }
}

pub enum VariantV {
    Plain,
    Tuple(Seq<TypeV>),
    Struct(Seq<Seq<char>>),
}

/// One enum variant: plain, tuple-shaped, or struct-shaped with field ids.
#[derive(Debug, PartialEq)]
pub enum Variant {
    Plain,
    Tuple(Vec<Type>),
    Struct(Vec<Id>),
}

impl View for Variant {
    type V = VariantV;

    open spec fn view(&self) -> VariantV {
        match self {
            Variant::Plain => VariantV::Plain,
            Variant::Tuple(ts) => VariantV::Tuple(view_types(ts@)),
            Variant::Struct(ids) => VariantV::Struct(view_ids(ids@)),
        }
    }
}

pub struct FunctionV {
    pub decl: FnDeclV,
    pub generics: GenericsV,
    pub header: Seq<Qualifiers>,
    pub abi: Seq<char>,
}

#[derive(Debug, PartialEq)]
pub struct Function {
    pub decl: FnDecl,
    pub generics: Generics,
    pub header: Vec<Qualifiers>,
    pub abi: String,
}

impl View for Function {
    type V = FunctionV;

    open spec fn view(&self) -> FunctionV {
        FunctionV {
            decl: self.decl@,
            generics: self.generics@,
            header: self.header@,
            abi: self.abi@,
        }
    }
}

pub struct MethodV {
    pub decl: FnDeclV,
    pub generics: GenericsV,
    pub header: Seq<Qualifiers>,
    pub abi: Seq<char>,
    pub has_body: bool,
}

#[derive(Debug, PartialEq)]
pub struct Method {
    pub decl: FnDecl,
    pub generics: Generics,
    pub header: Vec<Qualifiers>,
    pub abi: String,
    pub has_body: bool,
}

impl View for Method {
    type V = MethodV;

    open spec fn view(&self) -> MethodV {
        MethodV {
            decl: self.decl@,
            generics: self.generics@,
            header: self.header@,
            abi: self.abi@,
            has_body: self.has_body,
        }
    }
}

pub struct TraitV {
    pub is_auto: bool,
    pub is_unsafe: bool,
    pub items: Seq<Seq<char>>,
    pub generics: GenericsV,
    pub bounds: Seq<GenericBoundV>,
    pub implementors: Seq<Seq<char>>,
}

#[derive(Debug, PartialEq)]
pub struct Trait {
    pub is_auto: bool,
    pub is_unsafe: bool,
    pub items: Vec<Id>,
    pub generics: Generics,
    pub bounds: Vec<GenericBound>,
    pub implementors: Vec<Id>,
}

impl View for Trait {
    type V = TraitV;

    open spec fn view(&self) -> TraitV {
        TraitV {
            is_auto: self.is_auto,
            is_unsafe: self.is_unsafe,
            items: view_ids(self.items@),
            generics: self.generics@,
            bounds: view_bounds(self.bounds@),
            implementors: view_ids(self.implementors@),
        }
    }
}

pub struct TraitAliasV {
    pub generics: GenericsV,
    pub params: Seq<GenericBoundV>,
}

#[derive(Debug, PartialEq)]
pub struct TraitAlias {
    pub generics: Generics,
    pub params: Vec<GenericBound>,
}

impl View for TraitAlias {
    type V = TraitAliasV;

    open spec fn view(&self) -> TraitAliasV {
        TraitAliasV { generics: self.generics@, params: view_bounds(self.params@) }
    }
}

pub struct ImplV {
    pub is_unsafe: bool,
    pub generics: GenericsV,
    pub provided_trait_methods: Seq<Seq<char>>,
    pub trait_: Option<TypeV>,
    pub for_: TypeV,
    pub items: Seq<Seq<char>>,
    pub negative: bool,
    pub synthetic: bool,
    pub blanket_impl: Option<TypeV>,
}

/// One implementation block. `trait_` is absent for inherent impls;
/// `synthetic` marks auto-trait impls; `blanket_impl` carries the matched
/// pattern of a blanket impl.
#[derive(Debug, PartialEq)]
pub struct Impl {
    pub is_unsafe: bool,
    pub generics: Generics,
    pub provided_trait_methods: Vec<String>,
    pub trait_: Option<Type>,
    pub for_: Type,
    pub items: Vec<Id>,
    pub negative: bool,
    pub synthetic: bool,
    pub blanket_impl: Option<Type>,
}

pub open spec fn view_plain_opt_type(t: Option<Type>) -> Option<TypeV> {
    match t {
        Some(x) => Some(view_type(x)),
        None => None,
    }
}

impl View for Impl {
    type V = ImplV;

    open spec fn view(&self) -> ImplV {
        ImplV {
            is_unsafe: self.is_unsafe,
            generics: self.generics@,
            provided_trait_methods: view_strings(self.provided_trait_methods@),
            trait_: view_plain_opt_type(self.trait_),
            for_: self.for_@,
            items: view_ids(self.items@),
            negative: self.negative,
            synthetic: self.synthetic,
            blanket_impl: view_plain_opt_type(self.blanket_impl),
        }
    }
}

pub struct TypedefV {
    pub type_: TypeV,
    pub generics: GenericsV,
}

#[derive(Debug, PartialEq)]
pub struct Typedef {
    pub type_: Type,
    pub generics: Generics,
}

impl View for Typedef {
    type V = TypedefV;

    open spec fn view(&self) -> TypedefV {
        TypedefV { type_: self.type_@, generics: self.generics@ }
    }
}

pub struct OpaqueTyV {
    pub bounds: Seq<GenericBoundV>,
    pub generics: GenericsV,
}

#[derive(Debug, PartialEq)]
pub struct OpaqueTy {
    pub bounds: Vec<GenericBound>,
    pub generics: Generics,
}

impl View for OpaqueTy {
    type V = OpaqueTyV;

    open spec fn view(&self) -> OpaqueTyV {
        OpaqueTyV { bounds: view_bounds(self.bounds@), generics: self.generics@ }
    }
}

pub struct StaticV {
    pub type_: TypeV,
    pub mutable: bool,
    pub expr: Seq<char>,
}

#[derive(Debug, PartialEq)]
pub struct Static {
    pub type_: Type,
    pub mutable: bool,
    pub expr: String,
}

impl View for Static {
    type V = StaticV;

    open spec fn view(&self) -> StaticV {
        StaticV { type_: self.type_@, mutable: self.mutable, expr: self.expr@ }
    }
}

pub struct ImportV {
    pub span: Seq<char>,
    pub name: Seq<char>,
    pub id: Option<Seq<char>>,
    pub glob: bool,
}

/// A `use` item: the full imported path, the visible name, the target's
/// identifier when the producer knows it, and whether it is a glob.
#[derive(Debug, PartialEq)]
pub struct Import {
    pub span: String,
    pub name: String,
    pub id: Option<Id>,
    pub glob: bool,
}

pub open spec fn view_opt_id(x: Option<Id>) -> Option<Seq<char>> {
    match x {
        Some(i) => Some(i@),
        None => None,
    }
}

impl View for Import {
    type V = ImportV;

    open spec fn view(&self) -> ImportV {
        ImportV {
            span: self.span@,
            name: self.name@,
            id: view_opt_id(self.id),
            glob: self.glob,
        }
    }
}

pub struct ProcMacroV {
    pub kind: MacroKind,
    pub helpers: Seq<Seq<char>>,
}

#[derive(Debug, PartialEq)]
pub struct ProcMacro {
    pub kind: MacroKind,
    pub helpers: Vec<String>,
}

impl View for ProcMacro {
    type V = ProcMacroV;

    open spec fn view(&self) -> ProcMacroV {
        ProcMacroV { kind: self.kind, helpers: view_strings(self.helpers@) }
    }
}

pub enum ItemEnumV {
    ModuleItem(ModuleV),
    ExternCrateItem { name: Seq<char>, rename: Option<Seq<char>> },
    ImportItem(ImportV),
    UnionItem(UnionV),
    StructItem(StructV),
    StructFieldItem(TypeV),
    EnumItem(EnumV),
    VariantItem(VariantV),
    FunctionItem(FunctionV),
    TraitItem(TraitV),
    TraitAliasItem(TraitAliasV),
    MethodItem(MethodV),
    ImplItem(ImplV),
    TypedefItem(TypedefV),
    OpaqueTyItem(OpaqueTyV),
    ConstantItem(ConstantV),
    StaticItem(StaticV),
    ForeignTypeItem,
    MacroItem(Seq<char>),
    ProcMacroItem(ProcMacroV),
    AssocConstItem { type_: TypeV, default: Option<Seq<char>> },
    AssocTypeItem { bounds: Seq<GenericBoundV>, default: Option<TypeV> },
}

/// The kind-specific payload of one item. The active variant is the single
/// source of truth for the item's kind.
#[derive(Debug, PartialEq)]
pub enum ItemEnum {
    ModuleItem(Module),
    ExternCrateItem { name: String, rename: Option<String> },
    ImportItem(Import),
    UnionItem(Union),
    StructItem(Struct),
    StructFieldItem(Type),
    EnumItem(Enum),
    VariantItem(Variant),
    FunctionItem(Function),
    TraitItem(Trait),
    TraitAliasItem(TraitAlias),
    MethodItem(Method),
    ImplItem(Impl),
    TypedefItem(Typedef),
    OpaqueTyItem(OpaqueTy),
    ConstantItem(Constant),
    StaticItem(Static),
    /// A `type` from an `extern` block.
    ForeignTypeItem,
    /// A declarative macro, kept as its source text.
    MacroItem(String),
    ProcMacroItem(ProcMacro),
    AssocConstItem { type_: Type, default: Option<String> },
    AssocTypeItem { bounds: Vec<GenericBound>, default: Option<Type> },
}

impl View for ItemEnum {
    type V = ItemEnumV;

    open spec fn view(&self) -> ItemEnumV {
        match self {
            ItemEnum::ModuleItem(m) => ItemEnumV::ModuleItem(m@),
            ItemEnum::ExternCrateItem { name, rename } => ItemEnumV::ExternCrateItem {
                name: name@,
                rename: view_opt_string(*rename),
            },
            ItemEnum::ImportItem(i) => ItemEnumV::ImportItem(i@),
            ItemEnum::UnionItem(u) => ItemEnumV::UnionItem(u@),
            ItemEnum::StructItem(s) => ItemEnumV::StructItem(s@),
            ItemEnum::StructFieldItem(t) => ItemEnumV::StructFieldItem(t@),
            ItemEnum::EnumItem(e) => ItemEnumV::EnumItem(e@),
            ItemEnum::VariantItem(v) => ItemEnumV::VariantItem(v@),
            ItemEnum::FunctionItem(f) => ItemEnumV::FunctionItem(f@),
            ItemEnum::TraitItem(t) => ItemEnumV::TraitItem(t@),
            ItemEnum::TraitAliasItem(t) => ItemEnumV::TraitAliasItem(t@),
            ItemEnum::MethodItem(m) => ItemEnumV::MethodItem(m@),
            ItemEnum::ImplItem(i) => ItemEnumV::ImplItem(i@),
            ItemEnum::TypedefItem(t) => ItemEnumV::TypedefItem(t@),
            ItemEnum::OpaqueTyItem(o) => ItemEnumV::OpaqueTyItem(o@),
            ItemEnum::ConstantItem(c) => ItemEnumV::ConstantItem(c@),
            ItemEnum::StaticItem(s) => ItemEnumV::StaticItem(s@),
            ItemEnum::ForeignTypeItem => ItemEnumV::ForeignTypeItem,
            ItemEnum::MacroItem(s) => ItemEnumV::MacroItem(s@),
            ItemEnum::ProcMacroItem(p) => ItemEnumV::ProcMacroItem(p@),
            ItemEnum::AssocConstItem { type_, default } => ItemEnumV::AssocConstItem {
                type_: type_@,
                default: view_opt_string(*default),
            },
            ItemEnum::AssocTypeItem { bounds, default } => ItemEnumV::AssocTypeItem {
                bounds: view_bounds(bounds@),
                default: view_plain_opt_type(*default),
            },
        }
    }
}

/// The kind that an item payload stands for: the tag that a consistent `kind`
/// field must carry.
pub open spec fn spec_kind_of(i: ItemEnumV) -> ItemKind {
    match i {
        ItemEnumV::ModuleItem(_) => ItemKind::Module,
        ItemEnumV::ExternCrateItem { .. } => ItemKind::ExternCrate,
        ItemEnumV::ImportItem(_) => ItemKind::Import,
        ItemEnumV::UnionItem(_) => ItemKind::Union,
        ItemEnumV::StructItem(_) => ItemKind::Struct,
        ItemEnumV::StructFieldItem(_) => ItemKind::StructField,
        ItemEnumV::EnumItem(_) => ItemKind::Enum,
        ItemEnumV::VariantItem(_) => ItemKind::Variant,
        ItemEnumV::FunctionItem(_) => ItemKind::Function,
        ItemEnumV::TraitItem(_) => ItemKind::Trait,
        ItemEnumV::TraitAliasItem(_) => ItemKind::TraitAlias,
        ItemEnumV::MethodItem(_) => ItemKind::Method,
        ItemEnumV::ImplItem(_) => ItemKind::Impl,
        ItemEnumV::TypedefItem(_) => ItemKind::Typedef,
        ItemEnumV::OpaqueTyItem(_) => ItemKind::OpaqueTy,
        ItemEnumV::ConstantItem(_) => ItemKind::Constant,
        ItemEnumV::StaticItem(_) => ItemKind::Static,
        ItemEnumV::ForeignTypeItem => ItemKind::ForeignType,
        ItemEnumV::MacroItem(_) => ItemKind::Macro,
        ItemEnumV::ProcMacroItem(p) => match p.kind {
            MacroKind::Bang => ItemKind::Macro,
            MacroKind::Attr => ItemKind::ProcAttribute,
            MacroKind::Derive => ItemKind::ProcDerive,
        },
        ItemEnumV::AssocConstItem { .. } => ItemKind::AssocConst,
        ItemEnumV::AssocTypeItem { .. } => ItemKind::AssocType,
    }
}

impl ItemEnum {
    /// The kind derived from the payload's own tag.
    pub fn kind_of(&self) -> (r: ItemKind)
        ensures
            r == spec_kind_of(self@),
    {
        match self {
            ItemEnum::ModuleItem(_) => ItemKind::Module,
            ItemEnum::ExternCrateItem { .. } => ItemKind::ExternCrate,
            ItemEnum::ImportItem(_) => ItemKind::Import,
            ItemEnum::UnionItem(_) => ItemKind::Union,
            ItemEnum::StructItem(_) => ItemKind::Struct,
            ItemEnum::StructFieldItem(_) => ItemKind::StructField,
            ItemEnum::EnumItem(_) => ItemKind::Enum,
            ItemEnum::VariantItem(_) => ItemKind::Variant,
            ItemEnum::FunctionItem(_) => ItemKind::Function,
            ItemEnum::TraitItem(_) => ItemKind::Trait,
            ItemEnum::TraitAliasItem(_) => ItemKind::TraitAlias,
            ItemEnum::MethodItem(_) => ItemKind::Method,
            ItemEnum::ImplItem(_) => ItemKind::Impl,
            ItemEnum::TypedefItem(_) => ItemKind::Typedef,
            ItemEnum::OpaqueTyItem(_) => ItemKind::OpaqueTy,
            ItemEnum::ConstantItem(_) => ItemKind::Constant,
            ItemEnum::StaticItem(_) => ItemKind::Static,
            ItemEnum::ForeignTypeItem => ItemKind::ForeignType,
            ItemEnum::MacroItem(_) => ItemKind::Macro,
            ItemEnum::ProcMacroItem(p) => match p.kind {
                MacroKind::Bang => ItemKind::Macro,
                MacroKind::Attr => ItemKind::ProcAttribute,
                MacroKind::Derive => ItemKind::ProcDerive,
            },
            ItemEnum::AssocConstItem { .. } => ItemKind::AssocConst,
            ItemEnum::AssocTypeItem { .. } => ItemKind::AssocType,
        }
    }
}

pub struct ItemV {
    pub id: Seq<char>,
    pub crate_id: u32,
    pub name: Option<Seq<char>>,
    pub source: Option<SpanV>,
    pub visibility: VisibilityV,
    pub docs: Option<Seq<char>>,
    pub links: Seq<(Seq<char>, Seq<char>)>,
    pub attrs: Seq<Seq<char>>,
    pub deprecation: Option<DeprecationV>,
    pub kind: ItemKind,
    pub inner: ItemEnumV,
}

/// One documentable entity. The decoder guarantees that `kind` always equals
/// the kind derived from `inner`.
#[derive(Debug, PartialEq)]
pub struct Item {
    pub id: Id,
    /// Key into the crate's `external_crates` map; `0` means the local crate.
    /// The decoder checks that `id` equals the item's own key in `index`.
    pub crate_id: u32,
    /// Absent for anonymous entities such as impl blocks.
    pub name: Option<String>,
    pub source: Option<Span>,
    pub visibility: Visibility,
    /// The raw documentation markup, shared rather than copied.
    pub docs: Option<Arc<String>>,
    /// Resolves link labels to identifiers; the decoder checks that every
    /// label occurs verbatim in `docs`.
    pub links: Vec<(String, Id)>,
    pub attrs: Vec<String>,
    pub deprecation: Option<Deprecation>,
    pub kind: ItemKind,
    pub inner: ItemEnum,
}

pub open spec fn view_links(s: Seq<(String, Id)>) -> Seq<(Seq<char>, Seq<char>)> {
    Seq::new(s.len(), |i: int| (s[i].0@, s[i].1@))
}

pub open spec fn view_opt_span(s: Option<Span>) -> Option<SpanV> {
    match s {
        Some(x) => Some(x@),
        None => None,
    }
}

pub open spec fn view_opt_deprecation(d: Option<Deprecation>) -> Option<DeprecationV> {
    match d {
        Some(x) => Some(x@),
        None => None,
    }
}

pub open spec fn view_opt_docs(d: Option<Arc<String>>) -> Option<Seq<char>> {
    match d {
        Some(x) => Some(x@),
        None => None,
    }
}

impl View for Item {
    type V = ItemV;

    open spec fn view(&self) -> ItemV {
        ItemV {
            id: self.id@,
            crate_id: self.crate_id,
            name: view_opt_string(self.name),
            source: view_opt_span(self.source),
            visibility: self.visibility@,
            docs: view_opt_docs(self.docs),
            links: view_links(self.links@),
            attrs: view_strings(self.attrs@),
            deprecation: view_opt_deprecation(self.deprecation),
            kind: self.kind,
            inner: self.inner@,
        }
    }
}

pub struct CrateV {
    pub root: Seq<char>,
    pub crate_version: Option<Seq<char>>,
    pub includes_private: bool,
    pub index: Seq<(Seq<char>, ItemV)>,
    pub paths: Seq<(Seq<char>, ItemSummaryV)>,
    pub external_crates: Seq<(u32, ExternalCrateV)>,
    pub format_version: u32,
}

/// The root of a decoded document: every known entity under `index`, display
/// paths under `paths`, and the two scalars of the envelope.
///
/// The maps keep the entry order of the parsed tree — from text that order is
/// key-sorted, since the parser's value tree is an ordered map — and the
/// decoder rejects repeated keys, so lookup by first binding is exact map
/// lookup. The whole value is immutable once decoded: a new document replaces
/// it wholesale.
#[derive(Debug, PartialEq)]
pub struct Crate {
    /// Identifier of the root module of the local crate.
    pub root: Id,
    pub crate_version: Option<String>,
    pub includes_private: bool,
    /// Every known entity, local and referenced-external, by identifier.
    pub index: Vec<(Id, Item)>,
    /// Fully qualified paths by identifier; not owed for every entry of
    /// `index`.
    pub paths: Vec<(Id, ItemSummary)>,
    /// Crate names by the `crate_id` of the items that came from them.
    pub external_crates: Vec<(u32, ExternalCrate)>,
    pub format_version: u32,
}

pub open spec fn view_index(s: Seq<(Id, Item)>) -> Seq<(Seq<char>, ItemV)> {
    Seq::new(s.len(), |i: int| (s[i].0@, s[i].1@))
}

pub open spec fn view_paths(s: Seq<(Id, ItemSummary)>) -> Seq<(Seq<char>, ItemSummaryV)> {
    Seq::new(s.len(), |i: int| (s[i].0@, s[i].1@))
}

pub open spec fn view_external_crates(s: Seq<(u32, ExternalCrate)>) -> Seq<(u32, ExternalCrateV)> {
    Seq::new(s.len(), |i: int| (s[i].0, s[i].1@))
}

impl View for Crate {
    type V = CrateV;

    open spec fn view(&self) -> CrateV {
        CrateV {
            root: self.root@,
            crate_version: view_opt_string(self.crate_version),
            includes_private: self.includes_private,
            index: view_index(self.index@),
            paths: view_paths(self.paths@),
            external_crates: view_external_crates(self.external_crates@),
            format_version: self.format_version,
        }
    }
}

} // verus!
