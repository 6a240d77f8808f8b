//! Typed data model, decoder and resolution queries for the JSON
//! documentation export emitted by a compiler's documentation extractor.
//!
//! The crate decodes the whole export into a [`types::Crate`] value once and
//! then serves read-only queries over it: identifier lookup, path lookup and
//! child enumeration by kind.

pub mod json;
pub mod types;
mod clone_impls;
pub mod decode;
pub mod decode_exec;
pub mod decode_items;
pub mod query;
pub mod data;
pub mod format;
pub mod laws;

pub use decode::DecodeError;
pub use decode_items::parse;
pub use types::{
    Constant, Crate, Deprecation, Enum, ExternalCrate, FnDecl, Function, FunctionPointer,
    GenericArg, GenericArgs, GenericBound, GenericParamDef, GenericParamDefKind, Generics, Id,
    Impl, Import, Item, ItemEnum, ItemKind, ItemSummary, MacroKind, Method, Module, OpaqueTy,
    ProcMacro, Qualifiers, Span, Static, Struct, StructType, Trait, TraitAlias,
    TraitBoundModifier, Type, TypeBinding, TypeBindingKind, Typedef, Union, Variant, Visibility,
    WherePredicate,
};
