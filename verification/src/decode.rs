//! Decoding of the JSON export into the typed model: the leaf readers and the
//! mutually recursive type-expression group.
//!
//! Every executable decoder returns exactly what its specification twin says:
//! `res_view(r) == spec_decode_x(j)`. The twins fix the accepted shapes, the
//! defaults of absent optional fields, and which error each rejected input
//! yields.

use crate::json::{obj_get, spec_obj_get, str_eq, Json};
use crate::types::{
    ConstantV, FnDeclV, FunctionPointerV, GenericArgV, GenericArgsV, GenericBoundV,
    GenericParamDefKindV, GenericParamDefV, GenericsV, Qualifiers, TraitBoundModifier,
    TypeBindingKindV, TypeBindingV, TypeV, WherePredicateV,
};
use vstd::prelude::*;

verus! {

broadcast use crate::types::group_view_lemmas, crate::json::lemma_obj_get_smaller;

/// Why a decode failed. The three cases are told apart so that a caller can
/// distinguish a corrupt document from one written by a newer producer.
#[derive(Debug, PartialEq, Eq)]
pub enum DecodeError {
    /// Structurally invalid input: a missing required field, a value of the
    /// wrong shape, or a number out of range.
    Malformed,
    /// A tagged union's discriminant that this decoder does not know; the
    /// offending tag is carried along.
    UnsupportedVariant(String),
    /// The item's encoded `kind` tag disagrees with the shape of its payload.
    KindMismatch,
}

impl Clone for DecodeError {
    fn clone(&self) -> (r: Self)
        ensures
            r == *self,
    {
        match self {
            DecodeError::Malformed => DecodeError::Malformed,
            DecodeError::UnsupportedVariant(s) => DecodeError::UnsupportedVariant(s.clone()),
            DecodeError::KindMismatch => DecodeError::KindMismatch,
        }
    }
}

/// The view of a decode result: the value's view on success, the same error
/// on failure.
pub open spec fn res_view<T: View>(r: Result<T, DecodeError>) -> Result<T::V, DecodeError> {
    match r {
        Ok(t) => Ok(t@),
        Err(e) => Err(e),
    }
}


/// An optional field: absent and `null` are both "not there".
pub open spec fn spec_opt_field(fs: Seq<(String, Json)>, name: Seq<char>) -> Option<Json> {
    match spec_obj_get(fs, name) {
        None => None,
        Some(Json::Null) => None,
        Some(x) => Some(x),
    }
}

pub fn opt_field<'a>(fs: &'a Vec<(String, Json)>, name: &str) -> (r: Option<&'a Json>)
    ensures
        match r {
            Some(j) => spec_opt_field(fs@, name@) == Some(*j),
            None => spec_opt_field(fs@, name@) is None,
        },
{
    match obj_get(fs, name) {
        None => None,
        Some(j) => match j {
            Json::Null => None,
            _ => Some(j),
        },
    }
}

// ---------------------------------------------------------------------------
// Leaf readers.
// ---------------------------------------------------------------------------

pub open spec fn spec_req_str(fs: Seq<(String, Json)>, name: Seq<char>) -> Result<
    Seq<char>,
    DecodeError,
> {
    match spec_obj_get(fs, name) {
        Some(Json::Str(s)) => Ok(s@),
        _ => Err(DecodeError::Malformed),
    }
}

pub fn req_str(fs: &Vec<(String, Json)>, name: &str) -> (r: Result<String, DecodeError>)
    ensures
        res_view(r) == spec_req_str(fs@, name@),
{
    match obj_get(fs, name) {
        Some(Json::Str(s)) => Ok(s.clone()),
        _ => Err(DecodeError::Malformed),
    }
}

pub open spec fn spec_opt_str(fs: Seq<(String, Json)>, name: Seq<char>) -> Result<
    Option<Seq<char>>,
    DecodeError,
> {
    match spec_opt_field(fs, name) {
        None => Ok(None),
        Some(Json::Str(s)) => Ok(Some(s@)),
        Some(_) => Err(DecodeError::Malformed),
    }
}

pub open spec fn view_opt_string_res(r: Result<Option<String>, DecodeError>) -> Result<
    Option<Seq<char>>,
    DecodeError,
> {
    match r {
        Ok(Some(s)) => Ok(Some(s@)),
        Ok(None) => Ok(None),
        Err(e) => Err(e),
    }
}

pub fn opt_str(fs: &Vec<(String, Json)>, name: &str) -> (r: Result<Option<String>, DecodeError>)
    ensures
        view_opt_string_res(r) == spec_opt_str(fs@, name@),
{
    match opt_field(fs, name) {
        None => Ok(None),
        Some(Json::Str(s)) => Ok(Some(s.clone())),
        Some(_) => Err(DecodeError::Malformed),
    }
}

pub open spec fn spec_req_bool(fs: Seq<(String, Json)>, name: Seq<char>) -> Result<
    bool,
    DecodeError,
> {
    match spec_obj_get(fs, name) {
        Some(Json::Bool(b)) => Ok(b),
        _ => Err(DecodeError::Malformed),
    }
}

pub fn req_bool(fs: &Vec<(String, Json)>, name: &str) -> (r: Result<bool, DecodeError>)
    ensures
        r == spec_req_bool(fs@, name@),
{
    match obj_get(fs, name) {
        Some(Json::Bool(b)) => Ok(*b),
        _ => Err(DecodeError::Malformed),
    }
}

/// Unsigned 32-bit numbers: anything else is out of range for the format.
pub open spec fn spec_decode_u32(j: Json) -> Result<u32, DecodeError> {
    match j {
        Json::Num(n) => if n <= u32::MAX as u64 {
            Ok(n as u32)
        } else {
            Err(DecodeError::Malformed)
        },
        _ => Err(DecodeError::Malformed),
    }
}

pub fn decode_u32(j: &Json) -> (r: Result<u32, DecodeError>)
    ensures
        r == spec_decode_u32(*j),
{
    match j {
        Json::Num(n) => if *n <= u32::MAX as u64 {
            Ok(*n as u32)
        } else {
            Err(DecodeError::Malformed)
        },
        _ => Err(DecodeError::Malformed),
    }
}

pub open spec fn spec_req_u32(fs: Seq<(String, Json)>, name: Seq<char>) -> Result<
    u32,
    DecodeError,
> {
    match spec_obj_get(fs, name) {
        Some(j) => spec_decode_u32(j),
        None => Err(DecodeError::Malformed),
    }
}

pub fn req_u32(fs: &Vec<(String, Json)>, name: &str) -> (r: Result<u32, DecodeError>)
    ensures
        r == spec_req_u32(fs@, name@),
{
    match obj_get(fs, name) {
        Some(j) => decode_u32(j),
        None => Err(DecodeError::Malformed),
    }
}

// ---------------------------------------------------------------------------
// The mutually recursive type-expression group.
// ---------------------------------------------------------------------------

pub open spec fn spec_decode_type(j: Json) -> Result<TypeV, DecodeError>
    decreases j, 0int,
{
    match j {
        Json::Obj(fs) => match spec_obj_get(fs@, "kind"@) {
            Some(Json::Str(tag)) => {
                if tag@ == "never"@ {
                    Ok(TypeV::Never)
                } else if tag@ == "infer"@ {
                    Ok(TypeV::Infer)
                } else {
                    match spec_obj_get(fs@, "inner"@) {
                        None => Err(DecodeError::Malformed),
                        Some(inner) => spec_decode_type_payload(tag, inner),
                    }
                }
            },
            _ => Err(DecodeError::Malformed),
        },
        _ => Err(DecodeError::Malformed),
    }
}

/// The payload of one `Type` variant, selected by its tag. An unknown tag is
/// [`DecodeError::UnsupportedVariant`], never silently skipped.
pub open spec fn spec_decode_type_payload(tag: String, inner: Json) -> Result<TypeV, DecodeError>
    decreases inner, 1int,
{
    if tag@ == "resolved_path"@ {
        match inner {
            Json::Obj(pf) => spec_decode_resolved_path(pf@),
            _ => Err(DecodeError::Malformed),
        }
    } else if tag@ == "generic"@ {
        match inner {
            Json::Str(s) => Ok(TypeV::Generic(s@)),
            _ => Err(DecodeError::Malformed),
        }
    } else if tag@ == "primitive"@ {
        match inner {
            Json::Str(s) => Ok(TypeV::Primitive(s@)),
            _ => Err(DecodeError::Malformed),
        }
    } else if tag@ == "function_pointer"@ {
        match spec_decode_fn_pointer(inner) {
            Ok(f) => Ok(TypeV::FunctionPointer(f)),
            Err(e) => Err(e),
        }
    } else if tag@ == "tuple"@ {
        match inner {
            Json::Arr(v) => match spec_decode_types(v@) {
                Ok(ts) => Ok(TypeV::Tuple(ts)),
                Err(e) => Err(e),
            },
            _ => Err(DecodeError::Malformed),
        }
    } else if tag@ == "slice"@ {
        match spec_decode_type(inner) {
            Ok(t) => Ok(TypeV::Slice(Box::new(t))),
            Err(e) => Err(e),
        }
    } else if tag@ == "array"@ {
        match inner {
            Json::Obj(pf) => match spec_obj_get(pf@, "type"@) {
                Some(tj) => match spec_decode_type(tj) {
                    Ok(t) => match spec_req_str(pf@, "len"@) {
                        Ok(len) => Ok(TypeV::Array { type_: Box::new(t), len }),
                        Err(e) => Err(e),
                    },
                    Err(e) => Err(e),
                },
                None => Err(DecodeError::Malformed),
            },
            _ => Err(DecodeError::Malformed),
        }
    } else if tag@ == "impl_trait"@ {
        match inner {
            Json::Arr(v) => match spec_decode_bounds(v@) {
                Ok(bs) => Ok(TypeV::ImplTrait(bs)),
                Err(e) => Err(e),
            },
            _ => Err(DecodeError::Malformed),
        }
    } else if tag@ == "raw_pointer"@ {
        match inner {
            Json::Obj(pf) => match spec_req_bool(pf@, "mutable"@) {
                Ok(m) => match spec_obj_get(pf@, "type"@) {
                    Some(tj) => match spec_decode_type(tj) {
                        Ok(t) => Ok(TypeV::RawPointer { mutable: m, type_: Box::new(t) }),
                        Err(e) => Err(e),
                    },
                    None => Err(DecodeError::Malformed),
                },
                Err(e) => Err(e),
            },
            _ => Err(DecodeError::Malformed),
        }
    } else if tag@ == "borrowed_ref"@ {
        match inner {
            Json::Obj(pf) => match spec_opt_str(pf@, "lifetime"@) {
                Ok(lt) => match spec_req_bool(pf@, "mutable"@) {
                    Ok(m) => match spec_obj_get(pf@, "type"@) {
                        Some(tj) => match spec_decode_type(tj) {
                            Ok(t) => Ok(
                                TypeV::BorrowedRef {
                                    lifetime: lt,
                                    mutable: m,
                                    type_: Box::new(t),
                                },
                            ),
                            Err(e) => Err(e),
                        },
                        None => Err(DecodeError::Malformed),
                    },
                    Err(e) => Err(e),
                },
                Err(e) => Err(e),
            },
            _ => Err(DecodeError::Malformed),
        }
    } else if tag@ == "qualified_path"@ {
        match inner {
            Json::Obj(pf) => match spec_req_str(pf@, "name"@) {
                Ok(name) => match spec_obj_get(pf@, "self_type"@) {
                    Some(sj) => match spec_decode_type(sj) {
                        Ok(st) => match spec_obj_get(pf@, "trait"@) {
                            Some(tj) => match spec_decode_type(tj) {
                                Ok(tt) => Ok(
                                    TypeV::QualifiedPath {
                                        name,
                                        self_type: Box::new(st),
                                        trait_: Box::new(tt),
                                    },
                                ),
                                Err(e) => Err(e),
                            },
                            None => Err(DecodeError::Malformed),
                        },
                        Err(e) => Err(e),
                    },
                    None => Err(DecodeError::Malformed),
                },
                Err(e) => Err(e),
            },
            _ => Err(DecodeError::Malformed),
        }
    } else {
        Err(DecodeError::UnsupportedVariant(tag))
    }
}

pub open spec fn spec_decode_resolved_path(pf: Seq<(String, Json)>) -> Result<TypeV, DecodeError>
    decreases pf, 1int,
{
    match spec_req_str(pf, "name"@) {
        Ok(name) => match spec_req_str(pf, "id"@) {
            Ok(id) => match spec_opt_field(pf, "args"@) {
                None => match spec_decode_param_names(pf) {
                    Ok(pn) => Ok(TypeV::ResolvedPath { name, id, args: None, param_names: pn }),
                    Err(e) => Err(e),
                },
                Some(aj) => match spec_decode_generic_args(aj) {
                    Ok(a) => match spec_decode_param_names(pf) {
                        Ok(pn) => Ok(
                            TypeV::ResolvedPath {
                                name,
                                id,
                                args: Some(Box::new(a)),
                                param_names: pn,
                            },
                        ),
                        Err(e) => Err(e),
                    },
                    Err(e) => Err(e),
                },
            },
            Err(e) => Err(e),
        },
        Err(e) => Err(e),
    }
}

/// The `param_names` bound list of a resolved path; absent means empty.
pub open spec fn spec_decode_param_names(pf: Seq<(String, Json)>) -> Result<
    Seq<GenericBoundV>,
    DecodeError,
>
    decreases pf, 0int,
{
    match spec_opt_field(pf, "param_names"@) {
        None => Ok(Seq::empty()),
        Some(Json::Arr(v)) => spec_decode_bounds(v@),
        Some(_) => Err(DecodeError::Malformed),
    }
}

pub open spec fn spec_decode_types(s: Seq<Json>) -> Result<Seq<TypeV>, DecodeError>
    decreases s, 0int,
{
    if s.len() == 0 {
        Ok(Seq::empty())
    } else {
        match spec_decode_types(s.drop_last()) {
            Ok(ts) => match spec_decode_type(s.last()) {
                Ok(t) => Ok(ts.push(t)),
                Err(e) => Err(e),
            },
            Err(e) => Err(e),
        }
    }
}

/// An optional type field: absent and `null` both mean "none".
pub open spec fn spec_decode_opt_type(fs: Seq<(String, Json)>, name: Seq<char>) -> Result<
    Option<Box<TypeV>>,
    DecodeError,
>
    decreases fs, 0int,
{
    match spec_opt_field(fs, name) {
        None => Ok(None),
        Some(tj) => match spec_decode_type(tj) {
            Ok(t) => Ok(Some(Box::new(t))),
            Err(e) => Err(e),
        },
    }
}

pub open spec fn spec_decode_generic_args(j: Json) -> Result<GenericArgsV, DecodeError>
    decreases j, 0int,
{
    match j {
        Json::Obj(fs) => {
            if fs@.len() != 1 {
                Err(DecodeError::Malformed)
            } else {
                let tag = fs@[0].0;
                let payload = fs@[0].1;
                if tag@ == "angle_bracketed"@ {
                    match payload {
                        Json::Obj(pf) => match spec_obj_get(pf@, "args"@) {
                            Some(Json::Arr(av)) => match spec_decode_generic_arg_list(av@) {
                                Ok(args) => match spec_obj_get(pf@, "bindings"@) {
                                    Some(Json::Arr(bv)) => match spec_decode_bindings(bv@) {
                                        Ok(bindings) => Ok(
                                            GenericArgsV::AngleBracketed { args, bindings },
                                        ),
                                        Err(e) => Err(e),
                                    },
                                    _ => Err(DecodeError::Malformed),
                                },
                                Err(e) => Err(e),
                            },
                            _ => Err(DecodeError::Malformed),
                        },
                        _ => Err(DecodeError::Malformed),
                    }
                } else if tag@ == "parenthesized"@ {
                    match payload {
                        Json::Obj(pf) => match spec_obj_get(pf@, "inputs"@) {
                            Some(Json::Arr(iv)) => match spec_decode_types(iv@) {
                                Ok(inputs) => match spec_decode_opt_type(pf@, "output"@) {
                                    Ok(output) => Ok(
                                        GenericArgsV::Parenthesized { inputs, output },
                                    ),
                                    Err(e) => Err(e),
                                },
                                Err(e) => Err(e),
                            },
                            _ => Err(DecodeError::Malformed),
                        },
                        _ => Err(DecodeError::Malformed),
                    }
                } else {
                    Err(DecodeError::UnsupportedVariant(tag))
                }
            }
        },
        _ => Err(DecodeError::Malformed),
    }
}

pub open spec fn spec_decode_generic_arg(j: Json) -> Result<GenericArgV, DecodeError>
    decreases j, 0int,
{
    match j {
        Json::Obj(fs) => {
            if fs@.len() != 1 {
                Err(DecodeError::Malformed)
            } else {
                let tag = fs@[0].0;
                let payload = fs@[0].1;
                if tag@ == "lifetime"@ {
                    match payload {
                        Json::Str(s) => Ok(GenericArgV::Lifetime(s@)),
                        _ => Err(DecodeError::Malformed),
                    }
                } else if tag@ == "type"@ {
                    match spec_decode_type(payload) {
                        Ok(t) => Ok(GenericArgV::Type(t)),
                        Err(e) => Err(e),
                    }
                } else if tag@ == "const"@ {
                    match spec_decode_constant(payload) {
                        Ok(c) => Ok(GenericArgV::Const(c)),
                        Err(e) => Err(e),
                    }
                } else {
                    Err(DecodeError::UnsupportedVariant(tag))
                }
            }
        },
        _ => Err(DecodeError::Malformed),
    }
}

pub open spec fn spec_decode_generic_arg_list(s: Seq<Json>) -> Result<Seq<GenericArgV>, DecodeError>
    decreases s, 0int,
{
    if s.len() == 0 {
        Ok(Seq::empty())
    } else {
        match spec_decode_generic_arg_list(s.drop_last()) {
            Ok(gs) => match spec_decode_generic_arg(s.last()) {
                Ok(g) => Ok(gs.push(g)),
                Err(e) => Err(e),
            },
            Err(e) => Err(e),
        }
    }
}

pub open spec fn spec_decode_constant(j: Json) -> Result<ConstantV, DecodeError>
    decreases j, 0int,
{
    match j {
        Json::Obj(fs) => match spec_obj_get(fs@, "type"@) {
            Some(tj) => match spec_decode_type(tj) {
                Ok(t) => match spec_req_str(fs@, "expr"@) {
                    Ok(expr) => match spec_opt_str(fs@, "value"@) {
                        Ok(value) => match spec_req_bool(fs@, "is_literal"@) {
                            Ok(is_literal) => Ok(
                                ConstantV { type_: Box::new(t), expr, value, is_literal },
                            ),
                            Err(e) => Err(e),
                        },
                        Err(e) => Err(e),
                    },
                    Err(e) => Err(e),
                },
                Err(e) => Err(e),
            },
            None => Err(DecodeError::Malformed),
        },
        _ => Err(DecodeError::Malformed),
    }
}

pub open spec fn spec_decode_binding(j: Json) -> Result<TypeBindingV, DecodeError>
    decreases j, 0int,
{
    match j {
        Json::Obj(fs) => match spec_req_str(fs@, "name"@) {
            Ok(name) => match spec_obj_get(fs@, "binding"@) {
                Some(bj) => match spec_decode_binding_kind(bj) {
                    Ok(binding) => Ok(TypeBindingV { name, binding }),
                    Err(e) => Err(e),
                },
                None => Err(DecodeError::Malformed),
            },
            Err(e) => Err(e),
        },
        _ => Err(DecodeError::Malformed),
    }
}

pub open spec fn spec_decode_bindings(s: Seq<Json>) -> Result<Seq<TypeBindingV>, DecodeError>
    decreases s, 0int,
{
    if s.len() == 0 {
        Ok(Seq::empty())
    } else {
        match spec_decode_bindings(s.drop_last()) {
            Ok(bs) => match spec_decode_binding(s.last()) {
                Ok(b) => Ok(bs.push(b)),
                Err(e) => Err(e),
            },
            Err(e) => Err(e),
        }
    }
}

pub open spec fn spec_decode_binding_kind(j: Json) -> Result<TypeBindingKindV, DecodeError>
    decreases j, 0int,
{
    match j {
        Json::Obj(fs) => {
            if fs@.len() != 1 {
                Err(DecodeError::Malformed)
            } else {
                let tag = fs@[0].0;
                let payload = fs@[0].1;
                if tag@ == "equality"@ {
                    match spec_decode_type(payload) {
                        Ok(t) => Ok(TypeBindingKindV::Equality(t)),
                        Err(e) => Err(e),
                    }
                } else if tag@ == "constraint"@ {
                    match payload {
                        Json::Arr(v) => match spec_decode_bounds(v@) {
                            Ok(bs) => Ok(TypeBindingKindV::Constraint(bs)),
                            Err(e) => Err(e),
                        },
                        _ => Err(DecodeError::Malformed),
                    }
                } else {
                    Err(DecodeError::UnsupportedVariant(tag))
                }
            }
        },
        _ => Err(DecodeError::Malformed),
    }
}

pub open spec fn spec_decode_modifier(j: Json) -> Result<TraitBoundModifier, DecodeError> {
    match j {
        Json::Str(s) => {
            if s@ == "none"@ {
                Ok(TraitBoundModifier::Plain)
            } else if s@ == "maybe"@ {
                Ok(TraitBoundModifier::Maybe)
            } else if s@ == "maybe_const"@ {
                Ok(TraitBoundModifier::MaybeConst)
            } else {
                Err(DecodeError::UnsupportedVariant(s))
            }
        },
        _ => Err(DecodeError::Malformed),
    }
}

pub open spec fn spec_decode_bound(j: Json) -> Result<GenericBoundV, DecodeError>
    decreases j, 0int,
{
    match j {
        Json::Obj(fs) => {
            if fs@.len() != 1 {
                Err(DecodeError::Malformed)
            } else {
                let tag = fs@[0].0;
                let payload = fs@[0].1;
                if tag@ == "trait_bound"@ {
                    match payload {
                        Json::Obj(pf) => match spec_obj_get(pf@, "trait"@) {
                            Some(tj) => match spec_decode_type(tj) {
                                Ok(t) => match spec_obj_get(pf@, "generic_params"@) {
                                    Some(Json::Arr(pv)) => match spec_decode_params(pv@) {
                                        Ok(ps) => match spec_obj_get(pf@, "modifier"@) {
                                            Some(mj) => match spec_decode_modifier(mj) {
                                                Ok(m) => Ok(
                                                    GenericBoundV::TraitBound {
                                                        trait_: t,
                                                        generic_params: ps,
                                                        modifier: m,
                                                    },
                                                ),
                                                Err(e) => Err(e),
                                            },
                                            None => Err(DecodeError::Malformed),
                                        },
                                        Err(e) => Err(e),
                                    },
                                    _ => Err(DecodeError::Malformed),
                                },
                                Err(e) => Err(e),
                            },
                            None => Err(DecodeError::Malformed),
                        },
                        _ => Err(DecodeError::Malformed),
                    }
                } else if tag@ == "outlives"@ {
                    match payload {
                        Json::Str(s) => Ok(GenericBoundV::Outlives(s@)),
                        _ => Err(DecodeError::Malformed),
                    }
                } else {
                    Err(DecodeError::UnsupportedVariant(tag))
                }
            }
        },
        _ => Err(DecodeError::Malformed),
    }
}

pub open spec fn spec_decode_bounds(s: Seq<Json>) -> Result<Seq<GenericBoundV>, DecodeError>
    decreases s, 0int,
{
    if s.len() == 0 {
        Ok(Seq::empty())
    } else {
        match spec_decode_bounds(s.drop_last()) {
            Ok(bs) => match spec_decode_bound(s.last()) {
                Ok(b) => Ok(bs.push(b)),
                Err(e) => Err(e),
            },
            Err(e) => Err(e),
        }
    }
}

pub open spec fn spec_decode_param(j: Json) -> Result<GenericParamDefV, DecodeError>
    decreases j, 0int,
{
    match j {
        Json::Obj(fs) => match spec_req_str(fs@, "name"@) {
            Ok(name) => match spec_obj_get(fs@, "kind"@) {
                Some(kj) => match spec_decode_param_kind(kj) {
                    Ok(kind) => Ok(GenericParamDefV { name, kind }),
                    Err(e) => Err(e),
                },
                None => Err(DecodeError::Malformed),
            },
            Err(e) => Err(e),
        },
        _ => Err(DecodeError::Malformed),
    }
}

pub open spec fn spec_decode_params(s: Seq<Json>) -> Result<Seq<GenericParamDefV>, DecodeError>
    decreases s, 0int,
{
    if s.len() == 0 {
        Ok(Seq::empty())
    } else {
        match spec_decode_params(s.drop_last()) {
            Ok(ps) => match spec_decode_param(s.last()) {
                Ok(p) => Ok(ps.push(p)),
                Err(e) => Err(e),
            },
            Err(e) => Err(e),
        }
    }
}

pub open spec fn spec_decode_param_kind(j: Json) -> Result<GenericParamDefKindV, DecodeError>
    decreases j, 0int,
{
    match j {
        Json::Str(s) => {
            if s@ == "lifetime"@ {
                Ok(GenericParamDefKindV::Lifetime)
            } else {
                Err(DecodeError::UnsupportedVariant(s))
            }
        },
        Json::Obj(fs) => {
            if fs@.len() != 1 {
                Err(DecodeError::Malformed)
            } else {
                let tag = fs@[0].0;
                let payload = fs@[0].1;
                if tag@ == "type"@ {
                    match payload {
                        Json::Obj(pf) => match spec_obj_get(pf@, "bounds"@) {
                            Some(Json::Arr(bv)) => match spec_decode_bounds(bv@) {
                                Ok(bs) => match spec_decode_opt_type(pf@, "default"@) {
                                    Ok(d) => Ok(
                                        GenericParamDefKindV::Type { bounds: bs, default: d },
                                    ),
                                    Err(e) => Err(e),
                                },
                                Err(e) => Err(e),
                            },
                            _ => Err(DecodeError::Malformed),
                        },
                        _ => Err(DecodeError::Malformed),
                    }
                } else if tag@ == "const"@ {
                    match spec_decode_type(payload) {
                        Ok(t) => Ok(GenericParamDefKindV::Const(Box::new(t))),
                        Err(e) => Err(e),
                    }
                } else {
                    Err(DecodeError::UnsupportedVariant(tag))
                }
            }
        },
        _ => Err(DecodeError::Malformed),
    }
}

pub open spec fn spec_decode_where(j: Json) -> Result<WherePredicateV, DecodeError>
    decreases j, 0int,
{
    match j {
        Json::Obj(fs) => {
            if fs@.len() != 1 {
                Err(DecodeError::Malformed)
            } else {
                let tag = fs@[0].0;
                let payload = fs@[0].1;
                if tag@ == "bound_predicate"@ {
                    match payload {
                        Json::Obj(pf) => match spec_obj_get(pf@, "ty"@) {
                            Some(tj) => match spec_decode_type(tj) {
                                Ok(t) => match spec_obj_get(pf@, "bounds"@) {
                                    Some(Json::Arr(bv)) => match spec_decode_bounds(bv@) {
                                        Ok(bs) => Ok(
                                            WherePredicateV::BoundPredicate { ty: t, bounds: bs },
                                        ),
                                        Err(e) => Err(e),
                                    },
                                    _ => Err(DecodeError::Malformed),
                                },
                                Err(e) => Err(e),
                            },
                            None => Err(DecodeError::Malformed),
                        },
                        _ => Err(DecodeError::Malformed),
                    }
                } else if tag@ == "region_predicate"@ {
                    match payload {
                        Json::Obj(pf) => match spec_req_str(pf@, "lifetime"@) {
                            Ok(lt) => match spec_obj_get(pf@, "bounds"@) {
                                Some(Json::Arr(bv)) => match spec_decode_bounds(bv@) {
                                    Ok(bs) => Ok(
                                        WherePredicateV::RegionPredicate {
                                            lifetime: lt,
                                            bounds: bs,
                                        },
                                    ),
                                    Err(e) => Err(e),
                                },
                                _ => Err(DecodeError::Malformed),
                            },
                            Err(e) => Err(e),
                        },
                        _ => Err(DecodeError::Malformed),
                    }
                } else if tag@ == "eq_predicate"@ {
                    match payload {
                        Json::Obj(pf) => match spec_obj_get(pf@, "lhs"@) {
                            Some(lj) => match spec_decode_type(lj) {
                                Ok(lhs) => match spec_obj_get(pf@, "rhs"@) {
                                    Some(rj) => match spec_decode_type(rj) {
                                        Ok(rhs) => Ok(WherePredicateV::EqPredicate { lhs, rhs }),
                                        Err(e) => Err(e),
                                    },
                                    None => Err(DecodeError::Malformed),
                                },
                                Err(e) => Err(e),
                            },
                            None => Err(DecodeError::Malformed),
                        },
                        _ => Err(DecodeError::Malformed),
                    }
                } else {
                    Err(DecodeError::UnsupportedVariant(tag))
                }
            }
        },
        _ => Err(DecodeError::Malformed),
    }
}

pub open spec fn spec_decode_wheres(s: Seq<Json>) -> Result<Seq<WherePredicateV>, DecodeError>
    decreases s, 0int,
{
    if s.len() == 0 {
        Ok(Seq::empty())
    } else {
        match spec_decode_wheres(s.drop_last()) {
            Ok(ws) => match spec_decode_where(s.last()) {
                Ok(w) => Ok(ws.push(w)),
                Err(e) => Err(e),
            },
            Err(e) => Err(e),
        }
    }
}

pub open spec fn spec_decode_generics(j: Json) -> Result<GenericsV, DecodeError>
    decreases j, 0int,
{
    match j {
        Json::Obj(fs) => match spec_obj_get(fs@, "params"@) {
            Some(Json::Arr(pv)) => match spec_decode_params(pv@) {
                Ok(ps) => match spec_obj_get(fs@, "where_predicates"@) {
                    Some(Json::Arr(wv)) => match spec_decode_wheres(wv@) {
                        Ok(ws) => Ok(GenericsV { params: ps, where_predicates: ws }),
                        Err(e) => Err(e),
                    },
                    _ => Err(DecodeError::Malformed),
                },
                Err(e) => Err(e),
            },
            _ => Err(DecodeError::Malformed),
        },
        _ => Err(DecodeError::Malformed),
    }
}

pub open spec fn spec_decode_qualifier(j: Json) -> Result<Qualifiers, DecodeError> {
    match j {
        Json::Str(s) => {
            if s@ == "const"@ {
                Ok(Qualifiers::Const)
            } else if s@ == "unsafe"@ {
                Ok(Qualifiers::Unsafe)
            } else if s@ == "async"@ {
                Ok(Qualifiers::Async)
            } else {
                Err(DecodeError::UnsupportedVariant(s))
            }
        },
        _ => Err(DecodeError::Malformed),
    }
}

pub open spec fn spec_decode_qualifier_list(s: Seq<Json>) -> Result<Seq<Qualifiers>, DecodeError>
    decreases s, 0int,
{
    if s.len() == 0 {
        Ok(Seq::empty())
    } else {
        match spec_decode_qualifier_list(s.drop_last()) {
            Ok(qs) => match spec_decode_qualifier(s.last()) {
                Ok(q) => Ok(qs.push(q)),
                Err(e) => Err(e),
            },
            Err(e) => Err(e),
        }
    }
}

pub open spec fn spec_decode_fn_pointer(j: Json) -> Result<FunctionPointerV, DecodeError>
    decreases j, 0int,
{
    match j {
        Json::Obj(fs) => match spec_obj_get(fs@, "decl"@) {
            Some(dj) => match spec_decode_fn_decl(dj) {
                Ok(decl) => match spec_obj_get(fs@, "generic_params"@) {
                    Some(Json::Arr(pv)) => match spec_decode_params(pv@) {
                        Ok(ps) => match spec_obj_get(fs@, "header"@) {
                            Some(Json::Arr(hv)) => match spec_decode_qualifier_list(hv@) {
                                Ok(hs) => match spec_req_str(fs@, "abi"@) {
                                    Ok(abi) => Ok(
                                        FunctionPointerV {
                                            decl,
                                            generic_params: ps,
                                            header: hs,
                                            abi,
                                        },
                                    ),
                                    Err(e) => Err(e),
                                },
                                Err(e) => Err(e),
                            },
                            _ => Err(DecodeError::Malformed),
                        },
                        Err(e) => Err(e),
                    },
                    _ => Err(DecodeError::Malformed),
                },
                Err(e) => Err(e),
            },
            None => Err(DecodeError::Malformed),
        },
        _ => Err(DecodeError::Malformed),
    }
}

pub open spec fn spec_decode_fn_decl(j: Json) -> Result<FnDeclV, DecodeError>
    decreases j, 0int,
{
    match j {
        Json::Obj(fs) => match spec_obj_get(fs@, "inputs"@) {
            Some(Json::Arr(iv)) => match spec_decode_inputs(iv@) {
                Ok(inputs) => match spec_decode_opt_type(fs@, "output"@) {
                    Ok(output) => match spec_req_bool(fs@, "c_variadic"@) {
                        Ok(cv) => Ok(FnDeclV { inputs, output, c_variadic: cv }),
                        Err(e) => Err(e),
                    },
                    Err(e) => Err(e),
                },
                Err(e) => Err(e),
            },
            _ => Err(DecodeError::Malformed),
        },
        _ => Err(DecodeError::Malformed),
    }
}

/// One function input: a two-element array of argument name and type.
pub open spec fn spec_decode_input(j: Json) -> Result<(Seq<char>, TypeV), DecodeError>
    decreases j, 0int,
{
    match j {
        Json::Arr(v) => {
            if v@.len() != 2 {
                Err(DecodeError::Malformed)
            } else {
                match v@[0] {
                    Json::Str(name) => match spec_decode_type(v@[1]) {
                        Ok(t) => Ok((name@, t)),
                        Err(e) => Err(e),
                    },
                    _ => Err(DecodeError::Malformed),
                }
            }
        },
        _ => Err(DecodeError::Malformed),
    }
}

pub open spec fn spec_decode_inputs(s: Seq<Json>) -> Result<
    Seq<(Seq<char>, TypeV)>,
    DecodeError,
>
    decreases s, 0int,
{
    if s.len() == 0 {
        Ok(Seq::empty())
    } else {
        match spec_decode_inputs(s.drop_last()) {
            Ok(is) => match spec_decode_input(s.last()) {
                Ok(i) => Ok(is.push(i)),
                Err(e) => Err(e),
            },
            Err(e) => Err(e),
        }
    }
}

} // verus!
