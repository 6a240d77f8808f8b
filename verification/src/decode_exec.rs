//! Executable decoders for the mutually recursive type-expression group, each
//! proved to return exactly what its specification twin in [`crate::decode`]
//! says.

use crate::decode::{
    opt_field, opt_str, req_bool, req_str, res_view, spec_decode_binding,
    spec_decode_binding_kind, spec_decode_bindings, spec_decode_bound, spec_decode_bounds,
    spec_decode_constant, spec_decode_fn_decl, spec_decode_fn_pointer, spec_decode_generic_arg,
    spec_decode_generic_arg_list, spec_decode_generic_args, spec_decode_generics,
    spec_decode_input, spec_decode_inputs, spec_decode_modifier, spec_decode_opt_type,
    spec_decode_param, spec_decode_param_kind, spec_decode_param_names, spec_decode_params,
    spec_decode_qualifier, spec_decode_qualifier_list, spec_decode_resolved_path,
    spec_decode_type, spec_decode_type_payload, spec_decode_types, spec_decode_where,
    spec_decode_wheres, spec_opt_field, spec_req_str, DecodeError,
};
use crate::json::{obj_get, spec_obj_get, str_eq, Json};
use crate::types::{
    view_bindings, view_bounds, view_generic_arg_seq, view_inputs, view_opt_type, view_params,
    view_type, view_types, view_wheres, Constant, FnDecl, FunctionPointer, GenericArg,
    GenericArgs, GenericBound, GenericParamDef, GenericParamDefKind, Generics, Id, Qualifiers,
    TraitBoundModifier, Type, TypeBinding, TypeBindingKind, WherePredicate,
};
use std::sync::Arc;
use vstd::prelude::*;

verus! {

broadcast use crate::types::group_view_lemmas, crate::json::lemma_obj_get_smaller;

// ---------------------------------------------------------------------------
// If one element of a list fails, the whole list fails with that element's
// error: one lemma per list decoder.
// ---------------------------------------------------------------------------

proof fn lemma_types_err(s: Seq<Json>, i: int)
    requires
        0 <= i < s.len(),
        spec_decode_types(s.take(i)) is Ok,
        spec_decode_type(s[i]) is Err,
    ensures
        spec_decode_types(s) == Err::<Seq<crate::types::TypeV>, DecodeError>(
            spec_decode_type(s[i])->Err_0,
        ),
    decreases s.len(),
{
    if i == s.len() - 1 {
        assert(s.drop_last() =~= s.take(i));
    } else {
        assert(s.drop_last().take(i) =~= s.take(i));
        assert(s.drop_last()[i] == s[i]);
        lemma_types_err(s.drop_last(), i);
    }
}

proof fn lemma_bounds_err(s: Seq<Json>, i: int)
    requires
        0 <= i < s.len(),
        spec_decode_bounds(s.take(i)) is Ok,
        spec_decode_bound(s[i]) is Err,
    ensures
        spec_decode_bounds(s) == Err::<Seq<crate::types::GenericBoundV>, DecodeError>(
            spec_decode_bound(s[i])->Err_0,
        ),
    decreases s.len(),
{
    if i == s.len() - 1 {
        assert(s.drop_last() =~= s.take(i));
    } else {
        assert(s.drop_last().take(i) =~= s.take(i));
        assert(s.drop_last()[i] == s[i]);
        lemma_bounds_err(s.drop_last(), i);
    }
}

proof fn lemma_params_err(s: Seq<Json>, i: int)
    requires
        0 <= i < s.len(),
        spec_decode_params(s.take(i)) is Ok,
        spec_decode_param(s[i]) is Err,
    ensures
        spec_decode_params(s) == Err::<Seq<crate::types::GenericParamDefV>, DecodeError>(
            spec_decode_param(s[i])->Err_0,
        ),
    decreases s.len(),
{
    if i == s.len() - 1 {
        assert(s.drop_last() =~= s.take(i));
    } else {
        assert(s.drop_last().take(i) =~= s.take(i));
        assert(s.drop_last()[i] == s[i]);
        lemma_params_err(s.drop_last(), i);
    }
}

proof fn lemma_wheres_err(s: Seq<Json>, i: int)
    requires
        0 <= i < s.len(),
        spec_decode_wheres(s.take(i)) is Ok,
        spec_decode_where(s[i]) is Err,
    ensures
        spec_decode_wheres(s) == Err::<Seq<crate::types::WherePredicateV>, DecodeError>(
            spec_decode_where(s[i])->Err_0,
        ),
    decreases s.len(),
{
    if i == s.len() - 1 {
        assert(s.drop_last() =~= s.take(i));
    } else {
        assert(s.drop_last().take(i) =~= s.take(i));
        assert(s.drop_last()[i] == s[i]);
        lemma_wheres_err(s.drop_last(), i);
    }
}

proof fn lemma_args_err(s: Seq<Json>, i: int)
    requires
        0 <= i < s.len(),
        spec_decode_generic_arg_list(s.take(i)) is Ok,
        spec_decode_generic_arg(s[i]) is Err,
    ensures
        spec_decode_generic_arg_list(s) == Err::<Seq<crate::types::GenericArgV>, DecodeError>(
            spec_decode_generic_arg(s[i])->Err_0,
        ),
    decreases s.len(),
{
    if i == s.len() - 1 {
        assert(s.drop_last() =~= s.take(i));
    } else {
        assert(s.drop_last().take(i) =~= s.take(i));
        assert(s.drop_last()[i] == s[i]);
        lemma_args_err(s.drop_last(), i);
    }
}

proof fn lemma_bindings_err(s: Seq<Json>, i: int)
    requires
        0 <= i < s.len(),
        spec_decode_bindings(s.take(i)) is Ok,
        spec_decode_binding(s[i]) is Err,
    ensures
        spec_decode_bindings(s) == Err::<Seq<crate::types::TypeBindingV>, DecodeError>(
            spec_decode_binding(s[i])->Err_0,
        ),
    decreases s.len(),
{
    if i == s.len() - 1 {
        assert(s.drop_last() =~= s.take(i));
    } else {
        assert(s.drop_last().take(i) =~= s.take(i));
        assert(s.drop_last()[i] == s[i]);
        lemma_bindings_err(s.drop_last(), i);
    }
}

proof fn lemma_qualifiers_err(s: Seq<Json>, i: int)
    requires
        0 <= i < s.len(),
        spec_decode_qualifier_list(s.take(i)) is Ok,
        spec_decode_qualifier(s[i]) is Err,
    ensures
        spec_decode_qualifier_list(s) == Err::<Seq<Qualifiers>, DecodeError>(
            spec_decode_qualifier(s[i])->Err_0,
        ),
    decreases s.len(),
{
    if i == s.len() - 1 {
        assert(s.drop_last() =~= s.take(i));
    } else {
        assert(s.drop_last().take(i) =~= s.take(i));
        assert(s.drop_last()[i] == s[i]);
        lemma_qualifiers_err(s.drop_last(), i);
    }
}

proof fn lemma_inputs_err(s: Seq<Json>, i: int)
    requires
        0 <= i < s.len(),
        spec_decode_inputs(s.take(i)) is Ok,
        spec_decode_input(s[i]) is Err,
    ensures
        spec_decode_inputs(s) == Err::<Seq<(Seq<char>, crate::types::TypeV)>, DecodeError>(
            spec_decode_input(s[i])->Err_0,
        ),
    decreases s.len(),
{
    if i == s.len() - 1 {
        assert(s.drop_last() =~= s.take(i));
    } else {
        assert(s.drop_last().take(i) =~= s.take(i));
        assert(s.drop_last()[i] == s[i]);
        lemma_inputs_err(s.drop_last(), i);
    }
}

// ---------------------------------------------------------------------------
// Executable decoders.
// ---------------------------------------------------------------------------

pub fn decode_type(j: &Json) -> (r: Result<Type, DecodeError>)
    ensures
        res_view(r) == spec_decode_type(*j),
    decreases j, 0int,
{
    let fs = match j {
        Json::Obj(fs) => fs,
        _ => {
            return Err(DecodeError::Malformed);
        },
    };
    let tag = match obj_get(fs, "kind") {
        Some(Json::Str(tag)) => tag,
        _ => {
            return Err(DecodeError::Malformed);
        },
    };
    if str_eq(tag, "never") {
        Ok(Type::Never)
    } else if str_eq(tag, "infer") {
        Ok(Type::Infer)
    } else {
        match obj_get(fs, "inner") {
            None => Err(DecodeError::Malformed),
            Some(inner) => decode_type_payload(tag, inner),
        }
    }
}

fn decode_type_payload(tag: &String, inner: &Json) -> (r: Result<Type, DecodeError>)
    ensures
        res_view(r) == spec_decode_type_payload(*tag, *inner),
    decreases inner, 1int,
{
    if str_eq(tag, "resolved_path") {
        match inner {
            Json::Obj(pf) => decode_resolved_path(pf),
            _ => Err(DecodeError::Malformed),
        }
    } else if str_eq(tag, "generic") {
        match inner {
            Json::Str(s) => Ok(Type::Generic(s.clone())),
            _ => Err(DecodeError::Malformed),
        }
    } else if str_eq(tag, "primitive") {
        match inner {
            Json::Str(s) => Ok(Type::Primitive(s.clone())),
            _ => Err(DecodeError::Malformed),
        }
    } else if str_eq(tag, "function_pointer") {
        match decode_fn_pointer(inner) {
            Ok(f) => Ok(Type::FunctionPointer(Arc::new(f))),
            Err(e) => Err(e),
        }
    } else if str_eq(tag, "tuple") {
        match inner {
            Json::Arr(v) => match decode_types(v) {
                Ok(ts) => Ok(Type::Tuple(ts)),
                Err(e) => Err(e),
            },
            _ => Err(DecodeError::Malformed),
        }
    } else if str_eq(tag, "slice") {
        match decode_type(inner) {
            Ok(t) => Ok(Type::Slice(Arc::new(t))),
            Err(e) => Err(e),
        }
    } else if str_eq(tag, "array") {
        match inner {
            Json::Obj(pf) => {
                let tj = match obj_get(pf, "type") {
                    Some(tj) => tj,
                    None => {
                        return Err(DecodeError::Malformed);
                    },
                };
                let t = match decode_type(tj) {
                    Ok(t) => t,
                    Err(e) => {
                        return Err(e);
                    },
                };
                match req_str(pf, "len") {
                    Ok(len) => Ok(Type::Array { type_: Arc::new(t), len }),
                    Err(e) => Err(e),
                }
            },
            _ => Err(DecodeError::Malformed),
        }
    } else if str_eq(tag, "impl_trait") {
        match inner {
            Json::Arr(v) => match decode_bounds(v) {
                Ok(bs) => Ok(Type::ImplTrait(bs)),
                Err(e) => Err(e),
            },
            _ => Err(DecodeError::Malformed),
        }
    } else if str_eq(tag, "raw_pointer") {
        match inner {
            Json::Obj(pf) => {
                let m = match req_bool(pf, "mutable") {
                    Ok(m) => m,
                    Err(e) => {
                        return Err(e);
                    },
                };
                let tj = match obj_get(pf, "type") {
                    Some(tj) => tj,
                    None => {
                        return Err(DecodeError::Malformed);
                    },
                };
                match decode_type(tj) {
                    Ok(t) => Ok(Type::RawPointer { mutable: m, type_: Arc::new(t) }),
                    Err(e) => Err(e),
                }
            },
            _ => Err(DecodeError::Malformed),
        }
    } else if str_eq(tag, "borrowed_ref") {
        match inner {
            Json::Obj(pf) => {
                let lt = match opt_str(pf, "lifetime") {
                    Ok(lt) => lt,
                    Err(e) => {
                        return Err(e);
                    },
                };
                let m = match req_bool(pf, "mutable") {
                    Ok(m) => m,
                    Err(e) => {
                        return Err(e);
                    },
                };
                let tj = match obj_get(pf, "type") {
                    Some(tj) => tj,
                    None => {
                        return Err(DecodeError::Malformed);
                    },
                };
                match decode_type(tj) {
                    Ok(t) => Ok(
                        Type::BorrowedRef { lifetime: lt, mutable: m, type_: Arc::new(t) },
                    ),
                    Err(e) => Err(e),
                }
            },
            _ => Err(DecodeError::Malformed),
        }
    } else if str_eq(tag, "qualified_path") {
        match inner {
            Json::Obj(pf) => {
                let name = match req_str(pf, "name") {
                    Ok(name) => name,
                    Err(e) => {
                        return Err(e);
                    },
                };
                let sj = match obj_get(pf, "self_type") {
                    Some(sj) => sj,
                    None => {
                        return Err(DecodeError::Malformed);
                    },
                };
                let st = match decode_type(sj) {
                    Ok(st) => st,
                    Err(e) => {
                        return Err(e);
                    },
                };
                let tj = match obj_get(pf, "trait") {
                    Some(tj) => tj,
                    None => {
                        return Err(DecodeError::Malformed);
                    },
                };
                match decode_type(tj) {
                    Ok(tt) => Ok(
                        Type::QualifiedPath {
                            name,
                            self_type: Arc::new(st),
                            trait_: Arc::new(tt),
                        },
                    ),
                    Err(e) => Err(e),
                }
            },
            _ => Err(DecodeError::Malformed),
        }
    } else {
        Err(DecodeError::UnsupportedVariant(tag.clone()))
    }
}

fn decode_resolved_path(pf: &Vec<(String, Json)>) -> (r: Result<Type, DecodeError>)
    ensures
        res_view(r) == spec_decode_resolved_path(pf@),
    decreases pf@, 1int,
{
    let name = match req_str(pf, "name") {
        Ok(name) => name,
        Err(e) => {
            return Err(e);
        },
    };
    let id = match req_str(pf, "id") {
        Ok(id) => id,
        Err(e) => {
            return Err(e);
        },
    };
    match opt_field(pf, "args") {
        None => match decode_param_names(pf) {
            Ok(pn) => Ok(
                Type::ResolvedPath { name, id: Id(id), args: None, param_names: pn },
            ),
            Err(e) => Err(e),
        },
        Some(aj) => {
            let a = match decode_generic_args(aj) {
                Ok(a) => a,
                Err(e) => {
                    return Err(e);
                },
            };
            match decode_param_names(pf) {
                Ok(pn) => Ok(
                    Type::ResolvedPath {
                        name,
                        id: Id(id),
                        args: Some(Arc::new(a)),
                        param_names: pn,
                    },
                ),
                Err(e) => Err(e),
            }
        },
    }
}

fn decode_param_names(pf: &Vec<(String, Json)>) -> (r: Result<Vec<GenericBound>, DecodeError>)
    ensures
        match r {
            Ok(bs) => spec_decode_param_names(pf@) == Ok::<_, DecodeError>(view_bounds(bs@)),
            Err(e) => spec_decode_param_names(pf@) == Err::<Seq<crate::types::GenericBoundV>, _>(
                e,
            ),
        },
    decreases pf@, 0int,
{
    match opt_field(pf, "param_names") {
        None => {
            let r: Vec<GenericBound> = Vec::new();
            proof {
                assert(view_bounds(r@) =~= Seq::<crate::types::GenericBoundV>::empty());
            }
            Ok(r)
        },
        Some(Json::Arr(v)) => decode_bounds(v),
        Some(_) => Err(DecodeError::Malformed),
    }
}

pub fn decode_types(v: &Vec<Json>) -> (r: Result<Vec<Type>, DecodeError>)
    ensures
        match r {
            Ok(ts) => spec_decode_types(v@) == Ok::<_, DecodeError>(view_types(ts@)),
            Err(e) => spec_decode_types(v@) == Err::<Seq<crate::types::TypeV>, _>(e),
        },
    decreases v@, 0int,
{
    let mut out: Vec<Type> = Vec::new();
    let mut i: usize = 0;
    proof {
        assert(v@.take(0) =~= Seq::<Json>::empty());
        assert(view_types(out@) =~= Seq::<crate::types::TypeV>::empty());
    }
    while i < v.len()
        invariant
            0 <= i <= v.len(),
            spec_decode_types(v@.take(i as int)) == Ok::<_, DecodeError>(view_types(out@)),
        decreases v.len() - i,
    {
        proof {
            assert(decreases_to!(v@ => v@[i as int]));
        }
        let ghost prev = out@;
        match decode_type(&v[i]) {
            Ok(t) => {
                out.push(t);
                proof {
                    assert(v@.take(i as int + 1).drop_last() =~= v@.take(i as int));
                    assert(v@.take(i as int + 1).last() == v@[i as int]);
                    assert(view_types(out@) =~= view_types(prev).push(out@.last()@));
                }
            },
            Err(e) => {
                proof {
                    lemma_types_err(v@, i as int);
                }
                return Err(e);
            },
        }
        i = i + 1;
    }
    proof {
        assert(v@.take(v@.len() as int) =~= v@);
    }
    Ok(out)
}

/// An optional type field of `fs`, as a plain value.
pub(crate) fn decode_opt_type(fs: &Vec<(String, Json)>, name: &str) -> (r: Result<Option<Type>, DecodeError>)
    ensures
        match r {
            Ok(o) => spec_decode_opt_type(fs@, name@) == Ok::<_, DecodeError>(view_opt_type(o)),
            Err(e) => spec_decode_opt_type(fs@, name@) == Err::<
                Option<Box<crate::types::TypeV>>,
                _,
            >(e),
        },
    decreases fs@, 0int,
{
    match opt_field(fs, name) {
        None => Ok(None),
        Some(tj) => match decode_type(tj) {
            Ok(t) => Ok(Some(t)),
            Err(e) => Err(e),
        },
    }
}

fn decode_generic_args(j: &Json) -> (r: Result<GenericArgs, DecodeError>)
    ensures
        res_view(r) == spec_decode_generic_args(*j),
    decreases j, 0int,
{
    let fs = match j {
        Json::Obj(fs) => fs,
        _ => {
            return Err(DecodeError::Malformed);
        },
    };
    if fs.len() != 1 {
        return Err(DecodeError::Malformed);
    }
    let tag = &fs[0].0;
    let payload = &fs[0].1;
    proof {
        assert(decreases_to!(fs@ => fs@[0]));
        assert(decreases_to!(fs@[0] => fs@[0].1));
    }
    if str_eq(tag, "angle_bracketed") {
        match payload {
            Json::Obj(pf) => {
                let args = match obj_get(pf, "args") {
                    Some(Json::Arr(av)) => match decode_generic_arg_list(av) {
                        Ok(args) => args,
                        Err(e) => {
                            return Err(e);
                        },
                    },
                    _ => {
                        return Err(DecodeError::Malformed);
                    },
                };
                match obj_get(pf, "bindings") {
                    Some(Json::Arr(bv)) => match decode_bindings(bv) {
                        Ok(bindings) => Ok(GenericArgs::AngleBracketed { args, bindings }),
                        Err(e) => Err(e),
                    },
                    _ => Err(DecodeError::Malformed),
                }
            },
            _ => Err(DecodeError::Malformed),
        }
    } else if str_eq(tag, "parenthesized") {
        match payload {
            Json::Obj(pf) => {
                let inputs = match obj_get(pf, "inputs") {
                    Some(Json::Arr(iv)) => match decode_types(iv) {
                        Ok(inputs) => inputs,
                        Err(e) => {
                            return Err(e);
                        },
                    },
                    _ => {
                        return Err(DecodeError::Malformed);
                    },
                };
                match decode_opt_type(pf, "output") {
                    Ok(output) => Ok(GenericArgs::Parenthesized { inputs, output }),
                    Err(e) => Err(e),
                }
            },
            _ => Err(DecodeError::Malformed),
        }
    } else {
        Err(DecodeError::UnsupportedVariant(tag.clone()))
    }
}

fn decode_generic_arg(j: &Json) -> (r: Result<GenericArg, DecodeError>)
    ensures
        res_view(r) == spec_decode_generic_arg(*j),
    decreases j, 0int,
{
    let fs = match j {
        Json::Obj(fs) => fs,
        _ => {
            return Err(DecodeError::Malformed);
        },
    };
    if fs.len() != 1 {
        return Err(DecodeError::Malformed);
    }
    let tag = &fs[0].0;
    let payload = &fs[0].1;
    proof {
        assert(decreases_to!(fs@ => fs@[0]));
        assert(decreases_to!(fs@[0] => fs@[0].1));
    }
    if str_eq(tag, "lifetime") {
        match payload {
            Json::Str(s) => Ok(GenericArg::Lifetime(s.clone())),
            _ => Err(DecodeError::Malformed),
        }
    } else if str_eq(tag, "type") {
        match decode_type(payload) {
            Ok(t) => Ok(GenericArg::Type(t)),
            Err(e) => Err(e),
        }
    } else if str_eq(tag, "const") {
        match decode_constant(payload) {
            Ok(c) => Ok(GenericArg::Const(c)),
            Err(e) => Err(e),
        }
    } else {
        Err(DecodeError::UnsupportedVariant(tag.clone()))
    }
}

fn decode_generic_arg_list(v: &Vec<Json>) -> (r: Result<Vec<GenericArg>, DecodeError>)
    ensures
        match r {
            Ok(gs) => spec_decode_generic_arg_list(v@) == Ok::<_, DecodeError>(
                view_generic_arg_seq(gs@),
            ),
            Err(e) => spec_decode_generic_arg_list(v@) == Err::<Seq<crate::types::GenericArgV>, _>(
                e,
            ),
        },
    decreases v@, 0int,
{
    let mut out: Vec<GenericArg> = Vec::new();
    let mut i: usize = 0;
    proof {
        assert(v@.take(0) =~= Seq::<Json>::empty());
        assert(view_generic_arg_seq(out@) =~= Seq::<crate::types::GenericArgV>::empty());
    }
    while i < v.len()
        invariant
            0 <= i <= v.len(),
            spec_decode_generic_arg_list(v@.take(i as int)) == Ok::<_, DecodeError>(
                view_generic_arg_seq(out@),
            ),
        decreases v.len() - i,
    {
        proof {
            assert(decreases_to!(v@ => v@[i as int]));
        }
        let ghost prev = out@;
        match decode_generic_arg(&v[i]) {
            Ok(g) => {
                out.push(g);
                proof {
                    assert(v@.take(i as int + 1).drop_last() =~= v@.take(i as int));
                    assert(v@.take(i as int + 1).last() == v@[i as int]);
                    assert(view_generic_arg_seq(out@) =~= view_generic_arg_seq(prev).push(
                        out@.last()@,
                    ));
                }
            },
            Err(e) => {
                proof {
                    lemma_args_err(v@, i as int);
                }
                return Err(e);
            },
        }
        i = i + 1;
    }
    proof {
        assert(v@.take(v@.len() as int) =~= v@);
    }
    Ok(out)
}

pub(crate) fn decode_constant(j: &Json) -> (r: Result<Constant, DecodeError>)
    ensures
        res_view(r) == spec_decode_constant(*j),
    decreases j, 0int,
{
    let fs = match j {
        Json::Obj(fs) => fs,
        _ => {
            return Err(DecodeError::Malformed);
        },
    };
    let tj = match obj_get(fs, "type") {
        Some(tj) => tj,
        None => {
            return Err(DecodeError::Malformed);
        },
    };
    let t = match decode_type(tj) {
        Ok(t) => t,
        Err(e) => {
            return Err(e);
        },
    };
    let expr = match req_str(fs, "expr") {
        Ok(expr) => expr,
        Err(e) => {
            return Err(e);
        },
    };
    let value = match opt_str(fs, "value") {
        Ok(value) => value,
        Err(e) => {
            return Err(e);
        },
    };
    match req_bool(fs, "is_literal") {
        Ok(is_literal) => Ok(Constant { type_: Arc::new(t), expr, value, is_literal }),
        Err(e) => Err(e),
    }
}

fn decode_binding(j: &Json) -> (r: Result<TypeBinding, DecodeError>)
    ensures
        res_view(r) == spec_decode_binding(*j),
    decreases j, 0int,
{
    let fs = match j {
        Json::Obj(fs) => fs,
        _ => {
            return Err(DecodeError::Malformed);
        },
    };
    let name = match req_str(fs, "name") {
        Ok(name) => name,
        Err(e) => {
            return Err(e);
        },
    };
    match obj_get(fs, "binding") {
        Some(bj) => match decode_binding_kind(bj) {
            Ok(binding) => Ok(TypeBinding { name, binding }),
            Err(e) => Err(e),
        },
        None => Err(DecodeError::Malformed),
    }
}

fn decode_bindings(v: &Vec<Json>) -> (r: Result<Vec<TypeBinding>, DecodeError>)
    ensures
        match r {
            Ok(bs) => spec_decode_bindings(v@) == Ok::<_, DecodeError>(view_bindings(bs@)),
            Err(e) => spec_decode_bindings(v@) == Err::<Seq<crate::types::TypeBindingV>, _>(e),
        },
    decreases v@, 0int,
{
    let mut out: Vec<TypeBinding> = Vec::new();
    let mut i: usize = 0;
    proof {
        assert(v@.take(0) =~= Seq::<Json>::empty());
        assert(view_bindings(out@) =~= Seq::<crate::types::TypeBindingV>::empty());
    }
    while i < v.len()
        invariant
            0 <= i <= v.len(),
            spec_decode_bindings(v@.take(i as int)) == Ok::<_, DecodeError>(view_bindings(out@)),
        decreases v.len() - i,
    {
        proof {
            assert(decreases_to!(v@ => v@[i as int]));
        }
        let ghost prev = out@;
        match decode_binding(&v[i]) {
            Ok(b) => {
                out.push(b);
                proof {
                    assert(v@.take(i as int + 1).drop_last() =~= v@.take(i as int));
                    assert(v@.take(i as int + 1).last() == v@[i as int]);
                    assert(view_bindings(out@) =~= view_bindings(prev).push(out@.last()@));
                }
            },
            Err(e) => {
                proof {
                    lemma_bindings_err(v@, i as int);
                }
                return Err(e);
            },
        }
        i = i + 1;
    }
    proof {
        assert(v@.take(v@.len() as int) =~= v@);
    }
    Ok(out)
}

fn decode_binding_kind(j: &Json) -> (r: Result<TypeBindingKind, DecodeError>)
    ensures
        res_view(r) == spec_decode_binding_kind(*j),
    decreases j, 0int,
{
    let fs = match j {
        Json::Obj(fs) => fs,
        _ => {
            return Err(DecodeError::Malformed);
        },
    };
    if fs.len() != 1 {
        return Err(DecodeError::Malformed);
    }
    let tag = &fs[0].0;
    let payload = &fs[0].1;
    proof {
        assert(decreases_to!(fs@ => fs@[0]));
        assert(decreases_to!(fs@[0] => fs@[0].1));
    }
    if str_eq(tag, "equality") {
        match decode_type(payload) {
            Ok(t) => Ok(TypeBindingKind::Equality(t)),
            Err(e) => Err(e),
        }
    } else if str_eq(tag, "constraint") {
        match payload {
            Json::Arr(v) => match decode_bounds(v) {
                Ok(bs) => Ok(TypeBindingKind::Constraint(bs)),
                Err(e) => Err(e),
            },
            _ => Err(DecodeError::Malformed),
        }
    } else {
        Err(DecodeError::UnsupportedVariant(tag.clone()))
    }
}

fn decode_modifier(j: &Json) -> (r: Result<TraitBoundModifier, DecodeError>)
    ensures
        r == spec_decode_modifier(*j),
{
    match j {
        Json::Str(s) => {
            if str_eq(s, "none") {
                Ok(TraitBoundModifier::Plain)
            } else if str_eq(s, "maybe") {
                Ok(TraitBoundModifier::Maybe)
            } else if str_eq(s, "maybe_const") {
                Ok(TraitBoundModifier::MaybeConst)
            } else {
                Err(DecodeError::UnsupportedVariant(s.clone()))
            }
        },
        _ => Err(DecodeError::Malformed),
    }
}

fn decode_bound(j: &Json) -> (r: Result<GenericBound, DecodeError>)
    ensures
        res_view(r) == spec_decode_bound(*j),
    decreases j, 0int,
{
    let fs = match j {
        Json::Obj(fs) => fs,
        _ => {
            return Err(DecodeError::Malformed);
        },
    };
    if fs.len() != 1 {
        return Err(DecodeError::Malformed);
    }
    let tag = &fs[0].0;
    let payload = &fs[0].1;
    proof {
        assert(decreases_to!(fs@ => fs@[0]));
        assert(decreases_to!(fs@[0] => fs@[0].1));
    }
    if str_eq(tag, "trait_bound") {
        match payload {
            Json::Obj(pf) => {
                let tj = match obj_get(pf, "trait") {
                    Some(tj) => tj,
                    None => {
                        return Err(DecodeError::Malformed);
                    },
                };
                let t = match decode_type(tj) {
                    Ok(t) => t,
                    Err(e) => {
                        return Err(e);
                    },
                };
                let ps = match obj_get(pf, "generic_params") {
                    Some(Json::Arr(pv)) => match decode_params(pv) {
                        Ok(ps) => ps,
                        Err(e) => {
                            return Err(e);
                        },
                    },
                    _ => {
                        return Err(DecodeError::Malformed);
                    },
                };
                match obj_get(pf, "modifier") {
                    Some(mj) => match decode_modifier(mj) {
                        Ok(m) => Ok(
                            GenericBound::TraitBound {
                                trait_: t,
                                generic_params: ps,
                                modifier: m,
                            },
                        ),
                        Err(e) => Err(e),
                    },
                    None => Err(DecodeError::Malformed),
                }
            },
            _ => Err(DecodeError::Malformed),
        }
    } else if str_eq(tag, "outlives") {
        match payload {
            Json::Str(s) => Ok(GenericBound::Outlives(s.clone())),
            _ => Err(DecodeError::Malformed),
        }
    } else {
        Err(DecodeError::UnsupportedVariant(tag.clone()))
    }
}

pub fn decode_bounds(v: &Vec<Json>) -> (r: Result<Vec<GenericBound>, DecodeError>)
    ensures
        match r {
            Ok(bs) => spec_decode_bounds(v@) == Ok::<_, DecodeError>(view_bounds(bs@)),
            Err(e) => spec_decode_bounds(v@) == Err::<Seq<crate::types::GenericBoundV>, _>(e),
        },
    decreases v@, 0int,
{
    let mut out: Vec<GenericBound> = Vec::new();
    let mut i: usize = 0;
    proof {
        assert(v@.take(0) =~= Seq::<Json>::empty());
        assert(view_bounds(out@) =~= Seq::<crate::types::GenericBoundV>::empty());
    }
    while i < v.len()
        invariant
            0 <= i <= v.len(),
            spec_decode_bounds(v@.take(i as int)) == Ok::<_, DecodeError>(view_bounds(out@)),
        decreases v.len() - i,
    {
        proof {
            assert(decreases_to!(v@ => v@[i as int]));
        }
        let ghost prev = out@;
        match decode_bound(&v[i]) {
            Ok(b) => {
                out.push(b);
                proof {
                    assert(v@.take(i as int + 1).drop_last() =~= v@.take(i as int));
                    assert(v@.take(i as int + 1).last() == v@[i as int]);
                    assert(view_bounds(out@) =~= view_bounds(prev).push(out@.last()@));
                }
            },
            Err(e) => {
                proof {
                    lemma_bounds_err(v@, i as int);
                }
                return Err(e);
            },
        }
        i = i + 1;
    }
    proof {
        assert(v@.take(v@.len() as int) =~= v@);
    }
    Ok(out)
}

fn decode_param(j: &Json) -> (r: Result<GenericParamDef, DecodeError>)
    ensures
        res_view(r) == spec_decode_param(*j),
    decreases j, 0int,
{
    let fs = match j {
        Json::Obj(fs) => fs,
        _ => {
            return Err(DecodeError::Malformed);
        },
    };
    let name = match req_str(fs, "name") {
        Ok(name) => name,
        Err(e) => {
            return Err(e);
        },
    };
    match obj_get(fs, "kind") {
        Some(kj) => match decode_param_kind(kj) {
            Ok(kind) => Ok(GenericParamDef { name, kind }),
            Err(e) => Err(e),
        },
        None => Err(DecodeError::Malformed),
    }
}

pub fn decode_params(v: &Vec<Json>) -> (r: Result<Vec<GenericParamDef>, DecodeError>)
    ensures
        match r {
            Ok(ps) => spec_decode_params(v@) == Ok::<_, DecodeError>(view_params(ps@)),
            Err(e) => spec_decode_params(v@) == Err::<Seq<crate::types::GenericParamDefV>, _>(e),
        },
    decreases v@, 0int,
{
    let mut out: Vec<GenericParamDef> = Vec::new();
    let mut i: usize = 0;
    proof {
        assert(v@.take(0) =~= Seq::<Json>::empty());
        assert(view_params(out@) =~= Seq::<crate::types::GenericParamDefV>::empty());
    }
    while i < v.len()
        invariant
            0 <= i <= v.len(),
            spec_decode_params(v@.take(i as int)) == Ok::<_, DecodeError>(view_params(out@)),
        decreases v.len() - i,
    {
        proof {
            assert(decreases_to!(v@ => v@[i as int]));
        }
        let ghost prev = out@;
        match decode_param(&v[i]) {
            Ok(p) => {
                out.push(p);
                proof {
                    assert(v@.take(i as int + 1).drop_last() =~= v@.take(i as int));
                    assert(v@.take(i as int + 1).last() == v@[i as int]);
                    assert(view_params(out@) =~= view_params(prev).push(out@.last()@));
                }
            },
            Err(e) => {
                proof {
                    lemma_params_err(v@, i as int);
                }
                return Err(e);
            },
        }
        i = i + 1;
    }
    proof {
        assert(v@.take(v@.len() as int) =~= v@);
    }
    Ok(out)
}

fn decode_param_kind(j: &Json) -> (r: Result<GenericParamDefKind, DecodeError>)
    ensures
        res_view(r) == spec_decode_param_kind(*j),
    decreases j, 0int,
{
    match j {
        Json::Str(s) => {
            if str_eq(s, "lifetime") {
                Ok(GenericParamDefKind::Lifetime)
            } else {
                Err(DecodeError::UnsupportedVariant(s.clone()))
            }
        },
        Json::Obj(fs) => {
            if fs.len() != 1 {
                return Err(DecodeError::Malformed);
            }
            let tag = &fs[0].0;
            let payload = &fs[0].1;
            proof {
                assert(decreases_to!(fs@ => fs@[0]));
                assert(decreases_to!(fs@[0] => fs@[0].1));
            }
            if str_eq(tag, "type") {
                match payload {
                    Json::Obj(pf) => {
                        let bs = match obj_get(pf, "bounds") {
                            Some(Json::Arr(bv)) => match decode_bounds(bv) {
                                Ok(bs) => bs,
                                Err(e) => {
                                    return Err(e);
                                },
                            },
                            _ => {
                                return Err(DecodeError::Malformed);
                            },
                        };
                        match decode_opt_type(pf, "default") {
                            Ok(None) => Ok(
                                GenericParamDefKind::Type { bounds: bs, default: None },
                            ),
                            Ok(Some(t)) => Ok(
                                GenericParamDefKind::Type {
                                    bounds: bs,
                                    default: Some(Arc::new(t)),
                                },
                            ),
                            Err(e) => Err(e),
                        }
                    },
                    _ => Err(DecodeError::Malformed),
                }
            } else if str_eq(tag, "const") {
                match decode_type(payload) {
                    Ok(t) => Ok(GenericParamDefKind::Const(Arc::new(t))),
                    Err(e) => Err(e),
                }
            } else {
                Err(DecodeError::UnsupportedVariant(tag.clone()))
            }
        },
        _ => Err(DecodeError::Malformed),
    }
}

fn decode_where(j: &Json) -> (r: Result<WherePredicate, DecodeError>)
    ensures
        res_view(r) == spec_decode_where(*j),
    decreases j, 0int,
{
    let fs = match j {
        Json::Obj(fs) => fs,
        _ => {
            return Err(DecodeError::Malformed);
        },
    };
    if fs.len() != 1 {
        return Err(DecodeError::Malformed);
    }
    let tag = &fs[0].0;
    let payload = &fs[0].1;
    proof {
        assert(decreases_to!(fs@ => fs@[0]));
        assert(decreases_to!(fs@[0] => fs@[0].1));
    }
    if str_eq(tag, "bound_predicate") {
        match payload {
            Json::Obj(pf) => {
                let tj = match obj_get(pf, "ty") {
                    Some(tj) => tj,
                    None => {
                        return Err(DecodeError::Malformed);
                    },
                };
                let t = match decode_type(tj) {
                    Ok(t) => t,
                    Err(e) => {
                        return Err(e);
                    },
                };
                match obj_get(pf, "bounds") {
                    Some(Json::Arr(bv)) => match decode_bounds(bv) {
                        Ok(bs) => Ok(WherePredicate::BoundPredicate { ty: t, bounds: bs }),
                        Err(e) => Err(e),
                    },
                    _ => Err(DecodeError::Malformed),
                }
            },
            _ => Err(DecodeError::Malformed),
        }
    } else if str_eq(tag, "region_predicate") {
        match payload {
            Json::Obj(pf) => {
                let lt = match req_str(pf, "lifetime") {
                    Ok(lt) => lt,
                    Err(e) => {
                        return Err(e);
                    },
                };
                match obj_get(pf, "bounds") {
                    Some(Json::Arr(bv)) => match decode_bounds(bv) {
                        Ok(bs) => Ok(
                            WherePredicate::RegionPredicate { lifetime: lt, bounds: bs },
                        ),
                        Err(e) => Err(e),
                    },
                    _ => Err(DecodeError::Malformed),
                }
            },
            _ => Err(DecodeError::Malformed),
        }
    } else if str_eq(tag, "eq_predicate") {
        match payload {
            Json::Obj(pf) => {
                let lj = match obj_get(pf, "lhs") {
                    Some(lj) => lj,
                    None => {
                        return Err(DecodeError::Malformed);
                    },
                };
                let lhs = match decode_type(lj) {
                    Ok(lhs) => lhs,
                    Err(e) => {
                        return Err(e);
                    },
                };
                match obj_get(pf, "rhs") {
                    Some(rj) => match decode_type(rj) {
                        Ok(rhs) => Ok(WherePredicate::EqPredicate { lhs, rhs }),
                        Err(e) => Err(e),
                    },
                    None => Err(DecodeError::Malformed),
                }
            },
            _ => Err(DecodeError::Malformed),
        }
    } else {
        Err(DecodeError::UnsupportedVariant(tag.clone()))
    }
}

fn decode_wheres(v: &Vec<Json>) -> (r: Result<Vec<WherePredicate>, DecodeError>)
    ensures
        match r {
            Ok(ws) => spec_decode_wheres(v@) == Ok::<_, DecodeError>(view_wheres(ws@)),
            Err(e) => spec_decode_wheres(v@) == Err::<Seq<crate::types::WherePredicateV>, _>(e),
        },
    decreases v@, 0int,
{
    let mut out: Vec<WherePredicate> = Vec::new();
    let mut i: usize = 0;
    proof {
        assert(v@.take(0) =~= Seq::<Json>::empty());
        assert(view_wheres(out@) =~= Seq::<crate::types::WherePredicateV>::empty());
    }
    while i < v.len()
        invariant
            0 <= i <= v.len(),
            spec_decode_wheres(v@.take(i as int)) == Ok::<_, DecodeError>(view_wheres(out@)),
        decreases v.len() - i,
    {
        proof {
            assert(decreases_to!(v@ => v@[i as int]));
        }
        let ghost prev = out@;
        match decode_where(&v[i]) {
            Ok(w) => {
                out.push(w);
                proof {
                    assert(v@.take(i as int + 1).drop_last() =~= v@.take(i as int));
                    assert(v@.take(i as int + 1).last() == v@[i as int]);
                    assert(view_wheres(out@) =~= view_wheres(prev).push(out@.last()@));
                }
            },
            Err(e) => {
                proof {
                    lemma_wheres_err(v@, i as int);
                }
                return Err(e);
            },
        }
        i = i + 1;
    }
    proof {
        assert(v@.take(v@.len() as int) =~= v@);
    }
    Ok(out)
}

pub fn decode_generics(j: &Json) -> (r: Result<Generics, DecodeError>)
    ensures
        res_view(r) == spec_decode_generics(*j),
    decreases j, 0int,
{
    let fs = match j {
        Json::Obj(fs) => fs,
        _ => {
            return Err(DecodeError::Malformed);
        },
    };
    let ps = match obj_get(fs, "params") {
        Some(Json::Arr(pv)) => match decode_params(pv) {
            Ok(ps) => ps,
            Err(e) => {
                return Err(e);
            },
        },
        _ => {
            return Err(DecodeError::Malformed);
        },
    };
    match obj_get(fs, "where_predicates") {
        Some(Json::Arr(wv)) => match decode_wheres(wv) {
            Ok(ws) => Ok(Generics { params: ps, where_predicates: ws }),
            Err(e) => Err(e),
        },
        _ => Err(DecodeError::Malformed),
    }
}

fn decode_qualifier(j: &Json) -> (r: Result<Qualifiers, DecodeError>)
    ensures
        r == spec_decode_qualifier(*j),
{
    match j {
        Json::Str(s) => {
            if str_eq(s, "const") {
                Ok(Qualifiers::Const)
            } else if str_eq(s, "unsafe") {
                Ok(Qualifiers::Unsafe)
            } else if str_eq(s, "async") {
                Ok(Qualifiers::Async)
            } else {
                Err(DecodeError::UnsupportedVariant(s.clone()))
            }
        },
        _ => Err(DecodeError::Malformed),
    }
}

pub fn decode_qualifier_list(v: &Vec<Json>) -> (r: Result<Vec<Qualifiers>, DecodeError>)
    ensures
        match r {
            Ok(qs) => spec_decode_qualifier_list(v@) == Ok::<_, DecodeError>(qs@),
            Err(e) => spec_decode_qualifier_list(v@) == Err::<Seq<Qualifiers>, _>(e),
        },
{
    let mut out: Vec<Qualifiers> = Vec::new();
    let mut i: usize = 0;
    proof {
        assert(v@.take(0) =~= Seq::<Json>::empty());
    }
    while i < v.len()
        invariant
            0 <= i <= v.len(),
            spec_decode_qualifier_list(v@.take(i as int)) == Ok::<_, DecodeError>(out@),
        decreases v.len() - i,
    {
        match decode_qualifier(&v[i]) {
            Ok(q) => {
                out.push(q);
                proof {
                    assert(v@.take(i as int + 1).drop_last() =~= v@.take(i as int));
                    assert(v@.take(i as int + 1).last() == v@[i as int]);
                }
            },
            Err(e) => {
                proof {
                    lemma_qualifiers_err(v@, i as int);
                }
                return Err(e);
            },
        }
        i = i + 1;
    }
    proof {
        assert(v@.take(v@.len() as int) =~= v@);
    }
    Ok(out)
}

pub fn decode_fn_pointer(j: &Json) -> (r: Result<FunctionPointer, DecodeError>)
    ensures
        res_view(r) == spec_decode_fn_pointer(*j),
    decreases j, 0int,
{
    let fs = match j {
        Json::Obj(fs) => fs,
        _ => {
            return Err(DecodeError::Malformed);
        },
    };
    let dj = match obj_get(fs, "decl") {
        Some(dj) => dj,
        None => {
            return Err(DecodeError::Malformed);
        },
    };
    let decl = match decode_fn_decl(dj) {
        Ok(decl) => decl,
        Err(e) => {
            return Err(e);
        },
    };
    let ps = match obj_get(fs, "generic_params") {
        Some(Json::Arr(pv)) => match decode_params(pv) {
            Ok(ps) => ps,
            Err(e) => {
                return Err(e);
            },
        },
        _ => {
            return Err(DecodeError::Malformed);
        },
    };
    let hs = match obj_get(fs, "header") {
        Some(Json::Arr(hv)) => match decode_qualifier_list(hv) {
            Ok(hs) => hs,
            Err(e) => {
                return Err(e);
            },
        },
        _ => {
            return Err(DecodeError::Malformed);
        },
    };
    match req_str(fs, "abi") {
        Ok(abi) => Ok(FunctionPointer { decl, generic_params: ps, header: hs, abi }),
        Err(e) => Err(e),
    }
}

pub fn decode_fn_decl(j: &Json) -> (r: Result<FnDecl, DecodeError>)
    ensures
        res_view(r) == spec_decode_fn_decl(*j),
    decreases j, 0int,
{
    let fs = match j {
        Json::Obj(fs) => fs,
        _ => {
            return Err(DecodeError::Malformed);
        },
    };
    let inputs = match obj_get(fs, "inputs") {
        Some(Json::Arr(iv)) => match decode_inputs(iv) {
            Ok(inputs) => inputs,
            Err(e) => {
                return Err(e);
            },
        },
        _ => {
            return Err(DecodeError::Malformed);
        },
    };
    let output = match decode_opt_type(fs, "output") {
        Ok(output) => output,
        Err(e) => {
            return Err(e);
        },
    };
    match req_bool(fs, "c_variadic") {
        Ok(cv) => Ok(FnDecl { inputs, output, c_variadic: cv }),
        Err(e) => Err(e),
    }
}

fn decode_input(j: &Json) -> (r: Result<(String, Type), DecodeError>)
    ensures
        match r {
            Ok(p) => spec_decode_input(*j) == Ok::<_, DecodeError>((p.0@, p.1@)),
            Err(e) => spec_decode_input(*j) == Err::<(Seq<char>, crate::types::TypeV), _>(e),
        },
    decreases j, 0int,
{
    let v = match j {
        Json::Arr(v) => v,
        _ => {
            return Err(DecodeError::Malformed);
        },
    };
    if v.len() != 2 {
        return Err(DecodeError::Malformed);
    }
    proof {
        assert(decreases_to!(v@ => v@[1]));
    }
    match &v[0] {
        Json::Str(name) => match decode_type(&v[1]) {
            Ok(t) => Ok((name.clone(), t)),
            Err(e) => Err(e),
        },
        _ => Err(DecodeError::Malformed),
    }
}

fn decode_inputs(v: &Vec<Json>) -> (r: Result<Vec<(String, Type)>, DecodeError>)
    ensures
        match r {
            Ok(is) => spec_decode_inputs(v@) == Ok::<_, DecodeError>(view_inputs(is@)),
            Err(e) => spec_decode_inputs(v@) == Err::<Seq<(Seq<char>, crate::types::TypeV)>, _>(
                e,
            ),
        },
    decreases v@, 0int,
{
    let mut out: Vec<(String, Type)> = Vec::new();
    let mut i: usize = 0;
    proof {
        assert(v@.take(0) =~= Seq::<Json>::empty());
        assert(view_inputs(out@) =~= Seq::<(Seq<char>, crate::types::TypeV)>::empty());
    }
    while i < v.len()
        invariant
            0 <= i <= v.len(),
            spec_decode_inputs(v@.take(i as int)) == Ok::<_, DecodeError>(view_inputs(out@)),
        decreases v.len() - i,
    {
        proof {
            assert(decreases_to!(v@ => v@[i as int]));
        }
        let ghost prev = out@;
        match decode_input(&v[i]) {
            Ok(p) => {
                out.push(p);
                proof {
                    assert(v@.take(i as int + 1).drop_last() =~= v@.take(i as int));
                    assert(v@.take(i as int + 1).last() == v@[i as int]);
                    assert(view_inputs(out@) =~= view_inputs(prev).push(
                        (out@.last().0@, out@.last().1@),
                    ));
                }
            },
            Err(e) => {
                proof {
                    lemma_inputs_err(v@, i as int);
                }
                return Err(e);
            },
        }
        i = i + 1;
    }
    proof {
        assert(v@.take(v@.len() as int) =~= v@);
    }
    Ok(out)
}

} // verus!
