//! `Clone` for the data model, proved to preserve each value's view. Shared
//! subtrees are cloned by taking a new handle to the same node, never by
//! copying the tree.

use crate::types::{
    group_view_lemmas, view_binding, view_bindings, view_bound, view_bounds, view_generic_arg,
    view_generic_arg_seq, view_inputs, view_param, view_params, view_strings, view_type,
    view_types, view_where_predicate, view_wheres, Constant, Deprecation, ExternalCrate, FnDecl,
    FunctionPointer, GenericArg, GenericArgs, GenericBound, GenericParamDef, GenericParamDefKind,
    Generics, ItemSummary, Span, Type, TypeBinding, TypeBindingKind, Visibility, WherePredicate,
};
use std::sync::Arc;
use vstd::prelude::*;

verus! {

broadcast use group_view_lemmas;

/// Relies on `Arc::clone`: the returned handle points at the same value as
/// the argument.
#[verifier::external_body]
pub(crate) fn arc_clone<T>(v: &Arc<T>) -> (r: Arc<T>)
    ensures
        r == *v,
{
    Arc::clone(v)
}

/// Clones an optional string, keeping the value.
pub(crate) fn clone_opt_string(s: &Option<String>) -> (r: Option<String>)
    ensures
        r == *s,
{
    match s {
        Some(x) => Some(x.clone()),
        None => None,
    }
}

/// Clones a list of strings, keeping the values.
pub(crate) fn clone_strings(v: &Vec<String>) -> (r: Vec<String>)
    ensures
        r@ == v@,
{
    let r = v.clone();
    proof {
        assert(r@ =~= v@);
    }
    r
}

pub(crate) fn clone_inputs(v: &Vec<(String, Type)>) -> (r: Vec<(String, Type)>)
    ensures
        view_inputs(r@) == view_inputs(v@),
    decreases v@,
{
    let mut r: Vec<(String, Type)> = Vec::new();
    let mut i: usize = 0;
    while i < v.len()
        invariant
            0 <= i <= v.len(),
            r@.len() == i as int,
            forall|k: int|
                0 <= k < i ==> (#[trigger] r@[k]).0@ == v@[k].0@ && view_type(r@[k].1)
                    == view_type(v@[k].1),
        decreases v.len() - i,
    {
        let p = &v[i];
        proof {
            assert(decreases_to!(v@ => v@[i as int]));
            assert(decreases_to!(v@[i as int] => v@[i as int].1));
        }
        r.push((p.0.clone(), p.1.clone()));
        i = i + 1;
    }
    proof {
        assert(view_inputs(r@) =~= view_inputs(v@));
    }
    r
}


pub(crate) fn clone_types_vec(v: &Vec<Type>) -> (r: Vec<Type>)
    ensures
        view_types(r@) == view_types(v@),
    decreases v@,
{
    let mut r: Vec<Type> = Vec::new();
    let mut i: usize = 0;
    while i < v.len()
        invariant
            0 <= i <= v.len(),
            r@.len() == i as int,
            forall|k: int| 0 <= k < i ==> view_type(#[trigger] r@[k]) == view_type(v@[k]),
        decreases v.len() - i,
    {
        proof {
            assert(decreases_to!(v@ => v@[i as int]));
        }
        r.push(v[i].clone());
        i = i + 1;
    }
    proof {
        assert(view_types(r@) =~= view_types(v@));
    }
    r
}

pub(crate) fn clone_bounds_vec(v: &Vec<GenericBound>) -> (r: Vec<GenericBound>)
    ensures
        view_bounds(r@) == view_bounds(v@),
    decreases v@,
{
    let mut r: Vec<GenericBound> = Vec::new();
    let mut i: usize = 0;
    while i < v.len()
        invariant
            0 <= i <= v.len(),
            r@.len() == i as int,
            forall|k: int| 0 <= k < i ==> view_bound(#[trigger] r@[k]) == view_bound(v@[k]),
        decreases v.len() - i,
    {
        proof {
            assert(decreases_to!(v@ => v@[i as int]));
        }
        r.push(v[i].clone());
        i = i + 1;
    }
    proof {
        assert(view_bounds(r@) =~= view_bounds(v@));
    }
    r
}

pub(crate) fn clone_params_vec(v: &Vec<GenericParamDef>) -> (r: Vec<GenericParamDef>)
    ensures
        view_params(r@) == view_params(v@),
    decreases v@,
{
    let mut r: Vec<GenericParamDef> = Vec::new();
    let mut i: usize = 0;
    while i < v.len()
        invariant
            0 <= i <= v.len(),
            r@.len() == i as int,
            forall|k: int| 0 <= k < i ==> view_param(#[trigger] r@[k]) == view_param(v@[k]),
        decreases v.len() - i,
    {
        proof {
            assert(decreases_to!(v@ => v@[i as int]));
        }
        r.push(v[i].clone());
        i = i + 1;
    }
    proof {
        assert(view_params(r@) =~= view_params(v@));
    }
    r
}

pub(crate) fn clone_wheres_vec(v: &Vec<WherePredicate>) -> (r: Vec<WherePredicate>)
    ensures
        view_wheres(r@) == view_wheres(v@),
    decreases v@,
{
    let mut r: Vec<WherePredicate> = Vec::new();
    let mut i: usize = 0;
    while i < v.len()
        invariant
            0 <= i <= v.len(),
            r@.len() == i as int,
            forall|k: int|
                0 <= k < i ==> view_where_predicate(#[trigger] r@[k]) == view_where_predicate(
                    v@[k],
                ),
        decreases v.len() - i,
    {
        proof {
            assert(decreases_to!(v@ => v@[i as int]));
        }
        r.push(v[i].clone());
        i = i + 1;
    }
    proof {
        assert(view_wheres(r@) =~= view_wheres(v@));
    }
    r
}

pub(crate) fn clone_args_vec(v: &Vec<GenericArg>) -> (r: Vec<GenericArg>)
    ensures
        view_generic_arg_seq(r@) == view_generic_arg_seq(v@),
    decreases v@,
{
    let mut r: Vec<GenericArg> = Vec::new();
    let mut i: usize = 0;
    while i < v.len()
        invariant
            0 <= i <= v.len(),
            r@.len() == i as int,
            forall|k: int|
                0 <= k < i ==> view_generic_arg(#[trigger] r@[k]) == view_generic_arg(v@[k]),
        decreases v.len() - i,
    {
        proof {
            assert(decreases_to!(v@ => v@[i as int]));
        }
        r.push(v[i].clone());
        i = i + 1;
    }
    proof {
        assert(view_generic_arg_seq(r@) =~= view_generic_arg_seq(v@));
    }
    r
}

pub(crate) fn clone_bindings_vec(v: &Vec<TypeBinding>) -> (r: Vec<TypeBinding>)
    ensures
        view_bindings(r@) == view_bindings(v@),
    decreases v@,
{
    let mut r: Vec<TypeBinding> = Vec::new();
    let mut i: usize = 0;
    while i < v.len()
        invariant
            0 <= i <= v.len(),
            r@.len() == i as int,
            forall|k: int| 0 <= k < i ==> view_binding(#[trigger] r@[k]) == view_binding(v@[k]),
        decreases v.len() - i,
    {
        proof {
            assert(decreases_to!(v@ => v@[i as int]));
        }
        r.push(v[i].clone());
        i = i + 1;
    }
    proof {
        assert(view_bindings(r@) =~= view_bindings(v@));
    }
    r
}

impl Clone for Type {
    fn clone(&self) -> (r: Self)
        ensures
            r@ == self@,
        decreases *self,
    {
        match self {
            Type::ResolvedPath { name, id, args, param_names } => {
                let pn = clone_bounds_vec(param_names);
                Type::ResolvedPath {
                    name: name.clone(),
                    id: id.clone(),
                    args: match args {
                        Some(a) => Some(arc_clone(a)),
                        None => None,
                    },
                    param_names: pn,
                }
            },
            Type::Generic(g) => Type::Generic(g.clone()),
            Type::Primitive(p) => Type::Primitive(p.clone()),
            Type::FunctionPointer(f) => Type::FunctionPointer(arc_clone(f)),
            Type::Tuple(ts) => Type::Tuple(clone_types_vec(ts)),
            Type::Slice(s) => Type::Slice(arc_clone(s)),
            Type::Array { type_, len } => Type::Array {
                type_: arc_clone(type_),
                len: len.clone(),
            },
            Type::ImplTrait(bs) => Type::ImplTrait(clone_bounds_vec(bs)),
            Type::Never => Type::Never,
            Type::Infer => Type::Infer,
            Type::RawPointer { mutable, type_ } => Type::RawPointer {
                mutable: *mutable,
                type_: arc_clone(type_),
            },
            Type::BorrowedRef { lifetime, mutable, type_ } => Type::BorrowedRef {
                lifetime: clone_opt_string(lifetime),
                mutable: *mutable,
                type_: arc_clone(type_),
            },
            Type::QualifiedPath { name, self_type, trait_ } => Type::QualifiedPath {
                name: name.clone(),
                self_type: arc_clone(self_type),
                trait_: arc_clone(trait_),
            },
        }
    }
}

impl Clone for GenericArgs {
    fn clone(&self) -> (r: Self)
        ensures
            r@ == self@,
        decreases *self,
    {
        match self {
            GenericArgs::AngleBracketed { args, bindings } => {
                GenericArgs::AngleBracketed {
                    args: clone_args_vec(args),
                    bindings: clone_bindings_vec(bindings),
                }
            },
            GenericArgs::Parenthesized { inputs, output } => {
                GenericArgs::Parenthesized {
                    inputs: clone_types_vec(inputs),
                    output: match output {
                        Some(t) => Some(t.clone()),
                        None => None,
                    },
                }
            },
        }
    }
}

impl Clone for GenericArg {
    fn clone(&self) -> (r: Self)
        ensures
            r@ == self@,
        decreases *self,
    {
        match self {
            GenericArg::Lifetime(s) => GenericArg::Lifetime(s.clone()),
            GenericArg::Type(t) => GenericArg::Type(t.clone()),
            GenericArg::Const(c) => GenericArg::Const(c.clone()),
        }
    }
}

impl Clone for Constant {
    fn clone(&self) -> (r: Self)
        ensures
            r@ == self@,
        decreases *self,
    {
        Constant {
            type_: arc_clone(&self.type_),
            expr: self.expr.clone(),
            value: clone_opt_string(&self.value),
            is_literal: self.is_literal,
        }
    }
}

impl Clone for TypeBinding {
    fn clone(&self) -> (r: Self)
        ensures
            r@ == self@,
        decreases *self,
    {
        TypeBinding { name: self.name.clone(), binding: self.binding.clone() }
    }
}

impl Clone for TypeBindingKind {
    fn clone(&self) -> (r: Self)
        ensures
            r@ == self@,
        decreases *self,
    {
        match self {
            TypeBindingKind::Equality(t) => TypeBindingKind::Equality(t.clone()),
            TypeBindingKind::Constraint(bs) => {
                TypeBindingKind::Constraint(clone_bounds_vec(bs))
            },
        }
    }
}

impl Clone for GenericBound {
    fn clone(&self) -> (r: Self)
        ensures
            r@ == self@,
        decreases *self,
    {
        match self {
            GenericBound::TraitBound { trait_, generic_params, modifier } => {
                GenericBound::TraitBound {
                    trait_: trait_.clone(),
                    generic_params: clone_params_vec(generic_params),
                    modifier: *modifier,
                }
            },
            GenericBound::Outlives(s) => GenericBound::Outlives(s.clone()),
        }
    }
}

impl Clone for GenericParamDef {
    fn clone(&self) -> (r: Self)
        ensures
            r@ == self@,
        decreases *self,
    {
        GenericParamDef { name: self.name.clone(), kind: self.kind.clone() }
    }
}

impl Clone for GenericParamDefKind {
    fn clone(&self) -> (r: Self)
        ensures
            r@ == self@,
        decreases *self,
    {
        match self {
            GenericParamDefKind::Lifetime => GenericParamDefKind::Lifetime,
            GenericParamDefKind::Type { bounds, default } => {
                GenericParamDefKind::Type {
                    bounds: clone_bounds_vec(bounds),
                    default: match default {
                        Some(t) => Some(arc_clone(t)),
                        None => None,
                    },
                }
            },
            GenericParamDefKind::Const(t) => GenericParamDefKind::Const(arc_clone(t)),
        }
    }
}

impl Clone for WherePredicate {
    fn clone(&self) -> (r: Self)
        ensures
            r@ == self@,
        decreases *self,
    {
        match self {
            WherePredicate::BoundPredicate { ty, bounds } => {
                WherePredicate::BoundPredicate {
                    ty: ty.clone(),
                    bounds: clone_bounds_vec(bounds),
                }
            },
            WherePredicate::RegionPredicate { lifetime, bounds } => {
                WherePredicate::RegionPredicate {
                    lifetime: lifetime.clone(),
                    bounds: clone_bounds_vec(bounds),
                }
            },
            WherePredicate::EqPredicate { lhs, rhs } => WherePredicate::EqPredicate {
                lhs: lhs.clone(),
                rhs: rhs.clone(),
            },
        }
    }
}

impl Clone for Generics {
    fn clone(&self) -> (r: Self)
        ensures
            r@ == self@,
        decreases *self,
    {
        Generics {
            params: clone_params_vec(&self.params),
            where_predicates: clone_wheres_vec(&self.where_predicates),
        }
    }
}

impl Clone for FunctionPointer {
    fn clone(&self) -> (r: Self)
        ensures
            r@ == self@,
        decreases *self,
    {
        let h2 = self.header.clone();
        proof {
            assert(h2@ =~= self.header@);
        }
        FunctionPointer {
            decl: self.decl.clone(),
            generic_params: clone_params_vec(&self.generic_params),
            header: h2,
            abi: self.abi.clone(),
        }
    }
}

impl Clone for FnDecl {
    fn clone(&self) -> (r: Self)
        ensures
            r@ == self@,
        decreases *self,
    {
        FnDecl {
            inputs: clone_inputs(&self.inputs),
            output: match &self.output {
                Some(t) => Some(t.clone()),
                None => None,
            },
            c_variadic: self.c_variadic,
        }
    }
}

impl Clone for Visibility {
    fn clone(&self) -> (r: Self)
        ensures
            r == *self,
    {
        match self {
            Visibility::Public => Visibility::Public,
            Visibility::Default => Visibility::Default,
            Visibility::Crate => Visibility::Crate,
            Visibility::Restricted { parent, path } => Visibility::Restricted {
                parent: parent.clone(),
                path: path.clone(),
            },
        }
    }
}

impl Clone for Span {
    fn clone(&self) -> (r: Self)
        ensures
            r == *self,
    {
        Span { filename: self.filename.clone(), begin: self.begin, end: self.end }
    }
}

impl Clone for Deprecation {
    fn clone(&self) -> (r: Self)
        ensures
            r == *self,
    {
        Deprecation {
            since: clone_opt_string(&self.since),
            note: clone_opt_string(&self.note),
        }
    }
}

impl Clone for ExternalCrate {
    fn clone(&self) -> (r: Self)
        ensures
            r == *self,
    {
        ExternalCrate {
            name: self.name.clone(),
            html_root_url: clone_opt_string(&self.html_root_url),
        }
    }
}

impl Clone for ItemSummary {
    fn clone(&self) -> (r: Self)
        ensures
            r@ == self@,
            r.kind == self.kind,
            r.crate_id == self.crate_id,
            r.path@ == self.path@,
    {
        let p2 = clone_strings(&self.path);
        proof {
            assert(view_strings(p2@) =~= view_strings(self.path@));
        }
        ItemSummary { crate_id: self.crate_id, path: p2, kind: self.kind }
    }
}

} // verus!
