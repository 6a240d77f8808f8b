//! Plain-text rendering of type expressions, generics and function
//! signatures, in source-like syntax. Each renderer appends to a caller's
//! buffer exactly the text its specification function describes.

use crate::types::{
    view_params, FnDecl, FnDeclV, GenericArgV, GenericArgsV, GenericBoundV, GenericParamDef,
    GenericParamDefKindV, GenericParamDefV, Generics, GenericsV, Qualifiers, TraitBoundModifier,
    Type, TypeBindingKindV, TypeBindingV, TypeV, WherePredicateV,
};
use vstd::prelude::*;

verus! {

broadcast use crate::types::group_view_lemmas;

// ---------------------------------------------------------------------------
// The last `::`-separated segment of a path.
// ---------------------------------------------------------------------------

/// The text after the last `::`; the whole text when it has none.
pub open spec fn spec_last_segment(s: Seq<char>) -> Seq<char>
    decreases s.len(),
{
    if s.len() >= 2 && s[s.len() - 2] == ':' && s[s.len() - 1] == ':' {
        Seq::empty()
    } else if s.len() == 0 {
        Seq::empty()
    } else {
        spec_last_segment(s.drop_last()).push(s.last())
    }
}

proof fn lemma_last_segment_from(s: Seq<char>, e: int)
    requires
        0 <= e <= s.len(),
        e == 0 || (e >= 2 && s[e - 2] == ':' && s[e - 1] == ':'),
        forall|j: int| e < j <= s.len() && j >= 2 ==> !(s[j - 2] == ':' && #[trigger] s[j - 1]
            == ':'),
    ensures
        spec_last_segment(s) == s.skip(e),
    decreases s.len() - e,
{
    if s.len() == e {
        assert(s.skip(e) =~= Seq::<char>::empty());
    } else {
        assert(!(s.len() >= 2 && s[s.len() - 2] == ':' && s[s.len() - 1] == ':'));
        lemma_last_segment_from(s.drop_last(), e);
        assert(spec_last_segment(s) =~= s.skip(e)) by {
            assert(s.drop_last().skip(e).push(s.last()) =~= s.skip(e));
        }
    }
}

/// The last path segment of a name, as its own value.
pub fn last_segment(s: &String) -> (r: String)
    ensures
        r@ == spec_last_segment(s@),
{
    let n = s.as_str().unicode_len();
    let mut i: usize = n;
    let mut start: usize = 0;
    let mut found = false;
    while i >= 2 && !found
        invariant
            0 <= i <= n,
            n == s@.len(),
            forall|j: int| i < j <= n && j >= 2 ==> !(s@[j - 2] == ':' && #[trigger] s@[j - 1]
                == ':'),
            found ==> i >= 2 && s@[i as int - 2] == ':' && s@[i as int - 1] == ':' && start == i,
            !found ==> start == 0,
        decreases i, (if found { 0int } else { 1int }),
    {
        if s.as_str().get_char(i - 2) == ':' && s.as_str().get_char(i - 1) == ':' {
            found = true;
            start = i;
        } else {
            i = i - 1;
        }
    }
    proof {
        lemma_last_segment_from(s@, start as int);
    }
    let seg = s.as_str().substring_char(start, n);
    proof {
        assert(seg@ =~= s@.skip(start as int));
    }
    seg.to_owned()
}

// ---------------------------------------------------------------------------
// Specification of the rendered text.
// ---------------------------------------------------------------------------

pub open spec fn spec_format_ty(t: TypeV) -> Seq<char>
    decreases t,
{
    match t {
        TypeV::ResolvedPath { name, id, args, param_names } => spec_last_segment(name) + (
        match args {
            Some(a) => spec_format_generic_args(*a),
            None => Seq::empty(),
        }),
        TypeV::Generic(g) => g,
        TypeV::Primitive(p) => p,
        TypeV::FunctionPointer(f) => "("@ + spec_format_fn_inputs_plain(f.decl.inputs) + ")"@ + (
        match f.decl.output {
            Some(o) => " -> "@ + spec_format_ty(*o),
            None => Seq::empty(),
        }),
        TypeV::Tuple(ts) => "("@ + spec_format_types_comma(ts) + ")"@,
        TypeV::Slice(inner) => "&["@ + spec_format_ty(*inner) + "]"@,
        TypeV::Array { type_, len } => "["@ + spec_format_ty(*type_) + "; "@ + len + "]"@,
        TypeV::ImplTrait(bs) => "impl "@ + spec_format_bounds_plus(bs),
        TypeV::Never => "!"@,
        TypeV::Infer => "_"@,
        TypeV::RawPointer { mutable, type_ } => "*"@ + (if mutable {
            "mut "@
        } else {
            "const "@
        }) + spec_format_ty(*type_),
        TypeV::BorrowedRef { lifetime, mutable, type_ } => "&"@ + (match lifetime {
            Some(lf) => lf + " "@,
            None => Seq::empty(),
        }) + (if mutable {
            "mut "@
        } else {
            Seq::empty()
        }) + spec_format_ty(*type_),
        TypeV::QualifiedPath { name, self_type, trait_ } => (if (*trait_) matches
            TypeV::ResolvedPath { name: tn, .. } && tn.len() == 0 {
            spec_format_ty(*self_type) + "::"@
        } else {
            "<"@ + spec_format_ty(*self_type) + " as "@ + spec_format_ty(*trait_) + ">::"@
        }) + name,
    }
}

/// Comma-joined types.
pub open spec fn spec_format_types_comma(ts: Seq<TypeV>) -> Seq<char>
    decreases ts,
{
    if ts.len() == 0 {
        Seq::empty()
    } else if ts.len() == 1 {
        spec_format_ty(ts[0])
    } else {
        spec_format_types_comma(ts.drop_last()) + ", "@ + spec_format_ty(ts.last())
    }
}

/// The inputs of a function pointer: `name: type`, comma-joined.
pub open spec fn spec_format_fn_inputs_plain(inputs: Seq<(Seq<char>, TypeV)>) -> Seq<char>
    decreases inputs,
{
    if inputs.len() == 0 {
        Seq::empty()
    } else if inputs.len() == 1 {
        inputs[0].0 + ": "@ + spec_format_ty(inputs[0].1)
    } else {
        spec_format_fn_inputs_plain(inputs.drop_last()) + ", "@ + inputs.last().0 + ": "@
            + spec_format_ty(inputs.last().1)
    }
}

pub open spec fn spec_format_generic_args(a: GenericArgsV) -> Seq<char>
    decreases a,
{
    match a {
        GenericArgsV::AngleBracketed { args, bindings } => {
            if args.len() == 0 && bindings.len() == 0 {
                Seq::empty()
            } else {
                "<"@ + spec_format_args_comma(args) + (if args.len() > 0 && bindings.len() > 0 {
                    ", "@
                } else {
                    Seq::empty()
                }) + spec_format_bindings_comma(bindings) + ">"@
            }
        },
        GenericArgsV::Parenthesized { inputs, output } => "("@ + spec_format_types_comma(inputs)
            + ")"@ + (match output {
            Some(o) => " -> "@ + spec_format_ty(*o),
            None => Seq::empty(),
        }),
    }
}

/// One generic argument: a lifetime, a type, or a braced constant (its
/// literal value where the producer gave one, else its expression).
pub open spec fn spec_format_generic_arg(a: GenericArgV) -> Seq<char>
    decreases a,
{
    match a {
        GenericArgV::Lifetime(lf) => lf,
        GenericArgV::Type(t) => spec_format_ty(t),
        GenericArgV::Const(c) => "{"@ + (match c.value {
            Some(v) => v,
            None => c.expr,
        }) + "}"@,
    }
}

pub open spec fn spec_format_args_comma(s: Seq<GenericArgV>) -> Seq<char>
    decreases s,
{
    if s.len() == 0 {
        Seq::empty()
    } else if s.len() == 1 {
        spec_format_generic_arg(s[0])
    } else {
        spec_format_args_comma(s.drop_last()) + ", "@ + spec_format_generic_arg(s.last())
    }
}

pub open spec fn spec_format_binding(b: TypeBindingV) -> Seq<char>
    decreases b,
{
    b.name + (match b.binding {
        TypeBindingKindV::Equality(t) => " = "@ + spec_format_ty(t),
        TypeBindingKindV::Constraint(bs) => ": "@ + spec_format_bounds_plus(bs),
    })
}

pub open spec fn spec_format_bindings_comma(s: Seq<TypeBindingV>) -> Seq<char>
    decreases s,
{
    if s.len() == 0 {
        Seq::empty()
    } else if s.len() == 1 {
        spec_format_binding(s[0])
    } else {
        spec_format_bindings_comma(s.drop_last()) + ", "@ + spec_format_binding(s.last())
    }
}

pub open spec fn spec_format_modifier(m: TraitBoundModifier) -> Seq<char> {
    match m {
        TraitBoundModifier::Plain => Seq::empty(),
        TraitBoundModifier::Maybe => "?"@,
        TraitBoundModifier::MaybeConst => "?const "@,
    }
}

pub open spec fn spec_format_bound(b: GenericBoundV) -> Seq<char>
    decreases b,
{
    match b {
        GenericBoundV::TraitBound { trait_, generic_params, modifier } => (if generic_params.len()
            > 0 {
            "for<"@ + spec_format_params_comma(generic_params, false) + "> "@
        } else {
            Seq::empty()
        }) + spec_format_modifier(modifier) + spec_format_ty(trait_),
        GenericBoundV::Outlives(lf) => lf,
    }
}

/// Bounds joined by ` + `.
pub open spec fn spec_format_bounds_plus(s: Seq<GenericBoundV>) -> Seq<char>
    decreases s,
{
    if s.len() == 0 {
        Seq::empty()
    } else if s.len() == 1 {
        spec_format_bound(s[0])
    } else {
        spec_format_bounds_plus(s.drop_last()) + " + "@ + spec_format_bound(s.last())
    }
}

/// One generic parameter in a declaration list; `no_bounds` leaves the bounds
/// of type parameters out.
pub open spec fn spec_format_param(p: GenericParamDefV, no_bounds: bool) -> Seq<char>
    decreases p,
{
    match p.kind {
        GenericParamDefKindV::Lifetime => p.name,
        GenericParamDefKindV::Type { bounds, default } => p.name + (if bounds.len() > 0
            && !no_bounds {
            ": "@ + spec_format_bounds_plus(bounds)
        } else {
            Seq::empty()
        }) + (match default {
            Some(d) => " = "@ + spec_format_ty(*d),
            None => Seq::empty(),
        }),
        GenericParamDefKindV::Const(t) => "const "@ + p.name + ": "@ + spec_format_ty(*t),
    }
}

pub open spec fn spec_format_params_comma(s: Seq<GenericParamDefV>, no_bounds: bool) -> Seq<char>
    decreases s,
{
    if s.len() == 0 {
        Seq::empty()
    } else if s.len() == 1 {
        spec_format_param(s[0], no_bounds)
    } else {
        spec_format_params_comma(s.drop_last(), no_bounds) + ", "@ + spec_format_param(
            s.last(),
            no_bounds,
        )
    }
}

/// One line of a `where` block for a type parameter with bounds; nothing for
/// the other parameter kinds.
pub open spec fn spec_format_where_param(p: GenericParamDefV) -> Seq<char> {
    match p.kind {
        GenericParamDefKindV::Type { bounds, default } => if bounds.len() > 0 {
            "\n    "@ + p.name + ": "@ + spec_format_bounds_plus(bounds) + ","@
        } else {
            Seq::empty()
        },
        _ => Seq::empty(),
    }
}

pub open spec fn spec_format_where_params(s: Seq<GenericParamDefV>) -> Seq<char>
    decreases s,
{
    if s.len() == 0 {
        Seq::empty()
    } else {
        spec_format_where_params(s.drop_last()) + spec_format_where_param(s.last())
    }
}

/// One line of a `where` block for one predicate; equality predicates render
/// as nothing.
pub open spec fn spec_format_where_pred(w: WherePredicateV) -> Seq<char> {
    match w {
        WherePredicateV::BoundPredicate { ty, bounds } => "\n    "@ + spec_format_ty(ty) + ": "@
            + spec_format_bounds_plus(bounds) + ","@,
        WherePredicateV::RegionPredicate { lifetime, bounds } => "\n    "@ + lifetime + ": "@
            + spec_format_bounds_plus(bounds) + ", "@,
        WherePredicateV::EqPredicate { .. } => Seq::empty(),
    }
}

pub open spec fn spec_format_where_preds(s: Seq<WherePredicateV>) -> Seq<char>
    decreases s,
{
    if s.len() == 0 {
        Seq::empty()
    } else {
        spec_format_where_preds(s.drop_last()) + spec_format_where_pred(s.last())
    }
}

/// A whole `where` block: the bounded type parameters first, then the
/// declared predicates.
pub open spec fn spec_format_wheres(
    params: Seq<GenericParamDefV>,
    wheres: Seq<WherePredicateV>,
) -> Seq<char> {
    "where"@ + spec_format_where_params(params) + spec_format_where_preds(wheres)
}

// ---------------------------------------------------------------------------
// Executable renderers.
// ---------------------------------------------------------------------------

/// Appends pre-rendered pieces joined by a separator.
pub fn format_seperated(items: &Vec<String>, sep: &str, r: &mut String)
    ensures
        final(r)@ == old(r)@ + spec_join_strings(crate::types::view_strings(items@), sep@),
{
    let ghost base = r@;
    let ghost itemsv = crate::types::view_strings(items@);
    let mut i: usize = 0;
    proof {
        assert(itemsv.take(0) =~= Seq::<Seq<char>>::empty());
        assert(r@ =~= base + spec_join_strings(itemsv.take(0), sep@));
    }
    while i < items.len()
        invariant
            0 <= i <= items.len(),
            itemsv == crate::types::view_strings(items@),
            itemsv.len() == items@.len(),
            r@ == base + spec_join_strings(itemsv.take(i as int), sep@),
        decreases items.len() - i,
    {
        if i > 0 {
            r.append(sep);
        }
        r.append(items[i].as_str());
        proof {
            assert(itemsv.take(i as int + 1).drop_last() =~= itemsv.take(i as int));
            assert(itemsv.take(i as int + 1).last() == itemsv[i as int]);
            assert(r@ =~= base + spec_join_strings(itemsv.take(i as int + 1), sep@));
        }
        i = i + 1;
    }
    proof {
        assert(itemsv.take(items@.len() as int) =~= itemsv);
    }
}

pub open spec fn spec_join_strings(s: Seq<Seq<char>>, sep: Seq<char>) -> Seq<char>
    decreases s,
{
    if s.len() == 0 {
        Seq::empty()
    } else if s.len() == 1 {
        s[0]
    } else {
        spec_join_strings(s.drop_last(), sep) + sep + s.last()
    }
}

/// Renders one type expression in source-like syntax.
#[verifier::rlimit(100)]
pub fn format_ty(ty: &Type, r: &mut String)
    ensures
        final(r)@ == old(r)@ + spec_format_ty(ty@),
    decreases ty,
{
    match ty {
        Type::ResolvedPath { name, id: _, args, param_names: _ } => {
            let seg = last_segment(name);
            r.append(seg.as_str());
            match args {
                Some(a) => {
                    format_generic_args(a, r);
                },
                None => {},
            }
            proof {
                assert(r@ =~= old(r)@ + spec_format_ty(ty@));
            }
        },
        Type::Generic(g) => {
            r.append(g.as_str());
        },
        Type::Primitive(p) => {
            r.append(p.as_str());
        },
        Type::FunctionPointer(f) => {
            proof {
                assert(ty@ == TypeV::FunctionPointer(f@));
            }
            r.append("(");
            format_fn_inputs_plain(&f.decl.inputs, r);
            proof {
                assert(r@ =~= old(r)@ + "("@ + spec_format_fn_inputs_plain(
                    crate::types::view_inputs(f.decl.inputs@),
                ));
            }
            r.append(")");
            match &f.decl.output {
                Some(o) => {
                    r.append(" -> ");
                    format_ty(o, r);
                    proof {
                        assert(f@.decl.output == Some(Box::new(o@)));
                        assert(r@ =~= old(r)@ + "("@ + spec_format_fn_inputs_plain(
                            crate::types::view_inputs(f.decl.inputs@),
                        ) + ")"@ + " -> "@ + spec_format_ty(o@));
                    }
                },
                None => {},
            }
            proof {
                assert(r@ =~= old(r)@ + spec_format_ty(ty@));
            }
        },
        Type::Tuple(ts) => {
            r.append("(");
            format_types_comma(ts, r);
            r.append(")");
        },
        Type::Slice(inner) => {
            r.append("&[");
            format_ty(inner, r);
            r.append("]");
        },
        Type::Array { type_, len } => {
            r.append("[");
            format_ty(type_, r);
            r.append("; ");
            r.append(len.as_str());
            r.append("]");
        },
        Type::ImplTrait(bs) => {
            r.append("impl ");
            format_bounds_plus(bs, r);
        },
        Type::Never => {
            r.append("!");
        },
        Type::Infer => {
            r.append("_");
        },
        Type::RawPointer { mutable, type_ } => {
            r.append("*");
            if *mutable {
                r.append("mut ");
            } else {
                r.append("const ");
            }
            format_ty(type_, r);
        },
        Type::BorrowedRef { lifetime, mutable, type_ } => {
            r.append("&");
            match lifetime {
                Some(lf) => {
                    r.append(lf.as_str());
                    r.append(" ");
                },
                None => {},
            }
            if *mutable {
                r.append("mut ");
            }
            format_ty(type_, r);
            proof {
                assert(r@ =~= old(r)@ + spec_format_ty(ty@));
            }
        },
        Type::QualifiedPath { name, self_type, trait_ } => {
            let plain = match &**trait_ {
                Type::ResolvedPath { name: tn, .. } => tn.as_str().unicode_len() == 0,
                _ => false,
            };
            proof {
                let tv = trait_@;
                assert(plain == (tv matches TypeV::ResolvedPath { name: tn, .. } && tn.len()
                    == 0));
            }
            if plain {
                format_ty(self_type, r);
                r.append("::");
            } else {
                r.append("<");
                format_ty(self_type, r);
                r.append(" as ");
                format_ty(trait_, r);
                r.append(">::");
            }
            r.append(name.as_str());
            proof {
                assert(r@ =~= old(r)@ + spec_format_ty(ty@));
            }
        },
    }
    proof {
        assert(r@ =~= old(r)@ + spec_format_ty(ty@));
    }
}

#[verifier::rlimit(50)]
fn format_types_comma(ts: &Vec<Type>, r: &mut String)
    ensures
        final(r)@ == old(r)@ + spec_format_types_comma(crate::types::view_types(ts@)),
    decreases ts@,
{
    let ghost base = r@;
    let ghost tsv = crate::types::view_types(ts@);
    let mut i: usize = 0;
    proof {
        assert(tsv.take(0) =~= Seq::<TypeV>::empty());
    }
    while i < ts.len()
        invariant
            0 <= i <= ts.len(),
            tsv == crate::types::view_types(ts@),
            tsv.len() == ts@.len(),
            r@ == base + spec_format_types_comma(tsv.take(i as int)),
        decreases ts.len() - i,
    {
        if i > 0 {
            r.append(", ");
        }
        proof {
            assert(decreases_to!(ts@ => ts@[i as int]));
        }
        format_ty(&ts[i], r);
        proof {
            assert(tsv.take(i as int + 1).drop_last() =~= tsv.take(i as int));
            assert(tsv.take(i as int + 1).last() == tsv[i as int]);
            assert(r@ =~= base + spec_format_types_comma(tsv.take(i as int + 1)));
        }
        i = i + 1;
    }
    proof {
        assert(tsv.take(ts@.len() as int) =~= tsv);
    }
}

#[verifier::rlimit(50)]
fn format_fn_inputs_plain(inputs: &Vec<(String, Type)>, r: &mut String)
    ensures
        final(r)@ == old(r)@ + spec_format_fn_inputs_plain(crate::types::view_inputs(inputs@)),
    decreases inputs@,
{
    let ghost base = r@;
    let ghost iv = crate::types::view_inputs(inputs@);
    let mut i: usize = 0;
    proof {
        assert(iv.take(0) =~= Seq::<(Seq<char>, TypeV)>::empty());
    }
    while i < inputs.len()
        invariant
            0 <= i <= inputs.len(),
            iv == crate::types::view_inputs(inputs@),
            iv.len() == inputs@.len(),
            r@ == base + spec_format_fn_inputs_plain(iv.take(i as int)),
        decreases inputs.len() - i,
    {
        if i > 0 {
            r.append(", ");
        }
        r.append(inputs[i].0.as_str());
        r.append(": ");
        proof {
            assert(decreases_to!(inputs@ => inputs@[i as int]));
            assert(decreases_to!(inputs@[i as int] => inputs@[i as int].1));
        }
        format_ty(&inputs[i].1, r);
        proof {
            assert(iv.take(i as int + 1).drop_last() =~= iv.take(i as int));
            assert(iv.take(i as int + 1).last() == iv[i as int]);
            assert(r@ =~= base + spec_format_fn_inputs_plain(iv.take(i as int + 1)));
        }
        i = i + 1;
    }
    proof {
        assert(iv.take(inputs@.len() as int) =~= iv);
    }
}

/// Renders generic arguments, including the enclosing brackets; an
/// angle-bracketed list with nothing in it renders as nothing.
#[verifier::rlimit(50)]
pub fn format_generic_args(a: &crate::types::GenericArgs, r: &mut String)
    ensures
        final(r)@ == old(r)@ + spec_format_generic_args(a@),
    decreases a,
{
    match a {
        crate::types::GenericArgs::AngleBracketed { args, bindings } => {
            if args.len() == 0 && bindings.len() == 0 {
                return ;
            }
            r.append("<");
            format_args_comma(args, r);
            if args.len() > 0 && bindings.len() > 0 {
                r.append(", ");
            }
            format_bindings_comma(bindings, r);
            r.append(">");
        },
        crate::types::GenericArgs::Parenthesized { inputs, output } => {
            r.append("(");
            format_types_comma(inputs, r);
            r.append(")");
            match output {
                Some(o) => {
                    r.append(" -> ");
                    format_ty(o, r);
                },
                None => {},
            }
        },
    }
    proof {
        assert(r@ =~= old(r)@ + spec_format_generic_args(a@));
    }
}

#[verifier::rlimit(50)]
fn format_args_comma(s: &Vec<crate::types::GenericArg>, r: &mut String)
    ensures
        final(r)@ == old(r)@ + spec_format_args_comma(crate::types::view_generic_arg_seq(s@)),
    decreases s@,
{
    let ghost base = r@;
    let ghost sv = crate::types::view_generic_arg_seq(s@);
    let mut i: usize = 0;
    proof {
        assert(sv.take(0) =~= Seq::<GenericArgV>::empty());
    }
    while i < s.len()
        invariant
            0 <= i <= s.len(),
            sv == crate::types::view_generic_arg_seq(s@),
            sv.len() == s@.len(),
            r@ == base + spec_format_args_comma(sv.take(i as int)),
        decreases s.len() - i,
    {
        if i > 0 {
            r.append(", ");
        }
        proof {
            assert(decreases_to!(s@ => s@[i as int]));
        }
        format_generic_arg(&s[i], r);
        proof {
            assert(sv.take(i as int + 1).drop_last() =~= sv.take(i as int));
            assert(sv.take(i as int + 1).last() == sv[i as int]);
            assert(r@ =~= base + spec_format_args_comma(sv.take(i as int + 1)));
        }
        i = i + 1;
    }
    proof {
        assert(sv.take(s@.len() as int) =~= sv);
    }
}

fn format_generic_arg(a: &crate::types::GenericArg, r: &mut String)
    ensures
        final(r)@ == old(r)@ + spec_format_generic_arg(a@),
    decreases a,
{
    match a {
        crate::types::GenericArg::Lifetime(lf) => {
            r.append(lf.as_str());
        },
        crate::types::GenericArg::Type(t) => {
            format_ty(t, r);
        },
        crate::types::GenericArg::Const(c) => {
            r.append("{");
            match &c.value {
                Some(v) => {
                    r.append(v.as_str());
                },
                None => {
                    r.append(c.expr.as_str());
                },
            }
            r.append("}");
        },
    }
    proof {
        assert(r@ =~= old(r)@ + spec_format_generic_arg(a@));
    }
}

#[verifier::rlimit(100)]
fn format_bindings_comma(s: &Vec<crate::types::TypeBinding>, r: &mut String)
    ensures
        final(r)@ == old(r)@ + spec_format_bindings_comma(crate::types::view_bindings(s@)),
    decreases s@,
{
    let ghost base = r@;
    let ghost sv = crate::types::view_bindings(s@);
    let mut i: usize = 0;
    proof {
        assert(sv.take(0) =~= Seq::<TypeBindingV>::empty());
    }
    while i < s.len()
        invariant
            0 <= i <= s.len(),
            sv == crate::types::view_bindings(s@),
            sv.len() == s@.len(),
            r@ == base + spec_format_bindings_comma(sv.take(i as int)),
        decreases s.len() - i,
    {
        if i > 0 {
            r.append(", ");
        }
        proof {
            assert(decreases_to!(s@ => s@[i as int]));
        }
        let ghost before = r@;
        r.append(s[i].name.as_str());
        match &s[i].binding {
            crate::types::TypeBindingKind::Equality(t) => {
                r.append(" = ");
                proof {
                    assert(decreases_to!(s@[i as int] => s@[i as int].binding));
                }
                format_ty(t, r);
            },
            crate::types::TypeBindingKind::Constraint(bs) => {
                r.append(": ");
                proof {
                    assert(decreases_to!(s@[i as int] => s@[i as int].binding));
                }
                format_bounds_plus(bs, r);
            },
        }
        proof {
            assert(r@ =~= before + spec_format_binding(sv[i as int]));
            assert(sv.take(i as int + 1).drop_last() =~= sv.take(i as int));
            assert(sv.take(i as int + 1).last() == sv[i as int]);
            assert(r@ =~= base + spec_format_bindings_comma(sv.take(i as int + 1)));
        }
        i = i + 1;
    }
    proof {
        assert(sv.take(s@.len() as int) =~= sv);
    }
}

/// Renders one bound: an optional `for<..>` binder, the modifier, and the
/// trait; or a lifetime.
#[verifier::rlimit(50)]
pub fn format_generic_bound(b: &crate::types::GenericBound, r: &mut String)
    ensures
        final(r)@ == old(r)@ + spec_format_bound(b@),
    decreases b,
{
    match b {
        crate::types::GenericBound::TraitBound { trait_, generic_params, modifier } => {
            if generic_params.len() > 0 {
                r.append("for<");
                format_generics_def(generic_params, false, r);
                r.append("> ");
            }
            match modifier {
                TraitBoundModifier::Plain => {},
                TraitBoundModifier::Maybe => {
                    r.append("?");
                },
                TraitBoundModifier::MaybeConst => {
                    r.append("?const ");
                },
            }
            format_ty(trait_, r);
        },
        crate::types::GenericBound::Outlives(lf) => {
            r.append(lf.as_str());
        },
    }
    proof {
        assert(r@ =~= old(r)@ + spec_format_bound(b@));
    }
}

#[verifier::rlimit(50)]
fn format_bounds_plus(s: &Vec<crate::types::GenericBound>, r: &mut String)
    ensures
        final(r)@ == old(r)@ + spec_format_bounds_plus(crate::types::view_bounds(s@)),
    decreases s@,
{
    let ghost base = r@;
    let ghost sv = crate::types::view_bounds(s@);
    let mut i: usize = 0;
    proof {
        assert(sv.take(0) =~= Seq::<GenericBoundV>::empty());
    }
    while i < s.len()
        invariant
            0 <= i <= s.len(),
            sv == crate::types::view_bounds(s@),
            sv.len() == s@.len(),
            r@ == base + spec_format_bounds_plus(sv.take(i as int)),
        decreases s.len() - i,
    {
        if i > 0 {
            r.append(" + ");
        }
        proof {
            assert(decreases_to!(s@ => s@[i as int]));
        }
        format_generic_bound(&s[i], r);
        proof {
            assert(sv.take(i as int + 1).drop_last() =~= sv.take(i as int));
            assert(sv.take(i as int + 1).last() == sv[i as int]);
            assert(r@ =~= base + spec_format_bounds_plus(sv.take(i as int + 1)));
        }
        i = i + 1;
    }
    proof {
        assert(sv.take(s@.len() as int) =~= sv);
    }
}

/// Renders a comma-joined generic-parameter declaration list; `no_bounds`
/// leaves the bounds of type parameters out.
#[verifier::rlimit(50)]
pub fn format_generics_def(g: &Vec<GenericParamDef>, no_bounds: bool, r: &mut String)
    ensures
        final(r)@ == old(r)@ + spec_format_params_comma(view_params(g@), no_bounds),
    decreases g@,
{
    let ghost base = r@;
    let ghost gv = view_params(g@);
    let mut i: usize = 0;
    proof {
        assert(gv.take(0) =~= Seq::<GenericParamDefV>::empty());
    }
    while i < g.len()
        invariant
            0 <= i <= g.len(),
            gv == view_params(g@),
            gv.len() == g@.len(),
            r@ == base + spec_format_params_comma(gv.take(i as int), no_bounds),
        decreases g.len() - i,
    {
        if i > 0 {
            r.append(", ");
        }
        proof {
            assert(decreases_to!(g@ => g@[i as int]));
        }
        format_param(&g[i], no_bounds, r);
        proof {
            assert(gv.take(i as int + 1).drop_last() =~= gv.take(i as int));
            assert(gv.take(i as int + 1).last() == gv[i as int]);
            assert(r@ =~= base + spec_format_params_comma(gv.take(i as int + 1), no_bounds));
        }
        i = i + 1;
    }
    proof {
        assert(gv.take(g@.len() as int) =~= gv);
    }
}

#[verifier::rlimit(50)]
fn format_param(p: &GenericParamDef, no_bounds: bool, r: &mut String)
    ensures
        final(r)@ == old(r)@ + spec_format_param(p@, no_bounds),
    decreases p,
{
    match &p.kind {
        crate::types::GenericParamDefKind::Lifetime => {
            r.append(p.name.as_str());
        },
        crate::types::GenericParamDefKind::Type { bounds, default } => {
            r.append(p.name.as_str());
            if bounds.len() > 0 && !no_bounds {
                r.append(": ");
                proof {
                    assert(decreases_to!(p@ => p@.kind));
                }
                format_bounds_plus(bounds, r);
            }
            match default {
                Some(d) => {
                    r.append(" = ");
                    format_ty(d, r);
                },
                None => {},
            }
        },
        crate::types::GenericParamDefKind::Const(t) => {
            r.append("const ");
            r.append(p.name.as_str());
            r.append(": ");
            format_ty(t, r);
        },
    }
    proof {
        assert(r@ =~= old(r)@ + spec_format_param(p@, no_bounds));
    }
}

/// Renders a whole `where` block: the bounded type parameters first, then the
/// declared predicates; equality predicates render as nothing.
#[verifier::rlimit(100)]
pub fn format_wheres(
    params: &Vec<GenericParamDef>,
    wheres: &Vec<crate::types::WherePredicate>,
    r: &mut String,
)
    ensures
        final(r)@ == old(r)@ + spec_format_wheres(
            view_params(params@),
            crate::types::view_wheres(wheres@),
        ),
{
    let ghost base = r@;
    r.append("where");
    let ghost pv = view_params(params@);
    let mut i: usize = 0;
    proof {
        assert(pv.take(0) =~= Seq::<GenericParamDefV>::empty());
        assert(r@ =~= base + "where"@ + spec_format_where_params(pv.take(0)));
    }
    while i < params.len()
        invariant
            0 <= i <= params.len(),
            pv == view_params(params@),
            pv.len() == params@.len(),
            r@ == base + "where"@ + spec_format_where_params(pv.take(i as int)),
        decreases params.len() - i,
    {
        let ghost before = r@;
        match &params[i].kind {
            crate::types::GenericParamDefKind::Type { bounds, default: _ } => {
                if bounds.len() > 0 {
                    r.append("\n    ");
                    r.append(params[i].name.as_str());
                    r.append(": ");
                    format_bounds_plus(bounds, r);
                    r.append(",");
                }
            },
            _ => {},
        }
        proof {
            assert(r@ =~= before + spec_format_where_param(pv[i as int]));
            assert(pv.take(i as int + 1).drop_last() =~= pv.take(i as int));
            assert(pv.take(i as int + 1).last() == pv[i as int]);
            assert(r@ =~= base + "where"@ + spec_format_where_params(pv.take(i as int + 1)));
        }
        i = i + 1;
    }
    proof {
        assert(pv.take(params@.len() as int) =~= pv);
    }
    let ghost mid = r@;
    let ghost wv = crate::types::view_wheres(wheres@);
    let mut k: usize = 0;
    proof {
        assert(wv.take(0) =~= Seq::<WherePredicateV>::empty());
        assert(r@ =~= mid + spec_format_where_preds(wv.take(0)));
    }
    while k < wheres.len()
        invariant
            0 <= k <= wheres.len(),
            wv == crate::types::view_wheres(wheres@),
            wv.len() == wheres@.len(),
            r@ == mid + spec_format_where_preds(wv.take(k as int)),
        decreases wheres.len() - k,
    {
        let ghost beforew = r@;
        match &wheres[k] {
            crate::types::WherePredicate::BoundPredicate { ty, bounds } => {
                r.append("\n    ");
                format_ty(ty, r);
                r.append(": ");
                format_bounds_plus(bounds, r);
                r.append(",");
            },
            crate::types::WherePredicate::RegionPredicate { lifetime, bounds } => {
                r.append("\n    ");
                r.append(lifetime.as_str());
                r.append(": ");
                format_bounds_plus(bounds, r);
                r.append(", ");
            },
            crate::types::WherePredicate::EqPredicate { .. } => {},
        }
        proof {
            assert(r@ =~= beforew + spec_format_where_pred(wv[k as int]));
            assert(wv.take(k as int + 1).drop_last() =~= wv.take(k as int));
            assert(wv.take(k as int + 1).last() == wv[k as int]);
            assert(r@ =~= mid + spec_format_where_preds(wv.take(k as int + 1)));
        }
        k = k + 1;
    }
    proof {
        assert(wv.take(wheres@.len() as int) =~= wv);
        assert(r@ =~= base + spec_format_wheres(pv, wv));
    }
}

impl Type {
    /// The source-like text of this type expression, as its own value.
    pub fn to_text(&self) -> (r: String)
        ensures
            r@ == spec_format_ty(self@),
    {
        let mut buf = String::new();
        format_ty(self, &mut buf);
        buf
    }
}

impl GenericParamDef {
    /// The source-like text of this parameter declaration, bounds included.
    pub fn to_text(&self) -> (r: String)
        ensures
            r@ == spec_format_param(self@, false),
    {
        let mut buf = String::new();
        format_param(self, false, &mut buf);
        buf
    }
}


// ---------------------------------------------------------------------------
// Whole function signatures.
// ---------------------------------------------------------------------------

/// Whether a generic parameter was synthesized from an `impl Trait` argument:
/// its name starts with `impl `.
pub open spec fn spec_starts_impl(n: Seq<char>) -> bool {
    n.len() >= 5 && n.take(5) == "impl "@
}

fn starts_impl(s: &String) -> (r: bool)
    ensures
        r == spec_starts_impl(s@),
{
    proof {
        reveal_strlit("impl ");
    }
    let n = s.as_str().unicode_len();
    if n < 5 {
        return false;
    }
    let r = s.as_str().get_char(0) == 'i' && s.as_str().get_char(1) == 'm' && s.as_str().get_char(
        2,
    ) == 'p' && s.as_str().get_char(3) == 'l' && s.as_str().get_char(4) == ' ';
    proof {
        if r {
            assert(s@.take(5) =~= "impl "@);
        } else {
            assert(s@.take(5) != "impl "@) by {
                if s@.take(5) == "impl "@ {
                    assert(s@[0] == 'i' && s@[1] == 'm' && s@[2] == 'p' && s@[3] == 'l' && s@[4]
                        == ' ') by {
                        assert(s@.take(5)[0] == s@[0] && s@.take(5)[1] == s@[1] && s@.take(5)[2]
                            == s@[2] && s@.take(5)[3] == s@[3] && s@.take(5)[4] == s@[4]);
                    }
                }
            }
        }
    }
    r
}

pub open spec fn spec_all_impl(params: Seq<GenericParamDefV>) -> bool {
    forall|i: int| 0 <= i < params.len() ==> spec_starts_impl((#[trigger] params[i]).name)
}

/// The parameters that were written by hand, with the synthesized `impl `
/// ones left out.
pub open spec fn spec_filter_non_impl(params: Seq<GenericParamDefV>) -> Seq<GenericParamDefV>
    decreases params,
{
    if params.len() == 0 {
        Seq::empty()
    } else {
        let rest = spec_filter_non_impl(params.drop_last());
        if spec_starts_impl(params.last().name) {
            rest
        } else {
            rest.push(params.last())
        }
    }
}

pub open spec fn spec_format_qualifier(q: Qualifiers) -> Seq<char> {
    match q {
        Qualifiers::Const => "const "@,
        Qualifiers::Unsafe => "unsafe "@,
        Qualifiers::Async => "async "@,
    }
}

pub open spec fn spec_format_qualifiers(s: Seq<Qualifiers>) -> Seq<char>
    decreases s,
{
    if s.len() == 0 {
        Seq::empty()
    } else {
        spec_format_qualifiers(s.drop_last()) + spec_format_qualifier(s.last())
    }
}

/// The first argument of a signature: a borrowed or plain `self` renders as
/// receiver shorthand; anything else as `name: type`.
pub open spec fn spec_format_first_input(p: (Seq<char>, TypeV)) -> Seq<char> {
    if p.0 == "self"@ {
        match p.1 {
            TypeV::BorrowedRef { lifetime, mutable, type_ } => "&"@ + (match lifetime {
                Some(lf) => lf + " "@,
                None => Seq::empty(),
            }) + (if mutable {
                "mut "@
            } else {
                Seq::empty()
            }) + "self"@,
            TypeV::Generic(g) => if g == "Self"@ {
                "self"@
            } else {
                p.0 + ": "@ + spec_format_ty(p.1)
            },
            _ => p.0 + ": "@ + spec_format_ty(p.1),
        }
    } else {
        p.0 + ": "@ + spec_format_ty(p.1)
    }
}

/// The arguments after the first, each preceded by a comma.
pub open spec fn spec_format_rest_inputs(s: Seq<(Seq<char>, TypeV)>) -> Seq<char>
    decreases s,
{
    if s.len() == 0 {
        Seq::empty()
    } else {
        spec_format_rest_inputs(s.drop_last()) + ", "@ + s.last().0 + ": "@ + spec_format_ty(
            s.last().1,
        )
    }
}

pub open spec fn spec_format_fn_inputs(s: Seq<(Seq<char>, TypeV)>) -> Seq<char> {
    if s.len() == 0 {
        Seq::empty()
    } else {
        spec_format_first_input(s[0]) + spec_format_rest_inputs(s.skip(1))
    }
}

/// A whole function signature: qualifiers, name, the hand-written generics,
/// the argument list with receiver shorthand, and the return type.
pub open spec fn spec_format_fn(
    name: Seq<char>,
    header: Seq<Qualifiers>,
    gens: GenericsV,
    decl: FnDeclV,
) -> Seq<char> {
    "pub fn "@ + spec_format_qualifiers(header) + name + (if !spec_all_impl(gens.params) {
        "<"@ + spec_format_params_comma(spec_filter_non_impl(gens.params), false) + ">"@
    } else {
        Seq::empty()
    }) + "("@ + spec_format_fn_inputs(decl.inputs) + ")"@ + (match decl.output {
        Some(o) => " -> "@ + spec_format_ty(*o),
        None => Seq::empty(),
    })
}

#[verifier::rlimit(100)]
#[verifier::spinoff_prover]
pub fn format_fn(
    name: &str,
    header: &Vec<Qualifiers>,
    gens: &Generics,
    decl: &FnDecl,
    r: &mut String,
)
    ensures
        final(r)@ == old(r)@ + spec_format_fn(name@, header@, gens@, decl@),
{
    let ghost base = r@;
    r.append("pub fn ");
    let ghost hv = header@;
    let mut i: usize = 0;
    proof {
        assert(hv.take(0) =~= Seq::<Qualifiers>::empty());
        assert(r@ =~= base + "pub fn "@ + spec_format_qualifiers(hv.take(0)));
    }
    while i < header.len()
        invariant
            0 <= i <= header.len(),
            hv == header@,
            r@ == base + "pub fn "@ + spec_format_qualifiers(hv.take(i as int)),
        decreases header.len() - i,
    {
        match header[i] {
            Qualifiers::Const => {
                r.append("const ");
            },
            Qualifiers::Unsafe => {
                r.append("unsafe ");
            },
            Qualifiers::Async => {
                r.append("async ");
            },
        }
        proof {
            assert(hv.take(i as int + 1).drop_last() =~= hv.take(i as int));
            assert(hv.take(i as int + 1).last() == hv[i as int]);
            assert(r@ =~= base + "pub fn "@ + spec_format_qualifiers(hv.take(i as int + 1)));
        }
        i = i + 1;
    }
    proof {
        assert(hv.take(header@.len() as int) =~= hv);
    }
    r.append(name);
    let ghost pv = view_params(gens.params@);
    let mut all_impl = true;
    let mut k: usize = 0;
    while k < gens.params.len()
        invariant
            0 <= k <= gens.params.len(),
            pv == view_params(gens.params@),
            pv.len() == gens.params@.len(),
            all_impl == forall|j: int|
                0 <= j < k ==> spec_starts_impl((#[trigger] pv[j]).name),
        decreases gens.params.len() - k,
    {
        proof {
            assert(view_params(gens.params@)[k as int] == crate::types::view_param(
                gens.params@[k as int],
            ));
        }
        if !starts_impl(&gens.params[k].name) {
            all_impl = false;
        }
        k = k + 1;
    }
    proof {
        assert(all_impl == spec_all_impl(pv));
    }
    if !all_impl {
        let mut kept: Vec<GenericParamDef> = Vec::new();
        let mut m: usize = 0;
        proof {
            assert(pv.take(0) =~= Seq::<GenericParamDefV>::empty());
            assert(view_params(kept@) =~= spec_filter_non_impl(pv.take(0)));
        }
        while m < gens.params.len()
            invariant
                0 <= m <= gens.params.len(),
                pv == view_params(gens.params@),
                pv.len() == gens.params@.len(),
                view_params(kept@) == spec_filter_non_impl(pv.take(m as int)),
            decreases gens.params.len() - m,
        {
            let ghost prev = kept@;
            if !starts_impl(&gens.params[m].name) {
                kept.push(gens.params[m].clone());
            }
            proof {
                assert(pv.take(m as int + 1).drop_last() =~= pv.take(m as int));
                assert(pv.take(m as int + 1).last() == pv[m as int]);
                if kept@.len() > prev.len() {
                    assert(view_params(kept@) =~= view_params(prev).push(kept@.last()@));
                } else {
                    assert(view_params(kept@) =~= view_params(prev));
                }
            }
            m = m + 1;
        }
        proof {
            assert(pv.take(gens.params@.len() as int) =~= pv);
        }
        r.append("<");
        format_generics_def(&kept, false, r);
        r.append(">");
    }
    let ghost mid = r@;
    proof {
        assert(mid =~= base + "pub fn "@ + spec_format_qualifiers(hv) + name@ + (
        if !spec_all_impl(pv) {
            "<"@ + spec_format_params_comma(spec_filter_non_impl(pv), false) + ">"@
        } else {
            Seq::<char>::empty()
        }));
    }
    r.append("(");
    let ghost iv = crate::types::view_inputs(decl.inputs@);
    if decl.inputs.len() > 0 {
        let first = &decl.inputs[0];
        let mut shorthand = false;
        if crate::json::str_eq(&first.0, "self") {
            match &first.1 {
                Type::BorrowedRef { lifetime, mutable, type_: _ } => {
                    r.append("&");
                    match lifetime {
                        Some(lf) => {
                            r.append(lf.as_str());
                            r.append(" ");
                        },
                        None => {},
                    }
                    if *mutable {
                        r.append("mut ");
                    }
                    r.append("self");
                    shorthand = true;
                },
                Type::Generic(g) => {
                    if crate::json::str_eq(g, "Self") {
                        r.append("self");
                        shorthand = true;
                    }
                },
                _ => {},
            }
        }
        if !shorthand {
            r.append(first.0.as_str());
            r.append(": ");
            format_ty(&first.1, r);
        }
        proof {
            assert(iv[0] == (decl.inputs@[0].0@, crate::types::view_type(decl.inputs@[0].1)));
            assert(r@ =~= mid + "("@ + spec_format_first_input(iv[0]));
        }
        let ghost rest = iv.skip(1);
        let mut q: usize = 1;
        proof {
            assert(rest.take(0) =~= Seq::<(Seq<char>, TypeV)>::empty());
            assert(r@ =~= mid + "("@ + spec_format_first_input(iv[0]) + spec_format_rest_inputs(
                rest.take(0),
            ));
        }
        while q < decl.inputs.len()
            invariant
                1 <= q <= decl.inputs.len(),
                iv == crate::types::view_inputs(decl.inputs@),
                iv.len() == decl.inputs@.len(),
                rest == iv.skip(1),
                r@ == mid + "("@ + spec_format_first_input(iv[0]) + spec_format_rest_inputs(
                    rest.take(q as int - 1),
                ),
            decreases decl.inputs.len() - q,
        {
            r.append(", ");
            r.append(decl.inputs[q].0.as_str());
            r.append(": ");
            format_ty(&decl.inputs[q].1, r);
            proof {
                assert(rest.take(q as int).drop_last() =~= rest.take(q as int - 1));
                assert(rest.take(q as int).last() == iv[q as int]);
                assert(r@ =~= mid + "("@ + spec_format_first_input(iv[0])
                    + spec_format_rest_inputs(rest.take(q as int)));
            }
            q = q + 1;
        }
        proof {
            assert(rest.take(decl.inputs@.len() - 1) =~= rest);
            assert(r@ =~= mid + "("@ + spec_format_fn_inputs(iv));
        }
    } else {
        proof {
            assert(r@ =~= mid + "("@ + spec_format_fn_inputs(iv));
        }
    }
    r.append(")");
    match &decl.output {
        Some(o) => {
            r.append(" -> ");
            format_ty(o, r);
        },
        None => {},
    }
    proof {
        assert(r@ =~= old(r)@ + spec_format_fn(name@, header@, gens@, decl@));
    }
}

} // verus!
