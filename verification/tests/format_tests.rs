use rdoc::format::{
    format_fn, format_generic_args, format_generic_bound, format_generics_def, format_seperated,
    format_wheres,
};
use rdoc::{
    FnDecl, GenericArg, GenericArgs, GenericBound, GenericParamDef, GenericParamDefKind, Generics,
    Id, Qualifiers, TraitBoundModifier, Type, TypeBinding, TypeBindingKind, WherePredicate,
};
use std::sync::Arc;

fn prim(p: &str) -> Type {
    Type::Primitive(p.to_string())
}

fn path(name: &str) -> Type {
    Type::ResolvedPath {
        name: name.to_string(),
        id: Id("1:1".to_string()),
        args: None,
        param_names: Vec::new(),
    }
}

fn render(t: &Type) -> String {
    t.to_text()
}

#[test]
fn resolved_path_renders_its_last_segment() {
    assert_eq!(render(&path("alloc::vec::Vec")), "Vec");
    assert_eq!(render(&path("Plain")), "Plain");
    assert_eq!(render(&path("a::b::")), "");
}

#[test]
fn primitive_generic_never_infer_render_plainly() {
    assert_eq!(render(&prim("u32")), "u32");
    assert_eq!(render(&Type::Generic("T".to_string())), "T");
    assert_eq!(render(&Type::Never), "!");
    assert_eq!(render(&Type::Infer), "_");
}

#[test]
fn compound_types_render_with_their_brackets() {
    let tup = Type::Tuple(vec![prim("u8"), prim("bool")]);
    assert_eq!(render(&tup), "(u8, bool)");
    let slice = Type::Slice(Arc::new(prim("u8")));
    assert_eq!(render(&slice), "&[u8]");
    let arr = Type::Array { type_: Arc::new(prim("u8")), len: "N * 2".to_string() };
    assert_eq!(render(&arr), "[u8; N * 2]");
    let raw = Type::RawPointer { mutable: false, type_: Arc::new(prim("u8")) };
    assert_eq!(render(&raw), "*const u8");
    let raw_mut = Type::RawPointer { mutable: true, type_: Arc::new(prim("u8")) };
    assert_eq!(render(&raw_mut), "*mut u8");
    let r = Type::BorrowedRef {
        lifetime: Some("'a".to_string()),
        mutable: true,
        type_: Arc::new(prim("str")),
    };
    assert_eq!(render(&r), "&'a mut str");
    let r2 = Type::BorrowedRef { lifetime: None, mutable: false, type_: Arc::new(prim("str")) };
    assert_eq!(render(&r2), "&str");
}

#[test]
fn qualified_paths_elide_an_empty_trait_name() {
    let q = Type::QualifiedPath {
        name: "Item".to_string(),
        self_type: Arc::new(Type::Generic("I".to_string())),
        trait_: Arc::new(path("core::iter::Iterator")),
    };
    assert_eq!(render(&q), "<I as Iterator>::Item");
    // An empty-named trait marks an inherent qualified path.
    let q2 = Type::QualifiedPath {
        name: "Output".to_string(),
        self_type: Arc::new(Type::Generic("I".to_string())),
        trait_: Arc::new(path("")),
    };
    assert_eq!(render(&q2), "I::Output");
}

#[test]
fn function_pointers_render_inputs_and_output() {
    let f = rdoc::FunctionPointer {
        decl: FnDecl {
            inputs: vec![("x".to_string(), prim("u32")), ("y".to_string(), prim("u8"))],
            output: Some(prim("bool")),
            c_variadic: false,
        },
        generic_params: Vec::new(),
        header: Vec::new(),
        abi: "\"Rust\"".to_string(),
    };
    assert_eq!(render(&Type::FunctionPointer(Arc::new(f))), "(x: u32, y: u8) -> bool");
}

#[test]
fn generic_args_render_both_shapes() {
    let mut out = String::new();
    let a = GenericArgs::AngleBracketed {
        args: vec![
            GenericArg::Lifetime("'a".to_string()),
            GenericArg::Type(prim("u8")),
        ],
        bindings: vec![TypeBinding {
            name: "Output".to_string(),
            binding: TypeBindingKind::Equality(prim("bool")),
        }],
    };
    format_generic_args(&a, &mut out);
    assert_eq!(out, "<'a, u8, Output = bool>");
    let mut out2 = String::new();
    let p = GenericArgs::Parenthesized { inputs: vec![prim("u8")], output: Some(prim("bool")) };
    format_generic_args(&p, &mut out2);
    assert_eq!(out2, "(u8) -> bool");
    // Empty angle brackets render as nothing.
    let mut out3 = String::new();
    let e = GenericArgs::AngleBracketed { args: Vec::new(), bindings: Vec::new() };
    format_generic_args(&e, &mut out3);
    assert_eq!(out3, "");
}

#[test]
fn bounds_render_with_modifiers_and_binders() {
    let mut out = String::new();
    let b = GenericBound::TraitBound {
        trait_: path("core::marker::Sized"),
        generic_params: Vec::new(),
        modifier: TraitBoundModifier::Maybe,
    };
    format_generic_bound(&b, &mut out);
    assert_eq!(out, "?Sized");
    let mut out2 = String::new();
    let b2 = GenericBound::TraitBound {
        trait_: path("Fn"),
        generic_params: vec![GenericParamDef {
            name: "'a".to_string(),
            kind: GenericParamDefKind::Lifetime,
        }],
        modifier: TraitBoundModifier::Plain,
    };
    format_generic_bound(&b2, &mut out2);
    assert_eq!(out2, "for<'a> Fn");
    let mut out3 = String::new();
    format_generic_bound(&GenericBound::Outlives("'static".to_string()), &mut out3);
    assert_eq!(out3, "'static");
}

fn param_t(name: &str, bounds: Vec<GenericBound>, default: Option<Type>) -> GenericParamDef {
    GenericParamDef {
        name: name.to_string(),
        kind: GenericParamDefKind::Type { bounds, default: default.map(Arc::new) },
    }
}

#[test]
fn generics_definitions_render_with_and_without_bounds() {
    let params = vec![
        GenericParamDef { name: "'a".to_string(), kind: GenericParamDefKind::Lifetime },
        param_t(
            "T",
            vec![GenericBound::TraitBound {
                trait_: path("Clone"),
                generic_params: Vec::new(),
                modifier: TraitBoundModifier::Plain,
            }],
            Some(prim("u8")),
        ),
        GenericParamDef {
            name: "N".to_string(),
            kind: GenericParamDefKind::Const(Arc::new(prim("usize"))),
        },
    ];
    let mut out = String::new();
    format_generics_def(&params, false, &mut out);
    assert_eq!(out, "'a, T: Clone = u8, const N: usize");
    let mut out2 = String::new();
    format_generics_def(&params, true, &mut out2);
    assert_eq!(out2, "'a, T = u8, const N: usize");
}

#[test]
fn where_blocks_list_bounded_params_and_predicates() {
    let params = vec![param_t(
        "T",
        vec![GenericBound::TraitBound {
            trait_: path("Clone"),
            generic_params: Vec::new(),
            modifier: TraitBoundModifier::Plain,
        }],
        None,
    )];
    let wheres = vec![
        WherePredicate::BoundPredicate {
            ty: Type::Generic("U".to_string()),
            bounds: vec![GenericBound::Outlives("'a".to_string())],
        },
        WherePredicate::RegionPredicate { lifetime: "'a".to_string(), bounds: Vec::new() },
        WherePredicate::EqPredicate { lhs: Type::Generic("U".to_string()), rhs: prim("u8") },
    ];
    let mut out = String::new();
    format_wheres(&params, &wheres, &mut out);
    assert_eq!(out, "where\n    T: Clone,\n    U: 'a,\n    'a: , ");
}

#[test]
fn function_signatures_render_with_receiver_shorthand() {
    let gens = Generics {
        params: vec![
            param_t("impl Clone", Vec::new(), None),
            param_t("T", Vec::new(), None),
        ],
        where_predicates: Vec::new(),
    };
    let decl = FnDecl {
        inputs: vec![
            (
                "self".to_string(),
                Type::BorrowedRef {
                    lifetime: None,
                    mutable: true,
                    type_: Arc::new(Type::Generic("Self".to_string())),
                },
            ),
            ("count".to_string(), prim("u32")),
        ],
        output: Some(prim("bool")),
        c_variadic: false,
    };
    let mut out = String::new();
    format_fn("grow", &vec![Qualifiers::Unsafe], &gens, &decl, &mut out);
    assert_eq!(out, "pub fn unsafe grow<T>(&mut self, count: u32) -> bool");
}

#[test]
fn plain_self_and_impl_only_generics_render() {
    let gens = Generics {
        params: vec![param_t("impl Clone", Vec::new(), None)],
        where_predicates: Vec::new(),
    };
    let decl = FnDecl {
        inputs: vec![("self".to_string(), Type::Generic("Self".to_string()))],
        output: None,
        c_variadic: false,
    };
    let mut out = String::new();
    format_fn("consume", &Vec::new(), &gens, &decl, &mut out);
    assert_eq!(out, "pub fn consume(self)");
}

#[test]
fn impl_trait_types_render_their_bounds() {
    let t = Type::ImplTrait(vec![
        GenericBound::TraitBound {
            trait_: path("Clone"),
            generic_params: Vec::new(),
            modifier: TraitBoundModifier::Plain,
        },
        GenericBound::Outlives("'a".to_string()),
    ]);
    assert_eq!(render(&t), "impl Clone + 'a");
}

#[test]
fn pre_rendered_pieces_join_with_a_separator() {
    let mut out = String::new();
    format_seperated(
        &vec!["a".to_string(), "b".to_string(), "c".to_string()],
        " | ",
        &mut out,
    );
    assert_eq!(out, "a | b | c");
    let mut out2 = String::new();
    format_seperated(&Vec::new(), ", ", &mut out2);
    assert_eq!(out2, "");
}

#[test]
fn parameter_declarations_render_on_their_own() {
    let p = param_t(
        "T",
        vec![GenericBound::TraitBound {
            trait_: path("core::default::Default"),
            generic_params: Vec::new(),
            modifier: TraitBoundModifier::Plain,
        }],
        None,
    );
    assert_eq!(p.to_text(), "T: Default");
    let lt = GenericParamDef { name: "'x".to_string(), kind: GenericParamDefKind::Lifetime };
    assert_eq!(lt.to_text(), "'x");
}
