use rdoc::data::{Delegate, Screen, VariantInner};
use rdoc::query::{classify_impl, ImplKind};
use rdoc::{parse, Generics, Id, Impl, ItemKind, Type};

fn impl_value(trait_: Option<Type>, synthetic: bool, blanket_impl: Option<Type>) -> Impl {
    Impl {
        is_unsafe: false,
        generics: Generics { params: Vec::new(), where_predicates: Vec::new() },
        provided_trait_methods: Vec::new(),
        trait_,
        for_: Type::Generic("T".to_string()),
        items: Vec::new(),
        negative: false,
        synthetic,
        blanket_impl,
    }
}

fn named_trait() -> Type {
    Type::ResolvedPath {
        name: "Clone".to_string(),
        id: Id("1:1".to_string()),
        args: None,
        param_names: Vec::new(),
    }
}

#[test]
fn impl_classification_covers_the_four_groups() {
    assert_eq!(classify_impl(&impl_value(None, false, None)), ImplKind::Inherent);
    assert_eq!(classify_impl(&impl_value(Some(named_trait()), true, None)), ImplKind::Auto);
    assert_eq!(
        classify_impl(&impl_value(Some(named_trait()), false, Some(Type::Generic("T".into())))),
        ImplKind::Blanket
    );
    assert_eq!(classify_impl(&impl_value(Some(named_trait()), false, None)), ImplKind::Trait);
}

#[test]
fn absent_trait_wins_over_synthetic() {
    // The priority order of the classification: no trait at all is inherent
    // even when the synthetic mark is also set.
    assert_eq!(classify_impl(&impl_value(None, true, None)), ImplKind::Inherent);
}

const SMALL_DOC: &str = r#"{
  "root": "0:0",
  "includes_private": false,
  "index": {
    "0:0": {"id":"0:0","crate_id":0,"name":"crate_a","visibility":"public","docs":"The root module.\nMore.","links":{},"attrs":[],"kind":"module",
            "inner":{"is_crate":true,"items":["0:1","0:9","0:2","0:5"]}},
    "0:1": {"id":"0:1","crate_id":0,"name":"Widget","visibility":"public","docs":"A widget.","links":{},"attrs":[],"kind":"struct",
            "inner":{"struct_type":"plain","generics":{"params":[],"where_predicates":[]},"fields_stripped":false,"fields":["0:3","0:9"],"impls":["0:4"]}},
    "0:2": {"id":"0:2","crate_id":0,"name":"Mode","visibility":"public","links":{},"attrs":[],"kind":"enum",
            "inner":{"generics":{"params":[],"where_predicates":[]},"variants_stripped":false,"variants":["0:6"],"impls":[]}},
    "0:3": {"id":"0:3","crate_id":0,"name":"size","visibility":"public","docs":"","links":{},"attrs":[],"kind":"struct_field",
            "inner":{"kind":"primitive","inner":"u32"}},
    "0:4": {"id":"0:4","crate_id":0,"visibility":"default","links":{},"attrs":[],"kind":"impl",
            "inner":{"is_unsafe":false,"generics":{"params":[],"where_predicates":[]},"provided_trait_methods":[],"trait":null,"for":{"kind":"resolved_path","inner":{"name":"Widget","id":"0:1","args":null,"param_names":[]}},"items":["0:7","0:9"],"negative":false,"synthetic":false,"blanket_impl":null}},
    "0:5": {"id":"0:5","crate_id":0,"name":"make","visibility":"public","docs":"Builds.\r\nLong text.","links":{},"attrs":[],"kind":"function",
            "inner":{"decl":{"inputs":[["n",{"kind":"primitive","inner":"u32"}]],"output":{"kind":"resolved_path","inner":{"name":"a::Widget","id":"0:1","args":null,"param_names":[]}},"c_variadic":false},"generics":{"params":[],"where_predicates":[]},"header":[],"abi":"\"Rust\""}},
    "0:6": {"id":"0:6","crate_id":0,"name":"Fast","visibility":"default","links":{},"attrs":[],"kind":"variant",
            "inner":{"variant_kind":"tuple","variant_inner":[{"kind":"primitive","inner":"u8"}]}},
    "0:7": {"id":"0:7","crate_id":0,"name":"grow","visibility":"public","links":{},"attrs":[],"kind":"function",
            "inner":{"decl":{"inputs":[],"output":null,"c_variadic":false},"generics":{"params":[],"where_predicates":[]},"header":[],"abi":"\"Rust\""}}
  },
  "paths": {
    "0:1": {"crate_id":0,"path":["crate_a","mod_b","Widget"],"kind":"struct"}
  },
  "external_crates": {},
  "format_version": 14
}"#;

#[test]
fn lookup_finds_items_and_tolerates_unknown_ids() {
    let krate = parse(SMALL_DOC).unwrap();
    let w = krate.lookup(&Id("0:1".into())).expect("Widget is present");
    assert_eq!(w.name.as_deref(), Some("Widget"));
    assert!(krate.lookup(&Id("0:9".into())).is_none());
    assert!(krate.lookup(&Id("7:7".into())).is_none());
}

#[test]
fn summary_is_independent_of_lookup() {
    let krate = parse(SMALL_DOC).unwrap();
    let su = krate.summary(&Id("0:1".into())).expect("Widget has a summary");
    assert_eq!(su.path, vec!["crate_a".to_string(), "mod_b".to_string(), "Widget".to_string()]);
    assert_eq!(su.kind, ItemKind::Struct);
    // In the index but not in the paths.
    assert!(krate.summary(&Id("0:0".into())).is_none());
}

#[test]
fn parent_path_drops_the_last_segment() {
    let krate = parse(SMALL_DOC).unwrap();
    assert_eq!(
        krate.parent_path(&Id("0:1".into())),
        vec!["crate_a".to_string(), "mod_b".to_string()]
    );
    // No summary: empty.
    assert_eq!(krate.parent_path(&Id("0:0".into())), Vec::<String>::new());
}

#[test]
fn children_of_kind_filters_and_skips_dangling() {
    let krate = parse(SMALL_DOC).unwrap();
    // "0:9" dangles inside the module's child list and is skipped silently;
    // the rest keep their order.
    let structs = krate.children_of_kind(&Id("0:0".into()), ItemKind::Struct);
    assert_eq!(structs.len(), 1);
    assert_eq!(structs[0].name.as_deref(), Some("Widget"));
    let fns = krate.children_of_kind(&Id("0:0".into()), ItemKind::Function);
    assert_eq!(fns.len(), 1);
    assert_eq!(fns[0].name.as_deref(), Some("make"));
    let enums = krate.children_of_kind(&Id("0:0".into()), ItemKind::Enum);
    assert_eq!(enums.len(), 1);
    // A container without that kind yields nothing.
    assert!(krate.children_of_kind(&Id("0:0".into()), ItemKind::Trait).is_empty());
    // A non-container or unknown container yields nothing.
    assert!(krate.children_of_kind(&Id("0:5".into()), ItemKind::Struct).is_empty());
    assert!(krate.children_of_kind(&Id("9:9".into()), ItemKind::Struct).is_empty());
}

#[test]
fn dangling_root_child_is_not_an_error() {
    // The scenario of a document whose module lists an absent child.
    let text = r#"{"root":"0:0","includes_private":false,"index":{"0:0":{"id":"0:0","crate_id":0,"name":"c","visibility":"public","links":{},"attrs":[],"kind":"module","inner":{"is_crate":true,"items":["0:1"]}}},"paths":{},"external_crates":{},"format_version":14}"#;
    let krate = parse(text).expect("dangling children do not fail the decode");
    assert!(krate.lookup(&Id("0:1".into())).is_none());
    assert!(krate.children_of_kind(&Id("0:0".into()), ItemKind::Struct).is_empty());
}

#[test]
fn module_screen_collects_children_by_kind() {
    let krate = parse(SMALL_DOC).unwrap();
    let del = Delegate::new(krate);
    assert_eq!(del.current.0, "0:0");
    match del.data().expect("the root module has a screen") {
        Screen::Mod(m) => {
            assert_eq!(m.item.name, "crate_a");
            assert_eq!(m.item.short_doc.as_deref(), Some("The root module."));
            assert_eq!(m.item.doc.as_deref().map(|s| s.as_str()), Some("The root module.\nMore."));
            assert_eq!(m.structs.len(), 1);
            assert_eq!(m.structs[0].name, "Widget");
            assert_eq!(m.enums.len(), 1);
            assert_eq!(m.enums[0].name, "Mode");
            assert_eq!(m.fns.len(), 1);
            assert_eq!(m.fns[0].name, "make");
            assert!(m.traits.is_empty());
            assert!(m.mods.is_empty());
        },
        other => panic!("wrong screen: {:?}", other),
    }
}

#[test]
fn struct_screen_resolves_fields_and_impls() {
    let krate = parse(SMALL_DOC).unwrap();
    let mut del = Delegate::new(krate);
    del.goto(Id("0:1".into()));
    match del.data().expect("the struct has a screen") {
        Screen::Struct(s) => {
            assert_eq!(s.item.name, "Widget");
            assert_eq!(s.item.parents, vec!["crate_a".to_string(), "mod_b".to_string()]);
            // "0:9" dangles in the field list and is skipped.
            assert_eq!(s.fields.len(), 1);
            assert_eq!(s.fields[0].item.name, "size");
            // The empty docs string yields no summary line.
            assert_eq!(s.fields[0].item.short_doc, None);
            assert!(matches!(&s.fields[0].ty, Type::Primitive(p) if p == "u32"));
            assert_eq!(s.impls.len(), 1);
            // The impl's item list resolves to its one function; the dangling
            // member is skipped.
            assert_eq!(s.impls[0].fns.len(), 1);
            assert_eq!(s.impls[0].fns[0].item.name, "grow");
            assert!(s.trait_impls.is_empty());
            assert!(s.auto_impls.is_empty());
        },
        other => panic!("wrong screen: {:?}", other),
    }
}

#[test]
fn enum_screen_resolves_variants() {
    let krate = parse(SMALL_DOC).unwrap();
    let mut del = Delegate::new(krate);
    del.goto(Id("0:2".into()));
    match del.data().expect("the enum has a screen") {
        Screen::Enum(e) => {
            assert_eq!(e.item.name, "Mode");
            assert_eq!(e.variants.len(), 1);
            assert_eq!(e.variants[0].item.name, "Fast");
            match &e.variants[0].inner {
                VariantInner::Tuple(ts) => {
                    assert!(matches!(&ts[0], Type::Primitive(p) if p == "u8"))
                },
                other => panic!("wrong variant shape: {:?}", other),
            }
        },
        other => panic!("wrong screen: {:?}", other),
    }
}

#[test]
fn fn_screen_carries_the_declaration() {
    let krate = parse(SMALL_DOC).unwrap();
    let mut del = Delegate::new(krate);
    del.goto(Id("0:5".into()));
    match del.data().expect("the function has a screen") {
        Screen::Fn(f) => {
            assert_eq!(f.item.name, "make");
            // A carriage return before the newline is trimmed from the
            // summary line.
            assert_eq!(f.item.short_doc.as_deref(), Some("Builds."));
            assert_eq!(f.decl.inputs[0].0, "n");
        },
        other => panic!("wrong screen: {:?}", other),
    }
}

#[test]
fn screens_for_unknown_or_other_items_are_none() {
    let krate = parse(SMALL_DOC).unwrap();
    let mut del = Delegate::new(krate);
    del.goto(Id("9:9".into()));
    assert!(del.data().is_none());
    // A struct field has no screen of its own.
    del.goto(Id("0:3".into()));
    assert!(del.data().is_none());
}

#[test]
fn well_formedness_checks_the_root_invariant() {
    // Every decoded document keeps the invariant; the checker confirms it.
    let krate = parse(SMALL_DOC).unwrap();
    assert!(krate.is_well_formed());
}


const SYNTHETIC_INHERENT_DOC: &str = r#"{
  "root": "0:0",
  "includes_private": false,
  "index": {
    "0:0": {"id":"0:0","crate_id":0,"name":"c","visibility":"public","links":{},"attrs":[],"kind":"module",
            "inner":{"is_crate":true,"items":["0:1"]}},
    "0:1": {"id":"0:1","crate_id":0,"name":"W","visibility":"public","links":{},"attrs":[],"kind":"struct",
            "inner":{"struct_type":"unit","generics":{"params":[],"where_predicates":[]},"fields_stripped":false,"fields":[],"impls":["0:4"]}},
    "0:4": {"id":"0:4","crate_id":0,"visibility":"default","links":{},"attrs":[],"kind":"impl",
            "inner":{"is_unsafe":false,"generics":{"params":[],"where_predicates":[]},"provided_trait_methods":[],"trait":null,"for":{"kind":"generic","inner":"W"},"items":[],"negative":false,"synthetic":true,"blanket_impl":null}}
  },
  "paths": {},
  "external_crates": {},
  "format_version": 14
}"#;

#[test]
fn trait_less_synthetic_impl_is_grouped_as_inherent_only() {
    // The classification priority holds on screens too: an impl with no
    // trait is inherent even when it carries the synthetic mark, and the
    // three groups never share a member.
    let krate = parse(SYNTHETIC_INHERENT_DOC).unwrap();
    let mut del = Delegate::new(krate);
    del.goto(Id("0:1".into()));
    match del.data().expect("the struct has a screen") {
        Screen::Struct(st) => {
            assert_eq!(st.impls.len(), 1);
            assert!(st.impls[0].synthetic);
            assert!(st.auto_impls.is_empty());
            assert!(st.trait_impls.is_empty());
        },
        other => panic!("wrong screen: {:?}", other),
    }
}
