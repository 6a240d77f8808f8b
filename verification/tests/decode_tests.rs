use rdoc::data::first_line;
use rdoc::decode_items::{decode_crate, u32_from_decimal};
use rdoc::json::Json;
use rdoc::{
    parse, Constant, DecodeError, GenericArg, GenericArgs, GenericBound, GenericParamDefKind, Id,
    Item, ItemEnum, ItemKind, MacroKind, StructType, TraitBoundModifier, Type, Variant,
    Visibility,
};

fn item_json(id: &str, kind: &str, inner: &str) -> String {
    format!(
        r#""{id}": {{"id":"{id}","crate_id":0,"name":"n{id}","visibility":"public","docs":"docs of {id}","links":{{}},"attrs":[],"kind":"{kind}","inner":{inner}}}"#
    )
}

fn anon_item_json(id: &str, kind: &str, inner: &str) -> String {
    format!(
        r#""{id}": {{"id":"{id}","crate_id":0,"visibility":"default","links":{{}},"attrs":[],"kind":"{kind}","inner":{inner}}}"#
    )
}

fn doc_json(entries: &[String]) -> String {
    let root = item_json("0:0", "module", r#"{"is_crate":true,"items":[]}"#);
    let mut index = root;
    for e in entries {
        index.push_str(", ");
        index.push_str(e);
    }
    format!(
        r#"{{"root":"0:0","crate_version":"1.2.3","includes_private":false,"index":{{{index}}},"paths":{{}},"external_crates":{{}},"format_version":14}}"#
    )
}

fn decode_one(id: &str, entry: String) -> Item {
    let text = doc_json(&[entry]);
    let krate = parse(&text).expect("document should decode");
    let (found_id, item) = krate
        .index
        .into_iter()
        .find(|(i, _)| i.0 == id)
        .expect("item should be in the index");
    assert_eq!(found_id.0, id);
    item
}

#[test]
fn envelope_fields_decode() {
    let text = doc_json(&[]);
    let krate = parse(&text).unwrap();
    assert_eq!(krate.root.0, "0:0");
    assert_eq!(krate.crate_version.as_deref(), Some("1.2.3"));
    assert!(!krate.includes_private);
    assert_eq!(krate.format_version, 14);
    assert_eq!(krate.index.len(), 1);
    assert!(krate.paths.is_empty());
    assert!(krate.external_crates.is_empty());
}

#[test]
fn module_round_trip() {
    let it = decode_one(
        "0:1",
        item_json("0:1", "module", r#"{"is_crate":false,"items":["0:2","0:3"]}"#),
    );
    assert_eq!(it.kind, ItemKind::Module);
    assert_eq!(it.name.as_deref(), Some("n0:1"));
    match &it.inner {
        ItemEnum::ModuleItem(m) => {
            assert!(!m.is_crate);
            assert_eq!(m.items, vec![Id("0:2".into()), Id("0:3".into())]);
        },
        other => panic!("wrong payload: {:?}", other),
    }
}

#[test]
fn extern_crate_round_trip() {
    let it = decode_one(
        "0:1",
        item_json("0:1", "extern_crate", r#"{"name":"serde","rename":"sd"}"#),
    );
    assert_eq!(it.kind, ItemKind::ExternCrate);
    match &it.inner {
        ItemEnum::ExternCrateItem { name, rename } => {
            assert_eq!(name, "serde");
            assert_eq!(rename.as_deref(), Some("sd"));
        },
        other => panic!("wrong payload: {:?}", other),
    }
}

#[test]
fn import_round_trip() {
    let it = decode_one(
        "0:1",
        item_json(
            "0:1",
            "import",
            r#"{"span":"a::b::C","name":"C","id":"0:7","glob":false}"#,
        ),
    );
    assert_eq!(it.kind, ItemKind::Import);
    match &it.inner {
        ItemEnum::ImportItem(im) => {
            assert_eq!(im.span, "a::b::C");
            assert_eq!(im.name, "C");
            assert_eq!(im.id, Some(Id("0:7".into())));
            assert!(!im.glob);
        },
        other => panic!("wrong payload: {:?}", other),
    }
}

#[test]
fn struct_round_trip() {
    let it = decode_one(
        "0:1",
        item_json(
            "0:1",
            "struct",
            r#"{"struct_type":"plain","generics":{"params":[],"where_predicates":[]},"fields_stripped":true,"fields":["0:2"],"impls":["0:3"]}"#,
        ),
    );
    assert_eq!(it.kind, ItemKind::Struct);
    match &it.inner {
        ItemEnum::StructItem(s) => {
            assert_eq!(s.struct_type, StructType::Plain);
            assert!(s.fields_stripped);
            assert_eq!(s.fields, vec![Id("0:2".into())]);
            assert_eq!(s.impls, vec![Id("0:3".into())]);
            assert!(s.generics.params.is_empty());
        },
        other => panic!("wrong payload: {:?}", other),
    }
}

#[test]
fn union_round_trip() {
    let it = decode_one(
        "0:1",
        item_json(
            "0:1",
            "union",
            r#"{"generics":{"params":[],"where_predicates":[]},"fields_stripped":false,"fields":[],"impls":[]}"#,
        ),
    );
    assert_eq!(it.kind, ItemKind::Union);
    assert!(matches!(&it.inner, ItemEnum::UnionItem(u) if !u.fields_stripped));
}

#[test]
fn struct_field_round_trip() {
    let it = decode_one(
        "0:1",
        item_json("0:1", "struct_field", r#"{"kind":"primitive","inner":"u32"}"#),
    );
    assert_eq!(it.kind, ItemKind::StructField);
    match &it.inner {
        ItemEnum::StructFieldItem(Type::Primitive(p)) => assert_eq!(p, "u32"),
        other => panic!("wrong payload: {:?}", other),
    }
}

#[test]
fn enum_and_variants_round_trip() {
    let it = decode_one(
        "0:1",
        item_json(
            "0:1",
            "enum",
            r#"{"generics":{"params":[],"where_predicates":[]},"variants_stripped":false,"variants":["0:2"],"impls":[]}"#,
        ),
    );
    assert_eq!(it.kind, ItemKind::Enum);
    let plain = decode_one("0:2", item_json("0:2", "variant", r#"{"variant_kind":"plain"}"#));
    assert!(matches!(&plain.inner, ItemEnum::VariantItem(Variant::Plain)));
    let tup = decode_one(
        "0:2",
        item_json(
            "0:2",
            "variant",
            r#"{"variant_kind":"tuple","variant_inner":[{"kind":"primitive","inner":"u8"}]}"#,
        ),
    );
    match &tup.inner {
        ItemEnum::VariantItem(Variant::Tuple(ts)) => {
            assert_eq!(ts.len(), 1);
            assert!(matches!(&ts[0], Type::Primitive(p) if p == "u8"));
        },
        other => panic!("wrong payload: {:?}", other),
    }
    let st = decode_one(
        "0:2",
        item_json("0:2", "variant", r#"{"variant_kind":"struct","variant_inner":["0:9"]}"#),
    );
    assert!(matches!(&st.inner, ItemEnum::VariantItem(Variant::Struct(ids)) if ids == &vec![Id("0:9".into())]));
}

#[test]
fn function_round_trip() {
    let it = decode_one(
        "0:1",
        item_json(
            "0:1",
            "function",
            r#"{"decl":{"inputs":[["x",{"kind":"primitive","inner":"u32"}]],"output":{"kind":"primitive","inner":"bool"},"c_variadic":false},"generics":{"params":[],"where_predicates":[]},"header":["const","unsafe"],"abi":"\"Rust\""}"#,
        ),
    );
    assert_eq!(it.kind, ItemKind::Function);
    match &it.inner {
        ItemEnum::FunctionItem(f) => {
            assert_eq!(f.decl.inputs.len(), 1);
            assert_eq!(f.decl.inputs[0].0, "x");
            assert!(matches!(&f.decl.inputs[0].1, Type::Primitive(p) if p == "u32"));
            assert!(matches!(&f.decl.output, Some(Type::Primitive(p)) if p == "bool"));
            assert!(!f.decl.c_variadic);
            assert_eq!(f.header, vec![rdoc::Qualifiers::Const, rdoc::Qualifiers::Unsafe]);
            assert_eq!(f.abi, "\"Rust\"");
        },
        other => panic!("wrong payload: {:?}", other),
    }
}

#[test]
fn method_round_trip() {
    let it = decode_one(
        "0:1",
        item_json(
            "0:1",
            "method",
            r#"{"decl":{"inputs":[],"output":null,"c_variadic":false},"generics":{"params":[],"where_predicates":[]},"header":[],"abi":"\"Rust\"","has_body":true}"#,
        ),
    );
    assert_eq!(it.kind, ItemKind::Method);
    assert!(matches!(&it.inner, ItemEnum::MethodItem(m) if m.has_body));
}

#[test]
fn trait_round_trip() {
    let it = decode_one(
        "0:1",
        item_json(
            "0:1",
            "trait",
            r#"{"is_auto":false,"is_unsafe":true,"items":["0:4"],"generics":{"params":[],"where_predicates":[]},"bounds":[],"implementors":["0:5"]}"#,
        ),
    );
    assert_eq!(it.kind, ItemKind::Trait);
    match &it.inner {
        ItemEnum::TraitItem(t) => {
            assert!(!t.is_auto);
            assert!(t.is_unsafe);
            assert_eq!(t.items, vec![Id("0:4".into())]);
            assert_eq!(t.implementors, vec![Id("0:5".into())]);
        },
        other => panic!("wrong payload: {:?}", other),
    }
}

#[test]
fn trait_alias_round_trip() {
    let it = decode_one(
        "0:1",
        item_json(
            "0:1",
            "trait_alias",
            r#"{"generics":{"params":[],"where_predicates":[]},"params":[{"outlives":"'a"}]}"#,
        ),
    );
    assert_eq!(it.kind, ItemKind::TraitAlias);
    assert!(matches!(&it.inner, ItemEnum::TraitAliasItem(t)
        if matches!(&t.params[0], GenericBound::Outlives(lf) if lf == "'a")));
}

#[test]
fn impl_round_trip() {
    let it = decode_one(
        "0:1",
        anon_item_json(
            "0:1",
            "impl",
            r#"{"is_unsafe":false,"generics":{"params":[],"where_predicates":[]},"provided_trait_methods":["fmt"],"trait":{"kind":"resolved_path","inner":{"name":"core::fmt::Debug","id":"5:1","args":null,"param_names":[]}},"for":{"kind":"generic","inner":"T"},"items":["0:8"],"negative":false,"synthetic":true,"blanket_impl":null}"#,
        ),
    );
    assert_eq!(it.kind, ItemKind::Impl);
    assert_eq!(it.name, None);
    match &it.inner {
        ItemEnum::ImplItem(im) => {
            assert_eq!(im.provided_trait_methods, vec!["fmt".to_string()]);
            assert!(im.synthetic);
            assert!(!im.negative);
            assert!(im.blanket_impl.is_none());
            assert!(matches!(&im.for_, Type::Generic(g) if g == "T"));
            match &im.trait_ {
                Some(Type::ResolvedPath { name, id, args, param_names }) => {
                    assert_eq!(name, "core::fmt::Debug");
                    assert_eq!(id.0, "5:1");
                    assert!(args.is_none());
                    assert!(param_names.is_empty());
                },
                other => panic!("wrong trait: {:?}", other),
            }
        },
        other => panic!("wrong payload: {:?}", other),
    }
}

#[test]
fn typedef_round_trip() {
    let it = decode_one(
        "0:1",
        item_json(
            "0:1",
            "typedef",
            r#"{"type":{"kind":"primitive","inner":"u64"},"generics":{"params":[],"where_predicates":[]}}"#,
        ),
    );
    assert_eq!(it.kind, ItemKind::Typedef);
    assert!(matches!(&it.inner, ItemEnum::TypedefItem(t)
        if matches!(&t.type_, Type::Primitive(p) if p == "u64")));
}

#[test]
fn opaque_ty_round_trip() {
    let it = decode_one(
        "0:1",
        item_json(
            "0:1",
            "opaque_ty",
            r#"{"bounds":[],"generics":{"params":[],"where_predicates":[]}}"#,
        ),
    );
    assert_eq!(it.kind, ItemKind::OpaqueTy);
    assert!(matches!(&it.inner, ItemEnum::OpaqueTyItem(_)));
}

#[test]
fn constant_round_trip() {
    let it = decode_one(
        "0:1",
        item_json(
            "0:1",
            "constant",
            r#"{"type":{"kind":"primitive","inner":"usize"},"expr":"1 + 2","value":"3","is_literal":false}"#,
        ),
    );
    assert_eq!(it.kind, ItemKind::Constant);
    match &it.inner {
        ItemEnum::ConstantItem(c) => {
            assert_eq!(c.expr, "1 + 2");
            assert_eq!(c.value.as_deref(), Some("3"));
            assert!(!c.is_literal);
        },
        other => panic!("wrong payload: {:?}", other),
    }
}

#[test]
fn static_round_trip() {
    let it = decode_one(
        "0:1",
        item_json(
            "0:1",
            "static",
            r#"{"type":{"kind":"primitive","inner":"u8"},"mutable":true,"expr":"0"}"#,
        ),
    );
    assert_eq!(it.kind, ItemKind::Static);
    assert!(matches!(&it.inner, ItemEnum::StaticItem(s) if s.mutable && s.expr == "0"));
}

#[test]
fn foreign_type_round_trip() {
    let it = decode_one("0:1", item_json("0:1", "foreign_type", "null"));
    assert_eq!(it.kind, ItemKind::ForeignType);
    assert!(matches!(&it.inner, ItemEnum::ForeignTypeItem));
}

#[test]
fn macro_round_trip() {
    let it = decode_one("0:1", item_json("0:1", "macro", r#""macro_rules! m { () => {} }""#));
    assert_eq!(it.kind, ItemKind::Macro);
    assert!(matches!(&it.inner, ItemEnum::MacroItem(s) if s == "macro_rules! m { () => {} }"));
}

#[test]
fn proc_macro_round_trip() {
    let it = decode_one(
        "0:1",
        item_json("0:1", "proc_derive", r#"{"kind":"derive","helpers":["attr_a"]}"#),
    );
    assert_eq!(it.kind, ItemKind::ProcDerive);
    assert!(matches!(&it.inner, ItemEnum::ProcMacroItem(p)
        if p.kind == MacroKind::Derive && p.helpers == vec!["attr_a".to_string()]));
}

#[test]
fn assoc_const_round_trip() {
    let it = decode_one(
        "0:1",
        item_json(
            "0:1",
            "assoc_const",
            r#"{"type":{"kind":"primitive","inner":"usize"},"default":"5"}"#,
        ),
    );
    assert_eq!(it.kind, ItemKind::AssocConst);
    assert!(matches!(&it.inner, ItemEnum::AssocConstItem { default, .. }
        if default.as_deref() == Some("5")));
}

#[test]
fn assoc_type_round_trip() {
    let it = decode_one(
        "0:1",
        item_json(
            "0:1",
            "assoc_type",
            r#"{"bounds":[],"default":{"kind":"primitive","inner":"usize"}}"#,
        ),
    );
    assert_eq!(it.kind, ItemKind::AssocType);
    assert!(matches!(&it.inner, ItemEnum::AssocTypeItem { default: Some(Type::Primitive(p)), .. }
        if p == "usize"));
}

#[test]
fn decoding_twice_yields_equal_documents() {
    let text = doc_json(&[
        item_json(
            "0:1",
            "struct",
            r#"{"struct_type":"tuple","generics":{"params":[],"where_predicates":[]},"fields_stripped":false,"fields":[],"impls":[]}"#,
        ),
    ]);
    let a = parse(&text);
    let b = parse(&text);
    assert_eq!(a, b);
}

#[test]
fn unknown_type_discriminant_is_unsupported_not_malformed() {
    let entry = item_json(
        "0:1",
        "struct_field",
        r#"{"kind":"totally_new_kind","inner":"u32"}"#,
    );
    let text = doc_json(&[entry]);
    assert_eq!(
        parse(&text),
        Err(DecodeError::UnsupportedVariant("totally_new_kind".to_string()))
    );
}

#[test]
fn kind_detail_disagreement_is_kind_mismatch() {
    let entry = item_json(
        "0:1",
        "struct",
        r#"{"generics":{"params":[],"where_predicates":[]},"variants_stripped":false,"variants":[],"impls":[]}"#,
    );
    let text = doc_json(&[entry]);
    assert_eq!(parse(&text), Err(DecodeError::KindMismatch));
}

#[test]
fn unknown_item_kind_tag_is_unsupported() {
    let entry = item_json("0:1", "hypermodule", r#"{"is_crate":false,"items":[]}"#);
    let text = doc_json(&[entry]);
    assert_eq!(
        parse(&text),
        Err(DecodeError::UnsupportedVariant("hypermodule".to_string()))
    );
}

#[test]
fn text_that_is_not_json_is_malformed() {
    assert_eq!(parse("this is not a document"), Err(DecodeError::Malformed));
}

#[test]
fn missing_required_field_is_malformed() {
    // The root module item lacks `items`.
    let text = r#"{"root":"0:0","includes_private":false,"index":{"0:0":{"id":"0:0","crate_id":0,"visibility":"public","links":{},"attrs":[],"kind":"module","inner":{"is_crate":true}}},"paths":{},"external_crates":{},"format_version":14}"#;
    assert_eq!(parse(text), Err(DecodeError::Malformed));
}

#[test]
fn out_of_range_number_is_malformed() {
    let text = r#"{"root":"0:0","includes_private":false,"index":{},"paths":{},"external_crates":{},"format_version":4294967296}"#;
    assert_eq!(parse(text), Err(DecodeError::Malformed));
}

#[test]
fn fractional_number_is_malformed() {
    let text = r#"{"root":"0:0","includes_private":false,"index":{},"paths":{},"external_crates":{},"format_version":1.5}"#;
    assert_eq!(parse(text), Err(DecodeError::Malformed));
}

#[test]
fn unknown_extra_fields_are_tolerated() {
    let text = r##"{"root":"0:0","includes_private":false,"some_future_field":[1,2,3],"index":{"0:0":{"id":"0:0","crate_id":0,"extra":"ignored","visibility":"public","links":{},"attrs":["#[non_exhaustive]"],"kind":"module","inner":{"is_crate":true,"items":[]}}},"paths":{},"external_crates":{},"format_version":14}"##;
    let krate = parse(text).expect("extra fields must not fail the decode");
    assert_eq!(krate.index.len(), 1);
    assert_eq!(krate.index[0].1.attrs, vec!["#[non_exhaustive]".to_string()]);
    assert_eq!(krate.crate_version, None);
}

#[test]
fn optional_fields_default_when_absent() {
    let text = r#"{"root":"0:0","includes_private":true,"index":{"0:0":{"id":"0:0","crate_id":0,"visibility":"public","links":{},"attrs":[],"kind":"module","inner":{"is_crate":true,"items":[]}}},"paths":{},"external_crates":{},"format_version":14}"#;
    let krate = parse(text).unwrap();
    assert_eq!(krate.crate_version, None);
    let it = &krate.index[0].1;
    assert_eq!(it.name, None);
    assert_eq!(it.docs, None);
    assert_eq!(it.source, None);
    assert_eq!(it.deprecation, None);
}

#[test]
fn span_deprecation_links_and_external_crates_decode() {
    let text = r#"{"root":"0:0","includes_private":false,"index":{"0:0":{"id":"0:0","crate_id":0,"name":"c","source":{"filename":"src/lib.rs","begin":[3,0],"end":[10,1]},"visibility":{"restricted":{"parent":"0:9","path":"super::super"}},"docs":"see [link]","links":{"link":"0:7"},"attrs":[],"deprecation":{"since":"1.0","note":"old"},"kind":"module","inner":{"is_crate":true,"items":[]}}},"paths":{},"external_crates":{"2":{"name":"serde","html_root_url":"https://docs.rs/serde"}},"format_version":14}"#;
    let krate = parse(text).unwrap();
    let it = &krate.index[0].1;
    let sp = it.source.as_ref().unwrap();
    assert_eq!(sp.filename, "src/lib.rs");
    assert_eq!(sp.begin, (3, 0));
    assert_eq!(sp.end, (10, 1));
    assert_eq!(
        it.visibility,
        Visibility::Restricted { parent: Id("0:9".into()), path: "super::super".into() }
    );
    assert_eq!(it.links, vec![("link".to_string(), Id("0:7".into()))]);
    let dep = it.deprecation.as_ref().unwrap();
    assert_eq!(dep.since.as_deref(), Some("1.0"));
    assert_eq!(dep.note.as_deref(), Some("old"));
    assert_eq!(krate.external_crates.len(), 1);
    assert_eq!(krate.external_crates[0].0, 2);
    assert_eq!(krate.external_crates[0].1.name, "serde");
    assert_eq!(
        krate.external_crates[0].1.html_root_url.as_deref(),
        Some("https://docs.rs/serde")
    );
}

#[test]
fn bad_external_crate_key_is_malformed() {
    let text = r#"{"root":"0:0","includes_private":false,"index":{},"paths":{},"external_crates":{"two":{"name":"serde"}},"format_version":14}"#;
    assert_eq!(parse(text), Err(DecodeError::Malformed));
}

#[test]
fn generics_and_bounds_decode() {
    let inner = r#"{"decl":{"inputs":[],"output":null,"c_variadic":false},"generics":{"params":[{"name":"'a","kind":"lifetime"},{"name":"T","kind":{"type":{"bounds":[{"trait_bound":{"trait":{"kind":"resolved_path","inner":{"name":"Clone","id":"1:1","args":{"angle_bracketed":{"args":[],"bindings":[]}},"param_names":[]}},"generic_params":[],"modifier":"maybe"}},{"outlives":"'a"}],"default":{"kind":"primitive","inner":"u8"}}}},{"name":"N","kind":{"const":{"kind":"primitive","inner":"usize"}}}],"where_predicates":[{"bound_predicate":{"ty":{"kind":"generic","inner":"T"},"bounds":[]}},{"region_predicate":{"lifetime":"'a","bounds":[]}},{"eq_predicate":{"lhs":{"kind":"generic","inner":"T"},"rhs":{"kind":"primitive","inner":"u8"}}}]},"header":[],"abi":"\"Rust\""}"#;
    let it = decode_one("0:1", item_json("0:1", "function", inner));
    match &it.inner {
        ItemEnum::FunctionItem(f) => {
            assert_eq!(f.generics.params.len(), 3);
            assert_eq!(f.generics.params[0].name, "'a");
            assert!(matches!(&f.generics.params[0].kind, GenericParamDefKind::Lifetime));
            match &f.generics.params[1].kind {
                GenericParamDefKind::Type { bounds, default } => {
                    assert_eq!(bounds.len(), 2);
                    match &bounds[0] {
                        GenericBound::TraitBound { trait_, generic_params, modifier } => {
                            assert!(matches!(trait_, Type::ResolvedPath { name, .. } if name == "Clone"));
                            assert!(generic_params.is_empty());
                            assert_eq!(*modifier, TraitBoundModifier::Maybe);
                        },
                        other => panic!("wrong bound: {:?}", other),
                    }
                    assert!(matches!(&bounds[1], GenericBound::Outlives(lf) if lf == "'a"));
                    assert!(matches!(default.as_deref(), Some(Type::Primitive(p)) if p == "u8"));
                },
                other => panic!("wrong param kind: {:?}", other),
            }
            assert!(matches!(&f.generics.params[2].kind, GenericParamDefKind::Const(t)
                if matches!(&**t, Type::Primitive(p) if p == "usize")));
            assert_eq!(f.generics.where_predicates.len(), 3);
        },
        other => panic!("wrong payload: {:?}", other),
    }
}

#[test]
fn type_tree_decodes_deeply() {
    let inner = r#"{"kind":"borrowed_ref","inner":{"lifetime":"'a","mutable":true,"type":{"kind":"array","inner":{"type":{"kind":"tuple","inner":[{"kind":"never"},{"kind":"infer"},{"kind":"raw_pointer","inner":{"mutable":false,"type":{"kind":"primitive","inner":"u8"}}}]},"len":"N * 2"}}}}"#;
    let it = decode_one("0:1", item_json("0:1", "struct_field", inner));
    match &it.inner {
        ItemEnum::StructFieldItem(Type::BorrowedRef { lifetime, mutable, type_ }) => {
            assert_eq!(lifetime.as_deref(), Some("'a"));
            assert!(*mutable);
            match &**type_ {
                Type::Array { type_, len } => {
                    assert_eq!(len, "N * 2");
                    match &**type_ {
                        Type::Tuple(ts) => {
                            assert_eq!(ts.len(), 3);
                            assert!(matches!(&ts[0], Type::Never));
                            assert!(matches!(&ts[1], Type::Infer));
                            assert!(matches!(&ts[2], Type::RawPointer { mutable: false, .. }));
                        },
                        other => panic!("wrong element: {:?}", other),
                    }
                },
                other => panic!("wrong pointee: {:?}", other),
            }
        },
        other => panic!("wrong payload: {:?}", other),
    }
}

#[test]
fn qualified_path_and_fn_pointer_decode() {
    let inner = r#"{"kind":"qualified_path","inner":{"name":"Item","self_type":{"kind":"generic","inner":"I"},"trait":{"kind":"resolved_path","inner":{"name":"Iterator","id":"2:2","args":null,"param_names":[]}}}}"#;
    let it = decode_one("0:1", item_json("0:1", "struct_field", inner));
    match &it.inner {
        ItemEnum::StructFieldItem(Type::QualifiedPath { name, self_type, trait_ }) => {
            assert_eq!(name, "Item");
            assert!(matches!(&**self_type, Type::Generic(g) if g == "I"));
            assert!(matches!(&**trait_, Type::ResolvedPath { name, .. } if name == "Iterator"));
        },
        other => panic!("wrong payload: {:?}", other),
    }
    let fp = r#"{"kind":"function_pointer","inner":{"decl":{"inputs":[["y",{"kind":"primitive","inner":"i32"}]],"output":null,"c_variadic":false},"generic_params":[],"header":[],"abi":"\"C\""}}"#;
    let it2 = decode_one("0:1", item_json("0:1", "struct_field", fp));
    match &it2.inner {
        ItemEnum::StructFieldItem(Type::FunctionPointer(f)) => {
            assert_eq!(f.abi, "\"C\"");
            assert_eq!(f.decl.inputs[0].0, "y");
        },
        other => panic!("wrong payload: {:?}", other),
    }
}

#[test]
fn generic_args_decode_both_shapes() {
    let inner = r#"{"kind":"resolved_path","inner":{"name":"Map","id":"3:3","args":{"angle_bracketed":{"args":[{"lifetime":"'k"},{"type":{"kind":"primitive","inner":"u8"}},{"const":{"type":{"kind":"primitive","inner":"usize"},"expr":"3","value":"3","is_literal":true}}],"bindings":[{"name":"Output","binding":{"equality":{"kind":"primitive","inner":"u8"}}},{"name":"Q","binding":{"constraint":[]}}]}},"param_names":[]}}"#;
    let it = decode_one("0:1", item_json("0:1", "struct_field", inner));
    match &it.inner {
        ItemEnum::StructFieldItem(Type::ResolvedPath { args: Some(a), .. }) => match &**a {
            GenericArgs::AngleBracketed { args, bindings } => {
                assert_eq!(args.len(), 3);
                assert!(matches!(&args[0], GenericArg::Lifetime(lf) if lf == "'k"));
                assert!(matches!(&args[1], GenericArg::Type(Type::Primitive(p)) if p == "u8"));
                assert!(matches!(&args[2], GenericArg::Const(Constant { is_literal: true, .. })));
                assert_eq!(bindings.len(), 2);
                assert_eq!(bindings[0].name, "Output");
            },
            other => panic!("wrong args: {:?}", other),
        },
        other => panic!("wrong payload: {:?}", other),
    }
    let paren = r#"{"kind":"resolved_path","inner":{"name":"Fn","id":"3:4","args":{"parenthesized":{"inputs":[{"kind":"primitive","inner":"u8"}],"output":{"kind":"primitive","inner":"bool"}}},"param_names":[]}}"#;
    let it2 = decode_one("0:1", item_json("0:1", "struct_field", paren));
    match &it2.inner {
        ItemEnum::StructFieldItem(Type::ResolvedPath { args: Some(a), .. }) => match &**a {
            GenericArgs::Parenthesized { inputs, output } => {
                assert_eq!(inputs.len(), 1);
                assert!(matches!(output, Some(Type::Primitive(p)) if p == "bool"));
            },
            other => panic!("wrong args: {:?}", other),
        },
        other => panic!("wrong payload: {:?}", other),
    }
}

#[test]
fn unknown_qualifier_is_unsupported() {
    let inner = r#"{"decl":{"inputs":[],"output":null,"c_variadic":false},"generics":{"params":[],"where_predicates":[]},"header":["extern"],"abi":"\"Rust\""}"#;
    let text = doc_json(&[item_json("0:1", "function", inner)]);
    assert_eq!(parse(&text), Err(DecodeError::UnsupportedVariant("extern".to_string())));
}

#[test]
fn decimal_keys_parse_exactly() {
    assert_eq!(u32_from_decimal(&"0".to_string()), Some(0));
    assert_eq!(u32_from_decimal(&"007".to_string()), Some(7));
    assert_eq!(u32_from_decimal(&"4294967295".to_string()), Some(u32::MAX));
    assert_eq!(u32_from_decimal(&"4294967296".to_string()), None);
    assert_eq!(u32_from_decimal(&"".to_string()), None);
    assert_eq!(u32_from_decimal(&"12x".to_string()), None);
    assert_eq!(u32_from_decimal(&"-3".to_string()), None);
}

#[test]
fn first_lines_split_at_the_newline() {
    assert_eq!(first_line("one line"), Some("one line".to_string()));
    assert_eq!(first_line("first\nsecond"), Some("first".to_string()));
    assert_eq!(first_line("first\r\nsecond"), Some("first".to_string()));
    assert_eq!(first_line("\nrest"), Some("".to_string()));
    assert_eq!(first_line(""), None);
}

#[test]
fn hand_built_trees_decode_like_parsed_text() {
    let j = Json::Obj(vec![
        ("root".to_string(), Json::Str("0:0".to_string())),
        ("includes_private".to_string(), Json::Bool(true)),
        (
            "index".to_string(),
            Json::Obj(vec![(
                "0:0".to_string(),
                Json::Obj(vec![
                    ("id".to_string(), Json::Str("0:0".to_string())),
                    ("crate_id".to_string(), Json::Num(0)),
                    ("name".to_string(), Json::Str("c".to_string())),
                    ("visibility".to_string(), Json::Str("public".to_string())),
                    ("links".to_string(), Json::Obj(Vec::new())),
                    ("attrs".to_string(), Json::Arr(Vec::new())),
                    ("kind".to_string(), Json::Str("module".to_string())),
                    (
                        "inner".to_string(),
                        Json::Obj(vec![
                            ("is_crate".to_string(), Json::Bool(true)),
                            ("items".to_string(), Json::Arr(Vec::new())),
                        ]),
                    ),
                ]),
            )]),
        ),
        ("paths".to_string(), Json::Obj(Vec::new())),
        ("external_crates".to_string(), Json::Obj(Vec::new())),
        ("format_version".to_string(), Json::Num(9)),
    ]);
    let from_tree = decode_crate(&j).expect("the tree decodes");
    let text = r#"{"root":"0:0","includes_private":true,"index":{"0:0":{"id":"0:0","crate_id":0,"name":"c","visibility":"public","links":{},"attrs":[],"kind":"module","inner":{"is_crate":true,"items":[]}}},"paths":{},"external_crates":{},"format_version":9}"#;
    let from_text = parse(text).expect("the text decodes");
    assert_eq!(from_tree, from_text);
}

#[test]
fn unknown_visibility_tag_is_unsupported() {
    let text = r#"{"root":"0:0","includes_private":false,"index":{"0:0":{"id":"0:0","crate_id":0,"visibility":"cosmic","links":{},"attrs":[],"kind":"module","inner":{"is_crate":true,"items":[]}}},"paths":{},"external_crates":{},"format_version":14}"#;
    assert_eq!(parse(text), Err(DecodeError::UnsupportedVariant("cosmic".to_string())));
}

#[test]
fn unknown_bound_and_variant_tags_are_unsupported() {
    let inner = r#"{"bounds":[{"mystery_bound":"x"}],"default":null}"#;
    let text = doc_json(&[item_json("0:1", "assoc_type", inner)]);
    assert_eq!(parse(&text), Err(DecodeError::UnsupportedVariant("mystery_bound".to_string())));
    let v = r#"{"variant_kind":"matrix","variant_inner":[]}"#;
    let text2 = doc_json(&[item_json("0:1", "variant", v)]);
    assert_eq!(parse(&text2), Err(DecodeError::UnsupportedVariant("matrix".to_string())));
}

#[test]
fn unrecognized_item_shape_is_malformed() {
    let text = doc_json(&[item_json("0:1", "module", r#"{"nothing_known_here":1}"#)]);
    assert_eq!(parse(&text), Err(DecodeError::Malformed));
}


#[test]
fn absent_or_non_module_root_is_malformed() {
    // The root must be a key of the index.
    let absent = r#"{"root":"9:9","includes_private":false,"index":{"0:0":{"id":"0:0","crate_id":0,"visibility":"public","links":{},"attrs":[],"kind":"module","inner":{"is_crate":true,"items":[]}}},"paths":{},"external_crates":{},"format_version":14}"#;
    assert_eq!(parse(absent), Err(DecodeError::Malformed));
    // ... and its item must be a module.
    let not_module = r#"{"root":"0:0","includes_private":false,"index":{"0:0":{"id":"0:0","crate_id":0,"name":"f","visibility":"public","links":{},"attrs":[],"kind":"function","inner":{"decl":{"inputs":[],"output":null,"c_variadic":false},"generics":{"params":[],"where_predicates":[]},"header":[],"abi":"x"}}},"paths":{},"external_crates":{},"format_version":14}"#;
    assert_eq!(parse(not_module), Err(DecodeError::Malformed));
}

#[test]
fn index_key_must_match_item_id() {
    // The item under key "0:1" carries id "0:7".
    let entry = r#""0:1": {"id":"0:7","crate_id":0,"visibility":"public","links":{},"attrs":[],"kind":"module","inner":{"is_crate":false,"items":[]}}"#;
    let text = doc_json(&[entry.to_string()]);
    assert_eq!(parse(&text), Err(DecodeError::Malformed));
}

fn module_item_tree(id: &str) -> Json {
    Json::Obj(vec![
        ("id".to_string(), Json::Str(id.to_string())),
        ("crate_id".to_string(), Json::Num(0)),
        ("visibility".to_string(), Json::Str("public".to_string())),
        ("links".to_string(), Json::Obj(Vec::new())),
        ("attrs".to_string(), Json::Arr(Vec::new())),
        ("kind".to_string(), Json::Str("module".to_string())),
        (
            "inner".to_string(),
            Json::Obj(vec![
                ("is_crate".to_string(), Json::Bool(false)),
                ("items".to_string(), Json::Arr(Vec::new())),
            ]),
        ),
    ])
}

fn doc_tree(index: Vec<(String, Json)>, paths: Vec<(String, Json)>) -> Json {
    Json::Obj(vec![
        ("root".to_string(), Json::Str("0:0".to_string())),
        ("includes_private".to_string(), Json::Bool(false)),
        ("index".to_string(), Json::Obj(index)),
        ("paths".to_string(), Json::Obj(paths)),
        ("external_crates".to_string(), Json::Obj(Vec::new())),
        ("format_version".to_string(), Json::Num(14)),
    ])
}

#[test]
fn duplicate_index_keys_are_rejected() {
    // Parsed text cannot carry duplicates (the parser collapses them), so
    // the check shows on a hand-built tree.
    let j = doc_tree(
        vec![
            ("0:0".to_string(), module_item_tree("0:0")),
            ("0:0".to_string(), module_item_tree("0:0")),
        ],
        Vec::new(),
    );
    assert_eq!(decode_crate(&j), Err(DecodeError::Malformed));
}

#[test]
fn duplicate_path_keys_are_rejected() {
    let summary = Json::Obj(vec![
        ("crate_id".to_string(), Json::Num(0)),
        ("path".to_string(), Json::Arr(vec![Json::Str("a".to_string())])),
        ("kind".to_string(), Json::Str("module".to_string())),
    ]);
    let summary2 = Json::Obj(vec![
        ("crate_id".to_string(), Json::Num(0)),
        ("path".to_string(), Json::Arr(vec![Json::Str("a".to_string())])),
        ("kind".to_string(), Json::Str("module".to_string())),
    ]);
    let j = doc_tree(
        vec![("0:0".to_string(), module_item_tree("0:0"))],
        vec![("0:0".to_string(), summary), ("0:0".to_string(), summary2)],
    );
    assert_eq!(decode_crate(&j), Err(DecodeError::Malformed));
}

#[test]
fn link_labels_must_appear_in_docs() {
    // A label with no docs at all is rejected.
    let no_docs = r#""0:1": {"id":"0:1","crate_id":0,"visibility":"public","links":{"label":"0:9"},"attrs":[],"kind":"module","inner":{"is_crate":false,"items":[]}}"#;
    let text = doc_json(&[no_docs.to_string()]);
    assert_eq!(parse(&text), Err(DecodeError::Malformed));
    // A label that is not a substring of the docs is rejected.
    let wrong = r#""0:1": {"id":"0:1","crate_id":0,"visibility":"public","docs":"see [other] things","links":{"label":"0:9"},"attrs":[],"kind":"module","inner":{"is_crate":false,"items":[]}}"#;
    let text2 = doc_json(&[wrong.to_string()]);
    assert_eq!(parse(&text2), Err(DecodeError::Malformed));
    // A label occurring verbatim is accepted.
    let good = r#""0:1": {"id":"0:1","crate_id":0,"visibility":"public","docs":"see [other] things","links":{"other":"0:9"},"attrs":[],"kind":"module","inner":{"is_crate":false,"items":[]}}"#;
    let text3 = doc_json(&[good.to_string()]);
    let krate = parse(&text3).expect("a verbatim label decodes");
    let it = krate.index.iter().find(|(i, _)| i.0 == "0:1").unwrap();
    assert_eq!(it.1.links, vec![("other".to_string(), Id("0:9".into()))]);
}

#[test]
fn aliased_external_crate_keys_are_rejected() {
    // "1" and "01" read as the same crate number.
    let text = r#"{"root":"0:0","includes_private":false,"index":{"0:0":{"id":"0:0","crate_id":0,"visibility":"public","links":{},"attrs":[],"kind":"module","inner":{"is_crate":true,"items":[]}}},"paths":{},"external_crates":{"01":{"name":"a"},"1":{"name":"b"}},"format_version":14}"#;
    assert_eq!(parse(text), Err(DecodeError::Malformed));
}
