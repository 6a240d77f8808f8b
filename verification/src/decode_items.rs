//! Decoding of items, summaries and the crate root, and the `parse` entry
//! point. The item payload is untagged: its variant is told from which fields
//! are present, in the fixed priority order written in
//! [`spec_decode_item_inner`], and the separately encoded `kind` tag must
//! agree with it.

use crate::decode::{
    res_view, spec_decode_bounds, spec_decode_constant, spec_decode_fn_decl,
    spec_decode_generics, spec_decode_opt_type, spec_decode_qualifier_list, spec_decode_type,
    spec_decode_types, spec_decode_u32, spec_opt_field, spec_opt_str, spec_req_bool,
    spec_req_str, spec_req_u32, DecodeError,
};
use crate::decode_exec::{
    decode_bounds, decode_fn_decl, decode_generics, decode_qualifier_list, decode_type,
    decode_types,
};
use crate::json::{json_parse, obj_get, parse_text, spec_obj_get, str_eq, Json};
use crate::types::{
    spec_kind_of, view_external_crates, view_ids, view_index, view_links, view_paths,
    view_strings, Crate, CrateV, Deprecation, DeprecationV, Enum, ExternalCrate, ExternalCrateV,
    Function, Id, Import, Item, ItemEnum, ItemEnumV, ItemKind, ItemSummary, ItemSummaryV, ItemV,
    MacroKind, Method, Module, OpaqueTy, ProcMacro, Span, SpanV, Static, Struct, StructType,
    Trait, TraitAlias, Typedef, Union, Variant, VariantV, Visibility, VisibilityV,
};
use std::sync::Arc;
use vstd::prelude::*;

verus! {

broadcast use crate::types::group_view_lemmas, crate::json::lemma_obj_get_smaller;

pub open spec fn spec_has(fs: Seq<(String, Json)>, name: Seq<char>) -> bool {
    spec_obj_get(fs, name) is Some
}

fn has_field(fs: &Vec<(String, Json)>, name: &str) -> (r: bool)
    ensures
        r == spec_has(fs@, name@),
{
    match obj_get(fs, name) {
        Some(_) => true,
        None => false,
    }
}

// ---------------------------------------------------------------------------
// Decimal keys of the external-crate map.
// ---------------------------------------------------------------------------

/// All characters are decimal digits.
pub open spec fn spec_dec_digits(s: Seq<char>) -> bool {
    forall|i: int| 0 <= i < s.len() ==> 48 <= (#[trigger] s[i]) as int <= 57
}

/// The number written in decimal, most significant digit first.
pub open spec fn spec_dec_num(s: Seq<char>) -> int
    decreases s.len(),
{
    if s.len() == 0 {
        0
    } else {
        spec_dec_num(s.drop_last()) * 10 + (s.last() as int - 48)
    }
}

/// A decimal numeral that fits an unsigned 32-bit integer; anything else is
/// no key of the map.
pub open spec fn spec_u32_from_decimal(s: Seq<char>) -> Option<u32> {
    if s.len() > 0 && spec_dec_digits(s) && spec_dec_num(s) <= u32::MAX as int {
        Some(spec_dec_num(s) as u32)
    } else {
        None
    }
}

proof fn lemma_dec_num_nonneg(s: Seq<char>)
    requires
        spec_dec_digits(s),
    ensures
        spec_dec_num(s) >= 0,
    decreases s.len(),
{
    if s.len() > 0 {
        assert(spec_dec_digits(s.drop_last())) by {
            assert(forall|i: int|
                0 <= i < s.len() - 1 ==> s.drop_last()[i] == #[trigger] s[i]);
        }
        lemma_dec_num_nonneg(s.drop_last());
    }
}

proof fn lemma_dec_num_mono(s: Seq<char>, i: int)
    requires
        spec_dec_digits(s),
        0 <= i <= s.len(),
    ensures
        spec_dec_num(s.take(i)) <= spec_dec_num(s),
    decreases s.len() - i,
{
    if i == s.len() {
        assert(s.take(i) =~= s);
    } else {
        assert(spec_dec_digits(s.drop_last())) by {
            assert(forall|k: int|
                0 <= k < s.len() - 1 ==> s.drop_last()[k] == #[trigger] s[k]);
        }
        assert(s.drop_last().take(i) =~= s.take(i));
        lemma_dec_num_mono(s.drop_last(), i);
        lemma_dec_num_nonneg(s.drop_last());
    }
}

pub fn u32_from_decimal(s: &String) -> (r: Option<u32>)
    ensures
        r == spec_u32_from_decimal(s@),
{
    let n = s.as_str().unicode_len();
    if n == 0 {
        return None;
    }
    let mut acc: u64 = 0;
    let mut i: usize = 0;
    proof {
        assert(s@.take(0) =~= Seq::<char>::empty());
    }
    while i < n
        invariant
            0 <= i <= n,
            n == s@.len(),
            spec_dec_digits(s@.take(i as int)),
            acc as int == spec_dec_num(s@.take(i as int)),
            acc <= u32::MAX as u64,
        decreases n - i,
    {
        let c = s.as_str().get_char(i);
        let cv = c as u32;
        if cv < 48 || cv > 57 {
            proof {
                assert(!spec_dec_digits(s@));
            }
            return None;
        }
        let d: u64 = (cv - 48) as u64;
        let next: u64 = acc * 10 + d;
        proof {
            assert(s@.take(i as int + 1).drop_last() =~= s@.take(i as int));
            assert(s@.take(i as int + 1).last() == s@[i as int]);
            assert(spec_dec_digits(s@.take(i as int + 1))) by {
                assert(forall|k: int|
                    0 <= k < i as int ==> s@.take(i as int + 1)[k] == #[trigger] s@.take(
                        i as int,
                    )[k]);
            }
        }
        if next > u32::MAX as u64 {
            proof {
                if spec_dec_digits(s@) {
                    lemma_dec_num_mono(s@, i as int + 1);
                }
            }
            return None;
        }
        acc = next;
        i = i + 1;
    }
    proof {
        assert(s@.take(n as int) =~= s@);
    }
    Some(acc as u32)
}

// ---------------------------------------------------------------------------
// Leaf enums and small structs of the item layer.
// ---------------------------------------------------------------------------

pub open spec fn spec_decode_item_kind(j: Json) -> Result<ItemKind, DecodeError> {
    match j {
        Json::Str(s) => {
            if s@ == "module"@ {
                Ok(ItemKind::Module)
            } else if s@ == "extern_crate"@ {
                Ok(ItemKind::ExternCrate)
            } else if s@ == "import"@ {
                Ok(ItemKind::Import)
            } else if s@ == "struct"@ {
                Ok(ItemKind::Struct)
            } else if s@ == "struct_field"@ {
                Ok(ItemKind::StructField)
            } else if s@ == "union"@ {
                Ok(ItemKind::Union)
            } else if s@ == "enum"@ {
                Ok(ItemKind::Enum)
            } else if s@ == "variant"@ {
                Ok(ItemKind::Variant)
            } else if s@ == "function"@ {
                Ok(ItemKind::Function)
            } else if s@ == "typedef"@ {
                Ok(ItemKind::Typedef)
            } else if s@ == "opaque_ty"@ {
                Ok(ItemKind::OpaqueTy)
            } else if s@ == "constant"@ {
                Ok(ItemKind::Constant)
            } else if s@ == "trait"@ {
                Ok(ItemKind::Trait)
            } else if s@ == "trait_alias"@ {
                Ok(ItemKind::TraitAlias)
            } else if s@ == "method"@ {
                Ok(ItemKind::Method)
            } else if s@ == "impl"@ {
                Ok(ItemKind::Impl)
            } else if s@ == "static"@ {
                Ok(ItemKind::Static)
            } else if s@ == "foreign_type"@ {
                Ok(ItemKind::ForeignType)
            } else if s@ == "macro"@ {
                Ok(ItemKind::Macro)
            } else if s@ == "proc_attribute"@ {
                Ok(ItemKind::ProcAttribute)
            } else if s@ == "proc_derive"@ {
                Ok(ItemKind::ProcDerive)
            } else if s@ == "assoc_const"@ {
                Ok(ItemKind::AssocConst)
            } else if s@ == "assoc_type"@ {
                Ok(ItemKind::AssocType)
            } else if s@ == "primitive"@ {
                Ok(ItemKind::Primitive)
            } else if s@ == "keyword"@ {
                Ok(ItemKind::Keyword)
            } else {
                Err(DecodeError::UnsupportedVariant(s))
            }
        },
        _ => Err(DecodeError::Malformed),
    }
}

pub fn decode_item_kind(j: &Json) -> (r: Result<ItemKind, DecodeError>)
    ensures
        r == spec_decode_item_kind(*j),
{
    match j {
        Json::Str(s) => {
            if str_eq(s, "module") {
                Ok(ItemKind::Module)
            } else if str_eq(s, "extern_crate") {
                Ok(ItemKind::ExternCrate)
            } else if str_eq(s, "import") {
                Ok(ItemKind::Import)
            } else if str_eq(s, "struct") {
                Ok(ItemKind::Struct)
            } else if str_eq(s, "struct_field") {
                Ok(ItemKind::StructField)
            } else if str_eq(s, "union") {
                Ok(ItemKind::Union)
            } else if str_eq(s, "enum") {
                Ok(ItemKind::Enum)
            } else if str_eq(s, "variant") {
                Ok(ItemKind::Variant)
            } else if str_eq(s, "function") {
                Ok(ItemKind::Function)
            } else if str_eq(s, "typedef") {
                Ok(ItemKind::Typedef)
            } else if str_eq(s, "opaque_ty") {
                Ok(ItemKind::OpaqueTy)
            } else if str_eq(s, "constant") {
                Ok(ItemKind::Constant)
            } else if str_eq(s, "trait") {
                Ok(ItemKind::Trait)
            } else if str_eq(s, "trait_alias") {
                Ok(ItemKind::TraitAlias)
            } else if str_eq(s, "method") {
                Ok(ItemKind::Method)
            } else if str_eq(s, "impl") {
                Ok(ItemKind::Impl)
            } else if str_eq(s, "static") {
                Ok(ItemKind::Static)
            } else if str_eq(s, "foreign_type") {
                Ok(ItemKind::ForeignType)
            } else if str_eq(s, "macro") {
                Ok(ItemKind::Macro)
            } else if str_eq(s, "proc_attribute") {
                Ok(ItemKind::ProcAttribute)
            } else if str_eq(s, "proc_derive") {
                Ok(ItemKind::ProcDerive)
            } else if str_eq(s, "assoc_const") {
                Ok(ItemKind::AssocConst)
            } else if str_eq(s, "assoc_type") {
                Ok(ItemKind::AssocType)
            } else if str_eq(s, "primitive") {
                Ok(ItemKind::Primitive)
            } else if str_eq(s, "keyword") {
                Ok(ItemKind::Keyword)
            } else {
                Err(DecodeError::UnsupportedVariant(s.clone()))
            }
        },
        _ => Err(DecodeError::Malformed),
    }
}

pub open spec fn spec_decode_macro_kind(j: Json) -> Result<MacroKind, DecodeError> {
    match j {
        Json::Str(s) => {
            if s@ == "bang"@ {
                Ok(MacroKind::Bang)
            } else if s@ == "attr"@ {
                Ok(MacroKind::Attr)
            } else if s@ == "derive"@ {
                Ok(MacroKind::Derive)
            } else {
                Err(DecodeError::UnsupportedVariant(s))
            }
        },
        _ => Err(DecodeError::Malformed),
    }
}

fn decode_macro_kind(j: &Json) -> (r: Result<MacroKind, DecodeError>)
    ensures
        r == spec_decode_macro_kind(*j),
{
    match j {
        Json::Str(s) => {
            if str_eq(s, "bang") {
                Ok(MacroKind::Bang)
            } else if str_eq(s, "attr") {
                Ok(MacroKind::Attr)
            } else if str_eq(s, "derive") {
                Ok(MacroKind::Derive)
            } else {
                Err(DecodeError::UnsupportedVariant(s.clone()))
            }
        },
        _ => Err(DecodeError::Malformed),
    }
}

pub open spec fn spec_decode_struct_type(j: Json) -> Result<StructType, DecodeError> {
    match j {
        Json::Str(s) => {
            if s@ == "plain"@ {
                Ok(StructType::Plain)
            } else if s@ == "tuple"@ {
                Ok(StructType::Tuple)
            } else if s@ == "unit"@ {
                Ok(StructType::Unit)
            } else if s@ == "union"@ {
                Ok(StructType::Union)
            } else {
                Err(DecodeError::UnsupportedVariant(s))
            }
        },
        _ => Err(DecodeError::Malformed),
    }
}

fn decode_struct_type(j: &Json) -> (r: Result<StructType, DecodeError>)
    ensures
        r == spec_decode_struct_type(*j),
{
    match j {
        Json::Str(s) => {
            if str_eq(s, "plain") {
                Ok(StructType::Plain)
            } else if str_eq(s, "tuple") {
                Ok(StructType::Tuple)
            } else if str_eq(s, "unit") {
                Ok(StructType::Unit)
            } else if str_eq(s, "union") {
                Ok(StructType::Union)
            } else {
                Err(DecodeError::UnsupportedVariant(s.clone()))
            }
        },
        _ => Err(DecodeError::Malformed),
    }
}

pub open spec fn spec_decode_visibility(j: Json) -> Result<VisibilityV, DecodeError> {
    match j {
        Json::Str(s) => {
            if s@ == "public"@ {
                Ok(VisibilityV::Public)
            } else if s@ == "default"@ {
                Ok(VisibilityV::Default)
            } else if s@ == "crate"@ {
                Ok(VisibilityV::Crate)
            } else {
                Err(DecodeError::UnsupportedVariant(s))
            }
        },
        Json::Obj(fs) => {
            if fs@.len() != 1 {
                Err(DecodeError::Malformed)
            } else {
                let tag = fs@[0].0;
                let payload = fs@[0].1;
                if tag@ == "restricted"@ {
                    match payload {
                        Json::Obj(pf) => match spec_req_str(pf@, "parent"@) {
                            Ok(parent) => match spec_req_str(pf@, "path"@) {
                                Ok(path) => Ok(VisibilityV::Restricted { parent, path }),
                                Err(e) => Err(e),
                            },
                            Err(e) => Err(e),
                        },
                        _ => Err(DecodeError::Malformed),
                    }
                } else {
                    Err(DecodeError::UnsupportedVariant(tag))
                }
            }
        },
        _ => Err(DecodeError::Malformed),
    }
}

fn decode_visibility(j: &Json) -> (r: Result<Visibility, DecodeError>)
    ensures
        res_view(r) == spec_decode_visibility(*j),
{
    match j {
        Json::Str(s) => {
            if str_eq(s, "public") {
                Ok(Visibility::Public)
            } else if str_eq(s, "default") {
                Ok(Visibility::Default)
            } else if str_eq(s, "crate") {
                Ok(Visibility::Crate)
            } else {
                Err(DecodeError::UnsupportedVariant(s.clone()))
            }
        },
        Json::Obj(fs) => {
            if fs.len() != 1 {
                return Err(DecodeError::Malformed);
            }
            let tag = &fs[0].0;
            let payload = &fs[0].1;
            if str_eq(tag, "restricted") {
                match payload {
                    Json::Obj(pf) => {
                        let parent = match crate::decode::req_str(pf, "parent") {
                            Ok(parent) => parent,
                            Err(e) => {
                                return Err(e);
                            },
                        };
                        match crate::decode::req_str(pf, "path") {
                            Ok(path) => Ok(Visibility::Restricted { parent: Id(parent), path }),
                            Err(e) => Err(e),
                        }
                    },
                    _ => Err(DecodeError::Malformed),
                }
            } else {
                Err(DecodeError::UnsupportedVariant(tag.clone()))
            }
        },
        _ => Err(DecodeError::Malformed),
    }
}

/// A zero-indexed line/column pair, encoded as a two-element array.
pub open spec fn spec_decode_line_col(j: Json) -> Result<(usize, usize), DecodeError> {
    match j {
        Json::Arr(v) => {
            if v@.len() != 2 {
                Err(DecodeError::Malformed)
            } else {
                match spec_decode_u32(v@[0]) {
                    Ok(a) => match spec_decode_u32(v@[1]) {
                        Ok(b) => Ok((a as usize, b as usize)),
                        Err(e) => Err(e),
                    },
                    Err(e) => Err(e),
                }
            }
        },
        _ => Err(DecodeError::Malformed),
    }
}

fn decode_line_col(j: &Json) -> (r: Result<(usize, usize), DecodeError>)
    ensures
        r == spec_decode_line_col(*j),
{
    match j {
        Json::Arr(v) => {
            if v.len() != 2 {
                return Err(DecodeError::Malformed);
            }
            let a = match crate::decode::decode_u32(&v[0]) {
                Ok(a) => a,
                Err(e) => {
                    return Err(e);
                },
            };
            match crate::decode::decode_u32(&v[1]) {
                Ok(b) => Ok((a as usize, b as usize)),
                Err(e) => Err(e),
            }
        },
        _ => Err(DecodeError::Malformed),
    }
}

pub open spec fn spec_decode_span(j: Json) -> Result<SpanV, DecodeError> {
    match j {
        Json::Obj(fs) => match spec_req_str(fs@, "filename"@) {
            Ok(filename) => match spec_obj_get(fs@, "begin"@) {
                Some(bj) => match spec_decode_line_col(bj) {
                    Ok(begin) => match spec_obj_get(fs@, "end"@) {
                        Some(ej) => match spec_decode_line_col(ej) {
                            Ok(end) => Ok(SpanV { filename, begin, end }),
                            Err(e) => Err(e),
                        },
                        None => Err(DecodeError::Malformed),
                    },
                    Err(e) => Err(e),
                },
                None => Err(DecodeError::Malformed),
            },
            Err(e) => Err(e),
        },
        _ => Err(DecodeError::Malformed),
    }
}

fn decode_span(j: &Json) -> (r: Result<Span, DecodeError>)
    ensures
        res_view(r) == spec_decode_span(*j),
{
    match j {
        Json::Obj(fs) => {
            let filename = match crate::decode::req_str(fs, "filename") {
                Ok(filename) => filename,
                Err(e) => {
                    return Err(e);
                },
            };
            let begin = match obj_get(fs, "begin") {
                Some(bj) => match decode_line_col(bj) {
                    Ok(begin) => begin,
                    Err(e) => {
                        return Err(e);
                    },
                },
                None => {
                    return Err(DecodeError::Malformed);
                },
            };
            match obj_get(fs, "end") {
                Some(ej) => match decode_line_col(ej) {
                    Ok(end) => Ok(Span { filename, begin, end }),
                    Err(e) => Err(e),
                },
                None => Err(DecodeError::Malformed),
            }
        },
        _ => Err(DecodeError::Malformed),
    }
}

pub open spec fn spec_decode_deprecation(j: Json) -> Result<DeprecationV, DecodeError> {
    match j {
        Json::Obj(fs) => match spec_opt_str(fs@, "since"@) {
            Ok(since) => match spec_opt_str(fs@, "note"@) {
                Ok(note) => Ok(DeprecationV { since, note }),
                Err(e) => Err(e),
            },
            Err(e) => Err(e),
        },
        _ => Err(DecodeError::Malformed),
    }
}

fn decode_deprecation(j: &Json) -> (r: Result<Deprecation, DecodeError>)
    ensures
        res_view(r) == spec_decode_deprecation(*j),
{
    match j {
        Json::Obj(fs) => {
            let since = match crate::decode::opt_str(fs, "since") {
                Ok(since) => since,
                Err(e) => {
                    return Err(e);
                },
            };
            match crate::decode::opt_str(fs, "note") {
                Ok(note) => Ok(Deprecation { since, note }),
                Err(e) => Err(e),
            }
        },
        _ => Err(DecodeError::Malformed),
    }
}

// ---------------------------------------------------------------------------
// Lists of identifiers and strings.
// ---------------------------------------------------------------------------

pub open spec fn spec_decode_ids(s: Seq<Json>) -> Result<Seq<Seq<char>>, DecodeError>
    decreases s,
{
    if s.len() == 0 {
        Ok(Seq::empty())
    } else {
        match spec_decode_ids(s.drop_last()) {
            Ok(ids) => match s.last() {
                Json::Str(x) => Ok(ids.push(x@)),
                _ => Err(DecodeError::Malformed),
            },
            Err(e) => Err(e),
        }
    }
}

proof fn lemma_ids_err(s: Seq<Json>, i: int)
    requires
        0 <= i < s.len(),
        spec_decode_ids(s.take(i)) is Ok,
        !(s[i] is Str),
    ensures
        spec_decode_ids(s) == Err::<Seq<Seq<char>>, DecodeError>(DecodeError::Malformed),
    decreases s.len(),
{
    if i == s.len() - 1 {
        assert(s.drop_last() =~= s.take(i));
    } else {
        assert(s.drop_last().take(i) =~= s.take(i));
        assert(s.drop_last()[i] == s[i]);
        lemma_ids_err(s.drop_last(), i);
    }
}

pub fn decode_ids(v: &Vec<Json>) -> (r: Result<Vec<Id>, DecodeError>)
    ensures
        match r {
            Ok(ids) => spec_decode_ids(v@) == Ok::<_, DecodeError>(view_ids(ids@)),
            Err(e) => spec_decode_ids(v@) == Err::<Seq<Seq<char>>, _>(e),
        },
{
    let mut out: Vec<Id> = Vec::new();
    let mut i: usize = 0;
    proof {
        assert(v@.take(0) =~= Seq::<Json>::empty());
        assert(view_ids(out@) =~= Seq::<Seq<char>>::empty());
    }
    while i < v.len()
        invariant
            0 <= i <= v.len(),
            spec_decode_ids(v@.take(i as int)) == Ok::<_, DecodeError>(view_ids(out@)),
        decreases v.len() - i,
    {
        let ghost prev = out@;
        match &v[i] {
            Json::Str(s) => {
                out.push(Id(s.clone()));
                proof {
                    assert(v@.take(i as int + 1).drop_last() =~= v@.take(i as int));
                    assert(v@.take(i as int + 1).last() == v@[i as int]);
                    assert(view_ids(out@) =~= view_ids(prev).push(out@.last()@));
                }
            },
            _ => {
                proof {
                    lemma_ids_err(v@, i as int);
                }
                return Err(DecodeError::Malformed);
            },
        }
        i = i + 1;
    }
    proof {
        assert(v@.take(v@.len() as int) =~= v@);
    }
    Ok(out)
}

pub open spec fn spec_decode_strings(s: Seq<Json>) -> Result<Seq<Seq<char>>, DecodeError>
    decreases s,
{
    if s.len() == 0 {
        Ok(Seq::empty())
    } else {
        match spec_decode_strings(s.drop_last()) {
            Ok(ss) => match s.last() {
                Json::Str(x) => Ok(ss.push(x@)),
                _ => Err(DecodeError::Malformed),
            },
            Err(e) => Err(e),
        }
    }
}

proof fn lemma_strings_err(s: Seq<Json>, i: int)
    requires
        0 <= i < s.len(),
        spec_decode_strings(s.take(i)) is Ok,
        !(s[i] is Str),
    ensures
        spec_decode_strings(s) == Err::<Seq<Seq<char>>, DecodeError>(DecodeError::Malformed),
    decreases s.len(),
{
    if i == s.len() - 1 {
        assert(s.drop_last() =~= s.take(i));
    } else {
        assert(s.drop_last().take(i) =~= s.take(i));
        assert(s.drop_last()[i] == s[i]);
        lemma_strings_err(s.drop_last(), i);
    }
}

pub fn decode_strings(v: &Vec<Json>) -> (r: Result<Vec<String>, DecodeError>)
    ensures
        match r {
            Ok(ss) => spec_decode_strings(v@) == Ok::<_, DecodeError>(view_strings(ss@)),
            Err(e) => spec_decode_strings(v@) == Err::<Seq<Seq<char>>, _>(e),
        },
{
    let mut out: Vec<String> = Vec::new();
    let mut i: usize = 0;
    proof {
        assert(v@.take(0) =~= Seq::<Json>::empty());
        assert(view_strings(out@) =~= Seq::<Seq<char>>::empty());
    }
    while i < v.len()
        invariant
            0 <= i <= v.len(),
            spec_decode_strings(v@.take(i as int)) == Ok::<_, DecodeError>(view_strings(out@)),
        decreases v.len() - i,
    {
        let ghost prev = out@;
        match &v[i] {
            Json::Str(s) => {
                out.push(s.clone());
                proof {
                    assert(v@.take(i as int + 1).drop_last() =~= v@.take(i as int));
                    assert(v@.take(i as int + 1).last() == v@[i as int]);
                    assert(view_strings(out@) =~= view_strings(prev).push(out@.last()@));
                }
            },
            _ => {
                proof {
                    lemma_strings_err(v@, i as int);
                }
                return Err(DecodeError::Malformed);
            },
        }
        i = i + 1;
    }
    proof {
        assert(v@.take(v@.len() as int) =~= v@);
    }
    Ok(out)
}

/// A required field holding a list of identifiers.
pub open spec fn spec_req_ids(fs: Seq<(String, Json)>, name: Seq<char>) -> Result<
    Seq<Seq<char>>,
    DecodeError,
> {
    match spec_obj_get(fs, name) {
        Some(Json::Arr(v)) => spec_decode_ids(v@),
        _ => Err(DecodeError::Malformed),
    }
}

fn req_ids(fs: &Vec<(String, Json)>, name: &str) -> (r: Result<Vec<Id>, DecodeError>)
    ensures
        match r {
            Ok(ids) => spec_req_ids(fs@, name@) == Ok::<_, DecodeError>(view_ids(ids@)),
            Err(e) => spec_req_ids(fs@, name@) == Err::<Seq<Seq<char>>, _>(e),
        },
{
    match obj_get(fs, name) {
        Some(Json::Arr(v)) => decode_ids(v),
        _ => Err(DecodeError::Malformed),
    }
}

pub open spec fn spec_req_strings(fs: Seq<(String, Json)>, name: Seq<char>) -> Result<
    Seq<Seq<char>>,
    DecodeError,
> {
    match spec_obj_get(fs, name) {
        Some(Json::Arr(v)) => spec_decode_strings(v@),
        _ => Err(DecodeError::Malformed),
    }
}

fn req_strings(fs: &Vec<(String, Json)>, name: &str) -> (r: Result<Vec<String>, DecodeError>)
    ensures
        match r {
            Ok(ss) => spec_req_strings(fs@, name@) == Ok::<_, DecodeError>(view_strings(ss@)),
            Err(e) => spec_req_strings(fs@, name@) == Err::<Seq<Seq<char>>, _>(e),
        },
{
    match obj_get(fs, name) {
        Some(Json::Arr(v)) => decode_strings(v),
        _ => Err(DecodeError::Malformed),
    }
}

pub open spec fn spec_req_generics(fs: Seq<(String, Json)>) -> Result<
    crate::types::GenericsV,
    DecodeError,
> {
    match spec_obj_get(fs, "generics"@) {
        Some(gj) => spec_decode_generics(gj),
        None => Err(DecodeError::Malformed),
    }
}

fn req_generics(fs: &Vec<(String, Json)>) -> (r: Result<crate::types::Generics, DecodeError>)
    ensures
        res_view(r) == spec_req_generics(fs@),
{
    match obj_get(fs, "generics") {
        Some(gj) => decode_generics(gj),
        None => Err(DecodeError::Malformed),
    }
}

// ---------------------------------------------------------------------------
// Item payloads.
// ---------------------------------------------------------------------------

pub open spec fn spec_decode_module(j: Json) -> Result<crate::types::ModuleV, DecodeError> {
    match j {
        Json::Obj(fs) => match spec_req_bool(fs@, "is_crate"@) {
            Ok(c) => match spec_req_ids(fs@, "items"@) {
                Ok(items) => Ok(crate::types::ModuleV { is_crate: c, items }),
                Err(e) => Err(e),
            },
            Err(e) => Err(e),
        },
        _ => Err(DecodeError::Malformed),
    }
}

pub fn decode_module(j: &Json) -> (r: Result<Module, DecodeError>)
    ensures
        res_view(r) == spec_decode_module(*j),
{
    match j {
        Json::Obj(fs) => {
            let c = match crate::decode::req_bool(fs, "is_crate") {
                Ok(c) => c,
                Err(e) => {
                    return Err(e);
                },
            };
            match req_ids(fs, "items") {
                Ok(items) => Ok(Module { is_crate: c, items }),
                Err(e) => Err(e),
            }
        },
        _ => Err(DecodeError::Malformed),
    }
}

pub open spec fn spec_decode_union(j: Json) -> Result<crate::types::UnionV, DecodeError> {
    match j {
        Json::Obj(fs) => match spec_req_generics(fs@) {
            Ok(g) => match spec_req_bool(fs@, "fields_stripped"@) {
                Ok(st) => match spec_req_ids(fs@, "fields"@) {
                    Ok(fields) => match spec_req_ids(fs@, "impls"@) {
                        Ok(impls) => Ok(
                            crate::types::UnionV {
                                generics: g,
                                fields_stripped: st,
                                fields,
                                impls,
                            },
                        ),
                        Err(e) => Err(e),
                    },
                    Err(e) => Err(e),
                },
                Err(e) => Err(e),
            },
            Err(e) => Err(e),
        },
        _ => Err(DecodeError::Malformed),
    }
}

pub fn decode_union(j: &Json) -> (r: Result<Union, DecodeError>)
    ensures
        res_view(r) == spec_decode_union(*j),
{
    match j {
        Json::Obj(fs) => {
            let g = match req_generics(fs) {
                Ok(g) => g,
                Err(e) => {
                    return Err(e);
                },
            };
            let st = match crate::decode::req_bool(fs, "fields_stripped") {
                Ok(st) => st,
                Err(e) => {
                    return Err(e);
                },
            };
            let fields = match req_ids(fs, "fields") {
                Ok(fields) => fields,
                Err(e) => {
                    return Err(e);
                },
            };
            match req_ids(fs, "impls") {
                Ok(impls) => Ok(Union { generics: g, fields_stripped: st, fields, impls }),
                Err(e) => Err(e),
            }
        },
        _ => Err(DecodeError::Malformed),
    }
}

pub open spec fn spec_decode_struct(j: Json) -> Result<crate::types::StructV, DecodeError> {
    match j {
        Json::Obj(fs) => match spec_obj_get(fs@, "struct_type"@) {
            Some(tj) => match spec_decode_struct_type(tj) {
                Ok(st) => match spec_req_generics(fs@) {
                    Ok(g) => match spec_req_bool(fs@, "fields_stripped"@) {
                        Ok(fstr) => match spec_req_ids(fs@, "fields"@) {
                            Ok(fields) => match spec_req_ids(fs@, "impls"@) {
                                Ok(impls) => Ok(
                                    crate::types::StructV {
                                        struct_type: st,
                                        generics: g,
                                        fields_stripped: fstr,
                                        fields,
                                        impls,
                                    },
                                ),
                                Err(e) => Err(e),
                            },
                            Err(e) => Err(e),
                        },
                        Err(e) => Err(e),
                    },
                    Err(e) => Err(e),
                },
                Err(e) => Err(e),
            },
            None => Err(DecodeError::Malformed),
        },
        _ => Err(DecodeError::Malformed),
    }
}

pub fn decode_struct(j: &Json) -> (r: Result<Struct, DecodeError>)
    ensures
        res_view(r) == spec_decode_struct(*j),
{
    match j {
        Json::Obj(fs) => {
            let st = match obj_get(fs, "struct_type") {
                Some(tj) => match decode_struct_type(tj) {
                    Ok(st) => st,
                    Err(e) => {
                        return Err(e);
                    },
                },
                None => {
                    return Err(DecodeError::Malformed);
                },
            };
            let g = match req_generics(fs) {
                Ok(g) => g,
                Err(e) => {
                    return Err(e);
                },
            };
            let fstr = match crate::decode::req_bool(fs, "fields_stripped") {
                Ok(fstr) => fstr,
                Err(e) => {
                    return Err(e);
                },
            };
            let fields = match req_ids(fs, "fields") {
                Ok(fields) => fields,
                Err(e) => {
                    return Err(e);
                },
            };
            match req_ids(fs, "impls") {
                Ok(impls) => Ok(
                    Struct { struct_type: st, generics: g, fields_stripped: fstr, fields, impls },
                ),
                Err(e) => Err(e),
            }
        },
        _ => Err(DecodeError::Malformed),
    }
}

pub open spec fn spec_decode_enum(j: Json) -> Result<crate::types::EnumV, DecodeError> {
    match j {
        Json::Obj(fs) => match spec_req_generics(fs@) {
            Ok(g) => match spec_req_bool(fs@, "variants_stripped"@) {
                Ok(vs) => match spec_req_ids(fs@, "variants"@) {
                    Ok(variants) => match spec_req_ids(fs@, "impls"@) {
                        Ok(impls) => Ok(
                            crate::types::EnumV {
                                generics: g,
                                variants_stripped: vs,
                                variants,
                                impls,
                            },
                        ),
                        Err(e) => Err(e),
                    },
                    Err(e) => Err(e),
                },
                Err(e) => Err(e),
            },
            Err(e) => Err(e),
        },
        _ => Err(DecodeError::Malformed),
    }
}

pub fn decode_enum(j: &Json) -> (r: Result<Enum, DecodeError>)
    ensures
        res_view(r) == spec_decode_enum(*j),
{
    match j {
        Json::Obj(fs) => {
            let g = match req_generics(fs) {
                Ok(g) => g,
                Err(e) => {
                    return Err(e);
                },
            };
            let vs = match crate::decode::req_bool(fs, "variants_stripped") {
                Ok(vs) => vs,
                Err(e) => {
                    return Err(e);
                },
            };
            let variants = match req_ids(fs, "variants") {
                Ok(variants) => variants,
                Err(e) => {
                    return Err(e);
                },
            };
            match req_ids(fs, "impls") {
                Ok(impls) => Ok(Enum { generics: g, variants_stripped: vs, variants, impls }),
                Err(e) => Err(e),
            }
        },
        _ => Err(DecodeError::Malformed),
    }
}

/// A variant payload carries its own explicit tag, unlike the untagged item
/// payload.
pub open spec fn spec_decode_variant(j: Json) -> Result<VariantV, DecodeError> {
    match j {
        Json::Obj(fs) => match spec_req_str(fs@, "variant_kind"@) {
            Ok(vk) => {
                if vk == "plain"@ {
                    Ok(VariantV::Plain)
                } else if vk == "tuple"@ {
                    match spec_obj_get(fs@, "variant_inner"@) {
                        Some(Json::Arr(v)) => match spec_decode_types(v@) {
                            Ok(ts) => Ok(VariantV::Tuple(ts)),
                            Err(e) => Err(e),
                        },
                        _ => Err(DecodeError::Malformed),
                    }
                } else if vk == "struct"@ {
                    match spec_obj_get(fs@, "variant_inner"@) {
                        Some(Json::Arr(v)) => match spec_decode_ids(v@) {
                            Ok(ids) => Ok(VariantV::Struct(ids)),
                            Err(e) => Err(e),
                        },
                        _ => Err(DecodeError::Malformed),
                    }
                } else {
                    match spec_obj_get(fs@, "variant_kind"@) {
                        Some(Json::Str(s)) => Err(DecodeError::UnsupportedVariant(s)),
                        _ => Err(DecodeError::Malformed),
                    }
                }
            },
            Err(e) => Err(e),
        },
        _ => Err(DecodeError::Malformed),
    }
}

pub fn decode_variant(j: &Json) -> (r: Result<Variant, DecodeError>)
    ensures
        res_view(r) == spec_decode_variant(*j),
{
    match j {
        Json::Obj(fs) => {
            let vk = match obj_get(fs, "variant_kind") {
                Some(Json::Str(s)) => s,
                _ => {
                    return Err(DecodeError::Malformed);
                },
            };
            if str_eq(vk, "plain") {
                Ok(Variant::Plain)
            } else if str_eq(vk, "tuple") {
                match obj_get(fs, "variant_inner") {
                    Some(Json::Arr(v)) => match decode_types(v) {
                        Ok(ts) => Ok(Variant::Tuple(ts)),
                        Err(e) => Err(e),
                    },
                    _ => Err(DecodeError::Malformed),
                }
            } else if str_eq(vk, "struct") {
                match obj_get(fs, "variant_inner") {
                    Some(Json::Arr(v)) => match decode_ids(v) {
                        Ok(ids) => Ok(Variant::Struct(ids)),
                        Err(e) => Err(e),
                    },
                    _ => Err(DecodeError::Malformed),
                }
            } else {
                Err(DecodeError::UnsupportedVariant(vk.clone()))
            }
        },
        _ => Err(DecodeError::Malformed),
    }
}

pub open spec fn spec_decode_function(j: Json) -> Result<crate::types::FunctionV, DecodeError> {
    match j {
        Json::Obj(fs) => match spec_obj_get(fs@, "decl"@) {
            Some(dj) => match spec_decode_fn_decl(dj) {
                Ok(decl) => match spec_req_generics(fs@) {
                    Ok(g) => match spec_obj_get(fs@, "header"@) {
                        Some(Json::Arr(hv)) => match spec_decode_qualifier_list(hv@) {
                            Ok(hs) => match spec_req_str(fs@, "abi"@) {
                                Ok(abi) => Ok(
                                    crate::types::FunctionV {
                                        decl,
                                        generics: g,
                                        header: hs,
                                        abi,
                                    },
                                ),
                                Err(e) => Err(e),
                            },
                            Err(e) => Err(e),
                        },
                        _ => Err(DecodeError::Malformed),
                    },
                    Err(e) => Err(e),
                },
                Err(e) => Err(e),
            },
            None => Err(DecodeError::Malformed),
        },
        _ => Err(DecodeError::Malformed),
    }
}

pub fn decode_function(j: &Json) -> (r: Result<Function, DecodeError>)
    ensures
        res_view(r) == spec_decode_function(*j),
{
    match j {
        Json::Obj(fs) => {
            let decl = match obj_get(fs, "decl") {
                Some(dj) => match decode_fn_decl(dj) {
                    Ok(decl) => decl,
                    Err(e) => {
                        return Err(e);
                    },
                },
                None => {
                    return Err(DecodeError::Malformed);
                },
            };
            let g = match req_generics(fs) {
                Ok(g) => g,
                Err(e) => {
                    return Err(e);
                },
            };
            let hs = match obj_get(fs, "header") {
                Some(Json::Arr(hv)) => match decode_qualifier_list(hv) {
                    Ok(hs) => hs,
                    Err(e) => {
                        return Err(e);
                    },
                },
                _ => {
                    return Err(DecodeError::Malformed);
                },
            };
            match crate::decode::req_str(fs, "abi") {
                Ok(abi) => Ok(Function { decl, generics: g, header: hs, abi }),
                Err(e) => Err(e),
            }
        },
        _ => Err(DecodeError::Malformed),
    }
}

pub open spec fn spec_decode_method(j: Json) -> Result<crate::types::MethodV, DecodeError> {
    match spec_decode_function(j) {
        Ok(f) => match j {
            Json::Obj(fs) => match spec_req_bool(fs@, "has_body"@) {
                Ok(hb) => Ok(
                    crate::types::MethodV {
                        decl: f.decl,
                        generics: f.generics,
                        header: f.header,
                        abi: f.abi,
                        has_body: hb,
                    },
                ),
                Err(e) => Err(e),
            },
            _ => Err(DecodeError::Malformed),
        },
        Err(e) => Err(e),
    }
}

pub fn decode_method(j: &Json) -> (r: Result<Method, DecodeError>)
    ensures
        res_view(r) == spec_decode_method(*j),
{
    let f = match decode_function(j) {
        Ok(f) => f,
        Err(e) => {
            return Err(e);
        },
    };
    match j {
        Json::Obj(fs) => match crate::decode::req_bool(fs, "has_body") {
            Ok(hb) => Ok(
                Method {
                    decl: f.decl,
                    generics: f.generics,
                    header: f.header,
                    abi: f.abi,
                    has_body: hb,
                },
            ),
            Err(e) => Err(e),
        },
        _ => Err(DecodeError::Malformed),
    }
}

pub open spec fn spec_decode_trait(j: Json) -> Result<crate::types::TraitV, DecodeError> {
    match j {
        Json::Obj(fs) => match spec_req_bool(fs@, "is_auto"@) {
            Ok(ia) => match spec_req_bool(fs@, "is_unsafe"@) {
                Ok(iu) => match spec_req_ids(fs@, "items"@) {
                    Ok(items) => match spec_req_generics(fs@) {
                        Ok(g) => match spec_obj_get(fs@, "bounds"@) {
                            Some(Json::Arr(bv)) => match spec_decode_bounds(bv@) {
                                Ok(bs) => match spec_req_ids(fs@, "implementors"@) {
                                    Ok(imps) => Ok(
                                        crate::types::TraitV {
                                            is_auto: ia,
                                            is_unsafe: iu,
                                            items,
                                            generics: g,
                                            bounds: bs,
                                            implementors: imps,
                                        },
                                    ),
                                    Err(e) => Err(e),
                                },
                                Err(e) => Err(e),
                            },
                            _ => Err(DecodeError::Malformed),
                        },
                        Err(e) => Err(e),
                    },
                    Err(e) => Err(e),
                },
                Err(e) => Err(e),
            },
            Err(e) => Err(e),
        },
        _ => Err(DecodeError::Malformed),
    }
}

pub fn decode_trait(j: &Json) -> (r: Result<Trait, DecodeError>)
    ensures
        res_view(r) == spec_decode_trait(*j),
{
    match j {
        Json::Obj(fs) => {
            let ia = match crate::decode::req_bool(fs, "is_auto") {
                Ok(ia) => ia,
                Err(e) => {
                    return Err(e);
                },
            };
            let iu = match crate::decode::req_bool(fs, "is_unsafe") {
                Ok(iu) => iu,
                Err(e) => {
                    return Err(e);
                },
            };
            let items = match req_ids(fs, "items") {
                Ok(items) => items,
                Err(e) => {
                    return Err(e);
                },
            };
            let g = match req_generics(fs) {
                Ok(g) => g,
                Err(e) => {
                    return Err(e);
                },
            };
            let bs = match obj_get(fs, "bounds") {
                Some(Json::Arr(bv)) => match decode_bounds(bv) {
                    Ok(bs) => bs,
                    Err(e) => {
                        return Err(e);
                    },
                },
                _ => {
                    return Err(DecodeError::Malformed);
                },
            };
            match req_ids(fs, "implementors") {
                Ok(imps) => Ok(
                    Trait {
                        is_auto: ia,
                        is_unsafe: iu,
                        items,
                        generics: g,
                        bounds: bs,
                        implementors: imps,
                    },
                ),
                Err(e) => Err(e),
            }
        },
        _ => Err(DecodeError::Malformed),
    }
}

pub open spec fn spec_decode_trait_alias(j: Json) -> Result<
    crate::types::TraitAliasV,
    DecodeError,
> {
    match j {
        Json::Obj(fs) => match spec_req_generics(fs@) {
            Ok(g) => match spec_obj_get(fs@, "params"@) {
                Some(Json::Arr(pv)) => match spec_decode_bounds(pv@) {
                    Ok(ps) => Ok(crate::types::TraitAliasV { generics: g, params: ps }),
                    Err(e) => Err(e),
                },
                _ => Err(DecodeError::Malformed),
            },
            Err(e) => Err(e),
        },
        _ => Err(DecodeError::Malformed),
    }
}

pub fn decode_trait_alias(j: &Json) -> (r: Result<TraitAlias, DecodeError>)
    ensures
        res_view(r) == spec_decode_trait_alias(*j),
{
    match j {
        Json::Obj(fs) => {
            let g = match req_generics(fs) {
                Ok(g) => g,
                Err(e) => {
                    return Err(e);
                },
            };
            match obj_get(fs, "params") {
                Some(Json::Arr(pv)) => match decode_bounds(pv) {
                    Ok(ps) => Ok(TraitAlias { generics: g, params: ps }),
                    Err(e) => Err(e),
                },
                _ => Err(DecodeError::Malformed),
            }
        },
        _ => Err(DecodeError::Malformed),
    }
}

pub open spec fn spec_decode_impl(j: Json) -> Result<crate::types::ImplV, DecodeError> {
    match j {
        Json::Obj(fs) => match spec_req_bool(fs@, "is_unsafe"@) {
            Ok(iu) => match spec_req_generics(fs@) {
                Ok(g) => match spec_req_strings(fs@, "provided_trait_methods"@) {
                    Ok(ptm) => match spec_decode_opt_type(fs@, "trait"@) {
                        Ok(tr) => match spec_obj_get(fs@, "for"@) {
                            Some(fj) => match spec_decode_type(fj) {
                                Ok(fo) => match spec_req_ids(fs@, "items"@) {
                                    Ok(items) => match spec_req_bool(fs@, "negative"@) {
                                        Ok(neg) => match spec_req_bool(fs@, "synthetic"@) {
                                            Ok(syn) => match spec_decode_opt_type(
                                                fs@,
                                                "blanket_impl"@,
                                            ) {
                                                Ok(bl) => Ok(
                                                    crate::types::ImplV {
                                                        is_unsafe: iu,
                                                        generics: g,
                                                        provided_trait_methods: ptm,
                                                        trait_: match tr {
                                                            Some(b) => Some(*b),
                                                            None => None,
                                                        },
                                                        for_: fo,
                                                        items,
                                                        negative: neg,
                                                        synthetic: syn,
                                                        blanket_impl: match bl {
                                                            Some(b) => Some(*b),
                                                            None => None,
                                                        },
                                                    },
                                                ),
                                                Err(e) => Err(e),
                                            },
                                            Err(e) => Err(e),
                                        },
                                        Err(e) => Err(e),
                                    },
                                    Err(e) => Err(e),
                                },
                                Err(e) => Err(e),
                            },
                            None => Err(DecodeError::Malformed),
                        },
                        Err(e) => Err(e),
                    },
                    Err(e) => Err(e),
                },
                Err(e) => Err(e),
            },
            Err(e) => Err(e),
        },
        _ => Err(DecodeError::Malformed),
    }
}

pub fn decode_impl(j: &Json) -> (r: Result<crate::types::Impl, DecodeError>)
    ensures
        res_view(r) == spec_decode_impl(*j),
{
    match j {
        Json::Obj(fs) => {
            let iu = match crate::decode::req_bool(fs, "is_unsafe") {
                Ok(iu) => iu,
                Err(e) => {
                    return Err(e);
                },
            };
            let g = match req_generics(fs) {
                Ok(g) => g,
                Err(e) => {
                    return Err(e);
                },
            };
            let ptm = match req_strings(fs, "provided_trait_methods") {
                Ok(ptm) => ptm,
                Err(e) => {
                    return Err(e);
                },
            };
            let tr = match crate::decode_exec::decode_opt_type(fs, "trait") {
                Ok(tr) => tr,
                Err(e) => {
                    return Err(e);
                },
            };
            let fo = match obj_get(fs, "for") {
                Some(fj) => match decode_type(fj) {
                    Ok(fo) => fo,
                    Err(e) => {
                        return Err(e);
                    },
                },
                None => {
                    return Err(DecodeError::Malformed);
                },
            };
            let items = match req_ids(fs, "items") {
                Ok(items) => items,
                Err(e) => {
                    return Err(e);
                },
            };
            let neg = match crate::decode::req_bool(fs, "negative") {
                Ok(neg) => neg,
                Err(e) => {
                    return Err(e);
                },
            };
            let syn = match crate::decode::req_bool(fs, "synthetic") {
                Ok(syn) => syn,
                Err(e) => {
                    return Err(e);
                },
            };
            match crate::decode_exec::decode_opt_type(fs, "blanket_impl") {
                Ok(bl) => Ok(
                    crate::types::Impl {
                        is_unsafe: iu,
                        generics: g,
                        provided_trait_methods: ptm,
                        trait_: tr,
                        for_: fo,
                        items,
                        negative: neg,
                        synthetic: syn,
                        blanket_impl: bl,
                    },
                ),
                Err(e) => Err(e),
            }
        },
        _ => Err(DecodeError::Malformed),
    }
}

pub open spec fn spec_decode_typedef(j: Json) -> Result<crate::types::TypedefV, DecodeError> {
    match j {
        Json::Obj(fs) => match spec_obj_get(fs@, "type"@) {
            Some(tj) => match spec_decode_type(tj) {
                Ok(t) => match spec_req_generics(fs@) {
                    Ok(g) => Ok(crate::types::TypedefV { type_: t, generics: g }),
                    Err(e) => Err(e),
                },
                Err(e) => Err(e),
            },
            None => Err(DecodeError::Malformed),
        },
        _ => Err(DecodeError::Malformed),
    }
}

pub fn decode_typedef(j: &Json) -> (r: Result<Typedef, DecodeError>)
    ensures
        res_view(r) == spec_decode_typedef(*j),
{
    match j {
        Json::Obj(fs) => {
            let t = match obj_get(fs, "type") {
                Some(tj) => match decode_type(tj) {
                    Ok(t) => t,
                    Err(e) => {
                        return Err(e);
                    },
                },
                None => {
                    return Err(DecodeError::Malformed);
                },
            };
            match req_generics(fs) {
                Ok(g) => Ok(Typedef { type_: t, generics: g }),
                Err(e) => Err(e),
            }
        },
        _ => Err(DecodeError::Malformed),
    }
}

pub open spec fn spec_decode_opaque_ty(j: Json) -> Result<crate::types::OpaqueTyV, DecodeError> {
    match j {
        Json::Obj(fs) => match spec_obj_get(fs@, "bounds"@) {
            Some(Json::Arr(bv)) => match spec_decode_bounds(bv@) {
                Ok(bs) => match spec_req_generics(fs@) {
                    Ok(g) => Ok(crate::types::OpaqueTyV { bounds: bs, generics: g }),
                    Err(e) => Err(e),
                },
                Err(e) => Err(e),
            },
            _ => Err(DecodeError::Malformed),
        },
        _ => Err(DecodeError::Malformed),
    }
}

pub fn decode_opaque_ty(j: &Json) -> (r: Result<OpaqueTy, DecodeError>)
    ensures
        res_view(r) == spec_decode_opaque_ty(*j),
{
    match j {
        Json::Obj(fs) => {
            let bs = match obj_get(fs, "bounds") {
                Some(Json::Arr(bv)) => match decode_bounds(bv) {
                    Ok(bs) => bs,
                    Err(e) => {
                        return Err(e);
                    },
                },
                _ => {
                    return Err(DecodeError::Malformed);
                },
            };
            match req_generics(fs) {
                Ok(g) => Ok(OpaqueTy { bounds: bs, generics: g }),
                Err(e) => Err(e),
            }
        },
        _ => Err(DecodeError::Malformed),
    }
}

pub open spec fn spec_decode_static(j: Json) -> Result<crate::types::StaticV, DecodeError> {
    match j {
        Json::Obj(fs) => match spec_obj_get(fs@, "type"@) {
            Some(tj) => match spec_decode_type(tj) {
                Ok(t) => match spec_req_bool(fs@, "mutable"@) {
                    Ok(m) => match spec_req_str(fs@, "expr"@) {
                        Ok(expr) => Ok(crate::types::StaticV { type_: t, mutable: m, expr }),
                        Err(e) => Err(e),
                    },
                    Err(e) => Err(e),
                },
                Err(e) => Err(e),
            },
            None => Err(DecodeError::Malformed),
        },
        _ => Err(DecodeError::Malformed),
    }
}

pub fn decode_static(j: &Json) -> (r: Result<Static, DecodeError>)
    ensures
        res_view(r) == spec_decode_static(*j),
{
    match j {
        Json::Obj(fs) => {
            let t = match obj_get(fs, "type") {
                Some(tj) => match decode_type(tj) {
                    Ok(t) => t,
                    Err(e) => {
                        return Err(e);
                    },
                },
                None => {
                    return Err(DecodeError::Malformed);
                },
            };
            let m = match crate::decode::req_bool(fs, "mutable") {
                Ok(m) => m,
                Err(e) => {
                    return Err(e);
                },
            };
            match crate::decode::req_str(fs, "expr") {
                Ok(expr) => Ok(Static { type_: t, mutable: m, expr }),
                Err(e) => Err(e),
            }
        },
        _ => Err(DecodeError::Malformed),
    }
}

pub open spec fn spec_decode_import(j: Json) -> Result<crate::types::ImportV, DecodeError> {
    match j {
        Json::Obj(fs) => match spec_req_str(fs@, "span"@) {
            Ok(span) => match spec_req_str(fs@, "name"@) {
                Ok(name) => match spec_opt_str(fs@, "id"@) {
                    Ok(id) => match spec_req_bool(fs@, "glob"@) {
                        Ok(glob) => Ok(crate::types::ImportV { span, name, id, glob }),
                        Err(e) => Err(e),
                    },
                    Err(e) => Err(e),
                },
                Err(e) => Err(e),
            },
            Err(e) => Err(e),
        },
        _ => Err(DecodeError::Malformed),
    }
}

pub fn decode_import(j: &Json) -> (r: Result<Import, DecodeError>)
    ensures
        res_view(r) == spec_decode_import(*j),
{
    match j {
        Json::Obj(fs) => {
            let span = match crate::decode::req_str(fs, "span") {
                Ok(span) => span,
                Err(e) => {
                    return Err(e);
                },
            };
            let name = match crate::decode::req_str(fs, "name") {
                Ok(name) => name,
                Err(e) => {
                    return Err(e);
                },
            };
            let id = match crate::decode::opt_str(fs, "id") {
                Ok(None) => None,
                Ok(Some(s)) => Some(Id(s)),
                Err(e) => {
                    return Err(e);
                },
            };
            match crate::decode::req_bool(fs, "glob") {
                Ok(glob) => Ok(Import { span, name, id, glob }),
                Err(e) => Err(e),
            }
        },
        _ => Err(DecodeError::Malformed),
    }
}

pub open spec fn spec_decode_proc_macro(j: Json) -> Result<crate::types::ProcMacroV, DecodeError> {
    match j {
        Json::Obj(fs) => match spec_obj_get(fs@, "kind"@) {
            Some(kj) => match spec_decode_macro_kind(kj) {
                Ok(k) => match spec_req_strings(fs@, "helpers"@) {
                    Ok(hs) => Ok(crate::types::ProcMacroV { kind: k, helpers: hs }),
                    Err(e) => Err(e),
                },
                Err(e) => Err(e),
            },
            None => Err(DecodeError::Malformed),
        },
        _ => Err(DecodeError::Malformed),
    }
}

pub fn decode_proc_macro(j: &Json) -> (r: Result<ProcMacro, DecodeError>)
    ensures
        res_view(r) == spec_decode_proc_macro(*j),
{
    match j {
        Json::Obj(fs) => {
            let k = match obj_get(fs, "kind") {
                Some(kj) => match decode_macro_kind(kj) {
                    Ok(k) => k,
                    Err(e) => {
                        return Err(e);
                    },
                },
                None => {
                    return Err(DecodeError::Malformed);
                },
            };
            match req_strings(fs, "helpers") {
                Ok(hs) => Ok(ProcMacro { kind: k, helpers: hs }),
                Err(e) => Err(e),
            }
        },
        _ => Err(DecodeError::Malformed),
    }
}

// ---------------------------------------------------------------------------
// The untagged item payload, told apart by which fields are present.
// ---------------------------------------------------------------------------

/// Which variant an item payload is. `null` is a foreign type, a string is a
/// declarative macro; an object is examined for its distinguishing fields in
/// this fixed priority order, and one matching no known shape is malformed.
///
/// The dispatch goes by which fields are present, never by the separately
/// encoded `kind` tag, so the distinguishing names are reserved: a payload
/// carrying a reserved name of another shape is read as that shape (and then
/// usually rejected by the kind check). Unknown extra fields under any other
/// name are ignored.
pub open spec fn spec_decode_item_inner(j: Json) -> Result<ItemEnumV, DecodeError> {
    match j {
        Json::Null => Ok(ItemEnumV::ForeignTypeItem),
        Json::Str(s) => Ok(ItemEnumV::MacroItem(s@)),
        Json::Obj(fs) => {
            if spec_has(fs@, "is_crate"@) {
                match spec_decode_module(j) {
                    Ok(m) => Ok(ItemEnumV::ModuleItem(m)),
                    Err(e) => Err(e),
                }
            } else if spec_has(fs@, "glob"@) {
                match spec_decode_import(j) {
                    Ok(i) => Ok(ItemEnumV::ImportItem(i)),
                    Err(e) => Err(e),
                }
            } else if spec_has(fs@, "struct_type"@) {
                match spec_decode_struct(j) {
                    Ok(st) => Ok(ItemEnumV::StructItem(st)),
                    Err(e) => Err(e),
                }
            } else if spec_has(fs@, "variants_stripped"@) {
                match spec_decode_enum(j) {
                    Ok(en) => Ok(ItemEnumV::EnumItem(en)),
                    Err(e) => Err(e),
                }
            } else if spec_has(fs@, "fields_stripped"@) {
                match spec_decode_union(j) {
                    Ok(u) => Ok(ItemEnumV::UnionItem(u)),
                    Err(e) => Err(e),
                }
            } else if spec_has(fs@, "variant_kind"@) {
                match spec_decode_variant(j) {
                    Ok(v) => Ok(ItemEnumV::VariantItem(v)),
                    Err(e) => Err(e),
                }
            } else if spec_has(fs@, "has_body"@) {
                match spec_decode_method(j) {
                    Ok(m) => Ok(ItemEnumV::MethodItem(m)),
                    Err(e) => Err(e),
                }
            } else if spec_has(fs@, "is_auto"@) {
                match spec_decode_trait(j) {
                    Ok(t) => Ok(ItemEnumV::TraitItem(t)),
                    Err(e) => Err(e),
                }
            } else if spec_has(fs@, "for"@) {
                match spec_decode_impl(j) {
                    Ok(i) => Ok(ItemEnumV::ImplItem(i)),
                    Err(e) => Err(e),
                }
            } else if spec_has(fs@, "decl"@) {
                match spec_decode_function(j) {
                    Ok(f) => Ok(ItemEnumV::FunctionItem(f)),
                    Err(e) => Err(e),
                }
            } else if spec_has(fs@, "is_literal"@) {
                match spec_decode_constant(j) {
                    Ok(c) => Ok(ItemEnumV::ConstantItem(c)),
                    Err(e) => Err(e),
                }
            } else if spec_has(fs@, "mutable"@) {
                match spec_decode_static(j) {
                    Ok(st) => Ok(ItemEnumV::StaticItem(st)),
                    Err(e) => Err(e),
                }
            } else if spec_has(fs@, "helpers"@) {
                match spec_decode_proc_macro(j) {
                    Ok(p) => Ok(ItemEnumV::ProcMacroItem(p)),
                    Err(e) => Err(e),
                }
            } else if spec_has(fs@, "kind"@) {
                match spec_decode_type(j) {
                    Ok(t) => Ok(ItemEnumV::StructFieldItem(t)),
                    Err(e) => Err(e),
                }
            } else if spec_has(fs@, "params"@) {
                match spec_decode_trait_alias(j) {
                    Ok(t) => Ok(ItemEnumV::TraitAliasItem(t)),
                    Err(e) => Err(e),
                }
            } else if spec_has(fs@, "type"@) {
                if spec_has(fs@, "generics"@) {
                    match spec_decode_typedef(j) {
                        Ok(t) => Ok(ItemEnumV::TypedefItem(t)),
                        Err(e) => Err(e),
                    }
                } else {
                    match spec_obj_get(fs@, "type"@) {
                        Some(tj) => match spec_decode_type(tj) {
                            Ok(t) => match spec_opt_str(fs@, "default"@) {
                                Ok(d) => Ok(ItemEnumV::AssocConstItem { type_: t, default: d }),
                                Err(e) => Err(e),
                            },
                            Err(e) => Err(e),
                        },
                        None => Err(DecodeError::Malformed),
                    }
                }
            } else if spec_has(fs@, "bounds"@) {
                if spec_has(fs@, "generics"@) {
                    match spec_decode_opaque_ty(j) {
                        Ok(o) => Ok(ItemEnumV::OpaqueTyItem(o)),
                        Err(e) => Err(e),
                    }
                } else {
                    match spec_obj_get(fs@, "bounds"@) {
                        Some(Json::Arr(bv)) => match spec_decode_bounds(bv@) {
                            Ok(bs) => match spec_decode_opt_type(fs@, "default"@) {
                                Ok(d) => Ok(
                                    ItemEnumV::AssocTypeItem {
                                        bounds: bs,
                                        default: match d {
                                            Some(b) => Some(*b),
                                            None => None,
                                        },
                                    },
                                ),
                                Err(e) => Err(e),
                            },
                            Err(e) => Err(e),
                        },
                        _ => Err(DecodeError::Malformed),
                    }
                }
            } else if spec_has(fs@, "name"@) {
                match spec_req_str(fs@, "name"@) {
                    Ok(name) => match spec_opt_str(fs@, "rename"@) {
                        Ok(rename) => Ok(ItemEnumV::ExternCrateItem { name, rename }),
                        Err(e) => Err(e),
                    },
                    Err(e) => Err(e),
                }
            } else {
                Err(DecodeError::Malformed)
            }
        },
        _ => Err(DecodeError::Malformed),
    }
}

pub fn decode_item_inner(j: &Json) -> (r: Result<ItemEnum, DecodeError>)
    ensures
        res_view(r) == spec_decode_item_inner(*j),
{
    match j {
        Json::Null => Ok(ItemEnum::ForeignTypeItem),
        Json::Str(s) => Ok(ItemEnum::MacroItem(s.clone())),
        Json::Obj(fs) => {
            if has_field(fs, "is_crate") {
                match decode_module(j) {
                    Ok(m) => Ok(ItemEnum::ModuleItem(m)),
                    Err(e) => Err(e),
                }
            } else if has_field(fs, "glob") {
                match decode_import(j) {
                    Ok(i) => Ok(ItemEnum::ImportItem(i)),
                    Err(e) => Err(e),
                }
            } else if has_field(fs, "struct_type") {
                match decode_struct(j) {
                    Ok(st) => Ok(ItemEnum::StructItem(st)),
                    Err(e) => Err(e),
                }
            } else if has_field(fs, "variants_stripped") {
                match decode_enum(j) {
                    Ok(en) => Ok(ItemEnum::EnumItem(en)),
                    Err(e) => Err(e),
                }
            } else if has_field(fs, "fields_stripped") {
                match decode_union(j) {
                    Ok(u) => Ok(ItemEnum::UnionItem(u)),
                    Err(e) => Err(e),
                }
            } else if has_field(fs, "variant_kind") {
                match decode_variant(j) {
                    Ok(v) => Ok(ItemEnum::VariantItem(v)),
                    Err(e) => Err(e),
                }
            } else if has_field(fs, "has_body") {
                match decode_method(j) {
                    Ok(m) => Ok(ItemEnum::MethodItem(m)),
                    Err(e) => Err(e),
                }
            } else if has_field(fs, "is_auto") {
                match decode_trait(j) {
                    Ok(t) => Ok(ItemEnum::TraitItem(t)),
                    Err(e) => Err(e),
                }
            } else if has_field(fs, "for") {
                match decode_impl(j) {
                    Ok(i) => Ok(ItemEnum::ImplItem(i)),
                    Err(e) => Err(e),
                }
            } else if has_field(fs, "decl") {
                match decode_function(j) {
                    Ok(f) => Ok(ItemEnum::FunctionItem(f)),
                    Err(e) => Err(e),
                }
            } else if has_field(fs, "is_literal") {
                match crate::decode_exec::decode_constant(j) {
                    Ok(c) => Ok(ItemEnum::ConstantItem(c)),
                    Err(e) => Err(e),
                }
            } else if has_field(fs, "mutable") {
                match decode_static(j) {
                    Ok(st) => Ok(ItemEnum::StaticItem(st)),
                    Err(e) => Err(e),
                }
            } else if has_field(fs, "helpers") {
                match decode_proc_macro(j) {
                    Ok(p) => Ok(ItemEnum::ProcMacroItem(p)),
                    Err(e) => Err(e),
                }
            } else if has_field(fs, "kind") {
                match decode_type(j) {
                    Ok(t) => Ok(ItemEnum::StructFieldItem(t)),
                    Err(e) => Err(e),
                }
            } else if has_field(fs, "params") {
                match decode_trait_alias(j) {
                    Ok(t) => Ok(ItemEnum::TraitAliasItem(t)),
                    Err(e) => Err(e),
                }
            } else if has_field(fs, "type") {
                if has_field(fs, "generics") {
                    match decode_typedef(j) {
                        Ok(t) => Ok(ItemEnum::TypedefItem(t)),
                        Err(e) => Err(e),
                    }
                } else {
                    let t = match obj_get(fs, "type") {
                        Some(tj) => match decode_type(tj) {
                            Ok(t) => t,
                            Err(e) => {
                                return Err(e);
                            },
                        },
                        None => {
                            return Err(DecodeError::Malformed);
                        },
                    };
                    match crate::decode::opt_str(fs, "default") {
                        Ok(d) => Ok(ItemEnum::AssocConstItem { type_: t, default: d }),
                        Err(e) => Err(e),
                    }
                }
            } else if has_field(fs, "bounds") {
                if has_field(fs, "generics") {
                    match decode_opaque_ty(j) {
                        Ok(o) => Ok(ItemEnum::OpaqueTyItem(o)),
                        Err(e) => Err(e),
                    }
                } else {
                    let bs = match obj_get(fs, "bounds") {
                        Some(Json::Arr(bv)) => match decode_bounds(bv) {
                            Ok(bs) => bs,
                            Err(e) => {
                                return Err(e);
                            },
                        },
                        _ => {
                            return Err(DecodeError::Malformed);
                        },
                    };
                    match crate::decode_exec::decode_opt_type(fs, "default") {
                        Ok(d) => Ok(ItemEnum::AssocTypeItem { bounds: bs, default: d }),
                        Err(e) => Err(e),
                    }
                }
            } else if has_field(fs, "name") {
                let name = match crate::decode::req_str(fs, "name") {
                    Ok(name) => name,
                    Err(e) => {
                        return Err(e);
                    },
                };
                match crate::decode::opt_str(fs, "rename") {
                    Ok(rename) => Ok(ItemEnum::ExternCrateItem { name, rename }),
                    Err(e) => Err(e),
                }
            } else {
                Err(DecodeError::Malformed)
            }
        },
        _ => Err(DecodeError::Malformed),
    }
}

// ---------------------------------------------------------------------------
// Whole items, summaries, and the crate root.
// ---------------------------------------------------------------------------

pub open spec fn spec_opt_span_field(fs: Seq<(String, Json)>) -> Result<
    Option<SpanV>,
    DecodeError,
> {
    match spec_opt_field(fs, "source"@) {
        None => Ok(None),
        Some(sj) => match spec_decode_span(sj) {
            Ok(sp) => Ok(Some(sp)),
            Err(e) => Err(e),
        },
    }
}

pub open spec fn spec_opt_deprecation_field(fs: Seq<(String, Json)>) -> Result<
    Option<DeprecationV>,
    DecodeError,
> {
    match spec_opt_field(fs, "deprecation"@) {
        None => Ok(None),
        Some(dj) => match spec_decode_deprecation(dj) {
            Ok(d) => Ok(Some(d)),
            Err(e) => Err(e),
        },
    }
}

/// Link labels to identifiers, in the producer's order.
pub open spec fn spec_decode_links(s: Seq<(String, Json)>) -> Result<
    Seq<(Seq<char>, Seq<char>)>,
    DecodeError,
>
    decreases s,
{
    if s.len() == 0 {
        Ok(Seq::empty())
    } else {
        match spec_decode_links(s.drop_last()) {
            Ok(ls) => match s.last().1 {
                Json::Str(id) => Ok(ls.push((s.last().0@, id@))),
                _ => Err(DecodeError::Malformed),
            },
            Err(e) => Err(e),
        }
    }
}

proof fn lemma_links_err(s: Seq<(String, Json)>, i: int)
    requires
        0 <= i < s.len(),
        spec_decode_links(s.take(i)) is Ok,
        !(s[i].1 is Str),
    ensures
        spec_decode_links(s) == Err::<Seq<(Seq<char>, Seq<char>)>, DecodeError>(
            DecodeError::Malformed,
        ),
    decreases s.len(),
{
    if i == s.len() - 1 {
        assert(s.drop_last() =~= s.take(i));
    } else {
        assert(s.drop_last().take(i) =~= s.take(i));
        assert(s.drop_last()[i] == s[i]);
        lemma_links_err(s.drop_last(), i);
    }
}

fn decode_links(fs: &Vec<(String, Json)>) -> (r: Result<Vec<(String, Id)>, DecodeError>)
    ensures
        match r {
            Ok(ls) => spec_decode_links(fs@) == Ok::<_, DecodeError>(view_links(ls@)),
            Err(e) => spec_decode_links(fs@) == Err::<Seq<(Seq<char>, Seq<char>)>, _>(e),
        },
{
    let mut out: Vec<(String, Id)> = Vec::new();
    let mut i: usize = 0;
    proof {
        assert(fs@.take(0) =~= Seq::<(String, Json)>::empty());
        assert(view_links(out@) =~= Seq::<(Seq<char>, Seq<char>)>::empty());
    }
    while i < fs.len()
        invariant
            0 <= i <= fs.len(),
            spec_decode_links(fs@.take(i as int)) == Ok::<_, DecodeError>(view_links(out@)),
        decreases fs.len() - i,
    {
        let ghost prev = out@;
        match &fs[i].1 {
            Json::Str(id) => {
                out.push((fs[i].0.clone(), Id(id.clone())));
                proof {
                    assert(fs@.take(i as int + 1).drop_last() =~= fs@.take(i as int));
                    assert(fs@.take(i as int + 1).last() == fs@[i as int]);
                    assert(view_links(out@) =~= view_links(prev).push(
                        (out@.last().0@, out@.last().1@),
                    ));
                }
            },
            _ => {
                proof {
                    lemma_links_err(fs@, i as int);
                }
                return Err(DecodeError::Malformed);
            },
        }
        i = i + 1;
    }
    proof {
        assert(fs@.take(fs@.len() as int) =~= fs@);
    }
    Ok(out)
}


// ---------------------------------------------------------------------------
// Link labels must occur verbatim in the documentation text.
// ---------------------------------------------------------------------------

/// `needle` occurs in `hay` starting at offset `i`.
pub open spec fn spec_occurs_at(hay: Seq<char>, needle: Seq<char>, i: int) -> bool {
    0 <= i && i + needle.len() <= hay.len() && hay.subrange(i, i + needle.len()) == needle
}

/// `needle` occurs somewhere in `hay`; an empty needle always does.
pub open spec fn spec_contains_sub(hay: Seq<char>, needle: Seq<char>) -> bool {
    exists|i: int| spec_occurs_at(hay, needle, i)
}

/// Whether one string occurs verbatim inside another.
pub fn contains_sub(hay: &str, needle: &str) -> (r: bool)
    ensures
        r == spec_contains_sub(hay@, needle@),
{
    let n = hay.unicode_len();
    let m = needle.unicode_len();
    if m > n {
        proof {
            assert(forall|k: int| !spec_occurs_at(hay@, needle@, k));
        }
        return false;
    }
    let mut i: usize = 0;
    while i <= n - m
        invariant
            m <= n,
            n == hay@.len(),
            m == needle@.len(),
            0 <= i <= n - m + 1,
            forall|k: int| 0 <= k < i ==> !spec_occurs_at(hay@, needle@, k),
        decreases n - m + 1 - i,
    {
        let mut j: usize = 0;
        let mut same = true;
        while j < m && same
            invariant
                0 <= j <= m,
                i + m <= n,
                n == hay@.len(),
                m == needle@.len(),
                same ==> forall|t: int| 0 <= t < j ==> hay@[i as int + t] == #[trigger] needle@[t],
                !same ==> j < m && hay@[i as int + j as int] != needle@[j as int],
            decreases m - j, (if same { 1int } else { 0int }),
        {
            if hay.get_char(i + j) != needle.get_char(j) {
                same = false;
            } else {
                j = j + 1;
            }
        }
        if same {
            proof {
                assert(hay@.subrange(i as int, i as int + m as int) =~= needle@);
                assert(spec_occurs_at(hay@, needle@, i as int));
            }
            return true;
        }
        proof {
            assert(!spec_occurs_at(hay@, needle@, i as int)) by {
                if spec_occurs_at(hay@, needle@, i as int) {
                    let sub = hay@.subrange(i as int, i as int + m as int);
                    assert(sub[j as int] == needle@[j as int]);
                }
            }
        }
        i = i + 1;
    }
    proof {
        assert(forall|k: int| !spec_occurs_at(hay@, needle@, k));
    }
    false
}

/// The text that link labels are checked against: the docs, or nothing.
pub open spec fn spec_docs_text(docs: Option<Seq<char>>) -> Seq<char> {
    match docs {
        Some(d) => d,
        None => Seq::empty(),
    }
}

/// Every link label occurs verbatim in the documentation text.
pub open spec fn spec_links_in_docs(
    links: Seq<(Seq<char>, Seq<char>)>,
    docs: Option<Seq<char>>,
) -> bool {
    forall|k: int|
        0 <= k < links.len() ==> spec_contains_sub(
            spec_docs_text(docs),
            (#[trigger] links[k]).0,
        )
}

fn links_in_docs(links: &Vec<(String, Id)>, docs: &Option<Arc<String>>) -> (r: bool)
    ensures
        r == spec_links_in_docs(view_links(links@), crate::types::view_opt_docs(*docs)),
{
    proof {
        reveal_strlit("");
        assert(""@ =~= Seq::<char>::empty());
    }
    let mut i: usize = 0;
    while i < links.len()
        invariant
            0 <= i <= links.len(),
            forall|k: int|
                0 <= k < i ==> spec_contains_sub(
                    spec_docs_text(crate::types::view_opt_docs(*docs)),
                    (#[trigger] view_links(links@)[k]).0,
                ),
            ""@ == Seq::<char>::empty(),
        decreases links.len() - i,
    {
        let found = match docs {
            Some(d) => contains_sub(d.as_str(), links[i].0.as_str()),
            None => contains_sub("", links[i].0.as_str()),
        };
        proof {
            assert((view_links(links@)[i as int]).0 == links@[i as int].0@);
        }
        if !found {
            return false;
        }
        i = i + 1;
    }
    true
}

pub open spec fn spec_decode_item(j: Json) -> Result<ItemV, DecodeError> {
    match j {
        Json::Obj(fs) => match spec_req_str(fs@, "id"@) {
            Ok(id) => match spec_req_u32(fs@, "crate_id"@) {
                Ok(cid) => match spec_opt_str(fs@, "name"@) {
                    Ok(name) => match spec_opt_span_field(fs@) {
                        Ok(source) => match spec_obj_get(fs@, "visibility"@) {
                            Some(vj) => match spec_decode_visibility(vj) {
                                Ok(vis) => match spec_opt_str(fs@, "docs"@) {
                                    Ok(docs) => match spec_obj_get(fs@, "links"@) {
                                        Some(Json::Obj(lf)) => match spec_decode_links(lf@) {
                                            Ok(links) => match spec_req_strings(fs@, "attrs"@) {
                                                Ok(attrs) => match spec_opt_deprecation_field(
                                                    fs@,
                                                ) {
                                                    Ok(dep) => match spec_obj_get(fs@, "kind"@) {
                                                        Some(kj) => match spec_decode_item_kind(
                                                            kj,
                                                        ) {
                                                            Ok(kind) => match spec_obj_get(
                                                                fs@,
                                                                "inner"@,
                                                            ) {
                                                                Some(ij) => match
                                                                    spec_decode_item_inner(ij) {
                                                                    Ok(inner) => if kind
                                                                        != spec_kind_of(inner) {
                                                                        Err(
                                                                            DecodeError::KindMismatch,
                                                                        )
                                                                    } else if !spec_links_in_docs(
                                                                        links,
                                                                        docs,
                                                                    ) {
                                                                        Err(
                                                                            DecodeError::Malformed,
                                                                        )
                                                                    } else {
                                                                        Ok(
                                                                            ItemV {
                                                                                id,
                                                                                crate_id: cid,
                                                                                name,
                                                                                source,
                                                                                visibility: vis,
                                                                                docs,
                                                                                links,
                                                                                attrs,
                                                                                deprecation: dep,
                                                                                kind,
                                                                                inner,
                                                                            },
                                                                        )
                                                                    },
                                                                    Err(e) => Err(e),
                                                                },
                                                                None => Err(
                                                                    DecodeError::Malformed,
                                                                ),
                                                            },
                                                            Err(e) => Err(e),
                                                        },
                                                        None => Err(DecodeError::Malformed),
                                                    },
                                                    Err(e) => Err(e),
                                                },
                                                Err(e) => Err(e),
                                            },
                                            Err(e) => Err(e),
                                        },
                                        _ => Err(DecodeError::Malformed),
                                    },
                                    Err(e) => Err(e),
                                },
                                Err(e) => Err(e),
                            },
                            None => Err(DecodeError::Malformed),
                        },
                        Err(e) => Err(e),
                    },
                    Err(e) => Err(e),
                },
                Err(e) => Err(e),
            },
            Err(e) => Err(e),
        },
        _ => Err(DecodeError::Malformed),
    }
}

pub fn decode_item(j: &Json) -> (r: Result<Item, DecodeError>)
    ensures
        res_view(r) == spec_decode_item(*j),
{
    match j {
        Json::Obj(fs) => {
            let id = match crate::decode::req_str(fs, "id") {
                Ok(id) => id,
                Err(e) => {
                    return Err(e);
                },
            };
            let cid = match crate::decode::req_u32(fs, "crate_id") {
                Ok(cid) => cid,
                Err(e) => {
                    return Err(e);
                },
            };
            let name = match crate::decode::opt_str(fs, "name") {
                Ok(name) => name,
                Err(e) => {
                    return Err(e);
                },
            };
            let source = match crate::decode::opt_field(fs, "source") {
                None => None,
                Some(sj) => match decode_span(sj) {
                    Ok(sp) => Some(sp),
                    Err(e) => {
                        return Err(e);
                    },
                },
            };
            let vis = match obj_get(fs, "visibility") {
                Some(vj) => match decode_visibility(vj) {
                    Ok(vis) => vis,
                    Err(e) => {
                        return Err(e);
                    },
                },
                None => {
                    return Err(DecodeError::Malformed);
                },
            };
            let docs = match crate::decode::opt_str(fs, "docs") {
                Ok(None) => None,
                Ok(Some(d)) => Some(Arc::new(d)),
                Err(e) => {
                    return Err(e);
                },
            };
            let links = match obj_get(fs, "links") {
                Some(Json::Obj(lf)) => match decode_links(lf) {
                    Ok(links) => links,
                    Err(e) => {
                        return Err(e);
                    },
                },
                _ => {
                    return Err(DecodeError::Malformed);
                },
            };
            let attrs = match req_strings(fs, "attrs") {
                Ok(attrs) => attrs,
                Err(e) => {
                    return Err(e);
                },
            };
            let dep = match crate::decode::opt_field(fs, "deprecation") {
                None => None,
                Some(dj) => match decode_deprecation(dj) {
                    Ok(d) => Some(d),
                    Err(e) => {
                        return Err(e);
                    },
                },
            };
            let kind = match obj_get(fs, "kind") {
                Some(kj) => match decode_item_kind(kj) {
                    Ok(kind) => kind,
                    Err(e) => {
                        return Err(e);
                    },
                },
                None => {
                    return Err(DecodeError::Malformed);
                },
            };
            let inner = match obj_get(fs, "inner") {
                Some(ij) => match decode_item_inner(ij) {
                    Ok(inner) => inner,
                    Err(e) => {
                        return Err(e);
                    },
                },
                None => {
                    return Err(DecodeError::Malformed);
                },
            };
            if kind != inner.kind_of() {
                Err(DecodeError::KindMismatch)
            } else if !links_in_docs(&links, &docs) {
                Err(DecodeError::Malformed)
            } else {
                Ok(
                    Item {
                        id: Id(id),
                        crate_id: cid,
                        name,
                        source,
                        visibility: vis,
                        docs,
                        links,
                        attrs,
                        deprecation: dep,
                        kind,
                        inner,
                    },
                )
            }
        },
        _ => Err(DecodeError::Malformed),
    }
}

pub open spec fn spec_decode_item_summary(j: Json) -> Result<ItemSummaryV, DecodeError> {
    match j {
        Json::Obj(fs) => match spec_req_u32(fs@, "crate_id"@) {
            Ok(cid) => match spec_req_strings(fs@, "path"@) {
                Ok(path) => match spec_obj_get(fs@, "kind"@) {
                    Some(kj) => match spec_decode_item_kind(kj) {
                        Ok(kind) => Ok(ItemSummaryV { crate_id: cid, path, kind }),
                        Err(e) => Err(e),
                    },
                    None => Err(DecodeError::Malformed),
                },
                Err(e) => Err(e),
            },
            Err(e) => Err(e),
        },
        _ => Err(DecodeError::Malformed),
    }
}

pub fn decode_item_summary(j: &Json) -> (r: Result<ItemSummary, DecodeError>)
    ensures
        res_view(r) == spec_decode_item_summary(*j),
{
    match j {
        Json::Obj(fs) => {
            let cid = match crate::decode::req_u32(fs, "crate_id") {
                Ok(cid) => cid,
                Err(e) => {
                    return Err(e);
                },
            };
            let path = match req_strings(fs, "path") {
                Ok(path) => path,
                Err(e) => {
                    return Err(e);
                },
            };
            match obj_get(fs, "kind") {
                Some(kj) => match decode_item_kind(kj) {
                    Ok(kind) => Ok(ItemSummary { crate_id: cid, path, kind }),
                    Err(e) => Err(e),
                },
                None => Err(DecodeError::Malformed),
            }
        },
        _ => Err(DecodeError::Malformed),
    }
}

pub open spec fn spec_decode_external_crate(j: Json) -> Result<ExternalCrateV, DecodeError> {
    match j {
        Json::Obj(fs) => match spec_req_str(fs@, "name"@) {
            Ok(name) => match spec_opt_str(fs@, "html_root_url"@) {
                Ok(url) => Ok(ExternalCrateV { name, html_root_url: url }),
                Err(e) => Err(e),
            },
            Err(e) => Err(e),
        },
        _ => Err(DecodeError::Malformed),
    }
}

pub fn decode_external_crate(j: &Json) -> (r: Result<ExternalCrate, DecodeError>)
    ensures
        res_view(r) == spec_decode_external_crate(*j),
{
    match j {
        Json::Obj(fs) => {
            let name = match crate::decode::req_str(fs, "name") {
                Ok(name) => name,
                Err(e) => {
                    return Err(e);
                },
            };
            match crate::decode::opt_str(fs, "html_root_url") {
                Ok(url) => Ok(ExternalCrate { name, html_root_url: url }),
                Err(e) => Err(e),
            }
        },
        _ => Err(DecodeError::Malformed),
    }
}

/// A key already bound among the decoded index entries.
pub open spec fn spec_index_has_key(es: Seq<(Seq<char>, ItemV)>, k: Seq<char>) -> bool {
    exists|j: int| 0 <= j < es.len() && (#[trigger] es[j]).0 == k
}

/// The `index` map: identifiers to items, in the producer's order. Each
/// item's own `id` must equal its key, and no key may repeat; either
/// disagreement is a malformed document.
pub open spec fn spec_decode_index(s: Seq<(String, Json)>) -> Result<
    Seq<(Seq<char>, ItemV)>,
    DecodeError,
>
    decreases s,
{
    if s.len() == 0 {
        Ok(Seq::empty())
    } else {
        match spec_decode_index(s.drop_last()) {
            Ok(es) => match spec_decode_item(s.last().1) {
                Ok(it) => if it.id != s.last().0@ {
                    Err(DecodeError::Malformed)
                } else if spec_index_has_key(es, s.last().0@) {
                    Err(DecodeError::Malformed)
                } else {
                    Ok(es.push((s.last().0@, it)))
                },
                Err(e) => Err(e),
            },
            Err(e) => Err(e),
        }
    }
}

/// A failed prefix decides the whole index: the error of the first failing
/// entry is the error of the map.
proof fn lemma_index_prefix_err(s: Seq<(String, Json)>, i: int)
    requires
        0 <= i <= s.len(),
        spec_decode_index(s.take(i)) is Err,
    ensures
        spec_decode_index(s) == spec_decode_index(s.take(i)),
    decreases s.len() - i,
{
    if i == s.len() {
        assert(s.take(i) =~= s);
    } else {
        assert(s.take(i + 1).drop_last() =~= s.take(i));
        lemma_index_prefix_err(s, i + 1);
    }
}

fn index_has_key(out: &Vec<(Id, Item)>, k: &String) -> (r: bool)
    ensures
        r == spec_index_has_key(view_index(out@), k@),
{
    let mut j: usize = 0;
    while j < out.len()
        invariant
            0 <= j <= out.len(),
            forall|t: int| 0 <= t < j ==> (#[trigger] view_index(out@)[t]).0 != k@,
        decreases out.len() - j,
    {
        proof {
            assert((view_index(out@)[j as int]).0 == out@[j as int].0@);
        }
        if out[j].0.0.eq(k) {
            return true;
        }
        j = j + 1;
    }
    false
}

fn decode_index(fs: &Vec<(String, Json)>) -> (r: Result<Vec<(Id, Item)>, DecodeError>)
    ensures
        match r {
            Ok(es) => spec_decode_index(fs@) == Ok::<_, DecodeError>(view_index(es@)),
            Err(e) => spec_decode_index(fs@) == Err::<Seq<(Seq<char>, ItemV)>, _>(e),
        },
{
    let mut out: Vec<(Id, Item)> = Vec::new();
    let mut i: usize = 0;
    proof {
        assert(fs@.take(0) =~= Seq::<(String, Json)>::empty());
        assert(view_index(out@) =~= Seq::<(Seq<char>, ItemV)>::empty());
    }
    while i < fs.len()
        invariant
            0 <= i <= fs.len(),
            spec_decode_index(fs@.take(i as int)) == Ok::<_, DecodeError>(view_index(out@)),
        decreases fs.len() - i,
    {
        let ghost prev = out@;
        proof {
            assert(fs@.take(i as int + 1).drop_last() =~= fs@.take(i as int));
            assert(fs@.take(i as int + 1).last() == fs@[i as int]);
        }
        match decode_item(&fs[i].1) {
            Ok(it) => {
                if !it.id.0.eq(&fs[i].0) {
                    proof {
                        lemma_index_prefix_err(fs@, i as int + 1);
                    }
                    return Err(DecodeError::Malformed);
                }
                if index_has_key(&out, &fs[i].0) {
                    proof {
                        lemma_index_prefix_err(fs@, i as int + 1);
                    }
                    return Err(DecodeError::Malformed);
                }
                out.push((Id(fs[i].0.clone()), it));
                proof {
                    assert(view_index(out@) =~= view_index(prev).push(
                        (out@.last().0@, out@.last().1@),
                    ));
                }
            },
            Err(e) => {
                proof {
                    lemma_index_prefix_err(fs@, i as int + 1);
                }
                return Err(e);
            },
        }
        i = i + 1;
    }
    proof {
        assert(fs@.take(fs@.len() as int) =~= fs@);
    }
    Ok(out)
}

/// A key already bound among the decoded path entries.
pub open spec fn spec_paths_has_key(es: Seq<(Seq<char>, ItemSummaryV)>, k: Seq<char>) -> bool {
    exists|j: int| 0 <= j < es.len() && (#[trigger] es[j]).0 == k
}

/// The `paths` map: identifiers to display summaries, in the producer's
/// order; a repeated key is a malformed document.
pub open spec fn spec_decode_paths(s: Seq<(String, Json)>) -> Result<
    Seq<(Seq<char>, ItemSummaryV)>,
    DecodeError,
>
    decreases s,
{
    if s.len() == 0 {
        Ok(Seq::empty())
    } else {
        match spec_decode_paths(s.drop_last()) {
            Ok(es) => match spec_decode_item_summary(s.last().1) {
                Ok(su) => if spec_paths_has_key(es, s.last().0@) {
                    Err(DecodeError::Malformed)
                } else {
                    Ok(es.push((s.last().0@, su)))
                },
                Err(e) => Err(e),
            },
            Err(e) => Err(e),
        }
    }
}

proof fn lemma_paths_prefix_err(s: Seq<(String, Json)>, i: int)
    requires
        0 <= i <= s.len(),
        spec_decode_paths(s.take(i)) is Err,
    ensures
        spec_decode_paths(s) == spec_decode_paths(s.take(i)),
    decreases s.len() - i,
{
    if i == s.len() {
        assert(s.take(i) =~= s);
    } else {
        assert(s.take(i + 1).drop_last() =~= s.take(i));
        lemma_paths_prefix_err(s, i + 1);
    }
}

fn paths_has_key(out: &Vec<(Id, ItemSummary)>, k: &String) -> (r: bool)
    ensures
        r == spec_paths_has_key(view_paths(out@), k@),
{
    let mut j: usize = 0;
    while j < out.len()
        invariant
            0 <= j <= out.len(),
            forall|t: int| 0 <= t < j ==> (#[trigger] view_paths(out@)[t]).0 != k@,
        decreases out.len() - j,
    {
        proof {
            assert((view_paths(out@)[j as int]).0 == out@[j as int].0@);
        }
        if out[j].0.0.eq(k) {
            return true;
        }
        j = j + 1;
    }
    false
}

fn decode_paths(fs: &Vec<(String, Json)>) -> (r: Result<Vec<(Id, ItemSummary)>, DecodeError>)
    ensures
        match r {
            Ok(es) => spec_decode_paths(fs@) == Ok::<_, DecodeError>(view_paths(es@)),
            Err(e) => spec_decode_paths(fs@) == Err::<Seq<(Seq<char>, ItemSummaryV)>, _>(e),
        },
{
    let mut out: Vec<(Id, ItemSummary)> = Vec::new();
    let mut i: usize = 0;
    proof {
        assert(fs@.take(0) =~= Seq::<(String, Json)>::empty());
        assert(view_paths(out@) =~= Seq::<(Seq<char>, ItemSummaryV)>::empty());
    }
    while i < fs.len()
        invariant
            0 <= i <= fs.len(),
            spec_decode_paths(fs@.take(i as int)) == Ok::<_, DecodeError>(view_paths(out@)),
        decreases fs.len() - i,
    {
        let ghost prev = out@;
        proof {
            assert(fs@.take(i as int + 1).drop_last() =~= fs@.take(i as int));
            assert(fs@.take(i as int + 1).last() == fs@[i as int]);
        }
        match decode_item_summary(&fs[i].1) {
            Ok(su) => {
                if paths_has_key(&out, &fs[i].0) {
                    proof {
                        lemma_paths_prefix_err(fs@, i as int + 1);
                    }
                    return Err(DecodeError::Malformed);
                }
                out.push((Id(fs[i].0.clone()), su));
                proof {
                    assert(view_paths(out@) =~= view_paths(prev).push(
                        (out@.last().0@, out@.last().1@),
                    ));
                }
            },
            Err(e) => {
                proof {
                    lemma_paths_prefix_err(fs@, i as int + 1);
                }
                return Err(e);
            },
        }
        i = i + 1;
    }
    proof {
        assert(fs@.take(fs@.len() as int) =~= fs@);
    }
    Ok(out)
}

/// A crate number already bound among the decoded external crates.
pub open spec fn spec_ext_has_key(es: Seq<(u32, ExternalCrateV)>, k: u32) -> bool {
    exists|j: int| 0 <= j < es.len() && (#[trigger] es[j]).0 == k
}

/// The `external_crates` map, keyed by decimal crate numbers; two keys that
/// read as the same number (as with a leading zero) are a repeated key, and
/// a repeated key is a malformed document.
pub open spec fn spec_decode_external_crates(s: Seq<(String, Json)>) -> Result<
    Seq<(u32, ExternalCrateV)>,
    DecodeError,
>
    decreases s,
{
    if s.len() == 0 {
        Ok(Seq::empty())
    } else {
        match spec_decode_external_crates(s.drop_last()) {
            Ok(es) => match spec_u32_from_decimal(s.last().0@) {
                Some(k) => match spec_decode_external_crate(s.last().1) {
                    Ok(ec) => if spec_ext_has_key(es, k) {
                        Err(DecodeError::Malformed)
                    } else {
                        Ok(es.push((k, ec)))
                    },
                    Err(e) => Err(e),
                },
                None => Err(DecodeError::Malformed),
            },
            Err(e) => Err(e),
        }
    }
}

proof fn lemma_ext_prefix_err(s: Seq<(String, Json)>, i: int)
    requires
        0 <= i <= s.len(),
        spec_decode_external_crates(s.take(i)) is Err,
    ensures
        spec_decode_external_crates(s) == spec_decode_external_crates(s.take(i)),
    decreases s.len() - i,
{
    if i == s.len() {
        assert(s.take(i) =~= s);
    } else {
        assert(s.take(i + 1).drop_last() =~= s.take(i));
        lemma_ext_prefix_err(s, i + 1);
    }
}

fn ext_has_key(out: &Vec<(u32, ExternalCrate)>, k: u32) -> (r: bool)
    ensures
        r == spec_ext_has_key(view_external_crates(out@), k),
{
    let mut j: usize = 0;
    while j < out.len()
        invariant
            0 <= j <= out.len(),
            forall|t: int| 0 <= t < j ==> (#[trigger] view_external_crates(out@)[t]).0 != k,
        decreases out.len() - j,
    {
        proof {
            assert((view_external_crates(out@)[j as int]).0 == out@[j as int].0);
        }
        if out[j].0 == k {
            return true;
        }
        j = j + 1;
    }
    false
}

fn decode_external_crates(fs: &Vec<(String, Json)>) -> (r: Result<
    Vec<(u32, ExternalCrate)>,
    DecodeError,
>)
    ensures
        match r {
            Ok(es) => spec_decode_external_crates(fs@) == Ok::<_, DecodeError>(
                view_external_crates(es@),
            ),
            Err(e) => spec_decode_external_crates(fs@) == Err::<Seq<(u32, ExternalCrateV)>, _>(e),
        },
{
    let mut out: Vec<(u32, ExternalCrate)> = Vec::new();
    let mut i: usize = 0;
    proof {
        assert(fs@.take(0) =~= Seq::<(String, Json)>::empty());
        assert(view_external_crates(out@) =~= Seq::<(u32, ExternalCrateV)>::empty());
    }
    while i < fs.len()
        invariant
            0 <= i <= fs.len(),
            spec_decode_external_crates(fs@.take(i as int)) == Ok::<_, DecodeError>(
                view_external_crates(out@),
            ),
        decreases fs.len() - i,
    {
        let ghost prev = out@;
        proof {
            assert(fs@.take(i as int + 1).drop_last() =~= fs@.take(i as int));
            assert(fs@.take(i as int + 1).last() == fs@[i as int]);
        }
        let k = match u32_from_decimal(&fs[i].0) {
            Some(k) => k,
            None => {
                proof {
                    lemma_ext_prefix_err(fs@, i as int + 1);
                }
                return Err(DecodeError::Malformed);
            },
        };
        match decode_external_crate(&fs[i].1) {
            Ok(ec) => {
                if ext_has_key(&out, k) {
                    proof {
                        lemma_ext_prefix_err(fs@, i as int + 1);
                    }
                    return Err(DecodeError::Malformed);
                }
                out.push((k, ec));
                proof {
                    assert(view_external_crates(out@) =~= view_external_crates(prev).push(
                        (out@.last().0, out@.last().1@),
                    ));
                }
            },
            Err(e) => {
                proof {
                    lemma_ext_prefix_err(fs@, i as int + 1);
                }
                return Err(e);
            },
        }
        i = i + 1;
    }
    proof {
        assert(fs@.take(fs@.len() as int) =~= fs@);
    }
    Ok(out)
}

pub open spec fn spec_decode_crate(j: Json) -> Result<CrateV, DecodeError> {
    match j {
        Json::Obj(fs) => match spec_req_str(fs@, "root"@) {
            Ok(root) => match spec_opt_str(fs@, "crate_version"@) {
                Ok(cv) => match spec_req_bool(fs@, "includes_private"@) {
                    Ok(ip) => match spec_obj_get(fs@, "index"@) {
                        Some(Json::Obj(ix)) => match spec_decode_index(ix@) {
                            Ok(index) => match spec_obj_get(fs@, "paths"@) {
                                Some(Json::Obj(pa)) => match spec_decode_paths(pa@) {
                                    Ok(paths) => match spec_obj_get(fs@, "external_crates"@) {
                                        Some(Json::Obj(ec)) => match spec_decode_external_crates(
                                            ec@,
                                        ) {
                                            Ok(ecs) => match spec_req_u32(
                                                fs@,
                                                "format_version"@,
                                            ) {
                                                Ok(fv) => {
                                                    let c = CrateV {
                                                        root,
                                                        crate_version: cv,
                                                        includes_private: ip,
                                                        index,
                                                        paths,
                                                        external_crates: ecs,
                                                        format_version: fv,
                                                    };
                                                    if crate::query::spec_well_formed(c) {
                                                        Ok(c)
                                                    } else {
                                                        Err(DecodeError::Malformed)
                                                    }
                                                },
                                                Err(e) => Err(e),
                                            },
                                            Err(e) => Err(e),
                                        },
                                        _ => Err(DecodeError::Malformed),
                                    },
                                    Err(e) => Err(e),
                                },
                                _ => Err(DecodeError::Malformed),
                            },
                            Err(e) => Err(e),
                        },
                        _ => Err(DecodeError::Malformed),
                    },
                    Err(e) => Err(e),
                },
                Err(e) => Err(e),
            },
            Err(e) => Err(e),
        },
        _ => Err(DecodeError::Malformed),
    }
}

/// Decodes one whole document from its parsed tree. A decoded document is
/// well formed: its root identifier resolves to a module.
pub fn decode_crate(j: &Json) -> (r: Result<Crate, DecodeError>)
    ensures
        res_view(r) == spec_decode_crate(*j),
        r matches Ok(c) ==> crate::query::spec_well_formed(c@),
{
    match j {
        Json::Obj(fs) => {
            let root = match crate::decode::req_str(fs, "root") {
                Ok(root) => root,
                Err(e) => {
                    return Err(e);
                },
            };
            let cv = match crate::decode::opt_str(fs, "crate_version") {
                Ok(cv) => cv,
                Err(e) => {
                    return Err(e);
                },
            };
            let ip = match crate::decode::req_bool(fs, "includes_private") {
                Ok(ip) => ip,
                Err(e) => {
                    return Err(e);
                },
            };
            let index = match obj_get(fs, "index") {
                Some(Json::Obj(ix)) => match decode_index(ix) {
                    Ok(index) => index,
                    Err(e) => {
                        return Err(e);
                    },
                },
                _ => {
                    return Err(DecodeError::Malformed);
                },
            };
            let paths = match obj_get(fs, "paths") {
                Some(Json::Obj(pa)) => match decode_paths(pa) {
                    Ok(paths) => paths,
                    Err(e) => {
                        return Err(e);
                    },
                },
                _ => {
                    return Err(DecodeError::Malformed);
                },
            };
            let ecs = match obj_get(fs, "external_crates") {
                Some(Json::Obj(ec)) => match decode_external_crates(ec) {
                    Ok(ecs) => ecs,
                    Err(e) => {
                        return Err(e);
                    },
                },
                _ => {
                    return Err(DecodeError::Malformed);
                },
            };
            match crate::decode::req_u32(fs, "format_version") {
                Ok(fv) => {
                    let krate = Crate {
                        root: Id(root),
                        crate_version: cv,
                        includes_private: ip,
                        index,
                        paths,
                        external_crates: ecs,
                        format_version: fv,
                    };
                    if krate.is_well_formed() {
                        Ok(krate)
                    } else {
                        Err(DecodeError::Malformed)
                    }
                },
                Err(e) => Err(e),
            }
        },
        _ => Err(DecodeError::Malformed),
    }
}

/// What decoding a whole text yields: parse failures are malformed input; a
/// parsed tree is decoded by [`spec_decode_crate`].
pub open spec fn spec_parse(s: Seq<char>) -> Result<CrateV, DecodeError> {
    match json_parse(s) {
        None => Err(DecodeError::Malformed),
        Some(j) => spec_decode_crate(j),
    }
}

/// The sole entry point: decodes a whole document from its raw text. A
/// decoded document is well formed: its root identifier resolves to a module.
pub fn parse(s: &str) -> (r: Result<Crate, DecodeError>)
    ensures
        res_view(r) == spec_parse(s@),
        r matches Ok(c) ==> crate::query::spec_well_formed(c@),
{
    match parse_text(s) {
        None => Err(DecodeError::Malformed),
        Some(j) => decode_crate(&j),
    }
}


} // verus!
