//! Document-level laws of the decoder and the resolution index, stated over
//! the same specification functions the executable contracts use.

use crate::data::{spec_in_group, ImplGroup};
use crate::decode::DecodeError;
use crate::decode_items::{
    spec_decode_index, spec_decode_item, spec_links_in_docs, spec_parse,
};
use crate::query::{spec_classify_impl, spec_filter_children, spec_lookup, ImplKind};
use crate::types::{CrateV, ImplV, ItemKind, ItemV};
use crate::json::Json;
use vstd::prelude::*;

verus! {

/// Decoding is a pure function of the input text: two decodes of the same
/// text yield equal values, error or not.
pub proof fn lemma_parse_deterministic(
    s: Seq<char>,
    r1: Result<CrateV, DecodeError>,
    r2: Result<CrateV, DecodeError>,
)
    requires
        r1 == spec_parse(s),
        r2 == spec_parse(s),
    ensures
        r1 == r2,
{
}

/// Child enumeration tolerates dangling references: a child identifier that
/// resolves to nothing contributes nothing, and the remaining children keep
/// their original relative order — the result is exactly that of the list
/// with the dangling identifier removed.
pub proof fn lemma_children_skip_dangling(
    c: CrateV,
    ids: Seq<Seq<char>>,
    kind: ItemKind,
    i: int,
)
    requires
        0 <= i < ids.len(),
        spec_lookup(c.index, ids[i]) is None,
    ensures
        spec_filter_children(c, ids, kind) == spec_filter_children(c, ids.remove(i), kind),
    decreases ids.len(),
{
    if i == ids.len() - 1 {
        assert(ids.remove(i) =~= ids.drop_last());
    } else {
        lemma_children_skip_dangling(c, ids.drop_last(), kind, i);
        assert(ids.remove(i).drop_last() =~= ids.drop_last().remove(i));
        assert(ids.remove(i).last() == ids.last());
    }
}


/// An item that decodes keeps its link labels inside its own docs.
proof fn lemma_item_links_in_docs(j: Json)
    requires
        spec_decode_item(j) is Ok,
    ensures
        spec_links_in_docs(spec_decode_item(j)->Ok_0.links, spec_decode_item(j)->Ok_0.docs),
{
}

/// What decoding guarantees of every entry of the `index` map: the item's own
/// `id` equals its key, no key repeats, and every link label of the item
/// occurs verbatim in its docs.
pub proof fn lemma_decoded_index_invariants(s: Seq<(String, Json)>, es: Seq<(Seq<char>, ItemV)>)
    requires
        spec_decode_index(s) == Ok::<_, DecodeError>(es),
    ensures
        forall|k: int| 0 <= k < es.len() ==> (#[trigger] es[k]).1.id == es[k].0,
        forall|k: int|
            0 <= k < es.len() ==> spec_links_in_docs((#[trigger] es[k]).1.links, es[k].1.docs),
        forall|j: int, k: int|
            0 <= j < k < es.len() ==> (#[trigger] es[j]).0 != (#[trigger] es[k]).0,
    decreases s.len(),
{
    if s.len() == 0 {
    } else {
        let prefix = spec_decode_index(s.drop_last())->Ok_0;
        lemma_decoded_index_invariants(s.drop_last(), prefix);
        lemma_item_links_in_docs(s.last().1);
        assert(es == prefix.push((s.last().0@, spec_decode_item(s.last().1)->Ok_0)));
        assert(forall|j: int|
            0 <= j < prefix.len() ==> (#[trigger] es[j]) == prefix[j]);
    }
}


/// What every successfully decoded document guarantees: the root resolves to
/// a module, each indexed item's `id` equals its key, index keys never
/// repeat, and every link label occurs verbatim in its item's docs.
pub proof fn lemma_parse_document_invariants(s: Seq<char>, c: CrateV)
    requires
        spec_parse(s) == Ok::<_, DecodeError>(c),
    ensures
        crate::query::spec_well_formed(c),
        forall|k: int| 0 <= k < c.index.len() ==> (#[trigger] c.index[k]).1.id == c.index[k].0,
        forall|k: int|
            0 <= k < c.index.len() ==> spec_links_in_docs(
                (#[trigger] c.index[k]).1.links,
                c.index[k].1.docs,
            ),
        forall|j: int, k: int|
            0 <= j < k < c.index.len() ==> (#[trigger] c.index[j]).0 != (#[trigger] c.index[k]).0,
{
    let j = crate::json::json_parse(s).unwrap();
    match j {
        Json::Obj(fs) => match crate::json::spec_obj_get(fs@, "index"@) {
            Some(Json::Obj(ix)) => {
                lemma_decoded_index_invariants(ix@, c.index);
            },
            _ => {
                assert(false);
            },
        },
        _ => {
            assert(false);
        },
    }
}

/// The three display groups of a screen partition the impls: every impl
/// falls in exactly one of inherent, ordinary-trait and auto, and an impl
/// without a trait is inherent even when it carries the synthetic mark.
pub proof fn lemma_impl_groups_partition(im: crate::data::ImplV)
    ensures
        spec_in_group(im, ImplGroup::Inherent) || spec_in_group(im, ImplGroup::TraitGroup)
            || spec_in_group(im, ImplGroup::Auto),
        !(spec_in_group(im, ImplGroup::Inherent) && spec_in_group(im, ImplGroup::TraitGroup)),
        !(spec_in_group(im, ImplGroup::Inherent) && spec_in_group(im, ImplGroup::Auto)),
        !(spec_in_group(im, ImplGroup::TraitGroup) && spec_in_group(im, ImplGroup::Auto)),
        im.trait_ is None && im.synthetic ==> spec_in_group(im, ImplGroup::Inherent)
            && !spec_in_group(im, ImplGroup::Auto),
{
}

/// The classification priority is fixed: an impl without a trait is inherent
/// even when it is marked synthetic, and a synthetic impl is an auto impl
/// even when a blanket pattern is present.
pub proof fn lemma_classify_priority(i: ImplV)
    ensures
        i.trait_ is None ==> spec_classify_impl(i) == ImplKind::Inherent,
        i.trait_ is Some && i.synthetic ==> spec_classify_impl(i) == ImplKind::Auto,
        i.trait_ is Some && !i.synthetic && i.blanket_impl is Some ==> spec_classify_impl(i)
            == ImplKind::Blanket,
{
}

} // verus!
