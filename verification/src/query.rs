//! The resolution index: read-only queries over a decoded [`Crate`].
//! Absence is never an error here: a dangling identifier simply resolves to
//! nothing, because the producer commonly leaves private and cross-crate
//! items out of `index`.

use crate::types::{
    view_ids, Crate, CrateV, Id, Impl, ImplV, Item, ItemEnum, ItemEnumV, ItemKind, ItemSummary,
    ItemSummaryV, ItemV,
};
use vstd::prelude::*;

verus! {

broadcast use crate::types::group_view_lemmas;

/// The first binding of `id` in an identifier-keyed sequence of items.
pub open spec fn spec_lookup(entries: Seq<(Seq<char>, ItemV)>, id: Seq<char>) -> Option<ItemV>
    decreases entries.len(),
{
    if entries.len() == 0 {
        None
    } else if entries[0].0 == id {
        Some(entries[0].1)
    } else {
        spec_lookup(entries.drop_first(), id)
    }
}

/// The first binding of `id` among the display summaries.
pub open spec fn spec_summary(entries: Seq<(Seq<char>, ItemSummaryV)>, id: Seq<char>) -> Option<
    ItemSummaryV,
>
    decreases entries.len(),
{
    if entries.len() == 0 {
        None
    } else if entries[0].0 == id {
        Some(entries[0].1)
    } else {
        spec_summary(entries.drop_first(), id)
    }
}

/// The fully qualified path of an item's parent: its own path without the
/// last segment, empty when no summary is known.
pub open spec fn spec_parent_path(c: CrateV, id: Seq<char>) -> Seq<Seq<char>> {
    match spec_summary(c.paths, id) {
        Some(su) => if su.path.len() == 0 {
            Seq::empty()
        } else {
            su.path.drop_last()
        },
        None => Seq::empty(),
    }
}

/// The declared child identifiers of a container item, where its payload has
/// any: a module's items, a struct's fields, an enum's variants, an impl's
/// items.
pub open spec fn spec_child_ids(inner: ItemEnumV) -> Option<Seq<Seq<char>>> {
    match inner {
        ItemEnumV::ModuleItem(m) => Some(m.items),
        ItemEnumV::StructItem(s) => Some(s.fields),
        ItemEnumV::EnumItem(e) => Some(e.variants),
        ItemEnumV::ImplItem(i) => Some(i.items),
        _ => None,
    }
}

/// The children among `ids` that resolve and have the requested kind, in
/// their original relative order; identifiers that resolve to nothing are
/// skipped.
pub open spec fn spec_filter_children(
    c: CrateV,
    ids: Seq<Seq<char>>,
    kind: ItemKind,
) -> Seq<ItemV>
    decreases ids.len(),
{
    if ids.len() == 0 {
        Seq::empty()
    } else {
        let rest = spec_filter_children(c, ids.drop_last(), kind);
        match spec_lookup(c.index, ids.last()) {
            Some(it) => if it.kind == kind {
                rest.push(it)
            } else {
                rest
            },
            None => rest,
        }
    }
}

/// What enumerating a container's children of one kind yields: nothing for an
/// unknown container or one without a child list.
pub open spec fn spec_children_of_kind(c: CrateV, container: Seq<char>, kind: ItemKind) -> Seq<
    ItemV,
> {
    match spec_lookup(c.index, container) {
        Some(it) => match spec_child_ids(it.inner) {
            Some(ids) => spec_filter_children(c, ids, kind),
            None => Seq::empty(),
        },
        None => Seq::empty(),
    }
}

/// The views of a sequence of borrowed items.
pub open spec fn view_item_refs(s: Seq<&Item>) -> Seq<ItemV> {
    Seq::new(s.len(), |i: int| s[i]@)
}

/// How an implementation block is grouped for display. The conditions are
/// checked in this fixed priority order: an absent trait wins over the
/// synthetic mark, which wins over a blanket pattern.
#[derive(Debug, Copy, PartialEq, Eq, Structural, Hash)]
pub enum ImplKind {
    /// No trait: an inherent impl.
    Inherent,
    /// Synthetic: an auto-trait impl.
    Auto,
    /// Matches a family of types rather than one concrete type.
    Blanket,
    /// An ordinary trait impl.
    Trait,
}

impl Clone for ImplKind {
    fn clone(&self) -> (r: Self)
        ensures
            r == *self,
    {
        *self
    }
}

/// Classification of an impl, by the priority order above.
pub open spec fn spec_classify_impl(i: ImplV) -> ImplKind {
    if i.trait_ is None {
        ImplKind::Inherent
    } else if i.synthetic {
        ImplKind::Auto
    } else if i.blanket_impl is Some {
        ImplKind::Blanket
    } else {
        ImplKind::Trait
    }
}

/// Groups an impl as inherent, auto, blanket or ordinary trait impl. A pure
/// function of the impl's own fields; ties resolve by the fixed priority
/// order, so an impl with no trait is inherent even when it is synthetic.
pub fn classify_impl(i: &Impl) -> (r: ImplKind)
    ensures
        r == spec_classify_impl(i@),
        r == ImplKind::Inherent <==> i.trait_ is None,
        r == ImplKind::Auto <==> i.trait_ is Some && i.synthetic,
        r == ImplKind::Blanket <==> i.trait_ is Some && !i.synthetic && i.blanket_impl is Some,
        r == ImplKind::Trait <==> i.trait_ is Some && !i.synthetic && i.blanket_impl is None,
{
    if i.trait_.is_none() {
        ImplKind::Inherent
    } else if i.synthetic {
        ImplKind::Auto
    } else if i.blanket_impl.is_some() {
        ImplKind::Blanket
    } else {
        ImplKind::Trait
    }
}


/// The invariant promised of a well-formed document: its root identifier is
/// present in `index` and names a module.
pub open spec fn spec_well_formed(c: CrateV) -> bool {
    match spec_lookup(c.index, c.root) {
        Some(it) => it.kind == ItemKind::Module,
        None => false,
    }
}

impl Crate {

    /// Whether the document keeps the root invariant: `root` resolves to an
    /// item whose kind is a module.
    pub fn is_well_formed(&self) -> (r: bool)
        ensures
            r == spec_well_formed(self@),
    {
        match self.lookup(&self.root) {
            Some(it) => it.kind == ItemKind::Module,
            None => false,
        }
    }

    /// Exact-match lookup in `index`; nothing means the identifier is unknown
    /// here, which this format treats as ordinary.
    pub fn lookup(&self, id: &Id) -> (r: Option<&Item>)
        ensures
            match r {
                Some(it) => spec_lookup(self@.index, id@) == Some(it@),
                None => spec_lookup(self@.index, id@) is None,
            },
    {
        let mut i: usize = 0;
        proof {
            assert(self@.index.skip(0) =~= self@.index);
        }
        while i < self.index.len()
            invariant
                0 <= i <= self.index.len(),
                self@.index.len() == self.index@.len(),
                spec_lookup(self@.index, id@) == spec_lookup(
                    self@.index.skip(i as int),
                    id@,
                ),
            decreases self.index.len() - i,
        {
            proof {
                assert(self@.index.skip(i as int)[0] == self@.index[i as int]);
            }
            if self.index[i].0.0.eq(&id.0) {
                return Some(&self.index[i].1);
            }
            proof {
                assert(self@.index.skip(i as int).drop_first() =~= self@.index.skip(i as int + 1));
            }
            i = i + 1;
        }
        None
    }

    /// Lookup in `paths`, independently optional from [`Crate::lookup`].
    pub fn summary(&self, id: &Id) -> (r: Option<&ItemSummary>)
        ensures
            match r {
                Some(su) => spec_summary(self@.paths, id@) == Some(su@),
                None => spec_summary(self@.paths, id@) is None,
            },
    {
        let mut i: usize = 0;
        proof {
            assert(self@.paths.skip(0) =~= self@.paths);
        }
        while i < self.paths.len()
            invariant
                0 <= i <= self.paths.len(),
                self@.paths.len() == self.paths@.len(),
                spec_summary(self@.paths, id@) == spec_summary(
                    self@.paths.skip(i as int),
                    id@,
                ),
            decreases self.paths.len() - i,
        {
            proof {
                assert(self@.paths.skip(i as int)[0] == self@.paths[i as int]);
            }
            if self.paths[i].0.0.eq(&id.0) {
                return Some(&self.paths[i].1);
            }
            proof {
                assert(self@.paths.skip(i as int).drop_first() =~= self@.paths.skip(i as int + 1));
            }
            i = i + 1;
        }
        None
    }

    /// The parent path of an item: its summary's path without the final
    /// segment, empty when no summary exists.
    pub fn parent_path(&self, id: &Id) -> (r: Vec<String>)
        ensures
            crate::types::view_strings(r@) == spec_parent_path(self@, id@),
    {
        let mut out: Vec<String> = Vec::new();
        proof {
            assert(crate::types::view_strings(out@) =~= Seq::<Seq<char>>::empty());
        }
        match self.summary(id) {
            None => out,
            Some(su) => {
                if su.path.len() == 0 {
                    return out;
                }
                let n = su.path.len() - 1;
                let mut i: usize = 0;
                while i < n
                    invariant
                        0 <= i <= n,
                        n == su.path@.len() - 1,
                        out@.len() == i as int,
                        forall|k: int| 0 <= k < i ==> (#[trigger] out@[k])@ == su.path@[k]@,
                    decreases n - i,
                {
                    out.push(su.path[i].clone());
                    i = i + 1;
                }
                proof {
                    assert(crate::types::view_strings(out@) =~= su@.path.drop_last());
                }
                out
            },
        }
    }

    /// The container's declared children that resolve to an item of the
    /// requested kind, in their original relative order. Dangling identifiers
    /// are skipped silently: stripped and cross-crate children are expected
    /// here.
    pub fn children_of_kind<'a>(&'a self, container_id: &Id, kind: ItemKind) -> (r: Vec<&'a Item>)
        ensures
            view_item_refs(r@) == spec_children_of_kind(self@, container_id@, kind),
    {
        let mut out: Vec<&'a Item> = Vec::new();
        proof {
            assert(view_item_refs(out@) =~= Seq::<ItemV>::empty());
        }
        let container = match self.lookup(container_id) {
            Some(c) => c,
            None => {
                return out;
            },
        };
        let ids: &Vec<Id> = match &container.inner {
            ItemEnum::ModuleItem(m) => &m.items,
            ItemEnum::StructItem(s) => &s.fields,
            ItemEnum::EnumItem(e) => &e.variants,
            ItemEnum::ImplItem(i) => &i.items,
            _ => {
                return out;
            },
        };
        let ghost idsv = view_ids(ids@);
        let mut i: usize = 0;
        proof {
            assert(idsv.take(0) =~= Seq::<Seq<char>>::empty());
        }
        while i < ids.len()
            invariant
                0 <= i <= ids.len(),
                idsv == view_ids(ids@),
                idsv.len() == ids@.len(),
                view_item_refs(out@) == spec_filter_children(self@, idsv.take(i as int), kind),
            decreases ids.len() - i,
        {
            let ghost prev = out@;
            match self.lookup(&ids[i]) {
                Some(it) => {
                    if it.kind == kind {
                        out.push(it);
                    }
                },
                None => {},
            }
            proof {
                assert(idsv.take(i as int + 1).drop_last() =~= idsv.take(i as int));
                assert(idsv.take(i as int + 1).last() == idsv[i as int]);
                if out@.len() > prev.len() {
                    assert(view_item_refs(out@) =~= view_item_refs(prev).push(out@.last()@));
                } else {
                    assert(view_item_refs(out@) =~= view_item_refs(prev));
                }
            }
            i = i + 1;
        }
        proof {
            assert(idsv.take(ids@.len() as int) =~= idsv);
        }
        out
    }
}

} // verus!
