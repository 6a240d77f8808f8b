//! The display model: flat, self-contained snapshots of one entity and its
//! surroundings, materialized from a decoded [`Crate`] by the navigation
//! state in [`Delegate`]. Everything a presentation layer shows of a screen
//! is in these values; the raw documentation markup travels along unparsed.

use crate::clone_impls::{arc_clone, clone_strings};
use crate::query::{spec_lookup, spec_summary};
use crate::types::{
    view_ids, view_strings, Crate, CrateV, FnDecl, FnDeclV, Generics, GenericsV, Id, ItemEnum,
    ItemEnumV, ItemKind, ItemSummary, ItemSummaryV, ItemV as SchemaItemV, Qualifiers, Type,
    TypeV,
};
use std::sync::Arc;
use vstd::prelude::*;

verus! {

broadcast use crate::types::group_view_lemmas;

// ---------------------------------------------------------------------------
// The first line of a documentation string.
// ---------------------------------------------------------------------------

/// How many characters the first line of `d` has, up to but not including a
/// newline.
pub open spec fn spec_line_len(d: Seq<char>) -> int
    decreases d.len(),
{
    if d.len() == 0 {
        0
    } else if d[0] == '\n' {
        0
    } else {
        1 + spec_line_len(d.drop_first())
    }
}

proof fn lemma_line_len_at(d: Seq<char>, i: int)
    requires
        0 <= i <= d.len(),
        forall|k: int| 0 <= k < i ==> #[trigger] d[k] != '\n',
        i == d.len() || d[i] == '\n',
    ensures
        spec_line_len(d) == i,
    decreases i,
{
    if i == 0 {
    } else {
        assert(d[0] != '\n');
        lemma_line_len_at(d.drop_first(), i - 1);
    }
}

/// The first line of a documentation string, with a trailing carriage return
/// removed; nothing when the string is empty.
pub open spec fn spec_first_line(d: Seq<char>) -> Option<Seq<char>> {
    if d.len() == 0 {
        None
    } else {
        let line = d.take(spec_line_len(d));
        if line.len() > 0 && line.last() == '\r' {
            Some(line.drop_last())
        } else {
            Some(line)
        }
    }
}

/// The first line of a string, as its own fresh value.
pub fn first_line(s: &str) -> (r: Option<String>)
    ensures
        match r {
            Some(l) => spec_first_line(s@) == Some(l@),
            None => spec_first_line(s@) is None,
        },
{
    let n = s.unicode_len();
    if n == 0 {
        return None;
    }
    let mut i: usize = 0;
    let mut end = n;
    let mut found = false;
    while i < n && !found
        invariant
            0 <= i <= n,
            n == s@.len(),
            forall|k: int| 0 <= k < i ==> #[trigger] s@[k] != '\n',
            found ==> i < n && s@[i as int] == '\n' && end == i,
            !found ==> end == n,
        decreases n - i, (if found { 0int } else { 1int }),
    {
        let c = s.get_char(i);
        if c == '\n' {
            found = true;
            end = i;
        } else {
            i = i + 1;
        }
    }
    proof {
        lemma_line_len_at(s@, end as int);
    }
    if end > 0 && s.get_char(end - 1) == '\r' {
        end = end - 1;
        let line = s.substring_char(0, end);
        proof {
            assert(line@ =~= s@.take(spec_line_len(s@)).drop_last());
        }
        Some(line.to_owned())
    } else {
        let line = s.substring_char(0, end);
        proof {
            assert(line@ =~= s@.take(spec_line_len(s@)));
        }
        Some(line.to_owned())
    }
}

// ---------------------------------------------------------------------------
// The display types.
// ---------------------------------------------------------------------------

pub struct ItemV {
    pub name: Seq<char>,
    pub parents: Seq<Seq<char>>,
    pub id: Seq<char>,
    pub short_doc: Option<Seq<char>>,
    pub doc: Option<Seq<char>>,
}

/// The display header of one entity: its name, the path of its parents, and
/// its documentation, raw and as a one-line summary.
#[derive(Debug, PartialEq)]
pub struct Item {
    pub name: String,
    pub parents: Vec<String>,
    pub id: Id,
    pub short_doc: Option<String>,
    /// The full raw markup, shared with the decoded item.
    pub doc: Option<Arc<String>>,
}

impl View for Item {
    type V = ItemV;

    open spec fn view(&self) -> ItemV {
        ItemV {
            name: self.name@,
            parents: view_strings(self.parents@),
            id: self.id@,
            short_doc: match self.short_doc {
                Some(s) => Some(s@),
                None => None,
            },
            doc: match self.doc {
                Some(d) => Some(d@),
                None => None,
            },
        }
    }
}

pub struct FieldV {
    pub item: ItemV,
    pub ty: TypeV,
}

#[derive(Debug, PartialEq)]
pub struct Field {
    pub item: Item,
    pub ty: Type,
}

impl View for Field {
    type V = FieldV;

    open spec fn view(&self) -> FieldV {
        FieldV { item: self.item@, ty: self.ty@ }
    }
}

pub struct FnV {
    pub item: ItemV,
    pub decl: FnDeclV,
    pub generics: GenericsV,
    pub header: Seq<Qualifiers>,
    pub abi: Seq<char>,
}

#[derive(Debug, PartialEq)]
pub struct Fn {
    pub item: Item,
    pub decl: FnDecl,
    pub generics: Generics,
    pub header: Vec<Qualifiers>,
    pub abi: String,
}

impl View for Fn {
    type V = FnV;

    open spec fn view(&self) -> FnV {
        FnV {
            item: self.item@,
            decl: self.decl@,
            generics: self.generics@,
            header: self.header@,
            abi: self.abi@,
        }
    }
}

pub enum VariantInnerV {
    Plain,
    Tuple(Seq<TypeV>),
    Struct(Seq<FieldV>),
}

#[derive(Debug, PartialEq)]
pub enum VariantInner {
    Plain,
    Tuple(Vec<Type>),
    Struct(Vec<Field>),
}

pub open spec fn view_fields(s: Seq<Field>) -> Seq<FieldV> {
    Seq::new(s.len(), |i: int| s[i]@)
}

impl View for VariantInner {
    type V = VariantInnerV;

    open spec fn view(&self) -> VariantInnerV {
        match self {
            VariantInner::Plain => VariantInnerV::Plain,
            VariantInner::Tuple(ts) => VariantInnerV::Tuple(crate::types::view_types(ts@)),
            VariantInner::Struct(fs) => VariantInnerV::Struct(view_fields(fs@)),
        }
    }
}

pub struct VariantV {
    pub item: ItemV,
    pub inner: VariantInnerV,
}

#[derive(Debug, PartialEq)]
pub struct Variant {
    pub item: Item,
    pub inner: VariantInner,
}

impl View for Variant {
    type V = VariantV;

    open spec fn view(&self) -> VariantV {
        VariantV { item: self.item@, inner: self.inner@ }
    }
}

pub struct ImplV {
    pub item: ItemV,
    pub is_unsafe: bool,
    pub generics: GenericsV,
    pub provided_trait_methods: Seq<Seq<char>>,
    pub trait_: Option<TypeV>,
    pub for_: TypeV,
    pub fns: Seq<FnV>,
    pub negative: bool,
    pub synthetic: bool,
    pub blanket_impl: Option<TypeV>,
}

pub open spec fn view_fns(s: Seq<Fn>) -> Seq<FnV> {
    Seq::new(s.len(), |i: int| s[i]@)
}

#[derive(Debug, PartialEq)]
pub struct Impl {
    pub item: Item,
    pub is_unsafe: bool,
    pub generics: Generics,
    pub provided_trait_methods: Vec<String>,
    pub trait_: Option<Type>,
    pub for_: Type,
    /// The functions declared inside the impl block, resolved and flattened.
    pub fns: Vec<Fn>,
    pub negative: bool,
    pub synthetic: bool,
    pub blanket_impl: Option<Type>,
}

impl View for Impl {
    type V = ImplV;

    open spec fn view(&self) -> ImplV {
        ImplV {
            item: self.item@,
            is_unsafe: self.is_unsafe,
            generics: self.generics@,
            provided_trait_methods: view_strings(self.provided_trait_methods@),
            trait_: crate::types::view_plain_opt_type(self.trait_),
            for_: self.for_@,
            fns: view_fns(self.fns@),
            negative: self.negative,
            synthetic: self.synthetic,
            blanket_impl: crate::types::view_plain_opt_type(self.blanket_impl),
        }
    }
}

pub open spec fn view_impls(s: Seq<Impl>) -> Seq<ImplV> {
    Seq::new(s.len(), |i: int| s[i]@)
}

pub open spec fn view_data_items(s: Seq<Item>) -> Seq<ItemV> {
    Seq::new(s.len(), |i: int| s[i]@)
}

pub open spec fn view_variants(s: Seq<Variant>) -> Seq<VariantV> {
    Seq::new(s.len(), |i: int| s[i]@)
}

pub struct ModV {
    pub item: ItemV,
    pub structs: Seq<ItemV>,
    pub enums: Seq<ItemV>,
    pub traits: Seq<ItemV>,
    pub mods: Seq<ItemV>,
    pub fns: Seq<ItemV>,
}

/// A module screen: the module's own header plus its children of each listed
/// kind.
#[derive(Debug, PartialEq)]
pub struct Mod {
    pub item: Item,
    pub structs: Vec<Item>,
    pub enums: Vec<Item>,
    pub traits: Vec<Item>,
    pub mods: Vec<Item>,
    pub fns: Vec<Item>,
}

impl View for Mod {
    type V = ModV;

    open spec fn view(&self) -> ModV {
        ModV {
            item: self.item@,
            structs: view_data_items(self.structs@),
            enums: view_data_items(self.enums@),
            traits: view_data_items(self.traits@),
            mods: view_data_items(self.mods@),
            fns: view_data_items(self.fns@),
        }
    }
}

pub struct StructV {
    pub item: ItemV,
    pub generics: GenericsV,
    pub fields: Seq<FieldV>,
    pub impls: Seq<ImplV>,
    pub trait_impls: Seq<ImplV>,
    pub auto_impls: Seq<ImplV>,
}

/// A struct screen: header, generics, resolved fields, and its impl blocks
/// grouped as inherent, ordinary-trait and auto-trait.
#[derive(Debug, PartialEq)]
pub struct Struct {
    pub item: Item,
    pub generics: Generics,
    pub fields: Vec<Field>,
    pub impls: Vec<Impl>,
    pub trait_impls: Vec<Impl>,
    pub auto_impls: Vec<Impl>,
}

impl View for Struct {
    type V = StructV;

    open spec fn view(&self) -> StructV {
        StructV {
            item: self.item@,
            generics: self.generics@,
            fields: view_fields(self.fields@),
            impls: view_impls(self.impls@),
            trait_impls: view_impls(self.trait_impls@),
            auto_impls: view_impls(self.auto_impls@),
        }
    }
}

pub struct EnumV {
    pub item: ItemV,
    pub generics: GenericsV,
    pub variants: Seq<VariantV>,
    pub impls: Seq<ImplV>,
    pub trait_impls: Seq<ImplV>,
    pub auto_impls: Seq<ImplV>,
}

#[derive(Debug, PartialEq)]
pub struct Enum {
    pub item: Item,
    pub generics: Generics,
    pub variants: Vec<Variant>,
    pub impls: Vec<Impl>,
    pub trait_impls: Vec<Impl>,
    pub auto_impls: Vec<Impl>,
}

impl View for Enum {
    type V = EnumV;

    open spec fn view(&self) -> EnumV {
        EnumV {
            item: self.item@,
            generics: self.generics@,
            variants: view_variants(self.variants@),
            impls: view_impls(self.impls@),
            trait_impls: view_impls(self.trait_impls@),
            auto_impls: view_impls(self.auto_impls@),
        }
    }
}

pub enum ScreenV {
    Mod(ModV),
    Struct(StructV),
    Enum(EnumV),
    Fn(FnV),
}

/// One materialized view of the current entity.
#[derive(Debug, PartialEq)]
pub enum Screen {
    Mod(Mod),
    Struct(Struct),
    Enum(Enum),
    Fn(Fn),
}

impl View for Screen {
    type V = ScreenV;

    open spec fn view(&self) -> ScreenV {
        match self {
            Screen::Mod(m) => ScreenV::Mod(m@),
            Screen::Struct(s) => ScreenV::Struct(s@),
            Screen::Enum(e) => ScreenV::Enum(e@),
            Screen::Fn(f) => ScreenV::Fn(f@),
        }
    }
}

// ---------------------------------------------------------------------------
// Building the display model.
// ---------------------------------------------------------------------------

pub open spec fn view_opt_sum_ref(s: Option<&ItemSummary>) -> Option<ItemSummaryV> {
    match s {
        Some(x) => Some(x@),
        None => None,
    }
}

/// The display header of one decoded item: name (an underscore for anonymous
/// items), parent path from the summary when one is known, the first line of
/// the docs, and the docs themselves.
pub open spec fn spec_item_to_data(it: SchemaItemV, s: Option<ItemSummaryV>) -> ItemV {
    ItemV {
        name: match it.name {
            Some(n) => n,
            None => "_"@,
        },
        parents: match s {
            Some(su) => if su.path.len() == 0 {
                Seq::empty()
            } else {
                su.path.drop_last()
            },
            None => Seq::empty(),
        },
        id: it.id,
        short_doc: match it.docs {
            Some(d) => spec_first_line(d),
            None => None,
        },
        doc: it.docs,
    }
}

pub fn item_to_data(item: &crate::types::Item, s: Option<&ItemSummary>) -> (r: Item)
    ensures
        r@ == spec_item_to_data(item@, view_opt_sum_ref(s)),
{
    let name: String = match &item.name {
        Some(n) => n.clone(),
        None => "_".to_owned(),
    };
    let mut parents: Vec<String> = Vec::new();
    proof {
        assert(view_strings(parents@) =~= Seq::<Seq<char>>::empty());
    }
    match s {
        Some(su) => {
            if su.path.len() > 0 {
                let n = su.path.len() - 1;
                let mut i: usize = 0;
                while i < n
                    invariant
                        0 <= i <= n,
                        n == su.path@.len() - 1,
                        parents@.len() == i as int,
                        forall|k: int| 0 <= k < i ==> (#[trigger] parents@[k])@ == su.path@[k]@,
                    decreases n - i,
                {
                    parents.push(su.path[i].clone());
                    i = i + 1;
                }
                proof {
                    assert(view_strings(parents@) =~= su@.path.drop_last());
                }
            }
        },
        None => {},
    }
    let short_doc: Option<String> = match &item.docs {
        Some(d) => first_line(d.as_str()),
        None => None,
    };
    let doc: Option<Arc<String>> = match &item.docs {
        Some(d) => Some(arc_clone(d)),
        None => None,
    };
    Item { name, parents, id: item.id.clone(), short_doc, doc }
}

/// The members of a child list that resolve to an item of the given kind,
/// rendered as display headers, in their original relative order; dangling
/// identifiers are skipped.
pub open spec fn spec_items_of_kind(c: CrateV, ids: Seq<Seq<char>>, kind: ItemKind) -> Seq<ItemV>
    decreases ids.len(),
{
    if ids.len() == 0 {
        Seq::empty()
    } else {
        let rest = spec_items_of_kind(c, ids.drop_last(), kind);
        match spec_lookup(c.index, ids.last()) {
            Some(it) => if it.kind == kind {
                rest.push(spec_item_to_data(it, spec_summary(c.paths, ids.last())))
            } else {
                rest
            },
            None => rest,
        }
    }
}

fn items_of_kind(krate: &Crate, ids: &Vec<Id>, kind: ItemKind) -> (r: Vec<Item>)
    ensures
        view_data_items(r@) == spec_items_of_kind(krate@, view_ids(ids@), kind),
{
    let ghost idsv = view_ids(ids@);
    let mut out: Vec<Item> = Vec::new();
    let mut i: usize = 0;
    proof {
        assert(idsv.take(0) =~= Seq::<Seq<char>>::empty());
        assert(view_data_items(out@) =~= Seq::<ItemV>::empty());
    }
    while i < ids.len()
        invariant
            0 <= i <= ids.len(),
            idsv == view_ids(ids@),
            idsv.len() == ids@.len(),
            view_data_items(out@) == spec_items_of_kind(krate@, idsv.take(i as int), kind),
        decreases ids.len() - i,
    {
        let ghost prev = out@;
        match krate.lookup(&ids[i]) {
            Some(it) => {
                if it.kind == kind {
                    let s = krate.summary(&ids[i]);
                    out.push(item_to_data(it, s));
                }
            },
            None => {},
        }
        proof {
            assert(idsv.take(i as int + 1).drop_last() =~= idsv.take(i as int));
            assert(idsv.take(i as int + 1).last() == idsv[i as int]);
            if out@.len() > prev.len() {
                assert(view_data_items(out@) =~= view_data_items(prev).push(out@.last()@));
            } else {
                assert(view_data_items(out@) =~= view_data_items(prev));
            }
        }
        i = i + 1;
    }
    proof {
        assert(idsv.take(ids@.len() as int) =~= idsv);
    }
    out
}

/// The members of a field list that resolve to struct fields, with their
/// types; anything else is skipped.
pub open spec fn spec_fields_of(c: CrateV, ids: Seq<Seq<char>>) -> Seq<FieldV>
    decreases ids.len(),
{
    if ids.len() == 0 {
        Seq::empty()
    } else {
        let rest = spec_fields_of(c, ids.drop_last());
        match spec_lookup(c.index, ids.last()) {
            Some(it) => match it.inner {
                ItemEnumV::StructFieldItem(ty) => rest.push(
                    FieldV {
                        item: spec_item_to_data(it, spec_summary(c.paths, ids.last())),
                        ty,
                    },
                ),
                _ => rest,
            },
            None => rest,
        }
    }
}

fn fields_of(krate: &Crate, ids: &Vec<Id>) -> (r: Vec<Field>)
    ensures
        view_fields(r@) == spec_fields_of(krate@, view_ids(ids@)),
{
    let ghost idsv = view_ids(ids@);
    let mut out: Vec<Field> = Vec::new();
    let mut i: usize = 0;
    proof {
        assert(idsv.take(0) =~= Seq::<Seq<char>>::empty());
        assert(view_fields(out@) =~= Seq::<FieldV>::empty());
    }
    while i < ids.len()
        invariant
            0 <= i <= ids.len(),
            idsv == view_ids(ids@),
            idsv.len() == ids@.len(),
            view_fields(out@) == spec_fields_of(krate@, idsv.take(i as int)),
        decreases ids.len() - i,
    {
        let ghost prev = out@;
        match krate.lookup(&ids[i]) {
            Some(it) => {
                match &it.inner {
                    ItemEnum::StructFieldItem(ty) => {
                        let s = krate.summary(&ids[i]);
                        out.push(Field { item: item_to_data(it, s), ty: ty.clone() });
                    },
                    _ => {},
                }
            },
            None => {},
        }
        proof {
            assert(idsv.take(i as int + 1).drop_last() =~= idsv.take(i as int));
            assert(idsv.take(i as int + 1).last() == idsv[i as int]);
            if out@.len() > prev.len() {
                assert(view_fields(out@) =~= view_fields(prev).push(out@.last()@));
            } else {
                assert(view_fields(out@) =~= view_fields(prev));
            }
        }
        i = i + 1;
    }
    proof {
        assert(idsv.take(ids@.len() as int) =~= idsv);
    }
    out
}

/// The display form of one function item.
pub open spec fn spec_fn_data(c: CrateV, id: Seq<char>, it: SchemaItemV, f: crate::types::FunctionV) -> FnV {
    FnV {
        item: spec_item_to_data(it, spec_summary(c.paths, id)),
        decl: f.decl,
        generics: f.generics,
        header: f.header,
        abi: f.abi,
    }
}

/// The members of an impl's item list that resolve to functions.
pub open spec fn spec_fns_of(c: CrateV, ids: Seq<Seq<char>>) -> Seq<FnV>
    decreases ids.len(),
{
    if ids.len() == 0 {
        Seq::empty()
    } else {
        let rest = spec_fns_of(c, ids.drop_last());
        match spec_lookup(c.index, ids.last()) {
            Some(it) => match it.inner {
                ItemEnumV::FunctionItem(f) => rest.push(spec_fn_data(c, ids.last(), it, f)),
                _ => rest,
            },
            None => rest,
        }
    }
}

fn item_to_fn(krate: &Crate, id: &Id, it: &crate::types::Item, f: &crate::types::Function) -> (r:
    Fn)
    requires
        it@.inner matches ItemEnumV::FunctionItem(ff) && ff == f@,
    ensures
        r@ == spec_fn_data(krate@, id@, it@, f@),
{
    let s = krate.summary(id);
    let h = f.header.clone();
    proof {
        assert(h@ =~= f.header@);
    }
    Fn {
        item: item_to_data(it, s),
        decl: f.decl.clone(),
        generics: f.generics.clone(),
        header: h,
        abi: f.abi.clone(),
    }
}

fn fns_of(krate: &Crate, ids: &Vec<Id>) -> (r: Vec<Fn>)
    ensures
        view_fns(r@) == spec_fns_of(krate@, view_ids(ids@)),
{
    let ghost idsv = view_ids(ids@);
    let mut out: Vec<Fn> = Vec::new();
    let mut i: usize = 0;
    proof {
        assert(idsv.take(0) =~= Seq::<Seq<char>>::empty());
        assert(view_fns(out@) =~= Seq::<FnV>::empty());
    }
    while i < ids.len()
        invariant
            0 <= i <= ids.len(),
            idsv == view_ids(ids@),
            idsv.len() == ids@.len(),
            view_fns(out@) == spec_fns_of(krate@, idsv.take(i as int)),
        decreases ids.len() - i,
    {
        let ghost prev = out@;
        match krate.lookup(&ids[i]) {
            Some(it) => {
                match &it.inner {
                    ItemEnum::FunctionItem(f) => {
                        out.push(item_to_fn(krate, &ids[i], it, f));
                    },
                    _ => {},
                }
            },
            None => {},
        }
        proof {
            assert(idsv.take(i as int + 1).drop_last() =~= idsv.take(i as int));
            assert(idsv.take(i as int + 1).last() == idsv[i as int]);
            if out@.len() > prev.len() {
                assert(view_fns(out@) =~= view_fns(prev).push(out@.last()@));
            } else {
                assert(view_fns(out@) =~= view_fns(prev));
            }
        }
        i = i + 1;
    }
    proof {
        assert(idsv.take(ids@.len() as int) =~= idsv);
    }
    out
}

/// One impl identifier resolved to its display form, when it names an impl
/// item.
pub open spec fn spec_impl_of(c: CrateV, id: Seq<char>) -> Option<ImplV> {
    match spec_lookup(c.index, id) {
        Some(it) => match it.inner {
            ItemEnumV::ImplItem(im) => Some(
                ImplV {
                    item: spec_item_to_data(it, spec_summary(c.paths, id)),
                    is_unsafe: im.is_unsafe,
                    generics: im.generics,
                    provided_trait_methods: im.provided_trait_methods,
                    trait_: im.trait_,
                    for_: im.for_,
                    fns: spec_fns_of(c, im.items),
                    negative: im.negative,
                    synthetic: im.synthetic,
                    blanket_impl: im.blanket_impl,
                },
            ),
            _ => None,
        },
        None => None,
    }
}

fn impl_of(krate: &Crate, id: &Id) -> (r: Option<Impl>)
    ensures
        match r {
            Some(im) => spec_impl_of(krate@, id@) == Some(im@),
            None => spec_impl_of(krate@, id@) is None,
        },
{
    match krate.lookup(id) {
        Some(it) => match &it.inner {
            ItemEnum::ImplItem(im) => {
                let s = krate.summary(id);
                let tr = match &im.trait_ {
                    Some(t) => Some(t.clone()),
                    None => None,
                };
                let bl = match &im.blanket_impl {
                    Some(t) => Some(t.clone()),
                    None => None,
                };
                Some(
                    Impl {
                        item: item_to_data(it, s),
                        is_unsafe: im.is_unsafe,
                        generics: im.generics.clone(),
                        provided_trait_methods: clone_strings(&im.provided_trait_methods),
                        trait_: tr,
                        for_: im.for_.clone(),
                        fns: fns_of(krate, &im.items),
                        negative: im.negative,
                        synthetic: im.synthetic,
                        blanket_impl: bl,
                    },
                )
            },
            _ => None,
        },
        None => None,
    }
}

/// Which of the three display groups an impl belongs to. The groups follow
/// the fixed classification priority — an absent trait wins over the
/// synthetic mark — so they partition the resolved impls: no trait at all is
/// inherent; a trait with the synthetic mark is an auto impl; any other trait
/// impl (blanket ones included) is an ordinary trait impl.
#[derive(Debug, Copy, PartialEq, Eq, Structural)]
pub enum ImplGroup {
    Inherent,
    TraitGroup,
    Auto,
}

impl Clone for ImplGroup {
    fn clone(&self) -> (r: Self)
        ensures
            r == *self,
    {
        *self
    }
}

pub open spec fn spec_in_group(im: ImplV, group: ImplGroup) -> bool {
    match group {
        ImplGroup::Inherent => im.trait_ is None,
        ImplGroup::TraitGroup => im.trait_ is Some && !im.synthetic,
        ImplGroup::Auto => im.trait_ is Some && im.synthetic,
    }
}

/// The impls among `ids` that resolve and fall in `group`, in order.
pub open spec fn spec_impls_of(c: CrateV, ids: Seq<Seq<char>>, group: ImplGroup) -> Seq<ImplV>
    decreases ids.len(),
{
    if ids.len() == 0 {
        Seq::empty()
    } else {
        let rest = spec_impls_of(c, ids.drop_last(), group);
        match spec_impl_of(c, ids.last()) {
            Some(im) => if spec_in_group(im, group) {
                rest.push(im)
            } else {
                rest
            },
            None => rest,
        }
    }
}

fn impls_of(krate: &Crate, ids: &Vec<Id>, group: ImplGroup) -> (r: Vec<Impl>)
    ensures
        view_impls(r@) == spec_impls_of(krate@, view_ids(ids@), group),
{
    let ghost idsv = view_ids(ids@);
    let mut out: Vec<Impl> = Vec::new();
    let mut i: usize = 0;
    proof {
        assert(idsv.take(0) =~= Seq::<Seq<char>>::empty());
        assert(view_impls(out@) =~= Seq::<ImplV>::empty());
    }
    while i < ids.len()
        invariant
            0 <= i <= ids.len(),
            idsv == view_ids(ids@),
            idsv.len() == ids@.len(),
            view_impls(out@) == spec_impls_of(krate@, idsv.take(i as int), group),
        decreases ids.len() - i,
    {
        let ghost prev = out@;
        match impl_of(krate, &ids[i]) {
            Some(im) => {
                let keep = match group {
                    ImplGroup::Inherent => im.trait_.is_none(),
                    ImplGroup::TraitGroup => im.trait_.is_some() && !im.synthetic,
                    ImplGroup::Auto => im.trait_.is_some() && im.synthetic,
                };
                if keep {
                    out.push(im);
                }
            },
            None => {},
        }
        proof {
            assert(idsv.take(i as int + 1).drop_last() =~= idsv.take(i as int));
            assert(idsv.take(i as int + 1).last() == idsv[i as int]);
            if out@.len() > prev.len() {
                assert(view_impls(out@) =~= view_impls(prev).push(out@.last()@));
            } else {
                assert(view_impls(out@) =~= view_impls(prev));
            }
        }
        i = i + 1;
    }
    proof {
        assert(idsv.take(ids@.len() as int) =~= idsv);
    }
    out
}

/// The members of a variant list that resolve to enum variants, with their
/// shapes; struct-shaped variants resolve their fields in turn.
pub open spec fn spec_variants_of(c: CrateV, ids: Seq<Seq<char>>) -> Seq<VariantV>
    decreases ids.len(),
{
    if ids.len() == 0 {
        Seq::empty()
    } else {
        let rest = spec_variants_of(c, ids.drop_last());
        match spec_lookup(c.index, ids.last()) {
            Some(it) => match it.inner {
                ItemEnumV::VariantItem(v) => rest.push(
                    VariantV {
                        item: spec_item_to_data(it, spec_summary(c.paths, ids.last())),
                        inner: match v {
                            crate::types::VariantV::Plain => VariantInnerV::Plain,
                            crate::types::VariantV::Tuple(ts) => VariantInnerV::Tuple(ts),
                            crate::types::VariantV::Struct(fids) => VariantInnerV::Struct(
                                spec_fields_of(c, fids),
                            ),
                        },
                    },
                ),
                _ => rest,
            },
            None => rest,
        }
    }
}

fn variants_of(krate: &Crate, ids: &Vec<Id>) -> (r: Vec<Variant>)
    ensures
        view_variants(r@) == spec_variants_of(krate@, view_ids(ids@)),
{
    let ghost idsv = view_ids(ids@);
    let mut out: Vec<Variant> = Vec::new();
    let mut i: usize = 0;
    proof {
        assert(idsv.take(0) =~= Seq::<Seq<char>>::empty());
        assert(view_variants(out@) =~= Seq::<VariantV>::empty());
    }
    while i < ids.len()
        invariant
            0 <= i <= ids.len(),
            idsv == view_ids(ids@),
            idsv.len() == ids@.len(),
            view_variants(out@) == spec_variants_of(krate@, idsv.take(i as int)),
        decreases ids.len() - i,
    {
        let ghost prev = out@;
        match krate.lookup(&ids[i]) {
            Some(it) => {
                match &it.inner {
                    ItemEnum::VariantItem(v) => {
                        let s = krate.summary(&ids[i]);
                        let inner = match v {
                            crate::types::Variant::Plain => VariantInner::Plain,
                            crate::types::Variant::Tuple(ts) => VariantInner::Tuple(
                                crate::clone_impls::clone_types_vec(ts),
                            ),
                            crate::types::Variant::Struct(fids) => VariantInner::Struct(
                                fields_of(krate, fids),
                            ),
                        };
                        out.push(Variant { item: item_to_data(it, s), inner });
                    },
                    _ => {},
                }
            },
            None => {},
        }
        proof {
            assert(idsv.take(i as int + 1).drop_last() =~= idsv.take(i as int));
            assert(idsv.take(i as int + 1).last() == idsv[i as int]);
            if out@.len() > prev.len() {
                assert(view_variants(out@) =~= view_variants(prev).push(out@.last()@));
            } else {
                assert(view_variants(out@) =~= view_variants(prev));
            }
        }
        i = i + 1;
    }
    proof {
        assert(idsv.take(ids@.len() as int) =~= idsv);
    }
    out
}

// ---------------------------------------------------------------------------
// The navigation state and the screens it materializes.
// ---------------------------------------------------------------------------

/// What the screen for an entity shows, as a function of the decoded document
/// and the current identifier: nothing for an identifier that does not
/// resolve, or whose item has no screen of its own.
pub open spec fn spec_screen(c: CrateV, cur: Seq<char>) -> Option<ScreenV> {
    match spec_lookup(c.index, cur) {
        None => None,
        Some(it) => {
            let header = spec_item_to_data(it, spec_summary(c.paths, cur));
            match it.inner {
                ItemEnumV::ModuleItem(m) => Some(
                    ScreenV::Mod(
                        ModV {
                            item: header,
                            structs: spec_items_of_kind(c, m.items, ItemKind::Struct),
                            enums: spec_items_of_kind(c, m.items, ItemKind::Enum),
                            traits: spec_items_of_kind(c, m.items, ItemKind::Trait),
                            mods: spec_items_of_kind(c, m.items, ItemKind::Module),
                            fns: spec_items_of_kind(c, m.items, ItemKind::Function),
                        },
                    ),
                ),
                ItemEnumV::StructItem(s) => Some(
                    ScreenV::Struct(
                        StructV {
                            item: header,
                            generics: s.generics,
                            fields: spec_fields_of(c, s.fields),
                            impls: spec_impls_of(c, s.impls, ImplGroup::Inherent),
                            trait_impls: spec_impls_of(c, s.impls, ImplGroup::TraitGroup),
                            auto_impls: spec_impls_of(c, s.impls, ImplGroup::Auto),
                        },
                    ),
                ),
                ItemEnumV::EnumItem(e) => Some(
                    ScreenV::Enum(
                        EnumV {
                            item: header,
                            generics: e.generics,
                            variants: spec_variants_of(c, e.variants),
                            impls: spec_impls_of(c, e.impls, ImplGroup::Inherent),
                            trait_impls: spec_impls_of(c, e.impls, ImplGroup::TraitGroup),
                            auto_impls: spec_impls_of(c, e.impls, ImplGroup::Auto),
                        },
                    ),
                ),
                ItemEnumV::FunctionItem(f) => Some(ScreenV::Fn(spec_fn_data(c, cur, it, f))),
                _ => None,
            }
        },
    }
}

/// The navigation state: one decoded document and the identifier currently in
/// view. The document itself is never changed; loading another document means
/// building a fresh [`Delegate`].
pub struct Delegate {
    pub krate: Crate,
    pub current: Id,
}

impl Delegate {
    /// Starts at the document's root module.
    pub fn new(krate: Crate) -> (d: Delegate)
        ensures
            d.krate == krate,
            d.current@ == krate.root@,
    {
        let current = krate.root.clone();
        Delegate { krate, current }
    }

    /// Moves the view to another identifier, leaving the document as it is.
    pub fn goto(&mut self, id: Id)
        ensures
            final(self).krate == old(self).krate,
            final(self).current == id,
    {
        self.current = id;
    }

    /// Materializes the screen for the current identifier: nothing when the
    /// identifier is unknown or its item kind has no screen.
    pub fn data(&self) -> (r: Option<Screen>)
        ensures
            match r {
                Some(s) => spec_screen(self.krate@, self.current@) == Some(s@),
                None => spec_screen(self.krate@, self.current@) is None,
            },
    {
        let it = match self.krate.lookup(&self.current) {
            Some(it) => it,
            None => {
                return None;
            },
        };
        let header = item_to_data(it, self.krate.summary(&self.current));
        match &it.inner {
            ItemEnum::ModuleItem(m) => Some(
                Screen::Mod(
                    Mod {
                        item: header,
                        structs: items_of_kind(&self.krate, &m.items, ItemKind::Struct),
                        enums: items_of_kind(&self.krate, &m.items, ItemKind::Enum),
                        traits: items_of_kind(&self.krate, &m.items, ItemKind::Trait),
                        mods: items_of_kind(&self.krate, &m.items, ItemKind::Module),
                        fns: items_of_kind(&self.krate, &m.items, ItemKind::Function),
                    },
                ),
            ),
            ItemEnum::StructItem(s) => Some(
                Screen::Struct(
                    Struct {
                        item: header,
                        generics: s.generics.clone(),
                        fields: fields_of(&self.krate, &s.fields),
                        impls: impls_of(&self.krate, &s.impls, ImplGroup::Inherent),
                        trait_impls: impls_of(&self.krate, &s.impls, ImplGroup::TraitGroup),
                        auto_impls: impls_of(&self.krate, &s.impls, ImplGroup::Auto),
                    },
                ),
            ),
            ItemEnum::EnumItem(e) => Some(
                Screen::Enum(
                    Enum {
                        item: header,
                        generics: e.generics.clone(),
                        variants: variants_of(&self.krate, &e.variants),
                        impls: impls_of(&self.krate, &e.impls, ImplGroup::Inherent),
                        trait_impls: impls_of(&self.krate, &e.impls, ImplGroup::TraitGroup),
                        auto_impls: impls_of(&self.krate, &e.impls, ImplGroup::Auto),
                    },
                ),
            ),
            ItemEnum::FunctionItem(f) => Some(
                Screen::Fn(item_to_fn(&self.krate, &self.current, it, f)),
            ),
            _ => None,
        }
    }
}

} // verus!
