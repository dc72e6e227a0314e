use vstd::prelude::*;

use crate::catalog::{
    OrbitalItemView,
    properties_view, CatalogView, DescriptionItem, DescriptionView, Entry, EntryView, IconAsset,
    IconAssetView, OrbitalData, Property, icon_view,
};
use crate::coercion::{coercion_of_raw, Coercion, CoercionView};
use crate::error::DocsError;
use crate::normalize::{asset_reference_of, icon_path_of, AssetReference, IconPath, NormalizedString};
use crate::raw::RawValue;
use crate::text::{
    ends_with, ends_with_str, find_last, last_index_of, pascal_of, same_text, starts_with,
    starts_with_str, trim_end, trim_end_char,
};

verus! {

/// The export's native categories that the catalog keeps.
#[derive(Clone, Copy, Debug, PartialEq, Eq, Structural)]
pub enum Category {
    Research,
    Description,
    Buildable,
    Recipe,
}

/// The class name at the end of a group's `NativeClass` path: the text after
/// the last `.`, without trailing quotes.
pub open spec fn native_class_of(raw: Seq<char>) -> Seq<char> {
    let tail = match last_index_of(raw, '.') {
        Some(i) => raw.subrange(i + 1, raw.len() as int),
        None => raw,
    };
    trim_end(trim_end(tail, '\''), '"')
}

/// The category of a group, by its native class: schematics are research,
/// buildable classes are buildables, descriptor classes are descriptions.
pub open spec fn category_of(native: Seq<char>) -> Option<Category> {
    let name = native_class_of(native);
    if name == "FGSchematic"@ {
        Some(Category::Research)
    } else if name == "FGRecipe"@ {
        Some(Category::Recipe)
    } else if starts_with(name, "FGBuildable"@) {
        Some(Category::Buildable)
    } else if starts_with(name, "FGItemDescriptor"@) || ends_with(name, "Descriptor"@) {
        Some(Category::Description)
    } else {
        None
    }
}

/// The text of the member `key` of `v`.
pub open spec fn text_member(v: RawValue, key: Seq<char>) -> Option<Seq<char>> {
    match v.spec_member(key) {
        Some(m) => m.spec_text(),
        None => None,
    }
}

/// The class id of a row: its `ClassName` text.
pub open spec fn row_id(row: RawValue) -> Option<Seq<char>> {
    text_member(row, "ClassName"@)
}

pub open spec fn row_members(row: RawValue) -> Seq<(String, RawValue)> {
    match row {
        RawValue::Object(members) => members@,
        _ => Seq::empty(),
    }
}

/// Every member of a row, its value coerced.
pub open spec fn properties_of(members: Seq<(String, RawValue)>) -> Seq<(Seq<char>, CoercionView)> {
    members.map_values(|m: (String, RawValue)| (m.0@, coercion_of_raw(m.1)))
}

pub open spec fn display_name_of(row: RawValue) -> Option<Seq<char>> {
    match text_member(row, "mDisplayName"@) {
        Some(t) => Some(pascal_of(t)),
        None => None,
    }
}

/// The entity that a row with id `id` becomes.
pub open spec fn entry_of(row: RawValue, id: Seq<char>) -> EntryView {
    EntryView { id, name: display_name_of(row), properties: properties_of(row_members(row)) }
}

/// The icon that the member `key` of a row refers to.
pub open spec fn icon_of(row: RawValue, key: Seq<char>) -> Option<IconAssetView> {
    match text_member(row, key) {
        Some(t) => Some(IconAssetView { reference: asset_reference_of(t), asset_id: icon_path_of(t) }),
        None => None,
    }
}

pub open spec fn description_of(row: RawValue, id: Seq<char>) -> DescriptionView {
    DescriptionView {
        entry: entry_of(row, id),
        icon: icon_of(row, "mSmallIcon"@),
        big_icon: icon_of(row, "mPersistentBigIcon"@),
    }
}

/// `acc` with the row added to the map of its category; a row without a
/// class id is left out, and a later row replaces an earlier one of the same id.
pub open spec fn add_row(acc: CatalogView, cat: Category, row: RawValue) -> CatalogView {
    match row_id(row) {
        Some(id) => match cat {
            Category::Research => CatalogView { research: acc.research.insert(id, entry_of(row, id)), ..acc },
            Category::Description => CatalogView {
                descriptions: acc.descriptions.insert(id, description_of(row, id)),
                ..acc
            },
            Category::Buildable => CatalogView { buildables: acc.buildables.insert(id, entry_of(row, id)), ..acc },
            Category::Recipe => CatalogView { recipes: acc.recipes.insert(id, entry_of(row, id)), ..acc },
        },
        None => acc,
    }
}

pub open spec fn add_rows(acc: CatalogView, cat: Category, rows: Seq<RawValue>) -> CatalogView
    decreases rows.len(),
{
    if rows.len() == 0 {
        acc
    } else {
        add_row(add_rows(acc, cat, rows.drop_last()), cat, rows.last())
    }
}

pub open spec fn group_native(g: RawValue) -> Option<Seq<char>> {
    text_member(g, "NativeClass"@)
}

pub open spec fn group_rows(g: RawValue) -> Option<Seq<RawValue>> {
    match g.spec_member("Classes"@) {
        Some(RawValue::Array(rows)) => Some(rows@),
        _ => None,
    }
}

/// A category group: an object with a `NativeClass` text and a `Classes` array.
pub open spec fn group_ok(g: RawValue) -> bool {
    group_native(g) is Some && group_rows(g) is Some
}

pub open spec fn add_group(acc: CatalogView, g: RawValue) -> CatalogView {
    match category_of(group_native(g).unwrap()) {
        Some(cat) => add_rows(acc, cat, group_rows(g).unwrap()),
        None => acc,
    }
}

pub open spec fn add_groups(groups: Seq<RawValue>) -> CatalogView
    decreases groups.len(),
{
    if groups.len() == 0 {
        CatalogView::empty()
    } else {
        add_group(add_groups(groups.drop_last()), groups.last())
    }
}

/// The catalog that a raw document describes, or none where it is not an
/// array of category groups.
pub open spec fn catalog_of(doc: RawValue) -> Option<CatalogView> {
    match doc {
        RawValue::Array(groups) => if forall|i: int| 0 <= i < groups@.len() ==> group_ok(#[trigger] groups@[i]) {
            Some(add_groups(groups@))
        } else {
            None
        },
        _ => None,
    }
}

/// The category of a group whose native class path is `raw`.
pub fn category_of_native(raw: &str) -> (r: Option<Category>)
    ensures
        r == category_of(raw@),
{
    let n = raw.unicode_len();
    let tail = match find_last(raw, '.') {
        Some(i) => raw.substring_char(i + 1, n),
        None => raw,
    };
    let unquoted = trim_end_char(tail, '\'');
    let name = trim_end_char(unquoted, '"');
    if same_text(name, "FGSchematic") {
        Some(Category::Research)
    } else if same_text(name, "FGRecipe") {
        Some(Category::Recipe)
    } else if starts_with_str(name, "FGBuildable") {
        Some(Category::Buildable)
    } else if starts_with_str(name, "FGItemDescriptor") || ends_with_str(name, "Descriptor") {
        Some(Category::Description)
    } else {
        None
    }
}

/// The text of the member `key` of `v`.
fn text_member_of<'a>(v: &'a RawValue, key: &str) -> (r: Option<&'a String>)
    ensures
        match r {
            Some(t) => text_member(*v, key@) == Some(t@),
            None => text_member(*v, key@) == None::<Seq<char>>,
        },
{
    match v.member(key) {
        Some(m) => m.text(),
        None => None,
    }
}

fn properties_from(row: &RawValue) -> (r: Vec<Property>)
    ensures
        properties_view(r@) == properties_of(row_members(*row)),
{
    let mut r: Vec<Property> = Vec::new();
    match row {
        RawValue::Object(members) => {
            let n = members.len();
            let mut i: usize = 0;
            while i < n
                invariant
                    n == members@.len(),
                    i <= n,
                    r@.len() == i,
                    forall|j: int| 0 <= j < i ==> r@[j]@ == (members@[j].0@, coercion_of_raw(members@[j].1)),
                decreases n - i,
            {
                r.push(Property { key: members[i].0.clone(), value: Coercion::from_raw(&members[i].1) });
                i = i + 1;
            }
            assert(properties_view(r@) =~= properties_of(members@));
        },
        _ => {
            assert(properties_view(r@) =~= properties_of(row_members(*row)));
        },
    }
    r
}

/// The entity that `row` becomes under the id `id`.
pub fn entry_from_row(row: &RawValue, id: &String) -> (r: Entry)
    ensures
        r@ == entry_of(*row, id@),
{
    let name = match text_member_of(row, "mDisplayName") {
        Some(t) => Some(NormalizedString::from_raw(t.as_str())),
        None => None,
    };
    Entry { id: id.clone(), name, properties: properties_from(row) }
}

fn icon_from(row: &RawValue, key: &str) -> (r: Option<IconAsset>)
    ensures
        icon_view(r) == icon_of(*row, key@),
{
    match text_member_of(row, key) {
        Some(t) => Some(
            IconAsset { reference: AssetReference::from_raw(t.as_str()), asset_id: IconPath::from_raw(t.as_str()) },
        ),
        None => None,
    }
}

/// The description that `row` becomes under the id `id`.
pub fn description_from_row(row: &RawValue, id: &String) -> (r: DescriptionItem)
    ensures
        r@ == description_of(*row, id@),
{
    DescriptionItem {
        entry: entry_from_row(row, id),
        icon: icon_from(row, "mSmallIcon"),
        big_icon: icon_from(row, "mPersistentBigIcon"),
    }
}

fn add_row_into(data: &mut OrbitalData, cat: Category, row: &RawValue)
    requires
        old(data).wf(),
    ensures
        final(data).wf(),
        final(data)@ == add_row(old(data)@, cat, *row),
{
    if let Some(id) = text_member_of(row, "ClassName") {
        match cat {
            Category::Research => data.insert_research(id.clone(), entry_from_row(row, id)),
            Category::Description => data.insert_description(id.clone(), description_from_row(row, id)),
            Category::Buildable => data.insert_buildable(id.clone(), entry_from_row(row, id)),
            Category::Recipe => data.insert_recipe(id.clone(), entry_from_row(row, id)),
        }
    }
}

fn add_rows_into(data: &mut OrbitalData, cat: Category, rows: &Vec<RawValue>)
    requires
        old(data).wf(),
    ensures
        final(data).wf(),
        final(data)@ == add_rows(old(data)@, cat, rows@),
{
    let ghost start = data@;
    let n = rows.len();
    let mut i: usize = 0;
    assert(rows@.take(0).len() == 0);
    while i < n
        invariant
            n == rows@.len(),
            i <= n,
            data.wf(),
            data@ == add_rows(start, cat, rows@.take(i as int)),
        decreases n - i,
    {
        add_row_into(data, cat, &rows[i]);
        assert(rows@.take(i + 1).drop_last() =~= rows@.take(i as int));
        i = i + 1;
    }
    assert(rows@.take(n as int) =~= rows@);
}

/// The catalog that `doc` describes. Fails with an invalid-format error
/// exactly where `doc` is not an array of category groups; rows that lack a
/// class id are left out and later rows replace earlier ones of the same id.
pub fn generate_catalog(doc: &RawValue) -> (r: Result<OrbitalData, DocsError>)
    ensures
        match r {
            Ok(data) => data.wf() && catalog_of(*doc) == Some(data@),
            Err(e) => catalog_of(*doc) is None && e is InvalidFormat,
        },
{
    let groups = match doc {
        RawValue::Array(groups) => groups,
        _ => return Err(DocsError::invalid_format("Expected an array of category groups.")),
    };
    let mut data = OrbitalData::new();
    let n = groups.len();
    let mut i: usize = 0;
    while i < n
        invariant
            *doc == RawValue::Array(*groups),
            n == groups@.len(),
            i <= n,
            data.wf(),
            data@ == add_groups(groups@.take(i as int)),
            forall|j: int| 0 <= j < i ==> group_ok(#[trigger] groups@[j]),
        decreases n - i,
    {
        let g = &groups[i];
        let native = text_member_of(g, "NativeClass");
        let rows = match g.member("Classes") {
            Some(RawValue::Array(rows)) => Some(rows),
            _ => None,
        };
        if native.is_none() || rows.is_none() {
            assert(!group_ok(groups@[i as int]));
            return Err(DocsError::invalid_format("Expected a group with a NativeClass text and a Classes array."));
        }
        let native = native.unwrap();
        let rows = rows.unwrap();
        if let Some(cat) = category_of_native(native.as_str()) {
            add_rows_into(&mut data, cat, rows);
        }
        assert(groups@.take(i + 1).drop_last() =~= groups@.take(i as int));
        i = i + 1;
    }
    assert(groups@.take(n as int) =~= groups@);
    Ok(data)
}

/// Turns one raw document into a catalog.
pub struct Generator {
    document: RawValue,
}

impl Generator {
    pub closed spec fn document(&self) -> RawValue {
        self.document
    }

    pub fn new(document: RawValue) -> (r: Self)
        ensures
            r.document() == document,
    {
        Generator { document }
    }

    /// The catalog of the document, as [`generate_catalog`] makes it.
    pub fn generate(&self) -> (r: Result<OrbitalData, DocsError>)
        ensures
            match r {
                Ok(data) => data.wf() && catalog_of(self.document()) == Some(data@),
                Err(e) => catalog_of(self.document()) is None && e is InvalidFormat,
            },
    {
        generate_catalog(&self.document)
    }
}

/// The entity that a row with id `id` becomes in the map of `cat`, as a
/// lookup returns it.
pub open spec fn item_of(cat: Category, row: RawValue, id: Seq<char>) -> OrbitalItemView {
    match cat {
        Category::Research => OrbitalItemView::Research(entry_of(row, id)),
        Category::Description => OrbitalItemView::Description(description_of(row, id)),
        Category::Buildable => OrbitalItemView::Buildable(entry_of(row, id)),
        Category::Recipe => OrbitalItemView::Recipe(entry_of(row, id)),
    }
}

/// The ids in the map of `cat`.
pub open spec fn ids_of(c: CatalogView, cat: Category) -> Set<Seq<char>> {
    match cat {
        Category::Research => c.research.dom(),
        Category::Description => c.descriptions.dom(),
        Category::Buildable => c.buildables.dom(),
        Category::Recipe => c.recipes.dom(),
    }
}

/// A group of category `cat` whose rows are `rows`.
pub open spec fn group_of(g: RawValue, cat: Category, rows: Seq<RawValue>) -> bool {
    &&& group_native(g) is Some
    &&& category_of(group_native(g).unwrap()) == Some(cat)
    &&& group_rows(g) == Some(rows)
}

/// A document of one research, one description, one buildable and one
/// recipe group, each holding one row with its own id, gives a catalog
/// whose four maps hold one entry each, and a lookup of each id finds that
/// row's entity under its kind.
pub proof fn lemma_one_row_per_category(
    doc: RawValue,
    groups: Seq<RawValue>,
    rows: Seq<RawValue>,
    ids: Seq<Seq<char>>,
)
    requires
        doc matches RawValue::Array(gs) && gs@ == groups,
        groups.len() == 4,
        rows.len() == 4,
        ids.len() == 4,
        group_of(groups[0], Category::Research, seq![rows[0]]),
        group_of(groups[1], Category::Description, seq![rows[1]]),
        group_of(groups[2], Category::Buildable, seq![rows[2]]),
        group_of(groups[3], Category::Recipe, seq![rows[3]]),
        forall|k: int| 0 <= k < 4 ==> row_id(#[trigger] rows[k]) == Some(ids[k]),
        forall|a: int, b: int| 0 <= a < b < 4 ==> ids[a] != ids[b],
    ensures
        catalog_of(doc) is Some,
        ({
            let c = catalog_of(doc).unwrap();
            &&& ids_of(c, Category::Research) == set![ids[0]]
            &&& ids_of(c, Category::Description) == set![ids[1]]
            &&& ids_of(c, Category::Buildable) == set![ids[2]]
            &&& ids_of(c, Category::Recipe) == set![ids[3]]
            &&& c.lookup(ids[0]) == Some(item_of(Category::Research, rows[0], ids[0]))
            &&& c.lookup(ids[1]) == Some(item_of(Category::Description, rows[1], ids[1]))
            &&& c.lookup(ids[2]) == Some(item_of(Category::Buildable, rows[2], ids[2]))
            &&& c.lookup(ids[3]) == Some(item_of(Category::Recipe, rows[3], ids[3]))
        }),
{
    let e = CatalogView::empty();
    assert(groups.take(4) =~= groups);
    lemma_add_groups_step(groups, 0);
    lemma_add_groups_step(groups, 1);
    lemma_add_groups_step(groups, 2);
    lemma_add_groups_step(groups, 3);
    assert(groups.take(0) =~= Seq::<RawValue>::empty());
    lemma_add_one_row(e, Category::Research, rows[0]);
    let c1 = add_groups(groups.take(1));
    assert(c1.research == map![ids[0] => entry_of(rows[0], ids[0])]);
    assert(c1.descriptions == e.descriptions);
    lemma_add_one_row(c1, Category::Description, rows[1]);
    let c2 = add_groups(groups.take(2));
    assert(c2.research == c1.research);
    assert(c2.descriptions == map![ids[1] => description_of(rows[1], ids[1])]);
    lemma_add_one_row(c2, Category::Buildable, rows[2]);
    let c3 = add_groups(groups.take(3));
    assert(c3.descriptions == c2.descriptions);
    assert(c3.buildables == map![ids[2] => entry_of(rows[2], ids[2])]);
    lemma_add_one_row(c3, Category::Recipe, rows[3]);
    let c = add_groups(groups);
    assert(c.research == c1.research);
    assert(c.descriptions == c2.descriptions);
    assert(c.buildables == c3.buildables);
    assert(c.recipes == map![ids[3] => entry_of(rows[3], ids[3])]);
    assert(c.research.dom() =~= set![ids[0]]);
    assert(c.descriptions.dom() =~= set![ids[1]]);
    assert(c.buildables.dom() =~= set![ids[2]]);
    assert(c.recipes.dom() =~= set![ids[3]]);
    assert forall|i: int| 0 <= i < groups.len() implies group_ok(#[trigger] groups[i]) by {
        assert(i == 0 || i == 1 || i == 2 || i == 3);
    }
}

proof fn lemma_add_groups_step(groups: Seq<RawValue>, i: int)
    requires
        0 <= i < groups.len(),
    ensures
        add_groups(groups.take(i + 1)) == add_group(add_groups(groups.take(i)), groups[i]),
{
    assert(groups.take(i + 1).drop_last() =~= groups.take(i));
}

proof fn lemma_add_one_row(acc: CatalogView, cat: Category, row: RawValue)
    ensures
        add_rows(acc, cat, seq![row]) == add_row(acc, cat, row),
{
    assert(seq![row].drop_last() =~= Seq::<RawValue>::empty());
    assert(add_rows(acc, cat, Seq::<RawValue>::empty()) == acc);
    assert(seq![row].last() == row);
}

/// Rows of one group that share a class id leave one entry for that id in
/// the map of the group's category: the entity of the later row.
pub proof fn lemma_repeated_id_kept_once(
    doc: RawValue,
    g: RawValue,
    cat: Category,
    first: RawValue,
    second: RawValue,
    id: Seq<char>,
)
    requires
        doc matches RawValue::Array(gs) && gs@ == seq![g],
        group_of(g, cat, seq![first, second]),
        row_id(first) == Some(id),
        row_id(second) == Some(id),
    ensures
        catalog_of(doc) is Some,
        ids_of(catalog_of(doc).unwrap(), cat) == set![id],
        catalog_of(doc).unwrap().lookup(id) == Some(item_of(cat, second, id)),
{
    let groups = seq![g];
    assert(groups.drop_last() =~= Seq::<RawValue>::empty());
    let e = CatalogView::empty();
    let rows = seq![first, second];
    assert(rows.drop_last() =~= seq![first]);
    lemma_add_one_row(e, cat, first);
    let c1 = add_rows(e, cat, seq![first]);
    let c = add_groups(groups);
    assert(add_groups(Seq::<RawValue>::empty()) == e);
    assert(groups.last() == g);
    assert(c == add_group(e, g));
    assert(c == add_rows(e, cat, rows));
    assert(rows.last() == second);
    assert(c == add_row(c1, cat, second));
    assert forall|i: int| 0 <= i < groups.len() implies group_ok(#[trigger] groups[i]) by {}
    match cat {
        Category::Research => {
            assert(c.research =~= map![id => entry_of(second, id)]);
            assert(c.research.dom() =~= set![id]);
        },
        Category::Description => {
            assert(c.descriptions =~= map![id => description_of(second, id)]);
            assert(c.descriptions.dom() =~= set![id]);
        },
        Category::Buildable => {
            assert(c.buildables =~= map![id => entry_of(second, id)]);
            assert(c.buildables.dom() =~= set![id]);
        },
        Category::Recipe => {
            assert(c.recipes =~= map![id => entry_of(second, id)]);
            assert(c.recipes.dom() =~= set![id]);
        },
    }
}

} // verus!
