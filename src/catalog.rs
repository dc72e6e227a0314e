use vstd::prelude::*;

use crate::coercion::{Coercion, CoercionView};
use crate::id_map::IdMap;
use crate::normalize::{AssetReference, IconPath, NormalizedString};

verus! {

/// One member of a raw row, its value coerced.
#[derive(Debug)]
pub struct Property {
    pub key: String,
    pub value: Coercion,
}

impl View for Property {
    type V = (Seq<char>, CoercionView);

    open spec fn view(&self) -> (Seq<char>, CoercionView) {
        (self.key@, self.value@)
    }
}

impl Clone for Property {
    fn clone(&self) -> (r: Self)
        ensures
            r@ == self@,
    {
        Property { key: self.key.clone(), value: self.value.clone() }
    }
}

/// The view of an [`Entry`].
pub struct EntryView {
    pub id: Seq<char>,
    pub name: Option<Seq<char>>,
    pub properties: Seq<(Seq<char>, CoercionView)>,
}

/// The fields that every catalog entity has: its class id, its display name
/// in Pascal case, and each member of its row, coerced.
#[derive(Debug)]
pub struct Entry {
    pub id: String,
    pub name: Option<NormalizedString>,
    pub properties: Vec<Property>,
}

pub open spec fn properties_view(ps: Seq<Property>) -> Seq<(Seq<char>, CoercionView)> {
    ps.map_values(|p: Property| p@)
}

impl View for Entry {
    type V = EntryView;

    open spec fn view(&self) -> EntryView {
        EntryView {
            id: self.id@,
            name: match self.name {
                Some(n) => Some(n@),
                None => None,
            },
            properties: properties_view(self.properties@),
        }
    }
}

fn clone_properties(ps: &Vec<Property>) -> (r: Vec<Property>)
    ensures
        properties_view(r@) == properties_view(ps@),
{
    let mut r: Vec<Property> = Vec::new();
    let n = ps.len();
    let mut i: usize = 0;
    while i < n
        invariant
            n == ps@.len(),
            i <= n,
            r@.len() == i,
            forall|j: int| 0 <= j < i ==> r@[j]@ == ps@[j]@,
        decreases n - i,
    {
        r.push(ps[i].clone());
        i = i + 1;
    }
    assert(properties_view(r@) =~= properties_view(ps@));
    r
}

impl Clone for Entry {
    fn clone(&self) -> (r: Self)
        ensures
            r@ == self@,
    {
        let name = match &self.name {
            Some(n) => Some(n.clone()),
            None => None,
        };
        Entry { id: self.id.clone(), name, properties: clone_properties(&self.properties) }
    }
}

pub type ResearchItem = Entry;

pub type BuildingItem = Entry;

pub type RecipeItem = Entry;

/// An icon that a description refers to: the typed reference and the
/// canonical id of the icon it names.
#[derive(Debug)]
pub struct IconAsset {
    pub reference: AssetReference,
    pub asset_id: IconPath,
}

pub struct IconAssetView {
    pub reference: (Seq<char>, Seq<char>),
    pub asset_id: Option<Seq<char>>,
}

impl View for IconAsset {
    type V = IconAssetView;

    open spec fn view(&self) -> IconAssetView {
        IconAssetView { reference: self.reference@, asset_id: self.asset_id@ }
    }
}

impl Clone for IconAsset {
    fn clone(&self) -> (r: Self)
        ensures
            r@ == self@,
    {
        IconAsset { reference: self.reference.clone(), asset_id: self.asset_id.clone() }
    }
}

pub open spec fn icon_view(i: Option<IconAsset>) -> Option<IconAssetView> {
    match i {
        Some(a) => Some(a@),
        None => None,
    }
}

fn clone_icon(i: &Option<IconAsset>) -> (r: Option<IconAsset>)
    ensures
        icon_view(r) == icon_view(*i),
{
    match i {
        Some(a) => Some(a.clone()),
        None => None,
    }
}

/// An item description: the common fields and its small and large icons.
#[derive(Debug)]
pub struct DescriptionItem {
    pub entry: Entry,
    pub icon: Option<IconAsset>,
    pub big_icon: Option<IconAsset>,
}

pub struct DescriptionView {
    pub entry: EntryView,
    pub icon: Option<IconAssetView>,
    pub big_icon: Option<IconAssetView>,
}

impl View for DescriptionItem {
    type V = DescriptionView;

    open spec fn view(&self) -> DescriptionView {
        DescriptionView {
            entry: self.entry@,
            icon: icon_view(self.icon),
            big_icon: icon_view(self.big_icon),
        }
    }
}

impl Clone for DescriptionItem {
    fn clone(&self) -> (r: Self)
        ensures
            r@ == self@,
    {
        DescriptionItem {
            entry: self.entry.clone(),
            icon: clone_icon(&self.icon),
            big_icon: clone_icon(&self.big_icon),
        }
    }
}

/// A catalog entity of any of the four kinds, as a lookup returns it.
#[derive(Debug)]
pub enum OrbitalItem {
    Research(ResearchItem),
    Description(DescriptionItem),
    Buildable(BuildingItem),
    Recipe(RecipeItem),
}

pub enum OrbitalItemView {
    Research(EntryView),
    Description(DescriptionView),
    Buildable(EntryView),
    Recipe(EntryView),
}

impl View for OrbitalItem {
    type V = OrbitalItemView;

    open spec fn view(&self) -> OrbitalItemView {
        match self {
            OrbitalItem::Research(e) => OrbitalItemView::Research(e@),
            OrbitalItem::Description(d) => OrbitalItemView::Description(d@),
            OrbitalItem::Buildable(e) => OrbitalItemView::Buildable(e@),
            OrbitalItem::Recipe(e) => OrbitalItemView::Recipe(e@),
        }
    }
}

/// The view of an [`OrbitalData`]: one map per kind, keyed by class id.
pub struct CatalogView {
    pub research: Map<Seq<char>, EntryView>,
    pub descriptions: Map<Seq<char>, DescriptionView>,
    pub buildables: Map<Seq<char>, EntryView>,
    pub recipes: Map<Seq<char>, EntryView>,
}

impl CatalogView {
    pub open spec fn empty() -> CatalogView {
        CatalogView {
            research: Map::empty(),
            descriptions: Map::empty(),
            buildables: Map::empty(),
            recipes: Map::empty(),
        }
    }

    /// What a lookup of `id` finds: research first, then descriptions,
    /// buildables and recipes.
    pub open spec fn lookup(self, id: Seq<char>) -> Option<OrbitalItemView> {
        if self.research.contains_key(id) {
            Some(OrbitalItemView::Research(self.research[id]))
        } else if self.descriptions.contains_key(id) {
            Some(OrbitalItemView::Description(self.descriptions[id]))
        } else if self.buildables.contains_key(id) {
            Some(OrbitalItemView::Buildable(self.buildables[id]))
        } else if self.recipes.contains_key(id) {
            Some(OrbitalItemView::Recipe(self.recipes[id]))
        } else {
            None
        }
    }
}

/// The catalog: the research, description, buildable and recipe entities,
/// each kind keyed by class id.
#[derive(Debug)]
pub struct OrbitalData {
    research: IdMap<ResearchItem>,
    descriptions: IdMap<DescriptionItem>,
    buildables: IdMap<BuildingItem>,
    recipes: IdMap<RecipeItem>,
}

impl View for OrbitalData {
    type V = CatalogView;

    closed spec fn view(&self) -> CatalogView {
        CatalogView {
            research: self.research@,
            descriptions: self.descriptions@,
            buildables: self.buildables@,
            recipes: self.recipes@,
        }
    }
}

impl OrbitalData {
    /// Each map holds one entry per id.
    pub closed spec fn wf(&self) -> bool {
        self.research.wf() && self.descriptions.wf() && self.buildables.wf() && self.recipes.wf()
    }

    pub fn new() -> (r: Self)
        ensures
            r.wf(),
            r@ == CatalogView::empty(),
    {
        OrbitalData {
            research: IdMap::new(),
            descriptions: IdMap::new(),
            buildables: IdMap::new(),
            recipes: IdMap::new(),
        }
    }

    pub fn insert_research(&mut self, id: String, item: ResearchItem)
        requires
            old(self).wf(),
        ensures
            final(self).wf(),
            final(self)@ == (CatalogView { research: old(self)@.research.insert(id@, item@), ..old(self)@ }),
    {
        self.research.insert(id, item);
    }

    pub fn insert_description(&mut self, id: String, item: DescriptionItem)
        requires
            old(self).wf(),
        ensures
            final(self).wf(),
            final(self)@ == (CatalogView { descriptions: old(self)@.descriptions.insert(id@, item@), ..old(self)@ }),
    {
        self.descriptions.insert(id, item);
    }

    pub fn insert_buildable(&mut self, id: String, item: BuildingItem)
        requires
            old(self).wf(),
        ensures
            final(self).wf(),
            final(self)@ == (CatalogView { buildables: old(self)@.buildables.insert(id@, item@), ..old(self)@ }),
    {
        self.buildables.insert(id, item);
    }

    pub fn insert_recipe(&mut self, id: String, item: RecipeItem)
        requires
            old(self).wf(),
        ensures
            final(self).wf(),
            final(self)@ == (CatalogView { recipes: old(self)@.recipes.insert(id@, item@), ..old(self)@ }),
    {
        self.recipes.insert(id, item);
    }

    /// The entity with class id `id`, looked up in research, descriptions,
    /// buildables and recipes, in that order.
    pub fn get_id(&self, id: String) -> (r: Option<OrbitalItem>)
        requires
            self.wf(),
        ensures
            match r {
                Some(item) => self@.lookup(id@) == Some(item@),
                None => self@.lookup(id@) == None::<OrbitalItemView>,
            },
    {
        if let Some(item) = self.research.get(id.as_str()) {
            return Some(OrbitalItem::Research(item.clone()));
        }
        if let Some(item) = self.descriptions.get(id.as_str()) {
            return Some(OrbitalItem::Description(item.clone()));
        }
        if let Some(item) = self.buildables.get(id.as_str()) {
            return Some(OrbitalItem::Buildable(item.clone()));
        }
        if let Some(item) = self.recipes.get(id.as_str()) {
            return Some(OrbitalItem::Recipe(item.clone()));
        }
        None
    }

    pub fn research(&self) -> (r: &IdMap<ResearchItem>)
        requires
            self.wf(),
        ensures
            r.wf(),
            r@ == self@.research,
    {
        &self.research
    }

    /// The descriptions, in the order they were first inserted.
    pub closed spec fn description_order(&self) -> Seq<DescriptionView> {
        self.descriptions.ordered_values()
    }

    pub fn descriptions(&self) -> (r: &IdMap<DescriptionItem>)
        requires
            self.wf(),
        ensures
            r.wf(),
            r@ == self@.descriptions,
            r.ordered_values() == self.description_order(),
    {
        &self.descriptions
    }

    pub fn buildables(&self) -> (r: &IdMap<BuildingItem>)
        requires
            self.wf(),
        ensures
            r.wf(),
            r@ == self@.buildables,
    {
        &self.buildables
    }

    pub fn recipes(&self) -> (r: &IdMap<RecipeItem>)
        requires
            self.wf(),
        ensures
            r.wf(),
            r@ == self@.recipes,
    {
        &self.recipes
    }

    pub fn research_count(&self) -> (r: usize)
        requires
            self.wf(),
        ensures
            r as nat == self@.research.len(),
    {
        self.research.len()
    }

    pub fn description_count(&self) -> (r: usize)
        requires
            self.wf(),
        ensures
            r as nat == self@.descriptions.len(),
    {
        self.descriptions.len()
    }

    pub fn buildable_count(&self) -> (r: usize)
        requires
            self.wf(),
        ensures
            r as nat == self@.buildables.len(),
    {
        self.buildables.len()
    }

    pub fn recipe_count(&self) -> (r: usize)
        requires
            self.wf(),
        ensures
            r as nat == self@.recipes.len(),
    {
        self.recipes.len()
    }
}

} // verus!
