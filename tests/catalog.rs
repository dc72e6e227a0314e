use orbital_common::{
    generate_catalog, Coercion, DocsError, Generator, OrbitalData, OrbitalItem, RawValue,
};

fn text(s: &str) -> RawValue {
    RawValue::Text { text: s.to_string(), reading: s.parse::<f32>().ok().map(f32::to_bits) }
}

fn object(members: Vec<(&str, RawValue)>) -> RawValue {
    RawValue::Object(members.into_iter().map(|(k, v)| (k.to_string(), v)).collect())
}

fn group(native: &str, rows: Vec<RawValue>) -> RawValue {
    object(vec![("NativeClass", text(native)), ("Classes", RawValue::Array(rows))])
}

fn row(id: &str, name: &str) -> RawValue {
    object(vec![("ClassName", text(id)), ("mDisplayName", text(name)), ("mAmount", text("3"))])
}

fn four_group_document() -> RawValue {
    RawValue::Array(vec![
        group("/Script/CoreUObject.Class'/Script/FactoryGame.FGSchematic'", vec![row("Schematic_1_C", "Base Building")]),
        group(
            "/Script/CoreUObject.Class'/Script/FactoryGame.FGItemDescriptor'",
            vec![object(vec![
                ("ClassName", text("Desc_IronPlate_C")),
                ("mDisplayName", text("Iron Plate")),
                (
                    "mSmallIcon",
                    text("Texture2D /Game/FactoryGame/Resource/Parts/IronPlates/UI/IconDesc_IronPlates_64.IconDesc_IronPlates_64"),
                ),
                (
                    "mPersistentBigIcon",
                    text("Texture2D /Game/FactoryGame/Resource/Parts/IronPlates/UI/IconDesc_IronPlates_256.IconDesc_IronPlates_256"),
                ),
                ("mCanBeDiscarded", text("True")),
            ])],
        ),
        group(
            "/Script/CoreUObject.Class'/Script/FactoryGame.FGBuildableManufacturer'",
            vec![row("Build_ConstructorMk1_C", "Constructor")],
        ),
        group("/Script/CoreUObject.Class'/Script/FactoryGame.FGRecipe'", vec![row("Recipe_IronPlate_C", "Iron Plate")]),
    ])
}

fn generated() -> OrbitalData {
    match generate_catalog(&four_group_document()) {
        Ok(data) => data,
        Err(e) => panic!("generation failed: {:?}", e),
    }
}

#[test]
fn one_row_per_category_gives_one_entry_per_map() {
    let data = generated();
    assert_eq!(data.research_count(), 1);
    assert_eq!(data.description_count(), 1);
    assert_eq!(data.buildable_count(), 1);
    assert_eq!(data.recipe_count(), 1);
}

#[test]
fn get_id_returns_the_tagged_variant() {
    let data = generated();
    assert!(matches!(data.get_id("Schematic_1_C".to_string()), Some(OrbitalItem::Research(e)) if e.id == "Schematic_1_C"));
    assert!(matches!(data.get_id("Desc_IronPlate_C".to_string()), Some(OrbitalItem::Description(d)) if d.entry.id == "Desc_IronPlate_C"));
    assert!(matches!(data.get_id("Build_ConstructorMk1_C".to_string()), Some(OrbitalItem::Buildable(e)) if e.id == "Build_ConstructorMk1_C"));
    assert!(matches!(data.get_id("Recipe_IronPlate_C".to_string()), Some(OrbitalItem::Recipe(e)) if e.id == "Recipe_IronPlate_C"));
    assert!(data.get_id("Desc_Missing_C".to_string()).is_none());
}

#[test]
fn entries_carry_normalized_names_and_coerced_members() {
    let data = generated();
    let recipe = match data.get_id("Recipe_IronPlate_C".to_string()) {
        Some(OrbitalItem::Recipe(e)) => e,
        other => panic!("unexpected {:?}", other),
    };
    assert_eq!(recipe.name.as_ref().map(|n| n.as_str().to_string()), Some("IronPlate".to_string()));
    assert_eq!(recipe.properties.len(), 3);
    assert_eq!(recipe.properties[2].key, "mAmount");
    assert_eq!(recipe.properties[2].value, Coercion::Integer(3));
}

#[test]
fn descriptions_carry_icon_references() {
    let data = generated();
    let desc = match data.get_id("Desc_IronPlate_C".to_string()) {
        Some(OrbitalItem::Description(d)) => d,
        other => panic!("unexpected {:?}", other),
    };
    let icon = desc.icon.expect("small icon");
    assert_eq!(icon.reference.asset_type, "Texture2D");
    assert_eq!(icon.asset_id.as_str(), "IconDesc_IronPlates_256");
    let big = desc.big_icon.expect("big icon");
    assert_eq!(big.asset_id.as_str(), "IconDesc_IronPlates_256");
    assert_eq!(big.reference.asset_path, "/Game/FactoryGame/Resource/Parts/IronPlates/UI/IconDesc_IronPlates_256.IconDesc_IronPlates_256");
    assert_eq!(desc.entry.properties[4].value, Coercion::Boolean(true));
}

#[test]
fn repeated_id_keeps_the_last_row() {
    let doc = RawValue::Array(vec![group(
        "/Script/CoreUObject.Class'/Script/FactoryGame.FGRecipe'",
        vec![row("Recipe_A_C", "first"), row("Recipe_A_C", "second")],
    )]);
    let data = Generator::new(doc).generate().expect("generation");
    assert_eq!(data.recipe_count(), 1);
    match data.get_id("Recipe_A_C".to_string()) {
        Some(OrbitalItem::Recipe(e)) => assert_eq!(e.name.map(|n| n.into_string()), Some("Second".to_string())),
        other => panic!("unexpected {:?}", other),
    }
}

#[test]
fn unknown_categories_and_rows_without_id_are_skipped() {
    let doc = RawValue::Array(vec![
        group("/Script/CoreUObject.Class'/Script/FactoryGame.FGCustomizationRecipe'", vec![row("X_C", "x")]),
        group("/Script/CoreUObject.Class'/Script/FactoryGame.FGRecipe'", vec![text("not a row"), object(vec![("mDisplayName", text("anonymous"))])]),
    ]);
    let data = generate_catalog(&doc).expect("generation");
    assert_eq!(data.research_count() + data.description_count() + data.buildable_count() + data.recipe_count(), 0);
}

#[test]
fn same_id_in_two_categories_prefers_research() {
    let doc = RawValue::Array(vec![
        group("/Script/CoreUObject.Class'/Script/FactoryGame.FGRecipe'", vec![row("Shared_C", "r")]),
        group("/Script/CoreUObject.Class'/Script/FactoryGame.FGSchematic'", vec![row("Shared_C", "s")]),
    ]);
    let data = generate_catalog(&doc).expect("generation");
    assert!(matches!(data.get_id("Shared_C".to_string()), Some(OrbitalItem::Research(_))));
}

#[test]
fn broken_document_is_an_invalid_format() {
    let not_array = object(vec![("NativeClass", text("x"))]);
    assert!(matches!(generate_catalog(&not_array), Err(DocsError::InvalidFormat { .. })));
    let bad_group = RawValue::Array(vec![object(vec![("NativeClass", text("x"))])]);
    assert!(matches!(generate_catalog(&bad_group), Err(DocsError::InvalidFormat { .. })));
    let empty = RawValue::Array(vec![]);
    assert_eq!(generate_catalog(&empty).expect("empty").research_count(), 0);
}

#[test]
fn map_entries_follow_insertion() {
    let data = generated();
    let entries = data.research().entries();
    assert_eq!(entries.len(), 1);
    assert_eq!(entries[0].0, "Schematic_1_C");
    assert!(data.recipes().get("Recipe_IronPlate_C").is_some());
    assert!(data.buildables().get("Recipe_IronPlate_C").is_none());
    assert_eq!(data.descriptions().len(), 1);
}

#[test]
fn asset_requests_cover_icons_once_and_map_slices() {
    let data = generated();
    let requests = orbital_common::requests::asset_requests(&data);
    assert_eq!(requests.len(), 5);
    assert_eq!(
        requests.get("IconDesc_IronPlates_256").map(|s| s.as_str()),
        Some("TEXTURE::/FactoryGame/Content/FactoryGame/Resource/Parts/IronPlates/UI/IconDesc_IronPlates_256.IconDesc_IronPlates_256")
    );
    assert_eq!(
        requests.get("MapSlice1_1").map(|s| s.as_str()),
        Some("TEXTURE::/FactoryGame/Content/FactoryGame/Interface/UI/Assets/MapTest/SlicedMap/Map_1-1.Map_1-1")
    );
}

#[test]
fn asset_requests_skip_non_textures() {
    let doc = RawValue::Array(vec![group(
        "/Script/CoreUObject.Class'/Script/FactoryGame.FGItemDescriptor'",
        vec![object(vec![
            ("ClassName", text("Desc_A_C")),
            ("mPersistentBigIcon", text("Material /Game/X/Icon_A_256.Icon_A_256")),
            ("mSmallIcon", text("Texture2D NoSlash_64.NoSlash_64")),
        ])],
    )]);
    let data = generate_catalog(&doc).expect("generation");
    let requests = orbital_common::requests::asset_requests(&data);
    assert_eq!(requests.len(), 4);
    assert!(requests.get("Icon_A_256").is_none());
}
