use orbital_common::{AssetReference, ClassReference, IconPath, NormalizedString};

#[test]
fn icon_path_with_size_suffix_becomes_256() {
    let icon = IconPath::from_raw("Texture2D'/Game/UI/Icon_64.Icon_64'");
    assert_eq!(icon.as_str(), "Icon_256");
    let icon = IconPath::from_raw(
        "Texture2D /Game/FactoryGame/Resource/Parts/IronPlates/UI/IconDesc_IronPlates_64.IconDesc_IronPlates_64",
    );
    assert_eq!(icon.into_string(), "IconDesc_IronPlates_256");
}

#[test]
fn icon_path_with_trailing_underscores() {
    let icon = IconPath::from_raw("/Game/UI/Big_Icon_512_.Big_Icon_512__");
    assert_eq!(icon.as_str(), "Big_Icon_256");
}

#[test]
fn normalized_icon_id_is_kept() {
    let icon = IconPath::from_raw("IconDesc_IronPlates_256");
    assert_eq!(icon.as_str(), "IconDesc_IronPlates_256");
}

#[test]
fn unrecoverable_icon_path_is_absent() {
    assert_eq!(IconPath::from_raw("no_dot_here").into_string(), "");
    assert_eq!(IconPath::from_raw("/Game/UI/Icon.Plain").into_string(), "");
    assert_eq!(IconPath::from_raw("").as_str(), "");
}

#[test]
fn class_reference_is_extracted_and_unquoted() {
    let r = ClassReference::from_raw("/Game/FactoryGame/Recipes/Recipe_IronPlate.Recipe_IronPlate_C'");
    assert_eq!(r.as_str(), "RecipeIronPlateC");
}

#[test]
fn class_reference_takes_the_whole_segment_after_the_last_dot() {
    let r = ClassReference::from_raw("/Script/FactoryGame.FGRecipe'Recipe_IronPlate_C'");
    assert_eq!(r.as_str(), "FgRecipe'recipeIronPlateC");
}

#[test]
fn class_reference_from_game_path() {
    let r = ClassReference::from_raw("/Game/FactoryGame/Recipes/Recipe_IronPlate.Recipe_IronPlate_C\"");
    assert_eq!(r.into_string(), "RecipeIronPlateC");
}

#[test]
fn plain_class_reference_passes_through() {
    assert_eq!(ClassReference::from_raw("PlainName").as_str(), "PlainName");
    assert_eq!(ClassReference::from_raw("Desc_Iron.Plate").as_str(), "Desc_Iron.Plate");
    assert_eq!(ClassReference::from_raw("/Game/NoDot").as_str(), "/Game/NoDot");
}

#[test]
fn asset_reference_splits_at_first_space() {
    let r = AssetReference::from_raw("Texture2D /Game/UI/Icon.Icon");
    assert_eq!(r.asset_type, "Texture2D");
    assert_eq!(r.asset_path, "/Game/UI/Icon.Icon");
    let r = AssetReference::from_raw("A B C");
    assert_eq!(r.asset_type, "A");
    assert_eq!(r.asset_path, "B C");
}

#[test]
fn asset_reference_without_space_is_unknown() {
    let r = AssetReference::from_raw("justapath");
    assert_eq!(r.asset_type, "UNKNOWN");
    assert_eq!(r.asset_path, "justapath");
}

#[test]
fn normalized_string_is_pascal_case() {
    assert_eq!(NormalizedString::from_raw("iron plate").as_str(), "IronPlate");
    assert_eq!(NormalizedString::from_raw("Iron  Plate").into_string(), "IronPlate");
    assert_eq!(NormalizedString::from_raw("reinforced_iron_plate").as_str(), "ReinforcedIronPlate");
}
