use std::path::PathBuf;

use orbital_common::steam::SteamLibrary;

const LIBRARY: &str = "/home/pioneer/.steam/steam";

#[test]
fn game_path() {
    let library = SteamLibrary::new(LIBRARY);
    let expected = PathBuf::from("/home/pioneer/.steam/steam/steamapps/common/Satisfactory");
    let actual = PathBuf::from(library.game_path());
    assert_eq!(actual, expected, "GAME_PATH: {:?} != {:?}", actual, expected);
}

#[test]
fn community_resources() {
    let library = SteamLibrary::new(LIBRARY);
    let expected =
        PathBuf::from("/home/pioneer/.steam/steam/steamapps/common/Satisfactory/CommunityResources");
    let actual = PathBuf::from(library.community_resources());
    assert_eq!(actual, expected, "COMMUNITY_RESOURCES: {:?} != {:?}", actual, expected);
}

#[test]
fn docs() {
    let library = SteamLibrary::new(LIBRARY);
    let expected = PathBuf::from(
        "/home/pioneer/.steam/steam/steamapps/common/Satisfactory/CommunityResources/Docs",
    );
    let actual = PathBuf::from(library.docs());
    assert_eq!(actual, expected, "DOCS: {:?} != {:?}", actual, expected);
}

#[test]
fn paks() {
    let library = SteamLibrary::new(LIBRARY);
    let expected = PathBuf::from(
        "/home/pioneer/.steam/steam/steamapps/common/Satisfactory/FactoryGame/Content/Paks",
    );
    let actual = PathBuf::from(library.paks());
    assert_eq!(actual, expected, "PAKS: {:?} != {:?}", actual, expected);
}

#[test]
fn base_is_kept_verbatim() {
    let library = SteamLibrary::new("/mnt/games/");
    assert_eq!(library.base(), "/mnt/games/");
    assert_eq!(library.game_path(), "/mnt/games/steamapps/common/Satisfactory");
}

#[test]
fn empty_base_gives_relative_paths() {
    let library = SteamLibrary::new("");
    assert_eq!(library.game_path(), "steamapps/common/Satisfactory");
    assert_eq!(library.paks(), "steamapps/common/Satisfactory/FactoryGame/Content/Paks");
}
