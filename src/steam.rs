use vstd::prelude::*;
use vstd::string::*;

verus! {

/// `rel` appended to `base` as one more path component, as a Unix
/// `PathBuf::push` of a relative path does: a separator is put between
/// them unless `base` is empty or already ends in one.
pub open spec fn path_join(base: Seq<char>, rel: Seq<char>) -> Seq<char> {
    if base.len() == 0 || base.last() == '/' {
        base + rel
    } else {
        base + seq!['/'] + rel
    }
}

pub open spec fn game_path_of(base: Seq<char>) -> Seq<char> {
    path_join(base, "steamapps/common/Satisfactory"@)
}

pub open spec fn community_resources_of(base: Seq<char>) -> Seq<char> {
    path_join(game_path_of(base), "CommunityResources"@)
}

pub open spec fn docs_of(base: Seq<char>) -> Seq<char> {
    path_join(community_resources_of(base), "Docs"@)
}

pub open spec fn paks_of(base: Seq<char>) -> Seq<char> {
    path_join(game_path_of(base), "FactoryGame/Content/Paks"@)
}

/// Appends the relative path `rel` to `base`.
pub fn join_path(base: &str, rel: &str) -> (r: String)
    ensures
        r@ == path_join(base@, rel@),
{
    let mut r = String::from_str(base);
    let n = base.unicode_len();
    if n > 0 && base.get_char(n - 1) != '/' {
        r.append("/");
        proof {
            reveal_strlit("/");
        }
    }
    r.append(rel);
    r
}

/// A Steam library folder, and where the game's files lie inside it.
pub struct SteamLibrary(String);

impl SteamLibrary {
    pub closed spec fn base_path(&self) -> Seq<char> {
        self.0@
    }

    pub fn new(path: &str) -> (r: Self)
        ensures
            r.base_path() == path@,
    {
        SteamLibrary(String::from_str(path))
    }

    pub fn base(&self) -> (r: String)
        ensures
            r@ == self.base_path(),
    {
        self.0.clone()
    }

    pub fn game_path(&self) -> (r: String)
        ensures
            r@ == game_path_of(self.base_path()),
    {
        join_path(self.0.as_str(), "steamapps/common/Satisfactory")
    }

    pub fn community_resources(&self) -> (r: String)
        ensures
            r@ == community_resources_of(self.base_path()),
    {
        let game = self.game_path();
        join_path(game.as_str(), "CommunityResources")
    }

    pub fn docs(&self) -> (r: String)
        ensures
            r@ == docs_of(self.base_path()),
    {
        let resources = self.community_resources();
        join_path(resources.as_str(), "Docs")
    }

    pub fn paks(&self) -> (r: String)
        ensures
            r@ == paks_of(self.base_path()),
    {
        let game = self.game_path();
        join_path(game.as_str(), "FactoryGame/Content/Paks")
    }
}

} // verus!
