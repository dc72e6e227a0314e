use vstd::prelude::*;
use vstd::string::*;

use crate::catalog::{DescriptionItem, DescriptionView, IconAsset, IconAssetView, OrbitalData};
use crate::id_map::IdMap;
use crate::text::{find_first, first_index_of, same_text, trim_start, trim_start_char};

verus! {

/// Where an asset lives inside the game's content: its path with the
/// leading `/` and the first path component dropped.
pub open spec fn content_tail(path: Seq<char>) -> Option<Seq<char>> {
    let t = trim_start(path, '/');
    match first_index_of(t, '/') {
        Some(i) => Some(t.subrange(i + 1, t.len() as int)),
        None => None,
    }
}

pub open spec fn texture_prefix() -> Seq<char> {
    "TEXTURE::/FactoryGame/Content/"@
}

/// The request for an icon: its canonical id and the texture to extract,
/// where the icon is a `Texture2D` with an id and a path inside the content.
pub open spec fn request_for(icon: IconAssetView) -> Option<(Seq<char>, Seq<char>)> {
    match (icon.asset_id, content_tail(icon.reference.1)) {
        (Some(id), Some(tail)) => if icon.reference.0 == "Texture2D"@ {
            Some((id, texture_prefix() + tail))
        } else {
            None
        },
        _ => None,
    }
}

/// `acc` with the request of `icon`, unless its id is requested already.
pub open spec fn add_icon_request(acc: Map<Seq<char>, Seq<char>>, icon: Option<IconAssetView>) -> Map<
    Seq<char>,
    Seq<char>,
> {
    match icon {
        Some(a) => match request_for(a) {
            Some((id, line)) => if acc.contains_key(id) {
                acc
            } else {
                acc.insert(id, line)
            },
            None => acc,
        },
        None => acc,
    }
}

/// The icon requests of `descs`, each description's large icon before its
/// small one; the first request for an id is kept.
pub open spec fn icon_requests(descs: Seq<DescriptionView>) -> Map<Seq<char>, Seq<char>>
    decreases descs.len(),
{
    if descs.len() == 0 {
        Map::empty()
    } else {
        let d = descs.last();
        add_icon_request(add_icon_request(icon_requests(descs.drop_last()), d.big_icon), d.icon)
    }
}

pub open spec fn map_slice_requests(acc: Map<Seq<char>, Seq<char>>) -> Map<Seq<char>, Seq<char>> {
    acc.insert(
        "MapSlice0_0"@,
        "TEXTURE::/FactoryGame/Content/FactoryGame/Interface/UI/Assets/MapTest/SlicedMap/Map_0-0.Map_0-0"@,
    ).insert(
        "MapSlice1_0"@,
        "TEXTURE::/FactoryGame/Content/FactoryGame/Interface/UI/Assets/MapTest/SlicedMap/Map_1-0.Map_1-0"@,
    ).insert(
        "MapSlice0_1"@,
        "TEXTURE::/FactoryGame/Content/FactoryGame/Interface/UI/Assets/MapTest/SlicedMap/Map_0-1.Map_0-1"@,
    ).insert(
        "MapSlice1_1"@,
        "TEXTURE::/FactoryGame/Content/FactoryGame/Interface/UI/Assets/MapTest/SlicedMap/Map_1-1.Map_1-1"@,
    )
}

/// The request line of `icon`, if it has one.
fn icon_request(icon: &IconAsset) -> (r: Option<(String, String)>)
    ensures
        match r {
            Some((id, line)) => request_for(icon@) == Some((id@, line@)),
            None => request_for(icon@) is None,
        },
{
    let id = match &icon.asset_id.as_option() {
        Some(id) => *id,
        None => return None,
    };
    let path = trim_start_char(icon.reference.asset_path.as_str(), '/');
    let n = path.unicode_len();
    let tail = match find_first(path, '/') {
        Some(i) => path.substring_char(i + 1, n),
        None => return None,
    };
    if !same_text(icon.reference.asset_type.as_str(), "Texture2D") {
        return None;
    }
    let mut line = String::from_str("TEXTURE::/FactoryGame/Content/");
    line.append(tail);
    Some((id.clone(), line))
}

fn add_request(requests: &mut IdMap<String>, icon: &Option<IconAsset>)
    requires
        old(requests).wf(),
    ensures
        final(requests).wf(),
        final(requests)@ == add_icon_request(old(requests)@, match icon {
            Some(a) => Some(a@),
            None => None,
        }),
{
    if let Some(a) = icon {
        if let Some((id, line)) = icon_request(a) {
            if requests.get(id.as_str()).is_none() {
                requests.insert(id, line);
            }
        }
    }
}

/// The textures to extract for a catalog: one per icon id of its
/// descriptions, in their order, and the four slices of the world map.
pub fn asset_requests(data: &OrbitalData) -> (r: IdMap<String>)
    requires
        data.wf(),
    ensures
        r.wf(),
        r@ == map_slice_requests(icon_requests(data.description_order())),
{
    let entries = data.descriptions().entries();
    let ghost descs = data.description_order();
    let mut requests: IdMap<String> = IdMap::new();
    let n = entries.len();
    let mut i: usize = 0;
    while i < n
        invariant
            n == entries@.len(),
            descs == entries@.map_values(|e: (String, DescriptionItem)| e.1@),
            i <= n,
            requests.wf(),
            requests@ == icon_requests(descs.take(i as int)),
        decreases n - i,
    {
        let d = &entries[i].1;
        add_request(&mut requests, &d.big_icon);
        add_request(&mut requests, &d.icon);
        assert(descs.take(i + 1).drop_last() =~= descs.take(i as int));
        i = i + 1;
    }
    assert(descs.take(n as int) =~= descs);
    requests.insert(
        String::from_str("MapSlice0_0"),
        String::from_str("TEXTURE::/FactoryGame/Content/FactoryGame/Interface/UI/Assets/MapTest/SlicedMap/Map_0-0.Map_0-0"),
    );
    requests.insert(
        String::from_str("MapSlice1_0"),
        String::from_str("TEXTURE::/FactoryGame/Content/FactoryGame/Interface/UI/Assets/MapTest/SlicedMap/Map_1-0.Map_1-0"),
    );
    requests.insert(
        String::from_str("MapSlice0_1"),
        String::from_str("TEXTURE::/FactoryGame/Content/FactoryGame/Interface/UI/Assets/MapTest/SlicedMap/Map_0-1.Map_0-1"),
    );
    requests.insert(
        String::from_str("MapSlice1_1"),
        String::from_str("TEXTURE::/FactoryGame/Content/FactoryGame/Interface/UI/Assets/MapTest/SlicedMap/Map_1-1.Map_1-1"),
    );
    requests
}

} // verus!
