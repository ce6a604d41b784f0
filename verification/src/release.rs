//! Published releases and the choice of an asset by name.

use vstd::prelude::*;

verus! {

/// One downloadable file of a release.
#[derive(Debug, PartialEq, Eq)]
pub struct Asset {
    pub name: String,
    pub download_url: String,
}

/// An asset over texts.
pub struct AssetView {
    pub name: Seq<char>,
    pub download_url: Seq<char>,
}

impl View for Asset {
    type V = AssetView;

    open spec fn view(&self) -> AssetView {
        AssetView { name: self.name@, download_url: self.download_url@ }
    }
}

/// A published release: its version and the files attached to it.
#[derive(Debug, PartialEq, Eq)]
pub struct Release {
    pub version: String,
    pub assets: Vec<Asset>,
}

/// A release over texts.
pub struct ReleaseView {
    pub version: Seq<char>,
    pub assets: Seq<AssetView>,
}

impl View for Release {
    type V = ReleaseView;

    open spec fn view(&self) -> ReleaseView {
        ReleaseView { version: self.version@, assets: self.assets@.map_values(|a: Asset| a@) }
    }
}

/// The first asset that bears exactly the name `name`, if there is one.
pub open spec fn select_asset(assets: Seq<AssetView>, name: Seq<char>) -> Option<AssetView>
    decreases assets.len(),
{
    if assets.len() == 0 {
        None
    } else if assets[0].name == name {
        Some(assets[0])
    } else {
        select_asset(assets.drop_first(), name)
    }
}

/// Whether some asset bears exactly the name `name`.
pub open spec fn has_asset(assets: Seq<AssetView>, name: Seq<char>) -> bool {
    exists|i: int| 0 <= i < assets.len() && (#[trigger] assets[i]).name == name
}

/// `select_asset` finds an asset exactly when one bears the name, and what it
/// finds is an asset of the list with that name, with no such asset before it.
pub proof fn lemma_select_asset(assets: Seq<AssetView>, name: Seq<char>)
    ensures
        select_asset(assets, name) is Some <==> has_asset(assets, name),
        select_asset(assets, name) matches Some(a) ==> exists|i: int|
            0 <= i < assets.len() && #[trigger] assets[i] == a && a.name == name && forall|j: int|
                0 <= j < i ==> (#[trigger] assets[j]).name != name,
    decreases assets.len(),
{
    if assets.len() == 0 {
    } else if assets[0].name == name {
        assert(assets[0] == select_asset(assets, name)->Some_0);
    } else {
        let rest = assets.drop_first();
        lemma_select_asset(rest, name);
        if has_asset(assets, name) {
            let i = choose|i: int| 0 <= i < assets.len() && (#[trigger] assets[i]).name == name;
            assert(rest[i - 1].name == name);
        }
        if has_asset(rest, name) {
            let i = choose|i: int| 0 <= i < rest.len() && (#[trigger] rest[i]).name == name;
            assert(assets[i + 1].name == name);
        }
        if let Some(a) = select_asset(assets, name) {
            let i = choose|i: int|
                0 <= i < rest.len() && #[trigger] rest[i] == a && a.name == name && forall|j: int|
                    0 <= j < i ==> (#[trigger] rest[j]).name != name;
            assert(assets[i + 1] == a);
            assert forall|j: int| 0 <= j < i + 1 implies (#[trigger] assets[j]).name != name by {
                if j > 0 {
                    assert(rest[j - 1].name != name);
                }
            }
        }
    }
}

/// Finds the asset to download: the first one named exactly `name`.
pub fn find_asset<'a>(assets: &'a Vec<Asset>, name: &String) -> (found: Option<&'a Asset>)
    ensures
        match found {
            Some(a) => select_asset(assets@.map_values(|a: Asset| a@), name@) == Some(a@),
            None => select_asset(assets@.map_values(|a: Asset| a@), name@) is None,
        },
{
    let ghost all = assets@.map_values(|a: Asset| a@);
    let mut i: usize = 0;
    proof {
        assert(all.skip(0) =~= all);
    }
    while i < assets.len()
        invariant
            0 <= i <= assets.len(),
            all == assets@.map_values(|a: Asset| a@),
            select_asset(all, name@) == select_asset(all.skip(i as int), name@),
        decreases assets.len() - i,
    {
        let asset = &assets[i];
        proof {
            assert(all.skip(i as int)[0] == asset@);
            assert(all.skip(i as int).drop_first() =~= all.skip(i + 1));
        }
        if asset.name == *name {
            return Some(asset);
        }
        i += 1;
    }
    proof {
        assert(all.skip(i as int).len() == 0);
    }
    None
}

} // verus!
