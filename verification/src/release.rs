//! Releases fetched from the hosting service's API, and the selection of a
//! downloadable asset out of one or several of them.
//!
//! Selection is by name patterns: an asset qualifies when its file name
//! contains every requested pattern as a case-sensitive substring, and the
//! first qualifying asset (in the order the API returned them) wins.

use vstd::prelude::*;

verus! {

use crate::text::{contains_seq, str_contains};

/// One downloadable file attached to a release.
#[derive(Debug)]
pub struct GithubReleaseAsset {
    pub name: String,
    pub url: String,
    /// The URL of the actual file.
    pub browser_download_url: String,
}

/// A single release of a hosted project, with its assets in the order the
/// hosting service returned them.
#[derive(Debug)]
pub struct GithubRelease {
    pub tag_name: String,
    pub assets: Vec<GithubReleaseAsset>,
}

/// An asset name satisfies a pattern set when it contains every pattern as a
/// case-sensitive substring. A zero-pattern set is satisfied vacuously.
pub open spec fn name_matches(name: Seq<char>, pats: Seq<Seq<char>>) -> bool {
    forall|j: int| 0 <= j < pats.len() ==> contains_seq(name, pats[j])
}

/// Index of the first asset whose name satisfies the pattern set, if any.
pub open spec fn spec_select_asset(assets: Seq<GithubReleaseAsset>, pats: Seq<Seq<char>>) -> Option<
    int,
>
    decreases assets.len(),
{
    if assets.len() == 0 {
        None
    } else if name_matches(assets[0].name@, pats) {
        Some(0int)
    } else {
        match spec_select_asset(assets.drop_first(), pats) {
            None => None,
            Some(i) => Some(i + 1),
        }
    }
}

/// Selection picks the first qualifying asset and nothing else: a returned
/// index is in range, its asset qualifies, no earlier asset does; and when
/// nothing is returned, no asset qualifies at all. Order is preserved —
/// there is no reordering by relevance.
pub proof fn lemma_select_asset_first(assets: Seq<GithubReleaseAsset>, pats: Seq<Seq<char>>)
    ensures
        match spec_select_asset(assets, pats) {
            Some(i) => 0 <= i < assets.len() && name_matches(assets[i].name@, pats) && (forall|
                j: int,
            |
                0 <= j < i ==> !name_matches(assets[j].name@, pats)),
            None => forall|j: int| 0 <= j < assets.len() ==> !name_matches(assets[j].name@, pats),
        },
    decreases assets.len(),
{
    if assets.len() == 0 {
    } else if name_matches(assets[0].name@, pats) {
    } else {
        lemma_select_asset_first(assets.drop_first(), pats);
        assert forall|j: int| 1 <= j < assets.len() implies assets.drop_first()[j - 1]
            == assets[j] by {}
    }
}

/// With an empty pattern set every asset qualifies, so selection returns the
/// first asset of a non-empty list and nothing from an empty one.
pub proof fn lemma_select_asset_empty_patterns(
    assets: Seq<GithubReleaseAsset>,
    pats: Seq<Seq<char>>,
)
    requires
        pats.len() == 0,
    ensures
        assets.len() == 0 ==> spec_select_asset(assets, pats) is None,
        assets.len() > 0 ==> spec_select_asset(assets, pats) == Some(0int),
{
}

/// If the first qualifying asset is at `i`, selection returns `i`.
pub proof fn lemma_select_asset_at(
    assets: Seq<GithubReleaseAsset>,
    pats: Seq<Seq<char>>,
    i: int,
)
    requires
        0 <= i < assets.len(),
        name_matches(assets[i].name@, pats),
        forall|j: int| 0 <= j < i ==> !name_matches(assets[j].name@, pats),
    ensures
        spec_select_asset(assets, pats) == Some(i),
    decreases i,
{
    if i == 0 {
    } else {
        assert(assets.drop_first()[i - 1] == assets[i]);
        assert forall|j: int| 0 <= j < i - 1 implies !name_matches(
            assets.drop_first()[j].name@,
            pats,
        ) by {
            assert(assets.drop_first()[j] == assets[j + 1]);
        }
        lemma_select_asset_at(assets.drop_first(), pats, i - 1);
    }
}

/// If no asset qualifies, selection returns nothing.
pub proof fn lemma_select_asset_none(assets: Seq<GithubReleaseAsset>, pats: Seq<Seq<char>>)
    requires
        forall|j: int| 0 <= j < assets.len() ==> !name_matches(assets[j].name@, pats),
    ensures
        spec_select_asset(assets, pats) is None,
    decreases assets.len(),
{
    if assets.len() == 0 {
    } else {
        assert forall|j: int| 0 <= j < assets.drop_first().len() implies !name_matches(
            assets.drop_first()[j].name@,
            pats,
        ) by {
            assert(assets.drop_first()[j] == assets[j + 1]);
        }
        lemma_select_asset_none(assets.drop_first(), pats);
    }
}

/// Does `name` contain every pattern of `pats` as a substring?
fn name_matches_exec(name: &str, pats: &[&str]) -> (r: bool)
    ensures
        r == name_matches(name@, pats.deep_view()),
{
    let n: usize = pats.len();
    let mut j: usize = 0;
    while j < n
        invariant
            n == pats@.len(),
            j <= n,
            forall|t: int| 0 <= t < j ==> contains_seq(name@, pats.deep_view()[t]),
        decreases n - j,
    {
        let p: &&str = &pats[j];
        if !str_contains(name, p) {
            assert(pats.deep_view()[j as int] == pats@[j as int]@);
            return false;
        }
        assert(pats.deep_view()[j as int] == pats@[j as int]@);
        j = j + 1;
    }
    true
}

impl GithubRelease {
    /// First asset whose name contains `pat` as a substring.
    pub fn get_asset_pattern(&self, pat: &str) -> (r: Option<&GithubReleaseAsset>)
        ensures
            match r {
                Some(a) => spec_select_asset(self.assets@, seq![pat@]) matches Some(i) && 0 <= i
                    < self.assets@.len() && *a == self.assets@[i],
                None => spec_select_asset(self.assets@, seq![pat@]) is None,
            },
    {
        let pats: Vec<&str> = vec![pat];
        let ps: &[&str] = pats.as_slice();
        let r = self.get_asset_patterns(ps);
        proof {
            assert(ps.deep_view() =~= seq![pat@]);
        }
        r
    }

    /// First asset whose name contains every pattern of `pats` as a
    /// substring, in the order the hosting service returned the assets.
    pub fn get_asset_patterns(&self, pats: &[&str]) -> (r: Option<&GithubReleaseAsset>)
        ensures
            match r {
                Some(a) => spec_select_asset(self.assets@, pats.deep_view()) matches Some(i) && 0
                    <= i < self.assets@.len() && *a == self.assets@[i],
                None => spec_select_asset(self.assets@, pats.deep_view()) is None,
            },
    {
        let n: usize = self.assets.len();
        let mut idx: usize = 0;
        while idx < n
            invariant
                n == self.assets@.len(),
                idx <= n,
                forall|j: int| 0 <= j < idx ==> !name_matches(
                    self.assets@[j].name@,
                    pats.deep_view(),
                ),
            decreases n - idx,
        {
            let a = &self.assets[idx];
            if name_matches_exec(a.name.as_str(), pats) {
                proof {
                    lemma_select_asset_at(self.assets@, pats.deep_view(), idx as int);
                }
                return Some(a);
            }
            idx = idx + 1;
        }
        proof {
            lemma_select_asset_none(self.assets@, pats.deep_view());
        }
        None
    }
}

/// A release is a candidate of a scan when its tag contains `tag_pat` and
/// one of its assets' names contains `asset_pat`.
pub open spec fn release_has_match(
    release: GithubRelease,
    tag_pat: Seq<char>,
    asset_pat: Seq<char>,
) -> bool {
    contains_seq(release.tag_name@, tag_pat) && spec_select_asset(
        release.assets@,
        seq![asset_pat],
    ) is Some
}

/// Position of the first candidate release of a scan together with the index
/// of its first qualifying asset, if any candidate exists.
pub open spec fn spec_scan_releases(
    releases: Seq<GithubRelease>,
    tag_pat: Seq<char>,
    asset_pat: Seq<char>,
) -> Option<(int, int)>
    decreases releases.len(),
{
    if releases.len() == 0 {
        None
    } else if release_has_match(releases[0], tag_pat, asset_pat) {
        match spec_select_asset(releases[0].assets@, seq![asset_pat]) {
            Some(j) => Some((0int, j)),
            None => None,
        }
    } else {
        match spec_scan_releases(releases.drop_first(), tag_pat, asset_pat) {
            None => None,
            Some(p) => Some((p.0 + 1, p.1)),
        }
    }
}

/// If the first candidate release is at `i`, the scan returns `i` paired
/// with the index its asset selection returns.
pub proof fn lemma_scan_releases_at(
    releases: Seq<GithubRelease>,
    tag_pat: Seq<char>,
    asset_pat: Seq<char>,
    i: int,
)
    requires
        0 <= i < releases.len(),
        release_has_match(releases[i], tag_pat, asset_pat),
        forall|j: int| 0 <= j < i ==> !release_has_match(releases[j], tag_pat, asset_pat),
    ensures
        spec_scan_releases(releases, tag_pat, asset_pat) matches Some(p) && p.0 == i && Some(p.1)
            == spec_select_asset(releases[i].assets@, seq![asset_pat]),
    decreases i,
{
    if i == 0 {
    } else {
        assert(releases.drop_first()[i - 1] == releases[i]);
        assert forall|j: int| 0 <= j < i - 1 implies !release_has_match(
            releases.drop_first()[j],
            tag_pat,
            asset_pat,
        ) by {
            assert(releases.drop_first()[j] == releases[j + 1]);
        }
        lemma_scan_releases_at(releases.drop_first(), tag_pat, asset_pat, i - 1);
    }
}

/// If no release is a candidate, the scan returns nothing.
pub proof fn lemma_scan_releases_none(
    releases: Seq<GithubRelease>,
    tag_pat: Seq<char>,
    asset_pat: Seq<char>,
)
    requires
        forall|j: int| 0 <= j < releases.len() ==> !release_has_match(
            releases[j],
            tag_pat,
            asset_pat,
        ),
    ensures
        spec_scan_releases(releases, tag_pat, asset_pat) is None,
    decreases releases.len(),
{
    if releases.len() == 0 {
    } else {
        assert forall|j: int| 0 <= j < releases.drop_first().len() implies !release_has_match(
            releases.drop_first()[j],
            tag_pat,
            asset_pat,
        ) by {
            assert(releases.drop_first()[j] == releases[j + 1]);
        }
        lemma_scan_releases_none(releases.drop_first(), tag_pat, asset_pat);
    }
}

/// Walk `releases` in order and return the first qualifying asset of the
/// first release whose tag contains `tag_pat` and which has an asset whose
/// name contains `asset_pat`.
pub fn find_asset_in_releases<'a>(
    releases: &'a Vec<GithubRelease>,
    tag_pat: &str,
    asset_pat: &str,
) -> (r: Option<&'a GithubReleaseAsset>)
    ensures
        match r {
            Some(a) => spec_scan_releases(releases@, tag_pat@, asset_pat@) matches Some(p) && 0
                <= p.0 < releases@.len() && 0 <= p.1 < releases@[p.0].assets@.len() && *a
                == releases@[p.0].assets@[p.1],
            None => spec_scan_releases(releases@, tag_pat@, asset_pat@) is None,
        },
{
    let n: usize = releases.len();
    let mut idx: usize = 0;
    while idx < n
        invariant
            n == releases@.len(),
            idx <= n,
            forall|j: int| 0 <= j < idx ==> !release_has_match(releases@[j], tag_pat@, asset_pat@),
        decreases n - idx,
    {
        let release = &releases[idx];
        if str_contains(release.tag_name.as_str(), tag_pat) {
            let found = release.get_asset_pattern(asset_pat);
            match found {
                Some(a) => {
                    proof {
                        lemma_scan_releases_at(releases@, tag_pat@, asset_pat@, idx as int);
                    }
                    return Some(a);
                },
                None => {},
            }
        }
        idx = idx + 1;
    }
    proof {
        lemma_scan_releases_none(releases@, tag_pat@, asset_pat@);
    }
    None
}

} // verus!
