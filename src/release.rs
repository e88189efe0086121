//! Release lookup: finding the release for a version and the asset built for
//! this machine.

use vstd::prelude::*;
use crate::text::{contains_text, text_contains, text_eq};

verus! {

/// One downloadable build artifact of a release.
#[derive(Debug)]
pub struct ReleaseAsset {
    pub name: String,
    pub download_url: String,
}

/// A published release: its version and its assets, in the order the index
/// lists them.
#[derive(Debug)]
pub struct Release {
    pub version: String,
    pub assets: Vec<ReleaseAsset>,
}

/// Why a release or an asset could not be had.
#[derive(PartialEq, Eq, Structural, Debug, Clone, Copy)]
pub enum LookupError {
    /// The release index could not be reached.
    NetworkError,
    /// The index answered without success.
    NotFound,
    /// No release carries the requested version.
    VersionNotFound,
    /// The release has no asset for this architecture and platform.
    AssetNotFound,
}

/// The release at index `i` is the first one whose version is `wanted`.
pub open spec fn is_first_release(rs: Seq<Release>, wanted: Seq<char>, i: int) -> bool {
    0 <= i < rs.len() && rs[i].version@ == wanted
        && forall|j: int| 0 <= j < i ==> rs[j].version@ != wanted
}

/// Some release carries the version `wanted`.
pub open spec fn has_release(rs: Seq<Release>, wanted: Seq<char>) -> bool {
    exists|i: int| 0 <= i < rs.len() && rs[i].version@ == wanted
}

/// Every release that carries version `w` is the same descriptor.
pub open spec fn single_release(rs: Seq<Release>, w: Seq<char>) -> bool {
    forall|i: int, j: int|
        0 <= i < rs.len() && 0 <= j < rs.len() && rs[i].version@ == w && rs[j].version@ == w
            ==> rs[i] == rs[j]
}

/// The release found for `w` depends only on which releases carry `w`: two
/// lists holding the same such releases give the same answer, whatever the
/// order and whatever other entries they list, as long as `w` names a
/// single descriptor.
pub proof fn lemma_release_depends_only_on_matches(rs1: Seq<Release>, rs2: Seq<Release>, w: Seq<char>)
    requires
        forall|x: Release| (rs1.contains(x) && x.version@ == w) <==> (rs2.contains(x) && x.version@ == w),
        single_release(rs1, w),
    ensures
        has_release(rs1, w) == has_release(rs2, w),
        forall|i: int, k: int| is_first_release(rs1, w, i) && is_first_release(rs2, w, k) ==> rs1[i] == rs2[k],
{
    if has_release(rs1, w) {
        let i = choose|i: int| 0 <= i < rs1.len() && rs1[i].version@ == w;
        assert(rs1.contains(rs1[i]));
        assert(rs2.contains(rs1[i]));
    }
    if has_release(rs2, w) {
        let k = choose|k: int| 0 <= k < rs2.len() && rs2[k].version@ == w;
        assert(rs2.contains(rs2[k]));
        assert(rs1.contains(rs2[k]));
    }
    assert forall|i: int, k: int| is_first_release(rs1, w, i) && is_first_release(rs2, w, k)
        implies rs1[i] == rs2[k] by {
        let x = rs2[k];
        assert(rs2.contains(x));
        assert(rs1.contains(x));
        let j = choose|j: int| 0 <= j < rs1.len() && rs1[j] == x;
        assert(rs1[j].version@ == w);
    }
}

/// Where a version names a single descriptor, the release found for it is
/// that descriptor, wherever it stands in the list.
pub proof fn lemma_single_release_is_found(rs: Seq<Release>, w: Seq<char>, j: int)
    requires
        single_release(rs, w),
        0 <= j < rs.len(),
        rs[j].version@ == w,
    ensures
        has_release(rs, w),
        forall|i: int| is_first_release(rs, w, i) ==> rs[i] == rs[j],
{
}

/// Looking a version up does not depend on the order in which the index
/// lists its releases, as long as the version names a single descriptor.
pub proof fn lemma_find_release_order_independent(rs1: Seq<Release>, rs2: Seq<Release>, w: Seq<char>)
    requires
        rs1.to_multiset() == rs2.to_multiset(),
        single_release(rs1, w),
    ensures
        has_release(rs1, w) == has_release(rs2, w),
        forall|i: int, k: int| is_first_release(rs1, w, i) && is_first_release(rs2, w, k) ==> rs1[i] == rs2[k],
{
    assert forall|x: Release| rs1.contains(x) <==> rs2.contains(x) by {
        vstd::seq_lib::to_multiset_contains(rs1, x);
        vstd::seq_lib::to_multiset_contains(rs2, x);
    }
    lemma_release_depends_only_on_matches(rs1, rs2, w);
}

/// Finds the first release whose version is exactly `wanted`.
pub fn find_release<'a>(releases: &'a Vec<Release>, wanted: &str) -> (r: Result<&'a Release, LookupError>)
    ensures
        r is Ok <==> has_release(releases@, wanted@),
        r matches Ok(rel) ==> exists|i: int| is_first_release(releases@, wanted@, i) && releases@[i] == *rel,
        r matches Err(e) ==> e == LookupError::VersionNotFound,
{
    let mut i: usize = 0;
    while i < releases.len()
        invariant
            i <= releases.len(),
            forall|j: int| 0 <= j < i ==> releases@[j].version@ != wanted@,
        decreases releases.len() - i,
    {
        if text_eq(releases[i].version.as_str(), wanted) {
            assert(is_first_release(releases@, wanted@, i as int));
            return Ok(&releases[i]);
        }
        i = i + 1;
    }
    Err(LookupError::VersionNotFound)
}

/// The two architectures that builds are published for.
#[derive(PartialEq, Eq, Structural, Clone, Copy, Debug)]
pub enum Architecture {
    X86_64,
    Aarch64,
}

/// The identifier that asset names carry for an architecture.
pub open spec fn arch_text(a: Architecture) -> Seq<char> {
    match a {
        Architecture::X86_64 => "x86_64"@,
        Architecture::Aarch64 => "aarch64"@,
    }
}

impl Architecture {
    /// Narrows a detected machine architecture to a published one: `arm64`
    /// means the 64-bit ARM build, anything else the 64-bit x86 build.
    pub fn from_detected(detected: &str) -> (r: Architecture)
        ensures
            r == (if detected@ == "arm64"@ { Architecture::Aarch64 } else { Architecture::X86_64 }),
    {
        if text_eq(detected, "arm64") {
            Architecture::Aarch64
        } else {
            Architecture::X86_64
        }
    }

    /// The identifier that asset names carry for this architecture.
    pub fn identifier(&self) -> (r: &'static str)
        ensures
            r@ == arch_text(*self),
    {
        match self {
            Architecture::X86_64 => "x86_64",
            Architecture::Aarch64 => "aarch64",
        }
    }
}

/// An asset is built for `arch` on `platform` when its name carries both.
pub open spec fn asset_matches(a: ReleaseAsset, arch: Architecture, platform: Seq<char>) -> bool {
    contains_text(a.name@, arch_text(arch)) && contains_text(a.name@, platform)
}

/// The asset at index `i` is the first one built for `arch` on `platform`.
pub open spec fn is_first_asset(assets: Seq<ReleaseAsset>, arch: Architecture, platform: Seq<char>, i: int) -> bool {
    0 <= i < assets.len() && asset_matches(assets[i], arch, platform)
        && forall|j: int| 0 <= j < i ==> !asset_matches(assets[j], arch, platform)
}

/// Selects the first asset of `release` whose name carries both the
/// architecture's identifier and the platform. No other asset is ever taken
/// in its place.
pub fn select_asset<'a>(release: &'a Release, arch: Architecture, platform: &str) -> (r: Result<&'a ReleaseAsset, LookupError>)
    ensures
        r is Ok <==> exists|i: int| 0 <= i < release.assets@.len() && asset_matches(release.assets@[i], arch, platform@),
        r matches Ok(a) ==> exists|i: int| is_first_asset(release.assets@, arch, platform@, i) && release.assets@[i] == *a,
        r matches Ok(a) ==> asset_matches(*a, arch, platform@),
        r matches Err(e) ==> e == LookupError::AssetNotFound,
{
    let target = arch.identifier();
    let mut i: usize = 0;
    while i < release.assets.len()
        invariant
            target@ == arch_text(arch),
            i <= release.assets.len(),
            forall|j: int| 0 <= j < i ==> !asset_matches(release.assets@[j], arch, platform@),
        decreases release.assets.len() - i,
    {
        let name = release.assets[i].name.as_str();
        if text_contains(name, target) && text_contains(name, platform) {
            assert(is_first_asset(release.assets@, arch, platform@, i as int));
            return Ok(&release.assets[i]);
        }
        i = i + 1;
    }
    Err(LookupError::AssetNotFound)
}

} // verus!
