use runtipi_cli::release::{find_release, select_asset, Architecture, LookupError, Release, ReleaseAsset};

fn asset(name: &str) -> ReleaseAsset {
    ReleaseAsset { name: name.to_string(), download_url: format!("https://example.com/{name}") }
}

fn release(version: &str, assets: Vec<ReleaseAsset>) -> Release {
    Release { version: version.to_string(), assets }
}

fn both_arches(version: &str) -> Release {
    release(
        version,
        vec![
            asset("runtipi-cli-linux-x86_64.tar.gz"),
            asset("runtipi-cli-linux-aarch64.tar.gz"),
        ],
    )
}

#[test]
fn architecture_normalization() {
    assert_eq!(Architecture::from_detected("arm64"), Architecture::Aarch64);
    assert_eq!(Architecture::from_detected("x86_64"), Architecture::X86_64);
    assert_eq!(Architecture::from_detected("aarch64"), Architecture::X86_64);
    assert_eq!(Architecture::from_detected(""), Architecture::X86_64);
    assert_eq!(Architecture::Aarch64.identifier(), "aarch64");
    assert_eq!(Architecture::X86_64.identifier(), "x86_64");
}

#[test]
fn select_asset_picks_matching_architecture() {
    let r = both_arches("1.0.0");
    let a = select_asset(&r, Architecture::X86_64, "linux").unwrap();
    assert_eq!(a.name, "runtipi-cli-linux-x86_64.tar.gz");
    let b = select_asset(&r, Architecture::Aarch64, "linux").unwrap();
    assert_eq!(b.name, "runtipi-cli-linux-aarch64.tar.gz");
    assert_eq!(b.download_url, "https://example.com/runtipi-cli-linux-aarch64.tar.gz");
}

#[test]
fn select_asset_fails_without_match() {
    let r = release("1.0.0", vec![asset("runtipi-cli-linux-x86_64.tar.gz")]);
    assert_eq!(select_asset(&r, Architecture::Aarch64, "linux").unwrap_err(), LookupError::AssetNotFound);
    let d = release("1.0.0", vec![asset("runtipi-cli-darwin-aarch64.tar.gz")]);
    assert_eq!(select_asset(&d, Architecture::Aarch64, "linux").unwrap_err(), LookupError::AssetNotFound);
    let empty = release("1.0.0", vec![]);
    assert_eq!(select_asset(&empty, Architecture::X86_64, "linux").unwrap_err(), LookupError::AssetNotFound);
}

#[test]
fn find_release_present_and_absent() {
    let list = vec![both_arches("1.2.0"), both_arches("1.1.0"), both_arches("1.0.0")];
    assert_eq!(find_release(&list, "1.1.0").unwrap().version, "1.1.0");
    assert_eq!(find_release(&list, "2.0.0").unwrap_err(), LookupError::VersionNotFound);
    assert_eq!(find_release(&list, "v1.1.0").unwrap_err(), LookupError::VersionNotFound);
    assert_eq!(find_release(&vec![], "1.0.0").unwrap_err(), LookupError::VersionNotFound);
}

#[test]
fn find_release_ignores_order() {
    let forward = vec![both_arches("1.0.0"), both_arches("nightly"), both_arches("1.1.0")];
    let backward = vec![both_arches("1.1.0"), both_arches("nightly"), both_arches("1.0.0")];
    for wanted in ["1.0.0", "1.1.0", "nightly"] {
        let a = find_release(&forward, wanted).unwrap();
        let b = find_release(&backward, wanted).unwrap();
        assert_eq!(a.version, b.version);
        assert_eq!(a.assets.len(), b.assets.len());
    }
    assert!(find_release(&forward, "0.9.0").is_err());
    assert!(find_release(&backward, "0.9.0").is_err());
}
