use runtipi_cli::release::{Architecture, LookupError, Release, ReleaseAsset};
use runtipi_cli::update::{
    binary_name, check_compatibility, needs_latest_lookup, plan_update, platform, strip_v_prefix,
    wanted_version, UpdateError,
};
use runtipi_cli::version::VersionEnum;

fn release(version: &str, names: &[&str]) -> Release {
    Release {
        version: version.to_string(),
        assets: names
            .iter()
            .map(|n| ReleaseAsset { name: n.to_string(), download_url: format!("https://dl/{n}") })
            .collect(),
    }
}

fn index() -> Vec<Release> {
    vec![
        release("1.5.0", &["runtipi-cli-linux-x86_64.tar.gz", "runtipi-cli-linux-aarch64.tar.gz"]),
        release("1.0.0", &["runtipi-cli-linux-x86_64.tar.gz", "runtipi-cli-linux-aarch64.tar.gz"]),
        release("nightly", &["runtipi-cli-linux-x86_64.tar.gz"]),
    ]
}

#[test]
fn platform_is_linux() {
    assert_eq!(platform(), "linux");
}

#[test]
fn strip_prefix_examples() {
    assert_eq!(strip_v_prefix("v2.5.0"), "2.5.0");
    assert_eq!(strip_v_prefix("V2.5.0"), "2.5.0");
    assert_eq!(strip_v_prefix("2.5.0"), "2.5.0");
    assert_eq!(strip_v_prefix("vv1"), "v1");
    assert_eq!(strip_v_prefix(""), "");
}

#[test]
fn wanted_version_for_each_request() {
    let specific = VersionEnum::from_str("v1.0.0").unwrap();
    assert_eq!(wanted_version(&specific, None).unwrap(), "1.0.0");
    let nightly = VersionEnum::from_str("nightly").unwrap();
    assert_eq!(wanted_version(&nightly, None).unwrap(), "nightly");
    let latest = VersionEnum::from_str("latest").unwrap();
    assert_eq!(wanted_version(&latest, Some(Ok("v3.1.0".to_string()))).unwrap(), "3.1.0");
    assert_eq!(
        wanted_version(&latest, Some(Err(LookupError::NetworkError))).unwrap_err(),
        UpdateError::Lookup(LookupError::NetworkError)
    );
    assert_eq!(wanted_version(&latest, None).unwrap_err(), UpdateError::Lookup(LookupError::NotFound));
}

#[test]
fn only_latest_needs_lookup() {
    assert!(needs_latest_lookup(&VersionEnum::Latest));
    assert!(!needs_latest_lookup(&VersionEnum::Nightly));
    assert!(!needs_latest_lookup(&VersionEnum::from_str("1.0.0").unwrap()));
}

#[test]
fn compatibility_gate() {
    assert_eq!(check_compatibility("v1.9.9", "2.0.0"), Err(UpdateError::MajorVersionBlocked));
    assert_eq!(check_compatibility("1.9.9", "2.0.0"), Err(UpdateError::MajorVersionBlocked));
    assert_eq!(check_compatibility("1.5.0", "1.0.0"), Ok(()));
    assert_eq!(check_compatibility("1.5.0", "1.6.0"), Ok(()));
}

#[test]
fn downgrade_within_major_plans_through_asset_selection() {
    let releases = index();
    let spec = VersionEnum::from_str("v1.0.0").unwrap();
    let plan = plan_update(&spec, "1.5.0", None, &releases, Architecture::X86_64).unwrap();
    assert_eq!(plan.release.version, "1.0.0");
    assert_eq!(plan.asset.name, "runtipi-cli-linux-x86_64.tar.gz");
    let plan = plan_update(&spec, "v1.5.0", None, &releases, Architecture::Aarch64).unwrap();
    assert_eq!(plan.asset.name, "runtipi-cli-linux-aarch64.tar.gz");
}

#[test]
fn major_bump_stops_before_any_lookup() {
    let spec = VersionEnum::from_str("2.0.0").unwrap();
    assert!(!needs_latest_lookup(&spec));
    let wanted = wanted_version(&spec, None).unwrap();
    assert_eq!(check_compatibility("1.9.9", &wanted), Err(UpdateError::MajorVersionBlocked));
    let no_releases: Vec<Release> = vec![];
    assert_eq!(
        plan_update(&spec, "1.9.9", None, &no_releases, Architecture::X86_64).unwrap_err(),
        UpdateError::MajorVersionBlocked
    );
    let releases = vec![release("2.0.0", &["runtipi-cli-linux-x86_64.tar.gz"])];
    assert_eq!(
        plan_update(&spec, "1.9.9", None, &releases, Architecture::X86_64).unwrap_err(),
        UpdateError::MajorVersionBlocked
    );
}

#[test]
fn plan_errors_in_step_order() {
    let releases = index();
    let missing = VersionEnum::from_str("1.2.0").unwrap();
    assert_eq!(
        plan_update(&missing, "1.5.0", None, &releases, Architecture::X86_64).unwrap_err(),
        UpdateError::Lookup(LookupError::VersionNotFound)
    );
    let nightly = VersionEnum::Nightly;
    assert_eq!(
        plan_update(&nightly, "1.5.0", None, &releases, Architecture::Aarch64).unwrap_err(),
        UpdateError::Lookup(LookupError::AssetNotFound)
    );
    let plan = plan_update(&nightly, "1.5.0", None, &releases, Architecture::X86_64).unwrap();
    assert_eq!(plan.release.version, "nightly");
    let latest = VersionEnum::Latest;
    assert_eq!(
        plan_update(&latest, "1.5.0", Some(Err(LookupError::NotFound)), &releases, Architecture::X86_64)
            .unwrap_err(),
        UpdateError::Lookup(LookupError::NotFound)
    );
}

#[test]
fn latest_follows_the_reported_tag_only() {
    let latest = VersionEnum::Latest;
    let forward = vec![
        release("1.6.0-beta.1", &["runtipi-cli-linux-x86_64.tar.gz"]),
        release("1.5.0", &["runtipi-cli-linux-x86_64.tar.gz"]),
        release("1.0.0", &["runtipi-cli-linux-x86_64.tar.gz"]),
    ];
    let mut backward = index();
    backward.reverse();
    for list in [&forward, &backward] {
        let plan = plan_update(&latest, "1.0.0", Some(Ok("v1.5.0".to_string())), list, Architecture::X86_64)
            .unwrap();
        assert_eq!(plan.release.version, "1.5.0");
    }
}

#[test]
fn binary_name_drops_extensions() {
    assert_eq!(binary_name("runtipi-cli-linux-x86_64.tar.gz"), "runtipi-cli-linux-x86_64");
    assert_eq!(binary_name("runtipi-cli"), "runtipi-cli");
    assert_eq!(binary_name(".hidden"), "");
}

use runtipi_cli::update::{UpdatePhase, UpdateRun, UpdateStep};

fn drive(outcomes: &[bool]) -> (Vec<UpdateStep>, UpdateRun) {
    let mut run = UpdateRun::new();
    let mut steps = Vec::new();
    let mut it = outcomes.iter();
    while let Some(step) = run.next_step() {
        let Some(ok) = it.next() else { break };
        steps.push(step);
        run.record(*ok);
    }
    (steps, run)
}

#[test]
fn update_run_in_order() {
    let (steps, run) = drive(&[true; 6]);
    assert_eq!(
        steps,
        vec![UpdateStep::Download, UpdateStep::Extract, UpdateStep::Install, UpdateStep::LocateEnvFile, UpdateStep::Handoff]
    );
    assert_eq!(run.phase, UpdatePhase::HandedOff);
    assert_eq!(run.outcome(), Some(Ok(())));
}

#[test]
fn update_run_stops_at_first_failure() {
    let errors = [
        UpdateError::Download,
        UpdateError::Extract,
        UpdateError::Install,
        UpdateError::EnvFileMissing,
        UpdateError::Handoff,
    ];
    for (k, error) in errors.iter().enumerate() {
        let mut outcomes = vec![true; 6];
        outcomes[k] = false;
        let (steps, run) = drive(&outcomes);
        assert_eq!(steps.len(), k + 1);
        assert_eq!(run.outcome(), Some(Err(*error)));
        assert_eq!(run.next_step(), None);
    }
}
