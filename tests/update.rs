use clin::error::Error;
use clin::update::{
    get_target, is_affirmative, is_newer, parse_assets, plan_update, select_asset,
    version_of_tag, AssetFields, ReleaseAsset, UpdatePlan,
};

#[test]
fn can_determine_target_arch() {
    let target = get_target("x86_64", "linux");
    assert!(target.is_ok(), "{:?}", target);
}

#[test]
fn target_names() {
    assert_eq!(get_target("x86_64", "linux").unwrap(), "x86_64-unknown-linux-gnu");
    assert_eq!(get_target("x86", "macos").unwrap(), "i686-apple-darwin");
    assert!(matches!(get_target("aarch64", "linux"), Err(Error::Upgrade(_))));
    assert!(matches!(get_target("x86_64", "windows"), Err(Error::Upgrade(_))));
}

fn fields(url: Option<&str>, name: Option<&str>) -> AssetFields {
    AssetFields {
        download_url: url.map(|s| s.to_string()),
        name: name.map(|s| s.to_string()),
    }
}

#[test]
fn asset_needs_both_fields() {
    let a = ReleaseAsset::from_asset(&fields(Some("http://x/a.tar.gz"), Some("a.tar.gz"))).unwrap();
    assert_eq!(a.download_url, "http://x/a.tar.gz");
    assert_eq!(a.name, "a.tar.gz");
    match ReleaseAsset::from_asset(&fields(None, None)) {
        Err(Error::Upgrade(m)) => assert_eq!(m, "Asset missing `browser_download_url`"),
        other => panic!("{:?}", other),
    }
    match ReleaseAsset::from_asset(&fields(Some("u"), None)) {
        Err(Error::Upgrade(m)) => assert_eq!(m, "Asset missing `name`"),
        other => panic!("{:?}", other),
    }
}

#[test]
fn parse_assets_stops_at_first_incomplete() {
    let es = vec![fields(Some("u1"), Some("n1")), fields(Some("u2"), None), fields(None, None)];
    match parse_assets(&es) {
        Err(Error::Upgrade(m)) => assert_eq!(m, "Asset missing `name`"),
        other => panic!("{:?}", other),
    }
    let ok = parse_assets(&vec![fields(Some("u1"), Some("n1"))]).unwrap();
    assert_eq!(ok.len(), 1);
    assert_eq!(ok[0].name, "n1");
}

#[test]
fn select_takes_first_match() {
    let assets = vec![
        ReleaseAsset { download_url: "a".to_string(), name: "clin-i686-apple-darwin.tar.gz".to_string() },
        ReleaseAsset { download_url: "b".to_string(), name: "clin-x86_64-unknown-linux-gnu.tar.gz".to_string() },
        ReleaseAsset { download_url: "c".to_string(), name: "x86_64-unknown-linux-gnu-2.tar.gz".to_string() },
    ];
    let a = select_asset(assets, "x86_64-unknown-linux-gnu").unwrap();
    assert_eq!(a.download_url, "b");
    assert!(select_asset(vec![], "x").is_none());
}

#[test]
fn tags_and_versions() {
    assert_eq!(version_of_tag("v1.2.0"), "1.2.0");
    assert_eq!(version_of_tag("vv0.3"), "0.3");
    assert_eq!(version_of_tag("1.0.0"), "1.0.0");
    assert_eq!(version_of_tag(""), "");
    assert!(is_newer("1.2.0", "1.0.0"));
    assert!(!is_newer("1.0.0", "1.0.0"));
    assert!(!is_newer("0.9.0", "1.0.0"));
    assert!(is_newer("1.0.0.1", "1.0.0"));
    assert!(!is_newer("1.0", "1.0.0"));
}

#[test]
fn up_to_date_release_downloads_nothing() {
    let assets = Some(vec![fields(Some("u"), Some("clin-x86_64-unknown-linux-gnu.tar.gz"))]);
    let plan = plan_update("1.0.0", &Some("v1.0.0".to_string()), &assets, "x86_64-unknown-linux-gnu");
    match plan {
        Ok(UpdatePlan::UpToDate { version }) => assert_eq!(version, "1.0.0"),
        other => panic!("{:?}", other),
    }
    // Up to date even when the asset list is missing: it is not read.
    let plan = plan_update("1.0.0", &Some("1.0.0".to_string()), &None, "x86_64-unknown-linux-gnu");
    assert!(matches!(plan, Ok(UpdatePlan::UpToDate { .. })));
}

#[test]
fn newer_release_without_asset_for_target_fails() {
    let assets = Some(vec![fields(Some("u"), Some("clin-i686-apple-darwin.tar.gz"))]);
    let plan = plan_update("1.0.0", &Some("1.2.0".to_string()), &assets, "x86_64-unknown-linux-gnu");
    match plan {
        Err(Error::Upgrade(m)) => assert_eq!(
            m,
            "No release asset found for current target: `x86_64-unknown-linux-gnu`"
        ),
        other => panic!("{:?}", other),
    }
}

#[test]
fn newer_release_with_asset_is_installed() {
    let assets = Some(vec![
        fields(Some("u1"), Some("clin-i686-apple-darwin.tar.gz")),
        fields(Some("u2"), Some("clin-x86_64-unknown-linux-gnu.tar.gz")),
    ]);
    let plan = plan_update("1.0.0", &Some("v1.2.0".to_string()), &assets, "x86_64-unknown-linux-gnu");
    match plan {
        Ok(UpdatePlan::Install { version, asset }) => {
            assert_eq!(version, "1.2.0");
            assert_eq!(asset.download_url, "u2");
        }
        other => panic!("{:?}", other),
    }
}

#[test]
fn release_errors() {
    assert!(matches!(plan_update("1.0.0", &None, &None, "t"), Err(Error::Upgrade(_))));
    match plan_update("1.0.0", &Some("2.0".to_string()), &None, "t") {
        Err(Error::Upgrade(m)) => assert_eq!(m, "No release assets found!"),
        other => panic!("{:?}", other),
    }
    let bad = Some(vec![fields(None, Some("t"))]);
    match plan_update("1.0.0", &Some("2.0".to_string()), &bad, "t") {
        Err(Error::Upgrade(m)) => assert_eq!(m, "Asset missing `browser_download_url`"),
        other => panic!("{:?}", other),
    }
}

#[test]
fn confirmation_answers() {
    assert!(is_affirmative("y"));
    assert!(is_affirmative("Y\n"));
    assert!(is_affirmative("  y \t\r\n"));
    assert!(is_affirmative("\u{a0}Y\u{3000}"));
    assert!(!is_affirmative(""));
    assert!(!is_affirmative("\n"));
    assert!(!is_affirmative("yes"));
    assert!(!is_affirmative("n"));
    assert!(!is_affirmative("y y"));
}
