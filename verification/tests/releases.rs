use ram_purger::updater::{
    evaluate_release, build_update_info, select_download_url, trim_version_tag, contains_text,
    ends_with_text, ReleaseAsset, ReleaseInfo,
};

fn asset(name: Option<&str>, url: Option<&str>) -> ReleaseAsset {
    ReleaseAsset { name: name.map(|s| s.to_string()), browser_download_url: url.map(|s| s.to_string()) }
}

fn release(tag: Option<&str>, assets: Option<Vec<ReleaseAsset>>) -> ReleaseInfo {
    ReleaseInfo { tag_name: tag.map(|s| s.to_string()), body: Some("Notes".to_string()), assets }
}

#[test]
fn tag_prefix_is_trimmed() {
    assert_eq!(trim_version_tag("v1.2.3"), "1.2.3");
    assert_eq!(trim_version_tag("vvv1.2.3"), "1.2.3");
    assert_eq!(trim_version_tag("1.2.3"), "1.2.3");
    assert_eq!(trim_version_tag("v"), "");
    assert_eq!(trim_version_tag("1.0v"), "1.0v");
}

#[test]
fn text_searches() {
    assert!(contains_text("my-ram-tool.zip", "ram"));
    assert!(!contains_text("RAM.zip", "ram"));
    assert!(contains_text("ram", "ram"));
    assert!(!contains_text("ra", "ram"));
    assert!(ends_with_text("Setup.exe", ".exe"));
    assert!(!ends_with_text("Setup.exe.zip", ".exe"));
    assert!(!ends_with_text("exe", ".exe"));
}

#[test]
fn missing_tag_is_an_error() {
    let r = evaluate_release(&release(None, None), None, "1.0.0");
    assert_eq!(r.unwrap_err(), "Missing tag_name in release");
}

#[test]
fn newer_release_is_offered() {
    let assets = vec![
        asset(Some("notes.txt"), Some("https://x/notes.txt")),
        asset(Some("Purger-Setup.exe"), Some("https://x/setup.exe")),
        asset(Some("ram-pro.zip"), Some("https://x/ram.zip")),
    ];
    let r = evaluate_release(&release(Some("v1.2.0"), Some(assets)), None, "1.0.0");
    let info = r.unwrap().unwrap();
    assert_eq!(info.version, "1.2.0");
    assert_eq!(info.release_notes, "Notes");
    assert_eq!(info.download_url, "https://x/setup.exe");
}

#[test]
fn same_or_older_release_is_not_offered() {
    assert!(evaluate_release(&release(Some("v1.0.0"), None), None, "1.0.0").unwrap().is_none());
    assert!(evaluate_release(&release(Some("0.9.9"), None), None, "1.0.0").unwrap().is_none());
    assert!(evaluate_release(&release(Some("v1.0.0-beta.1"), None), None, "1.0.0").unwrap().is_none());
    assert!(evaluate_release(&release(Some("v1.0.1"), None), None, "1.0.0").unwrap().is_some());
}

#[test]
fn skipped_release_is_not_offered() {
    let r = evaluate_release(&release(Some("v2.0.0"), None), Some("2.0.0"), "1.0.0");
    assert!(r.unwrap().is_none());
    let r2 = evaluate_release(&release(Some("v2.0.0"), None), Some("1.9.0"), "1.0.0");
    assert!(r2.unwrap().is_some());
}

#[test]
fn invalid_versions_are_errors() {
    let r = evaluate_release(&release(Some("v"), None), None, "1.0.0");
    assert_eq!(r.unwrap_err(), "empty string, expected a semver version");
    let r2 = evaluate_release(&release(Some("v1.0.01"), None), None, "1.0.0");
    assert_eq!(r2.unwrap_err(), "invalid leading zero in patch version number");
    let r3 = evaluate_release(&release(Some("v2.0.0"), None), None, "1.0");
    assert_eq!(r3.unwrap_err(), "unexpected end of input while parsing minor version number");
}

#[test]
fn download_url_choice() {
    // a matching name without an address is passed over
    let a = Some(vec![asset(Some("ram.exe"), None), asset(Some("x.exe"), Some("https://x/x.exe"))]);
    assert_eq!(select_download_url(&a, "2.0.0"), "https://x/x.exe");
    // nothing matches: the first asset's address
    let b = Some(vec![asset(Some("a.txt"), Some("https://x/a.txt")), asset(None, Some("https://x/b"))]);
    assert_eq!(select_download_url(&b, "2.0.0"), "https://x/a.txt");
    // nothing usable: the address built from the version
    let c = Some(vec![asset(Some("a.txt"), None)]);
    assert_eq!(
        select_download_url(&c, "2.0.0"),
        "https://github.com/jmaxdev/ram-cleaner-pro/releases/download/v2.0.0/ram-pro.exe"
    );
    assert_eq!(
        select_download_url(&None, "2.1.0"),
        "https://github.com/jmaxdev/ram-cleaner-pro/releases/download/v2.1.0/ram-pro.exe"
    );
    assert_eq!(
        select_download_url(&Some(vec![]), "3.0.0"),
        "https://github.com/jmaxdev/ram-cleaner-pro/releases/download/v3.0.0/ram-pro.exe"
    );
    // a matching asset with an empty address falls back to the first asset
    let d = Some(vec![asset(Some("a.txt"), Some("https://x/a.txt")), asset(Some("ram"), Some(""))]);
    assert_eq!(select_download_url(&d, "2.0.0"), "https://x/a.txt");
}

#[test]
fn offer_without_notes() {
    let r = ReleaseInfo { tag_name: Some("v5.0.0".to_string()), body: None, assets: None };
    let info = build_update_info(&r, "5.0.0");
    assert_eq!(info.release_notes, "");
    assert_eq!(info.version, "5.0.0");
}
