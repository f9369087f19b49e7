use worbots_setup::fetch::{
    github_latest_release_url, github_releases_url, interpret_release_response,
    interpret_releases_response, require_asset, user_agent, FetchError,
};
use worbots_setup::release::{find_asset_in_releases, GithubRelease, GithubReleaseAsset};
use worbots_setup::text::{str_contains, str_eq};

fn asset(name: &str, download_url: &str) -> GithubReleaseAsset {
    GithubReleaseAsset {
        name: String::from(name),
        url: String::from("https://api.example/asset"),
        browser_download_url: String::from(download_url),
    }
}

fn release(tag: &str, assets: Vec<GithubReleaseAsset>) -> GithubRelease {
    GithubRelease {
        tag_name: String::from(tag),
        assets,
    }
}

#[test]
fn select_asset_scenario_windows_exe() {
    let rel = release(
        "v1.0.0",
        vec![
            asset("tool-Windows-x64.exe", "https://x/y"),
            asset("tool-macOS.dmg", "https://x/z"),
        ],
    );
    let found = rel.get_asset_patterns(&["Windows", ".exe"]).unwrap();
    assert_eq!(found.name, "tool-Windows-x64.exe");
    assert_eq!(found.browser_download_url, "https://x/y");
    assert!(rel.get_asset_pattern("Linux").is_none());
}

#[test]
fn select_asset_empty_pattern_set_returns_first() {
    let rel = release(
        "v1.0.0",
        vec![
            asset("first.zip", "https://x/1"),
            asset("second.zip", "https://x/2"),
        ],
    );
    let found = rel.get_asset_patterns(&[]).unwrap();
    assert_eq!(found.name, "first.zip");

    let empty = release("v1.0.0", vec![]);
    assert!(empty.get_asset_patterns(&[]).is_none());
}

#[test]
fn select_asset_is_case_sensitive() {
    let rel = release("v1", vec![asset("tool-Windows-x64.exe", "https://x/y")]);
    assert!(rel.get_asset_pattern("windows").is_none());
    assert!(rel.get_asset_pattern("Windows").is_some());
}

#[test]
fn select_asset_first_match_wins_among_equals() {
    let rel = release(
        "v1",
        vec![
            asset("a-Windows.exe", "https://x/a"),
            asset("b-Windows.exe", "https://x/b"),
        ],
    );
    let found = rel.get_asset_pattern("Windows").unwrap();
    assert_eq!(found.name, "a-Windows.exe");
}

#[test]
fn select_asset_requires_every_pattern() {
    let rel = release(
        "v1",
        vec![
            asset("tool-Windows.zip", "https://x/1"),
            asset("tool-Setup.exe", "https://x/2"),
        ],
    );
    let found = rel.get_asset_patterns(&["Windows", ".zip"]).unwrap();
    assert_eq!(found.name, "tool-Windows.zip");
    assert!(rel.get_asset_patterns(&["Windows", ".exe"]).is_none());
}

#[test]
fn scan_releases_filters_by_tag_then_asset() {
    let releases = vec![
        release("v2024.1.1", vec![asset("tool-Windows.iso", "https://x/new")]),
        release("v2023.4.3", vec![asset("tool-Windows.iso", "https://x/old")]),
    ];
    let found = find_asset_in_releases(&releases, "2023", "Windows").unwrap();
    assert_eq!(found.browser_download_url, "https://x/old");
    assert!(find_asset_in_releases(&releases, "2022", "Windows").is_none());
    assert!(find_asset_in_releases(&releases, "2024", "Linux").is_none());
}

#[test]
fn scan_releases_skips_tag_match_without_asset() {
    let releases = vec![
        release("rhc-1.0", vec![asset("notes.txt", "https://x/notes")]),
        release("rhc-0.9", vec![asset("client-FRC.exe", "https://x/frc")]),
        release("other", vec![asset("client-FRC.exe", "https://x/other")]),
    ];
    let found = find_asset_in_releases(&releases, "rhc", "FRC").unwrap();
    assert_eq!(found.browser_download_url, "https://x/frc");
}

#[test]
fn http_error_wins_over_decode_error() {
    let res = interpret_release_response(404, None);
    assert_eq!(res.unwrap_err(), FetchError::Http { status: 404 });

    let decoded = release("v1", vec![]);
    let res = interpret_release_response(404, Some(decoded));
    assert_eq!(res.unwrap_err(), FetchError::Http { status: 404 });
}

#[test]
fn successful_status_with_bad_body_is_decode_error() {
    let res = interpret_release_response(200, None);
    assert_eq!(res.unwrap_err(), FetchError::Decode);
    let res = interpret_releases_response(204, None);
    assert_eq!(res.unwrap_err(), FetchError::Decode);
}

#[test]
fn successful_response_passes_through() {
    let res = interpret_release_response(200, Some(release("v7", vec![])));
    assert_eq!(res.unwrap().tag_name, "v7");

    let res = interpret_releases_response(200, Some(vec![release("a", vec![]), release("b", vec![])]));
    let out = res.unwrap();
    assert_eq!(out.len(), 2);
    assert_eq!(out[1].tag_name, "b");
}

#[test]
fn server_errors_carry_their_status() {
    let res = interpret_releases_response(500, Some(vec![]));
    assert_eq!(res.unwrap_err(), FetchError::Http { status: 500 });
    let res = interpret_release_response(301, None);
    assert_eq!(res.unwrap_err(), FetchError::Http { status: 301 });
}

#[test]
fn missing_asset_is_its_own_error() {
    let rel = release("v1", vec![asset("tool-macOS.dmg", "https://x/z")]);
    let err = require_asset(rel.get_asset_pattern("Windows")).unwrap_err();
    assert_eq!(err, FetchError::AssetNotFound);
    let ok = require_asset(rel.get_asset_pattern("macOS")).unwrap();
    assert_eq!(ok.name, "tool-macOS.dmg");
}

#[test]
fn release_endpoints_are_exact() {
    assert_eq!(
        github_latest_release_url("acme", "tool"),
        "https://api.github.com/repos/acme/tool/releases/latest"
    );
    assert_eq!(
        github_releases_url("wpilibsuite", "allwpilib"),
        "https://api.github.com/repos/wpilibsuite/allwpilib/releases"
    );
}

#[test]
fn user_agent_is_the_tool_identifier() {
    assert_eq!(user_agent(), "Worbots 4145 Setup Tool");
}

#[test]
fn substring_search_behaves() {
    assert!(str_contains("tool-Windows-x64.exe", "Windows"));
    assert!(str_contains("abc", ""));
    assert!(str_contains("", ""));
    assert!(!str_contains("", "a"));
    assert!(!str_contains("abc", "abcd"));
    assert!(str_contains("aaab", "aab"));
    assert!(!str_contains("acbc", "abc"));
    assert!(str_eq("same", "same"));
    assert!(!str_eq("same", "Same"));
    assert!(!str_eq("same", "sam"));
}
