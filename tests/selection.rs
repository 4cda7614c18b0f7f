use quilt_catalog::error::ResolveError;
use quilt_catalog::select::{
    find_first, select_game, select_loader, select_loom, select_mappings, select_qfapi,
    EntryPolicy, VersionEntry,
};
use quilt_catalog::text::{coordinate_path, contains_text, has_char};
use quilt_catalog::version::{parse_descending, SemVer};

fn entry(version: &str, stable: Option<bool>) -> VersionEntry {
    VersionEntry { version: version.to_string(), stable }
}

fn texts(items: &[&str]) -> Vec<String> {
    items.iter().map(|s| s.to_string()).collect()
}

fn descending_texts(items: &[&str]) -> Vec<String> {
    parse_descending(&texts(items)).unwrap().iter().map(|v| v.to_text()).collect()
}

#[test]
fn descending_order_is_by_precedence() {
    let out = descending_texts(&["1.3.0", "1.4.0", "1.4.0-beta", "0.9.1+b", "1.10.0"]);
    assert_eq!(out, vec!["1.10.0", "1.4.0", "1.4.0-beta", "1.3.0", "0.9.1+b"]);
}

#[test]
fn descending_list_keeps_every_entry() {
    let raw = ["2.0.0", "1.0.0", "2.0.0", "1.5.0+x", "1.5.0+y"];
    let out = parse_descending(&texts(&raw)).unwrap();
    assert_eq!(out.len(), raw.len());
    for w in out.windows(2) {
        assert!(w[0].cmp_precedence(&w[1]) != std::cmp::Ordering::Less);
    }
    let mut sorted_in: Vec<String> = raw.iter().map(|s| s.to_string()).collect();
    let mut sorted_out: Vec<String> = out.iter().map(|v| v.to_text()).collect();
    sorted_in.sort();
    sorted_out.sort();
    assert_eq!(sorted_in, sorted_out);
}

#[test]
fn prerelease_identifiers_follow_semver_precedence() {
    let out = descending_texts(&[
        "1.0.0-alpha",
        "1.0.0-beta.11",
        "1.0.0",
        "1.0.0-alpha.1",
        "1.0.0-beta.2",
        "1.0.0-rc.1",
    ]);
    assert_eq!(
        out,
        vec!["1.0.0", "1.0.0-rc.1", "1.0.0-beta.11", "1.0.0-beta.2", "1.0.0-alpha.1", "1.0.0-alpha"]
    );
}

#[test]
fn build_metadata_does_not_order() {
    let a = SemVer::parse("1.2.3+zzz").unwrap();
    let b = SemVer::parse("1.2.3+aaa").unwrap();
    assert_eq!(a.cmp_precedence(&b), std::cmp::Ordering::Equal);
}

#[test]
fn empty_index_gives_empty_list() {
    assert!(parse_descending(&Vec::new()).unwrap().is_empty());
}

#[test]
fn invalid_version_fails_whole_list() {
    let r = parse_descending(&texts(&["1.0.0", "1.0", "bad"]));
    assert_eq!(r.unwrap_err(), ResolveError::Decode("1.0".to_string()));
    assert_eq!(SemVer::parse("1.0.01").unwrap_err(), ResolveError::Decode("1.0.01".to_string()));
}

#[test]
fn parse_reads_all_parts() {
    let v = SemVer::parse("12.3.45-rc.1+build.1.20.1").unwrap();
    assert_eq!((v.major, v.minor, v.patch), (12, 3, 45));
    assert_eq!(v.pre, "rc.1");
    assert_eq!(v.build, "build.1.20.1");
    assert_eq!(v.to_text(), "12.3.45-rc.1+build.1.20.1");
}

#[test]
fn text_of_plain_version() {
    let v = SemVer { major: 0, minor: 100, patch: 7, pre: String::new(), build: String::new() };
    assert_eq!(v.to_text(), "0.100.7");
}

#[test]
fn first_stable_version_is_chosen() {
    let feed = vec![entry("v1", Some(false)), entry("v2", Some(true)), entry("v3", Some(true))];
    assert_eq!(select_game(None, &feed), Ok("v2".to_string()));
}

#[test]
fn stable_attribute_must_be_true() {
    let feed = vec![entry("v1", None), entry("v2", Some(false)), entry("v3", Some(true))];
    assert_eq!(find_first(&feed, EntryPolicy::Stable), Some(2));
}

#[test]
fn explicit_game_version_is_verbatim() {
    let feed = vec![entry("1.20.1", Some(true))];
    assert_eq!(select_game(Some("whatever".to_string()), &feed), Ok("whatever".to_string()));
    assert_eq!(select_game(Some("1.19".to_string()), &Vec::new()), Ok("1.19".to_string()));
}

#[test]
fn no_stable_version_is_an_error() {
    assert_eq!(select_game(None, &Vec::new()), Err(ResolveError::NoStableVersion));
    let feed = vec![entry("a", Some(false)), entry("b", None)];
    assert_eq!(select_game(None, &feed), Err(ResolveError::NoStableVersion));
}

#[test]
fn first_hyphen_free_loader_is_chosen() {
    let feed = vec![entry("1.0.0-beta", None), entry("1.0.1", None), entry("1.0.2-beta", None)];
    assert_eq!(select_loader(&feed), Ok("1.0.1".to_string()));
}

#[test]
fn only_prereleases_means_no_loader() {
    let feed = vec![entry("1.0.0-beta", None), entry("0.1-pre", Some(true))];
    assert_eq!(select_loader(&feed), Err(ResolveError::NoLoaderFound));
    assert_eq!(select_loader(&Vec::new()), Err(ResolveError::NoLoaderFound));
}

#[test]
fn first_mappings_entry_is_chosen() {
    let feed = vec![entry("1.20.1+build.3", None), entry("1.20.1+build.2", None)];
    assert_eq!(select_mappings(&feed, "1.20.1"), Ok("1.20.1+build.3".to_string()));
    assert_eq!(
        select_mappings(&Vec::new(), "1.20.1"),
        Err(ResolveError::NoMappingsFound("1.20.1".to_string()))
    );
}

#[test]
fn newest_loom_is_chosen() {
    let vs = parse_descending(&texts(&["1.3.0", "1.4.0"])).unwrap();
    assert_eq!(select_loom(&vs), Ok("1.4.0".to_string()));
    assert_eq!(select_loom(&Vec::new()), Err(ResolveError::NoLoomVersion));
}

#[test]
fn compatibility_library_matches_build_metadata() {
    let vs = parse_descending(&texts(&["2.0.0+build.1.20", "1.0.0+build.1.19.2"])).unwrap();
    assert_eq!(select_qfapi(&vs, "1.19.2"), Some("1.0.0+build.1.19.2".to_string()));
    assert_eq!(select_qfapi(&vs, "1.20"), Some("2.0.0+build.1.20".to_string()));
}

#[test]
fn compatibility_library_takes_highest_match() {
    let vs = parse_descending(&texts(&["4.0.0+1.19.2", "5.1.0+1.20.1", "5.0.0+1.20.1"])).unwrap();
    assert_eq!(select_qfapi(&vs, "1.20.1"), Some("5.1.0+1.20.1".to_string()));
}

#[test]
fn compatibility_library_ignores_prerelease_text() {
    let vs = parse_descending(&texts(&["5.0.0-1.20.1", "4.0.0+1.19"])).unwrap();
    assert_eq!(select_qfapi(&vs, "1.20.1"), None);
    assert_eq!(select_qfapi(&Vec::new(), "1.20.1"), None);
}

#[test]
fn substring_search() {
    assert!(contains_text("build.1.19.2", "1.19.2"));
    assert!(contains_text("abc", ""));
    assert!(!contains_text("build.1.19", "1.19.2"));
    assert!(!contains_text("", "a"));
    assert!(has_char("1.0-beta", '-'));
    assert!(!has_char("1.0.0", '-'));
}

#[test]
fn coordinate_becomes_path() {
    assert_eq!(coordinate_path("org.quiltmc.loom"), "org/quiltmc/loom");
    assert_eq!(coordinate_path("plain"), "plain");
}
