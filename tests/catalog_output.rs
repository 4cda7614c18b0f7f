use quilt_catalog::catalog::{format_gradle_catalog, Versions, QFAPI_LIBRARY};
use quilt_catalog::error::ResolveError;
use quilt_catalog::resolver::{Progress, Request, Resolver, Stage};
use quilt_catalog::select::VersionEntry;

fn snapshot(qfapi: Option<&str>) -> Versions {
    Versions::new(
        "1.20.1".to_string(),
        "0.20.0".to_string(),
        "1.20.1+build.1".to_string(),
        "1.4.0".to_string(),
        qfapi.map(|q| q.to_string()),
    )
    .unwrap()
}

fn entry(version: &str, stable: Option<bool>) -> VersionEntry {
    VersionEntry { version: version.to_string(), stable }
}

fn texts(items: &[&str]) -> Vec<String> {
    items.iter().map(|s| s.to_string()).collect()
}

#[test]
fn catalog_with_library_is_exact() {
    let out = format_gradle_catalog(&snapshot(Some("5.0.0+1.20.1")));
    let expected = r#"[versions]
minecraft = "1.20.1"
quilt_loader = "0.20.0"
quilt_mappings = "1.20.1+build.1"

quilted_fabric_api = "5.0.0+1.20.1"

[libraries]
minecraft = { module = "com.mojang:minecraft", version.ref = "minecraft" }
quilt_loader = { module = "org.quiltmc:quilt-loader", version.ref = "quilt_loader" }
quilt_mappings = { module = "org.quiltmc:quilt-mappings", version.ref = "quilt_mappings" }
        
quilted_fabric_api = { module = "org.quiltmc.quilted-fabric-api:quilted-fabric-api", version.ref = "quilted_fabric_api" }

[plugins]
quilt_loom = { id = "org.quiltmc.loom", version = "1.4.0" }"#;
    assert_eq!(out, expected);
}

#[test]
fn catalog_without_library_comments_it_out() {
    let out = format_gradle_catalog(&snapshot(None));
    assert!(out.contains("# Compatible Quilted Fabric API not found; check manually."));
    assert!(out.contains(&format!("# {}", QFAPI_LIBRARY)));
    assert!(!out.lines().any(|l| l.starts_with("quilted_fabric_api")));
    assert_eq!(out.lines().count(), 16);
}

#[test]
fn catalog_with_library_has_one_line_holding_it() {
    let out = format_gradle_catalog(&snapshot(Some("9.9.9+1.20.1")));
    let holding: Vec<&str> = out
        .lines()
        .filter(|l| l.starts_with("quilted_fabric_api") && l.contains("9.9.9+1.20.1"))
        .collect();
    assert_eq!(holding, vec![r#"quilted_fabric_api = "9.9.9+1.20.1""#]);
    assert!(!out.lines().any(|l| l.starts_with('#')));
}

#[test]
fn empty_version_is_refused() {
    let r = Versions::new(
        "1.20.1".to_string(),
        String::new(),
        "m".to_string(),
        "l".to_string(),
        None,
    );
    assert_eq!(r.unwrap_err(), ResolveError::EmptyVersion);
}

fn next(p: Result<Progress, ResolveError>) -> (Resolver, Request) {
    match p.unwrap() {
        Progress::Next(r, q) => (r, q),
        Progress::Done(v) => panic!("finished early: {:?}", v),
    }
}

#[test]
fn end_to_end_resolution() {
    let (r, q) = Resolver::start(None);
    assert_eq!(q, Request::Meta("game".to_string()));
    let (r, q) = next(r.on_feed(&vec![entry("1.20.1", Some(true))]));
    assert_eq!(r.minecraft(), "1.20.1");
    assert_eq!(q, Request::Meta("loader".to_string()));
    let (r, q) = next(r.on_feed(&vec![entry("0.20.0", None)]));
    assert_eq!(q, Request::Meta("quilt-mappings/1.20.1".to_string()));
    let (r, q) = next(r.on_feed(&vec![entry("1.20.1+build.1", None)]));
    assert_eq!(q, Request::Maven("org/quiltmc/loom".to_string()));
    let (r, q) = next(r.on_index(&texts(&["1.4.0", "1.3.0"])));
    assert_eq!(
        q,
        Request::Maven("org/quiltmc/quilted-fabric-api/quilted-fabric-api".to_string())
    );
    assert_eq!(r.stage(), Stage::Qfapi);
    let v = match r.on_index(&texts(&["5.0.0+1.20.1", "4.0.0+1.19.2"])).unwrap() {
        Progress::Done(v) => v,
        Progress::Next(r, q) => panic!("not finished: {:?} {:?}", r, q),
    };
    let out = format_gradle_catalog(&v);
    assert!(out.contains(r#"minecraft = "1.20.1""#));
    assert!(out.contains(r#"quilt_loader = "0.20.0""#));
    assert!(out.contains(r#"quilt_mappings = "1.20.1+build.1""#));
    assert!(out.contains(r#"quilted_fabric_api = "5.0.0+1.20.1""#));
    assert!(out.contains(r#"quilt_loom = { id = "org.quiltmc.loom", version = "1.4.0" }"#));
}

#[test]
fn empty_game_feed_fails_without_explicit_version() {
    let (r, _) = Resolver::start(None);
    assert_eq!(r.on_feed(&Vec::new()).unwrap_err(), ResolveError::NoStableVersion);
}

#[test]
fn explicit_version_skips_game_lookup() {
    let (r, q) = Resolver::start(Some("1.19.2".to_string()));
    assert_eq!(r.stage(), Stage::Loader);
    assert_eq!(r.minecraft(), "1.19.2");
    assert_eq!(q, Request::Meta("loader".to_string()));
}

#[test]
fn resolution_errors_propagate() {
    let (r, _) = Resolver::start(Some("1.19.2".to_string()));
    assert_eq!(
        r.on_feed(&vec![entry("1.0-beta", None)]).unwrap_err(),
        ResolveError::NoLoaderFound
    );
    let (r, _) = Resolver::start(Some("1.19.2".to_string()));
    let (r, _) = next(r.on_feed(&vec![entry("0.1.0", None)]));
    assert_eq!(
        r.on_feed(&Vec::new()).unwrap_err(),
        ResolveError::NoMappingsFound("1.19.2".to_string())
    );
    let (r, _) = Resolver::start(Some("1.19.2".to_string()));
    let (r, _) = next(r.on_feed(&vec![entry("0.1.0", None)]));
    let (r, _) = next(r.on_feed(&vec![entry("m", None)]));
    assert_eq!(r.on_index(&Vec::new()).unwrap_err(), ResolveError::NoLoomVersion);
    let (r, _) = Resolver::start(Some("1.19.2".to_string()));
    let (r, _) = next(r.on_feed(&vec![entry("0.1.0", None)]));
    let (r, _) = next(r.on_feed(&vec![entry("m", None)]));
    assert_eq!(
        r.on_index(&texts(&["1.0.0", "x"])).unwrap_err(),
        ResolveError::Decode("x".to_string())
    );
}

#[test]
fn missing_library_does_not_fail() {
    let (r, _) = Resolver::start(Some("1.21".to_string()));
    let (r, _) = next(r.on_feed(&vec![entry("0.1.0", None)]));
    let (r, _) = next(r.on_feed(&vec![entry("1.21+build.1", None)]));
    let (r, _) = next(r.on_index(&texts(&["1.0.0"])));
    let v = match r.on_index(&texts(&["5.0.0+1.20.1"])).unwrap() {
        Progress::Done(v) => v,
        Progress::Next(r, q) => panic!("not finished: {:?} {:?}", r, q),
    };
    let out = format_gradle_catalog(&v);
    assert!(out.contains("# Compatible Quilted Fabric API not found; check manually."));
}
