use lunatic::error::LunaticError;
use lunatic::manifests::{Manifest, ManifestVersion, UnstableManifest, UnstableManifestPre};
use lunatic::plugin::PluginKind;

fn pre(name: Option<&str>, kind: Option<&str>, src: Option<&str>) -> UnstableManifestPre {
    UnstableManifestPre {
        name: name.map(|s| s.to_string()),
        kind: kind.map(|s| s.to_string()),
        rust_ver: None,
        display_name: None,
        src: src.map(|s| s.to_string()),
        requirements: None,
        features: None,
    }
}

fn reason_of(r: Result<Manifest, LunaticError>) -> String {
    match r {
        Err(LunaticError::InvalidManifest { reason }) => reason,
        _ => panic!("expected an invalid manifest"),
    }
}

#[test]
fn missing_name_is_named() {
    let r = Manifest::from_unstable(pre(None, Some("callbacks"), Some("/lib/echo.so")), true);
    assert_eq!(
        reason_of(r),
        "field \"name\" does not exist. Every plugin requires a canonical name."
    );
}

#[test]
fn missing_src_is_named() {
    let r = Manifest::from_unstable(pre(Some("echo"), Some("callbacks"), None), true);
    assert_eq!(
        reason_of(r),
        "field \"src\" does not exist. Every plugin requires a binary to function."
    );
}

#[test]
fn missing_kind_is_named() {
    let r = Manifest::from_unstable(pre(Some("echo"), None, Some("/lib/echo.so")), true);
    let reason = reason_of(r);
    assert!(reason.starts_with("field \"kind\" does not exist."));
}

#[test]
fn empty_name_is_refused() {
    let r = Manifest::from_unstable(pre(Some(""), Some("callbacks"), Some("/lib/echo.so")), true);
    assert_eq!(
        reason_of(r),
        "field \"name\" is empty. Every plugin requires a canonical name."
    );
}

#[test]
fn empty_name_reported_after_missing_src() {
    let r = UnstableManifest::validate(pre(Some(""), None, None), false);
    match r {
        Err(LunaticError::InvalidManifest { reason }) => assert_eq!(
            reason,
            "field \"src\" does not exist. Every plugin requires a binary to function."
        ),
        _ => panic!("expected an invalid manifest"),
    }
}

#[test]
fn empty_name_reported_after_absent_src_file() {
    let r = Manifest::from_unstable(pre(Some(""), Some("callbacks"), Some("/no/such.so")), false);
    assert_eq!(r, Err(LunaticError::FileNotFound { path: "/no/such.so".to_string() }));
}

#[test]
fn empty_name_reported_after_missing_kind() {
    let r = Manifest::from_unstable(pre(Some(""), None, Some("/lib/echo.so")), true);
    assert!(reason_of(r).starts_with("field \"kind\" does not exist."));
}

#[test]
fn missing_name_checked_before_missing_src() {
    let r = Manifest::from_unstable(pre(None, None, None), false);
    assert!(reason_of(r).contains("\"name\""));
}

#[test]
fn unknown_kind_is_refused() {
    let r = Manifest::from_unstable(pre(Some("echo"), Some("threads"), Some("/x")), true);
    assert_eq!(
        reason_of(r),
        "field \"kind\" holds \"threads\", which is none of none, callbacks, mpsc."
    );
}

#[test]
fn absent_src_file_is_file_not_found() {
    let r = Manifest::from_unstable(pre(Some("echo"), Some("callbacks"), Some("/no/such.so")), false);
    assert_eq!(r, Err(LunaticError::FileNotFound { path: "/no/such.so".to_string() }));
}

#[test]
fn absent_src_file_reported_before_missing_kind() {
    let r = Manifest::from_unstable(pre(Some("echo"), None, Some("/no/such.so")), false);
    assert_eq!(r, Err(LunaticError::FileNotFound { path: "/no/such.so".to_string() }));
}

#[test]
fn display_name_defaults_to_name() {
    let r = Manifest::from_unstable(pre(Some("echo"), Some("none"), Some("/lib")), true);
    match r {
        Ok(Manifest::Unstable(m)) => {
            assert_eq!(m.display_name, "echo");
            assert_eq!(m.name, "echo");
            assert_eq!(m.kind, PluginKind::Empty);
            assert_eq!(m.src, "/lib");
        }
        _ => panic!("expected a manifest"),
    }
}

#[test]
fn display_name_kept_when_given() {
    let mut p = pre(Some("echo"), Some("mpsc"), Some("/lib"));
    p.display_name = Some("Echo Service".to_string());
    let m = UnstableManifest::validate(p, true).unwrap();
    assert_eq!(m.display_name, "Echo Service");
    assert_eq!(m.kind, PluginKind::Mpsc);
}

#[test]
fn lists_default_to_empty() {
    let m = UnstableManifest::validate(pre(Some("echo"), Some("callbacks"), Some("/lib")), true)
        .unwrap();
    assert!(m.requirements.is_empty());
    assert!(m.features.is_empty());
}

#[test]
fn lists_kept_when_given() {
    let mut p = pre(Some("echo"), Some("callbacks"), Some("/lib"));
    p.requirements = Some(vec!["net".to_string()]);
    p.features = Some(vec!["a".to_string(), "b".to_string()]);
    let m = UnstableManifest::validate(p, true).unwrap();
    assert_eq!(m.requirements, vec!["net".to_string()]);
    assert_eq!(m.features, vec!["a".to_string(), "b".to_string()]);
}

#[test]
fn rust_ver_is_carried() {
    let mut p = pre(Some("echo"), Some("callbacks"), Some("/lib"));
    p.rust_ver = Some(semver::Version::new(1, 2, 3));
    let m = Manifest::from_unstable(p, true).unwrap();
    assert!(m.declares_native());
    match m {
        Manifest::Unstable(u) => assert_eq!(u.rust_ver, Some(semver::Version::new(1, 2, 3))),
    }
}

#[test]
fn version_zero_is_unstable() {
    assert_eq!(Manifest::check_version(0), Ok(ManifestVersion::Unstable));
}

#[test]
fn unknown_version_seven_is_named() {
    match Manifest::check_version(7) {
        Err(LunaticError::InvalidManifest { reason }) => {
            assert!(reason.contains("7"));
            assert_eq!(reason, "Unknown manifest version:7");
        }
        _ => panic!("expected an invalid manifest"),
    }
}

#[test]
fn unknown_version_large_is_named() {
    match Manifest::check_version(4294967295) {
        Err(LunaticError::InvalidManifest { reason }) => {
            assert_eq!(reason, "Unknown manifest version:4294967295");
        }
        _ => panic!("expected an invalid manifest"),
    }
}

#[test]
fn getters_read_the_manifest() {
    let m = Manifest::from_unstable(pre(Some("echo"), Some("callbacks"), Some("/lib/e.so")), true)
        .unwrap();
    assert_eq!(m.get_src(), "/lib/e.so");
    assert_eq!(m.get_kind(), PluginKind::Callbacks);
    assert_eq!(m.get_version(), ManifestVersion::Unstable);
    assert!(!m.declares_native());
}
