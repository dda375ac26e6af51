use xargo_rustc::{sysroot, Error, Src};

#[test]
fn sysroot_strips_trailing_newline() {
    let s = sysroot("/usr/local/rust\n");
    assert_eq!(s.path(), "/usr/local/rust");
}

#[test]
fn sysroot_strips_surrounding_whitespace() {
    let s = sysroot("  /opt/rust toolchain \r\n");
    assert_eq!(s.path(), "/opt/rust toolchain");
    assert_eq!(sysroot("").path(), "");
    assert_eq!(sysroot(" \t\n").path(), "");
}

#[test]
fn legacy_layout_preferred_over_modern() {
    let s = sysroot("/sys\n");
    let src = s.src(true, true).unwrap();
    assert_eq!(src.path(), "/sys/lib/rustlib/src/rust/src");
}

#[test]
fn legacy_layout_alone() {
    let s = sysroot("/sys\n");
    let src = s.src(true, false).unwrap();
    assert_eq!(src.path(), "/sys/lib/rustlib/src/rust/src");
}

#[test]
fn modern_layout_when_legacy_missing() {
    let s = sysroot("/sys\n");
    let src = s.src(false, true).unwrap();
    assert_eq!(src.path(), "/sys/lib/rustlib/src/rust/library");
}

#[test]
fn missing_source_component_is_reported() {
    let s = sysroot("/sys\n");
    let e = s.src(false, false).unwrap_err();
    assert!(matches!(e, Error::SourceComponentMissing));
    let msg = e.message();
    assert_eq!(
        msg,
        "`rust-src` component not found. Run `rustup component add rust-src`."
    );
}

#[test]
fn confirmation_manifest_paths() {
    let s = sysroot("/sys\n");
    assert_eq!(
        s.legacy_manifest_path(),
        "/sys/lib/rustlib/src/rust/src/libstd/Cargo.toml"
    );
    assert_eq!(
        s.modern_manifest_path(),
        "/sys/lib/rustlib/src/rust/library/std/Cargo.toml"
    );
}

#[test]
fn src_from_env_prefers_the_canonical_path() {
    let src = Src::from_env(
        Some("../rust/src".to_string()),
        Some("/home/user/rust/src".to_string()),
    )
    .unwrap();
    assert_eq!(src.path(), "/home/user/rust/src");
}

#[test]
fn src_from_env_falls_back_to_the_raw_path() {
    let src = Src::from_env(Some("../rust/src".to_string()), None).unwrap();
    assert_eq!(src.path(), "../rust/src");
}

#[test]
fn src_from_env_absent() {
    assert!(Src::from_env(None, None).is_none());
}
