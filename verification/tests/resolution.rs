use xargo_rustc::{targets, Target};

fn catalog(items: &[&str]) -> Vec<String> {
    let mut v = Vec::new();
    for s in items {
        v.push(s.to_string());
    }
    v
}

#[test]
fn builtin_triple_resolves_builtin() {
    let cat = catalog(&["x86_64-unknown-linux-gnu", "aarch64-apple-darwin"]);
    let t = Target::new("x86_64-unknown-linux-gnu", &cat, "/proj", false, None, false).unwrap();
    assert!(matches!(t, Target::Builtin { ref triple } if triple == "x86_64-unknown-linux-gnu"));
    assert_eq!(t.triple(), "x86_64-unknown-linux-gnu");
}

#[test]
fn builtin_wins_over_custom_files() {
    let cat = catalog(&["x86_64-unknown-linux-gnu"]);
    let t = Target::new(
        "x86_64-unknown-linux-gnu",
        &cat,
        "/proj",
        true,
        Some("/custom/dir"),
        true,
    )
    .unwrap();
    assert!(matches!(t, Target::Builtin { .. }));
}

#[test]
fn project_root_custom_spec() {
    let cat = catalog(&["x86_64-unknown-linux-gnu"]);
    let t = Target::new("thumbv7m-none-eabi", &cat, "/proj", true, None, false).unwrap();
    match t {
        Target::Custom { json, triple } => {
            assert_eq!(json, "/proj/thumbv7m-none-eabi.json");
            assert_eq!(triple, "thumbv7m-none-eabi");
        },
        Target::Builtin { .. } => panic!("expected a custom target"),
    }
}

#[test]
fn project_root_wins_over_search_dir() {
    let cat = catalog(&["x86_64-unknown-linux-gnu"]);
    let t = Target::new(
        "thumbv7m-none-eabi",
        &cat,
        "/proj",
        true,
        Some("/custom/dir"),
        true,
    )
    .unwrap();
    match t {
        Target::Custom { json, .. } => assert_eq!(json, "/proj/thumbv7m-none-eabi.json"),
        Target::Builtin { .. } => panic!("expected a custom target"),
    }
}

#[test]
fn search_dir_custom_spec() {
    let cat = catalog(&["x86_64-unknown-linux-gnu"]);
    let t = Target::new(
        "thumbv7m-none-eabi",
        &cat,
        "/proj",
        false,
        Some("/custom/dir"),
        true,
    )
    .unwrap();
    match t {
        Target::Custom { json, triple } => {
            assert_eq!(json, "/custom/dir/thumbv7m-none-eabi.json");
            assert_eq!(triple, "thumbv7m-none-eabi");
        },
        Target::Builtin { .. } => panic!("expected a custom target"),
    }
}

#[test]
fn unknown_target_is_not_an_error() {
    let cat = catalog(&["x86_64-unknown-linux-gnu"]);
    assert!(Target::new("thumbv7m-none-eabi", &cat, "/proj", false, None, false).is_none());
    assert!(
        Target::new(
            "thumbv7m-none-eabi",
            &cat,
            "/proj",
            false,
            Some("/custom/dir"),
            false
        )
        .is_none()
    );
}

#[test]
fn duplicate_catalog_entries_still_resolve() {
    let cat = catalog(&["a-b-c", "a-b-c"]);
    let t = Target::new("a-b-c", &cat, "/proj", false, None, false).unwrap();
    assert!(matches!(t, Target::Builtin { .. }));
}

#[test]
fn target_list_splits_lines() {
    assert_eq!(
        targets("x86_64-unknown-linux-gnu\nthumbv7m-none-eabi\n"),
        vec![
            "x86_64-unknown-linux-gnu".to_string(),
            "thumbv7m-none-eabi".to_string()
        ]
    );
}

#[test]
fn target_list_handles_crlf_and_missing_final_newline() {
    assert_eq!(targets("a-b-c\r\nd-e-f"), vec!["a-b-c", "d-e-f"]);
}

#[test]
fn target_list_keeps_empty_and_odd_lines() {
    assert!(targets("").is_empty());
    assert_eq!(targets("\n\n"), vec!["", ""]);
    // a carriage return not followed by a line feed is part of the line
    assert_eq!(targets("a\rb\nc"), vec!["a\rb", "c"]);
    assert_eq!(targets("a\r"), vec!["a\r"]);
}
