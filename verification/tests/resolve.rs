use goldie::{resolve, Goldie, GoldieError, Layout};

#[test]
fn goldie_golden_file() {
    let tests = [
        (
            ("/repo/src/lib.rs", "crate::tests::func"),
            "/repo/src/testdata/func.golden",
        ),
        (
            ("/repo/src/foo.rs", "crate::foo::tests::func"),
            "/repo/src/testdata/func.golden",
        ),
        (
            ("/repo/src/foo/mod.rs", "crate::foo::tests::func"),
            "/repo/src/foo/testdata/func.golden",
        ),
        (
            ("/repo/src/foo/bar.rs", "crate::foo::bar::tests::func"),
            "/repo/src/foo/testdata/func.golden",
        ),
        (
            ("/repo/src/bin/foo.rs", "crate::tests::func"),
            "/repo/src/bin/testdata/func.golden",
        ),
    ];

    for ((file, path), exp) in tests {
        let g = Goldie::new(file, path, None).unwrap();
        assert_eq!(g.golden_file(), exp)
    }
}

#[test]
fn resolve_gives_the_same_path_on_every_call() {
    let first = resolve("/repo/src/foo/bar.rs", "crate::foo::bar::tests::func", Layout::Flat);
    let second = resolve("/repo/src/foo/bar.rs", "crate::foo::bar::tests::func", Layout::Flat);
    assert_eq!(first, second);
    assert_eq!(first, Ok("/repo/src/foo/testdata/func.golden".to_string()));
}

#[test]
fn module_files_share_the_directory_of_their_module() {
    assert_eq!(
        resolve("/repo/src/foo/bar.ext", "crate::foo::bar::tests::func", Layout::Flat),
        Ok("/repo/src/foo/testdata/func.golden".to_string())
    );
    assert_eq!(
        resolve("/repo/src/foo/mod.ext", "crate::foo::tests::func", Layout::Flat),
        Ok("/repo/src/foo/testdata/func.golden".to_string())
    );
}

#[test]
fn closure_markers_do_not_count() {
    let plain = resolve("/repo/src/lib.rs", "crate::tests::func", Layout::Flat);
    assert_eq!(plain, Ok("/repo/src/testdata/func.golden".to_string()));
    assert_eq!(
        resolve("/repo/src/lib.rs", "crate::tests::func::{{closure}}", Layout::Flat),
        plain
    );
    assert_eq!(
        resolve(
            "/repo/src/lib.rs",
            "crate::tests::func::{{closure}}::{{closure}}::{{closure}}",
            Layout::Flat
        ),
        plain
    );
}

#[test]
fn closure_marker_inside_the_path_is_kept() {
    assert_eq!(
        resolve("/repo/src/lib.rs", "crate::{{closure}}::func", Layout::Flat),
        Ok("/repo/src/testdata/func.golden".to_string())
    );
    assert_eq!(
        resolve("/repo/src/lib.rs", "crate::tests::{{closure}}x", Layout::Flat),
        Ok("/repo/src/testdata/{{closure}}x.golden".to_string())
    );
}

#[test]
fn function_path_without_module_is_refused() {
    assert_eq!(
        resolve("/repo/src/lib.rs", "func", Layout::Flat),
        Err(GoldieError::MalformedIdentifier { function_path: "func".to_string() })
    );
    assert_eq!(
        resolve("/repo/src/lib.rs", "", Layout::Flat),
        Err(GoldieError::MalformedIdentifier { function_path: "".to_string() })
    );
    assert_eq!(
        resolve("/repo/src/lib.rs", "a:b", Layout::PerModule),
        Err(GoldieError::MalformedIdentifier { function_path: "a:b".to_string() })
    );
    assert!(Goldie::new("/repo/src/lib.rs", "func", None).is_err());
}

#[test]
fn refused_function_path_is_named_without_its_closures() {
    assert_eq!(
        resolve("/repo/src/lib.rs", "func::{{closure}}", Layout::Flat),
        Err(GoldieError::MalformedIdentifier { function_path: "func".to_string() })
    );
    assert_eq!(
        resolve("/repo/src/lib.rs", "::{{closure}}", Layout::Flat),
        Err(GoldieError::MalformedIdentifier { function_path: "".to_string() })
    );
}

#[test]
fn simple_name_follows_the_last_separator() {
    assert_eq!(
        resolve("/repo/src/lib.rs", "a:::b", Layout::Flat),
        Ok("/repo/src/testdata/b.golden".to_string())
    );
    assert_eq!(
        resolve("/repo/src/lib.rs", "a::b::", Layout::Flat),
        Ok("/repo/src/testdata/.golden".to_string())
    );
    assert_eq!(
        resolve("/repo/src/lib.rs", "::func", Layout::Flat),
        Ok("/repo/src/testdata/func.golden".to_string())
    );
    assert_eq!(
        resolve("/repo/src/lib.rs", "crate::tests::söme_fünc", Layout::Flat),
        Ok("/repo/src/testdata/söme_fünc.golden".to_string())
    );
}

#[test]
fn golden_file_lies_beside_the_source_file() {
    assert_eq!(
        resolve("lib.rs", "crate::func", Layout::Flat),
        Ok("testdata/func.golden".to_string())
    );
    assert_eq!(
        resolve("/lib.rs", "crate::func", Layout::Flat),
        Ok("/testdata/func.golden".to_string())
    );
    assert_eq!(
        resolve("src/lib.rs", "crate::func", Layout::Flat),
        Ok("src/testdata/func.golden".to_string())
    );
    assert_eq!(
        resolve("/répo/src/lib.rs", "crate::func", Layout::Flat),
        Ok("/répo/src/testdata/func.golden".to_string())
    );
}

#[test]
fn same_names_in_different_directories_are_kept_apart() {
    let one = resolve("/repo/a/foo.rs", "crate::a::foo::tests::func", Layout::Flat).unwrap();
    let other = resolve("/repo/b/foo.rs", "crate::b::foo::tests::func", Layout::Flat).unwrap();
    assert_eq!(one, "/repo/a/testdata/func.golden");
    assert_eq!(other, "/repo/b/testdata/func.golden");
    assert_ne!(one, other);
}

#[test]
fn different_names_have_different_golden_files() {
    let one = resolve("/repo/src/lib.rs", "crate::tests::first", Layout::PerModule).unwrap();
    let other = resolve("/repo/src/lib.rs", "crate::tests::second", Layout::PerModule).unwrap();
    assert_ne!(one, other);
}

#[test]
fn same_name_in_different_modules_shares_the_golden_file() {
    assert_eq!(
        resolve("/repo/src/lib.rs", "crate::one::func", Layout::Flat),
        resolve("/repo/src/lib.rs", "crate::two::tests::func", Layout::Flat)
    );
}

#[test]
fn per_module_layout_nests_all_but_root_modules() {
    let tests = [
        ("/repo/src/foo/bar.rs", "/repo/src/foo/testdata/bar/func.golden"),
        ("/repo/src/foo.rs", "/repo/src/testdata/foo/func.golden"),
        ("/repo/src/lib.rs", "/repo/src/testdata/func.golden"),
        ("/repo/src/main.rs", "/repo/src/testdata/func.golden"),
        ("/repo/src/foo/mod.rs", "/repo/src/foo/testdata/func.golden"),
        ("/repo/src/library.rs", "/repo/src/testdata/library/func.golden"),
        ("/repo/src/a.b.rs", "/repo/src/testdata/a.b/func.golden"),
        ("/repo/src/Makefile", "/repo/src/testdata/Makefile/func.golden"),
        ("/repo/src/.hidden", "/repo/src/testdata/.hidden/func.golden"),
        ("/repo/src/lib", "/repo/src/testdata/func.golden"),
        ("/repo/src/mod.", "/repo/src/testdata/func.golden"),
        ("bar.rs", "testdata/bar/func.golden"),
    ];
    for (file, exp) in tests {
        let g = Goldie::with_layout(file, "crate::tests::func", None, Layout::PerModule).unwrap();
        assert_eq!(g.golden_file(), exp)
    }
}

#[test]
fn update_toggle_is_read_at_construction() {
    for on in ["1", "true"] {
        let g = Goldie::new("/repo/src/lib.rs", "crate::tests::func", Some(on)).unwrap();
        assert!(g.is_update());
        assert!(goldie::update_requested(Some(on)));
    }
    for off in ["", "0", "false", "TRUE", "True", "yes", "11", " 1", "true "] {
        let g = Goldie::new("/repo/src/lib.rs", "crate::tests::func", Some(off)).unwrap();
        assert!(!g.is_update());
        assert!(!goldie::update_requested(Some(off)));
    }
    let g = Goldie::new("/repo/src/lib.rs", "crate::tests::func", None).unwrap();
    assert!(!g.is_update());
    assert!(!goldie::update_requested(None));
}

#[test]
fn golden_dir_holds_the_golden_file() {
    let g = Goldie::new("/repo/src/foo/bar.rs", "crate::foo::bar::tests::func", None).unwrap();
    assert_eq!(g.golden_dir(), "/repo/src/foo/testdata");
    let g = Goldie::with_layout("/repo/src/foo/bar.rs", "crate::tests::func", None, Layout::PerModule)
        .unwrap();
    assert_eq!(g.golden_dir(), "/repo/src/foo/testdata/bar");
    let g = Goldie::new("lib.rs", "crate::tests::func", None).unwrap();
    assert_eq!(g.golden_dir(), "testdata");
    let g = Goldie::new("/lib.rs", "crate::tests::func", None).unwrap();
    assert_eq!(g.golden_dir(), "/testdata");
}
