use goldie::{relative_to, Goldie, GoldieError};

const HINT: &str = "run with GOLDIE_UPDATE=1 to regenerate the golden file";

#[test]
fn mismatch_message_names_both_sides_and_the_file() {
    let g = Goldie::new("/repo/src/lib.rs", "crate::tests::func", None).unwrap();
    let err = g.assert_text("foo", Some("bar")).unwrap_err();
    assert_eq!(
        err,
        GoldieError::Mismatch {
            golden_file: "/repo/src/testdata/func.golden".to_string(),
            actual: "foo".to_string(),
            expected: "bar".to_string(),
        }
    );
    let message = err.message(None);
    assert!(message.contains("foo"));
    assert!(message.contains("bar"));
    assert!(message.contains("/repo/src/testdata/func.golden"));
    assert!(message.contains("GOLDIE_UPDATE=1"));
    assert_eq!(
        message,
        format!(
            "\n\ngolden file `/repo/src/testdata/func.golden` does not match\n\nactual:\nfoo\n\nexpected:\nbar\n\n{}\n\n",
            HINT
        )
    );
}

#[test]
fn mismatch_message_shows_the_path_from_the_working_directory() {
    let err = GoldieError::Mismatch {
        golden_file: "/repo/src/testdata/func.golden".to_string(),
        actual: "foo".to_string(),
        expected: "bar".to_string(),
    };
    assert_eq!(
        err.message(Some("/repo")),
        format!(
            "\n\ngolden file `src/testdata/func.golden` does not match\n\nactual:\nfoo\n\nexpected:\nbar\n\n{}\n\n",
            HINT
        )
    );
    assert!(err.message(Some("/elsewhere")).contains("`/repo/src/testdata/func.golden`"));
}

#[test]
fn verify_failures_name_the_file_and_the_remedy() {
    let golden_file = || "/repo/src/testdata/func.golden".to_string();
    let tests = [
        (
            GoldieError::GoldenFileUnreadable { golden_file: golden_file() },
            "failed to read golden file",
        ),
        (
            GoldieError::TemplateCompileError { golden_file: golden_file() },
            "failed to compile golden file template",
        ),
        (
            GoldieError::TemplateRenderError { golden_file: golden_file() },
            "failed to render golden file template",
        ),
        (GoldieError::GoldenFileInvalidJson { golden_file: golden_file() }, "bad JSON"),
    ];
    for (err, what) in tests {
        let expected = format!("\n\n{}: /repo/src/testdata/func.golden\n{}\n\n", what, HINT);
        assert_eq!(err.message(None), expected);
        assert_eq!(err.message(Some("/repo")), expected);
    }
}

#[test]
fn other_failures_have_their_own_message() {
    let err = GoldieError::UnsupportedOperation {
        golden_file: "/repo/src/testdata/func.golden".to_string(),
    };
    assert_eq!(
        err.message(Some("/repo")),
        "\n\ntemplated golden file cannot be updated: /repo/src/testdata/func.golden\n\n"
    );
    let err = GoldieError::MalformedIdentifier { function_path: "func".to_string() };
    assert_eq!(
        err.message(None),
        "\n\nfunction path `func` names no function inside a module\n\n"
    );
}

#[test]
fn path_is_made_relative_where_it_lies_below_the_base() {
    assert_eq!(relative_to("/repo/src/testdata/func.golden", "/repo"), "src/testdata/func.golden");
    assert_eq!(relative_to("/repo/src/testdata/func.golden", "/repo/"), "src/testdata/func.golden");
    assert_eq!(relative_to("/repo/src/testdata/func.golden", "/repo/src"), "testdata/func.golden");
    assert_eq!(relative_to("/repo/x", "/"), "repo/x");
    assert_eq!(relative_to("/repo", "/repo"), "/repo");
    assert_eq!(relative_to("/repo/", "/repo"), "");
}

#[test]
fn path_is_kept_where_it_does_not_lie_below_the_base() {
    assert_eq!(relative_to("/repo/src/x.golden", "/rep"), "/repo/src/x.golden");
    assert_eq!(relative_to("/repo/src/x.golden", "/other"), "/repo/src/x.golden");
    assert_eq!(relative_to("/repo/src/x.golden", ""), "/repo/src/x.golden");
    assert_eq!(relative_to("/repo", "/repo/src"), "/repo");
    assert_eq!(relative_to("src/x.golden", "/repo"), "src/x.golden");
    assert_eq!(relative_to("/répo/x", "/rép"), "/répo/x");
    assert_eq!(relative_to("/répo/x", "/répo"), "x");
}
