use goldie::{cargo_workspace_dir, WorkspaceRootCache};

#[test]
fn unknown_root_without_override_has_to_be_asked_for() {
    let mut cache = WorkspaceRootCache::new();
    assert_eq!(cargo_workspace_dir(&mut cache, "/repo/crates/a", None), None);
    assert_eq!(cache.get("/repo/crates/a"), None);
    assert_eq!(cargo_workspace_dir(&mut cache, "/repo/crates/a", None), None);
}

#[test]
fn override_is_taken_and_remembered() {
    let mut cache = WorkspaceRootCache::new();
    assert_eq!(
        cargo_workspace_dir(&mut cache, "/repo/crates/a", Some("/repo")),
        Some("/repo".to_string())
    );
    assert_eq!(cache.get("/repo/crates/a"), Some("/repo".to_string()));
    assert_eq!(
        cargo_workspace_dir(&mut cache, "/repo/crates/a", Some("/elsewhere")),
        Some("/repo".to_string())
    );
    assert_eq!(cargo_workspace_dir(&mut cache, "/repo/crates/a", None), Some("/repo".to_string()));
    assert_eq!(cargo_workspace_dir(&mut cache, "/repo/crates/b", None), None);
}

#[test]
fn answer_is_remembered_for_its_manifest_directory_only() {
    let mut cache = WorkspaceRootCache::new();
    assert_eq!(cache.remember("/repo/crates/a", "/repo"), "/repo");
    assert_eq!(cache.remember("/other/b", "/other"), "/other");
    assert_eq!(cargo_workspace_dir(&mut cache, "/repo/crates/a", None), Some("/repo".to_string()));
    assert_eq!(
        cargo_workspace_dir(&mut cache, "/other/b", Some("/override")),
        Some("/other".to_string())
    );
    assert_eq!(cargo_workspace_dir(&mut cache, "/repo/crates", None), None);
    assert_eq!(cargo_workspace_dir(&mut cache, "/repo/crates/a/", None), None);
    assert_eq!(cache.get("/repo/crates/a"), Some("/repo".to_string()));
    assert_eq!(cache.get("/other/b"), Some("/other".to_string()));
}

#[test]
fn what_is_remembered_is_never_replaced() {
    let mut cache = WorkspaceRootCache::new();
    assert_eq!(cache.remember("/repo/crates/a", "/repo"), "/repo");
    assert_eq!(cache.remember("/other/b", "/other"), "/other");
    assert_eq!(cache.remember("/repo/crates/a", "/moved"), "/repo");
    assert_eq!(cache.get("/repo/crates/a"), Some("/repo".to_string()));
    assert_eq!(cache.get("/other/b"), Some("/other".to_string()));
    assert_eq!(cache.get(""), None);
    assert_eq!(cache.remember("", "/empty"), "/empty");
    assert_eq!(cache.get(""), Some("/empty".to_string()));
    assert_eq!(
        cargo_workspace_dir(&mut cache, "/other/b", Some("/override")),
        Some("/other".to_string())
    );
}
