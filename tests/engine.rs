use pastries::dependency::{Dependency, UpdateType};
use pastries::dependency_manager::{
    add_outcome, add_step, selects, staging_path, update_step, AddResult, DependencyError, FetchAction,
    UpdateAction, UpdateEvent, UpdateResult,
};

fn dependency(uri: &str, path: &str, local: bool, update: UpdateType) -> Dependency {
    Dependency {
        name: String::from("dep"),
        uri: String::from(uri),
        path: String::from(path),
        local,
        update,
    }
}

fn finished(action: UpdateAction) -> UpdateResult {
    match action {
        UpdateAction::Finish(result) => result,
        other => panic!("expected the end of the update, got {:?}", other),
    }
}

#[test]
fn staging_path_appends_tmp() {
    assert_eq!(staging_path("./remote_test_2.html"), "./remote_test_2.html.tmp");
    assert_eq!(staging_path(""), ".tmp");
}

#[test]
fn never_policy_is_ignored_at_every_step() {
    for local in [true, false] {
        let d = dependency("./src/a.rs", "./a.rs", local, UpdateType::Never);
        for event in [
            UpdateEvent::Started,
            UpdateEvent::Compared { differs: true },
            UpdateEvent::Fetched { ok: true },
            UpdateEvent::Promoted { ok: true },
            UpdateEvent::Discarded,
        ] {
            assert_eq!(finished(update_step(&d, event)), UpdateResult::Ignored);
        }
    }
}

#[test]
fn local_on_change_with_same_content_is_ignored() {
    let d = dependency("./src/a.rs", "./a.rs", true, UpdateType::OnChange);
    match update_step(&d, UpdateEvent::Started) {
        UpdateAction::Compare { left, right } => {
            assert_eq!(left, "./src/a.rs");
            assert_eq!(right, "./a.rs");
        },
        other => panic!("expected a comparison, got {:?}", other),
    }
    assert_eq!(finished(update_step(&d, UpdateEvent::Compared { differs: false })), UpdateResult::Ignored);
}

#[test]
fn updates_local_dependency() {
    let d = Dependency {
        name: String::from("local_test_2"),
        uri: String::from("./src/dependency_manager.rs"),
        path: String::from("./local_test_2.rs"),
        local: true,
        update: UpdateType::OnChange,
    };
    assert!(matches!(update_step(&d, UpdateEvent::Started), UpdateAction::Compare { .. }));
    match update_step(&d, UpdateEvent::Compared { differs: true }) {
        UpdateAction::CopyFile { source, target } => {
            assert_eq!(source, "./src/dependency_manager.rs");
            assert_eq!(target, "./local_test_2.rs");
        },
        other => panic!("expected a copy, got {:?}", other),
    }
    assert_eq!(finished(update_step(&d, UpdateEvent::Fetched { ok: true })), UpdateResult::Updated);
    assert_eq!(finished(update_step(&d, UpdateEvent::Fetched { ok: false })), UpdateResult::Failed);
}

#[test]
fn local_always_copies_without_comparing() {
    let d = dependency("./src/a.rs", "./a.rs", true, UpdateType::Always);
    assert!(matches!(update_step(&d, UpdateEvent::Started), UpdateAction::CopyFile { .. }));
}

#[test]
fn updates_remote_dependency() {
    let d = Dependency {
        name: String::from("remote_test_2"),
        uri: String::from("https://www.example.com"),
        path: String::from("./remote_test_2.html"),
        local: false,
        update: UpdateType::OnChange,
    };
    match update_step(&d, UpdateEvent::Started) {
        UpdateAction::DownloadFile { source, target } => {
            assert_eq!(source, "https://www.example.com");
            assert_eq!(target, "./remote_test_2.html.tmp");
        },
        other => panic!("expected a download, got {:?}", other),
    }
    match update_step(&d, UpdateEvent::Fetched { ok: true }) {
        UpdateAction::Compare { left, right } => {
            assert_eq!(left, "./remote_test_2.html.tmp");
            assert_eq!(right, "./remote_test_2.html");
        },
        other => panic!("expected a comparison, got {:?}", other),
    }
    match update_step(&d, UpdateEvent::Compared { differs: true }) {
        UpdateAction::PromoteStaged { staged, target } => {
            assert_eq!(staged, "./remote_test_2.html.tmp");
            assert_eq!(target, "./remote_test_2.html");
        },
        other => panic!("expected a promotion, got {:?}", other),
    }
    assert_eq!(finished(update_step(&d, UpdateEvent::Promoted { ok: true })), UpdateResult::Updated);
    assert_eq!(finished(update_step(&d, UpdateEvent::Promoted { ok: false })), UpdateResult::Failed);
}

#[test]
fn remote_on_change_with_same_content_discards_staging() {
    let d = dependency("https://www.example.com", "./page.html", false, UpdateType::OnChange);
    match update_step(&d, UpdateEvent::Compared { differs: false }) {
        UpdateAction::RemoveStaged { staged } => assert_eq!(staged, "./page.html.tmp"),
        other => panic!("expected the staged file to go, got {:?}", other),
    }
    assert_eq!(finished(update_step(&d, UpdateEvent::Discarded)), UpdateResult::Ignored);
}

#[test]
fn remote_always_promotes_without_comparing() {
    let d = dependency("https://www.example.com", "./page.html", false, UpdateType::Always);
    assert!(matches!(update_step(&d, UpdateEvent::Fetched { ok: true }), UpdateAction::PromoteStaged { .. }));
}

#[test]
fn failed_download_fails_the_update() {
    let d = dependency("https://www.example.com", "./page.html", false, UpdateType::Always);
    assert_eq!(finished(update_step(&d, UpdateEvent::Fetched { ok: false })), UpdateResult::Failed);
}

#[test]
fn adds_local_dependency() {
    match add_step("./src/dependency_manager.rs", "./local_test.rs", true) {
        FetchAction::CopyFile { source, target } => {
            assert_eq!(source, "./src/dependency_manager.rs");
            assert_eq!(target, "./local_test.rs");
        },
        other => panic!("expected a copy, got {:?}", other),
    }
    assert!(matches!(add_outcome(Ok(())), AddResult::Added));
}

#[test]
fn adds_local_dependency_into_new_directory() {
    match add_step("./src/dependency_manager.rs", "./new/dir/local_test.rs", true) {
        FetchAction::CopyFile { source, target } => {
            assert_eq!(source, "./src/dependency_manager.rs");
            assert_eq!(target, "./new/dir/local_test.rs");
        },
        other => panic!("expected a copy, got {:?}", other),
    }
}

#[test]
fn adds_remote_dependency() {
    match add_step("https://www.example.com", "./remote_test.html", false) {
        FetchAction::DownloadFile { source, target } => {
            assert_eq!(source, "https://www.example.com");
            assert_eq!(target, "./remote_test.html");
        },
        other => panic!("expected a download, got {:?}", other),
    }
    assert!(matches!(add_outcome(Ok(())), AddResult::Added));
}

#[test]
fn failed_add_reports_a_reason() {
    let unreachable = DependencyError::Network { uri: String::from("not a uri"), cause: String::new() };
    match add_outcome(Err(unreachable)) {
        AddResult::Failed(reason) => assert_eq!(reason, "network error at not a uri: "),
        AddResult::Added => panic!("a failed fetch must not count as added"),
    }
    let missing = DependencyError::Io { path: String::from("./missing.rs"), cause: String::from("not found") };
    match add_outcome(Err(missing)) {
        AddResult::Failed(reason) => assert_eq!(reason, "i/o error at ./missing.rs: not found"),
        AddResult::Added => panic!("a failed fetch must not count as added"),
    }
}

#[test]
fn error_messages_name_their_kind_and_place() {
    let network = DependencyError::Network { uri: String::from("http://host.invalid/x"), cause: String::from("timeout") };
    assert_eq!(network.message(), "network error at http://host.invalid/x: timeout");
    let io = DependencyError::Io { path: String::from("./a.rs"), cause: String::from("denied") };
    assert_eq!(io.message(), "i/o error at ./a.rs: denied");
    let stored = DependencyError::Serialization { path: String::from("pastries.json"), cause: String::from("bad token") };
    assert_eq!(stored.message(), "serialization error in pastries.json: bad token");
    let empty = DependencyError::Io { path: String::new(), cause: String::new() };
    assert!(!empty.message().is_empty());
}

#[test]
fn update_filter_selects_all_or_one_name() {
    assert!(selects("all", "anything"));
    assert!(selects("page", "page"));
    assert!(!selects("page", "other"));
    assert!(!selects("", "page"));
}
