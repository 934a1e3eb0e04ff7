use lsp_types::Diagnostic;
use nil::edits::{edit_step, EditRun, EditStep};
use nil::protocol::MessageType;
use nil::{
    Config, ConfigReaction, DiagnosticsAction, EditOutcome, Edited, Event, FileChange, FsPath,
    OpenDecision, Server,
};

const A: &str = "file:///ws/a.nix";
const B: &str = "file:///ws/b.nix";
const SKIP: &str = "file:///ws/skip.nix";

fn path(text: &str) -> FsPath {
    FsPath { bytes: text.as_bytes().to_vec() }
}

fn config() -> Config {
    Config {
        root_path: path("/ws"),
        nix_binary: path("nix"),
        diagnostics_excluded_files: vec![SKIP.to_string()],
    }
}

fn server() -> Server<u32> {
    Server::new(config(), 8)
}

fn changed(uri: &str, len: usize) -> FileChange {
    FileChange { uri: uri.to_string(), len }
}

fn diagnostic(message: &str) -> Diagnostic {
    Diagnostic { message: message.to_string(), ..Diagnostic::default() }
}

fn calculated(uri: &str, version: u64, message: &str) -> Event {
    Event::Diagnostics { uri: uri.to_string(), version, diagnostics: vec![diagnostic(message)] }
}

fn open(server: &mut Server<u32>, uri: &str) -> Vec<DiagnosticsAction> {
    server.finish_open(uri.to_string(), &vec![changed(uri, 3)])
}

/// The file, the version and the number of diagnostics of what an action comes to, where the
/// analysis gives one diagnostic.
fn outcome(action: DiagnosticsAction) -> (String, u64, usize) {
    let event = match action {
        DiagnosticsAction::Update(task) => task.finish(Some(vec![diagnostic("found")])),
        DiagnosticsAction::Emit(event) => event,
    };
    match event {
        Event::Diagnostics { uri, version, diagnostics } => (uri, version, diagnostics.len()),
    }
}

fn outcomes(actions: Vec<DiagnosticsAction>) -> Vec<(String, u64, usize)> {
    actions.into_iter().map(outcome).collect()
}

#[test]
fn new_server_starts_at_version_zero() {
    assert_eq!(server().version_counter(), 0);
}

#[test]
fn versions_count_up() {
    let mut server = server();
    assert_eq!(server.next_version(), 1);
    assert_eq!(server.next_version(), 2);
    assert_eq!(server.version_counter(), 2);
}

#[test]
fn long_documents_are_refused() {
    let server = server();
    assert!(matches!(server.on_did_open(&"12345678".to_string()), OpenDecision::Load));
    match server.on_did_open(&"123456789".to_string()) {
        OpenDecision::Refuse(message) => {
            assert_eq!(message.typ, MessageType::Warning);
            assert_eq!(
                message.message,
                "Disable LSP functionalities for too large file ({len} > {MAX_FILE_LEN})"
            );
        }
        OpenDecision::Load => panic!("opened"),
    }
}

#[test]
fn length_is_counted_in_bytes() {
    // Three characters of three bytes each.
    let text = "\u{4e00}\u{4e8c}\u{4e09}".to_string();
    assert!(matches!(server().on_did_open(&text), OpenDecision::Refuse(_)));
}

#[test]
fn opening_a_file_gives_no_diagnostics() {
    let mut server = server();
    assert!(open(&mut server, A).is_empty());
    assert_eq!(server.version_counter(), 1);
}

#[test]
fn opening_an_opened_file_calculates_and_forgets() {
    let mut server = server();
    open(&mut server, A);
    assert!(server.on_event(calculated(A, 5, "old")).is_some());
    let actions = open(&mut server, A);
    assert_eq!(outcomes(actions), vec![(A.to_string(), 2, 1)]);
    // What was stored is forgotten, so that earlier versions count again.
    assert!(server.on_event(calculated(A, 2, "new")).is_some());
}

#[test]
fn changes_of_opened_files_are_acted_on_in_order() {
    let mut server = server();
    open(&mut server, A);
    open(&mut server, B);
    let changes = vec![changed(B, 0), changed("file:///ws/other.nix", 4), changed(A, 7)];
    let actions = server.apply_vfs_change(&changes);
    assert!(matches!(actions[0], DiagnosticsAction::Emit(_)));
    assert!(matches!(actions[1], DiagnosticsAction::Update(_)));
    assert_eq!(outcomes(actions), vec![(B.to_string(), 3, 0), (A.to_string(), 3, 1)]);
    assert_eq!(server.version_counter(), 3);
}

#[test]
fn a_change_that_fails_closes_the_file() {
    for broken in [EditOutcome::InvalidRange, EditOutcome::Rejected] {
        let mut server = server();
        open(&mut server, A);
        let edited = Edited {
            edits: vec![EditOutcome::Applied, broken, EditOutcome::Applied],
            changes: vec![changed(A, 9)],
        };
        assert!(server.on_did_change(&A.to_string(), Some(edited)).is_empty());
        assert_eq!(server.version_counter(), 2);
        assert!(server.on_event(calculated(A, 9, "late")).is_none());
    }
}

#[test]
fn applied_changes_lead_to_diagnostics() {
    let mut server = server();
    open(&mut server, A);
    let edited = Edited {
        edits: vec![EditOutcome::Applied, EditOutcome::Applied],
        changes: vec![changed(A, 9)],
    };
    let actions = server.on_did_change(&A.to_string(), Some(edited));
    assert_eq!(outcomes(actions), vec![(A.to_string(), 2, 1)]);
}

#[test]
fn changes_of_unmaintained_files_are_ignored() {
    let mut server = server();
    open(&mut server, A);
    assert!(server.on_did_change(&A.to_string(), None).is_empty());
    assert_eq!(server.version_counter(), 1);
    assert!(server.on_event(calculated(A, 1, "found")).is_some());
}

#[test]
fn raced_diagnostics_are_ignored() {
    let mut server = server();
    open(&mut server, A);
    let publish = server.on_event(calculated(A, 3, "third")).unwrap();
    assert_eq!(publish.uri, A);
    assert_eq!(publish.diagnostics, vec![diagnostic("third")]);
    assert!(server.on_event(calculated(A, 3, "again")).is_none());
    assert!(server.on_event(calculated(A, 2, "second")).is_none());
    assert!(server.on_event(calculated(A, 4, "fourth")).is_some());
}

#[test]
fn version_zero_is_never_published() {
    let mut server = server();
    open(&mut server, A);
    assert!(server.on_event(calculated(A, 0, "none")).is_none());
}

#[test]
fn closed_files_get_no_diagnostics() {
    let mut server = server();
    open(&mut server, A);
    open(&mut server, B);
    server.on_did_close(&A.to_string());
    assert!(server.on_event(calculated(A, 7, "late")).is_none());
    assert!(server.on_event(calculated(B, 7, "in time")).is_some());
    assert!(server.apply_vfs_change(&vec![changed(A, 1)]).is_empty());
    server.on_did_close(&A.to_string());
    assert_eq!(server.version_counter(), 3);
}

#[test]
fn arrival_order_does_not_matter() {
    for order in [[1, 2, 3], [3, 1, 2], [2, 3, 1]] {
        let mut server = server();
        open(&mut server, A);
        for version in order {
            server.on_event(calculated(A, version, "any"));
        }
        assert!(server.on_event(calculated(A, 3, "same")).is_none());
        assert!(server.on_event(calculated(A, 4, "newer")).is_some());
    }
}

#[test]
fn excluded_files_have_no_diagnostics() {
    let server = server();
    let task = server.update_diagnostics(SKIP.to_string(), 6);
    assert!(task.is_excluded());
    match task.finish(Some(vec![diagnostic("found")])) {
        Event::Diagnostics { uri, version, diagnostics } => {
            assert_eq!((uri.as_str(), version, diagnostics.len()), (SKIP, 6, 0));
        }
    }
    assert!(!server.update_diagnostics(A.to_string(), 6).is_excluded());
}

#[test]
fn failed_calculations_have_no_diagnostics() {
    match server().update_diagnostics(A.to_string(), 6).finish(None) {
        Event::Diagnostics { uri, version, diagnostics } => {
            assert_eq!((uri.as_str(), version, diagnostics.len()), (A, 6, 0));
        }
    }
}

fn update(server: &mut Server<u32>, errors: &[&str], updated: bool) -> ConfigReaction {
    let errors: Vec<String> = errors.iter().map(|error| error.to_string()).collect();
    let mut next = config();
    next.diagnostics_excluded_files.clear();
    server.on_update_config(next, &errors, updated)
}

#[test]
fn workspace_is_loaded_after_the_first_configuration_only() {
    let mut server = server();
    let by = update(&mut server, &[], false).load_flake_workspace.unwrap();
    assert_eq!(by.nix_binary.bytes, b"nix".to_vec());
    assert!(by.diagnostics_excluded_files.is_empty());
    assert!(update(&mut server, &[], false).load_flake_workspace.is_none());
    assert!(update(&mut server, &["x"], true).load_flake_workspace.is_none());
}

#[test]
fn failed_settings_are_listed() {
    let mut server = server();
    assert!(update(&mut server, &[], false).message.is_none());
    let message = update(&mut server, &["bad a", "bad b"], false).message.unwrap();
    assert_eq!(message.typ, MessageType::Error);
    assert_eq!(message.message, "Failed to apply some settings:\n- bad a\n- bad b");
}

#[test]
fn a_changed_filter_refreshes_every_opened_file() {
    let mut server = server();
    open(&mut server, A);
    open(&mut server, SKIP);
    assert!(update(&mut server, &[], false).updates.is_empty());
    assert_eq!(server.version_counter(), 2);
    let reaction = update(&mut server, &[], true);
    let mut refreshed: Vec<(String, u64, bool)> = reaction
        .updates
        .iter()
        .map(|task| (task.uri.clone(), task.version, task.is_excluded()))
        .collect();
    refreshed.sort();
    assert_eq!(
        refreshed,
        vec![(A.to_string(), 3, false), (SKIP.to_string(), 3, false)]
    );
}

#[test]
fn tasks_keep_the_configuration_they_started_with() {
    let mut server = server();
    let task = server.update_diagnostics(SKIP.to_string(), 1);
    let snapshot = server.snapshot();
    update(&mut server, &[], false);
    assert!(task.is_excluded());
    assert_eq!(snapshot.config.diagnostics_excluded_files, vec![SKIP.to_string()]);
    assert!(server.snapshot().config.diagnostics_excluded_files.is_empty());
}

#[test]
fn initialization_sets_the_configuration_and_names_the_server() {
    let mut server: Server<u32> = Server::new(config(), 8);
    let mut next = config();
    next.root_path = path("/other");
    let info = server.on_initialize(next, Some("2023-05-09".to_string()));
    assert_eq!(info.name, "nil");
    assert_eq!(info.version.as_deref(), Some("2023-05-09"));
    assert_eq!(server.snapshot().config.root_path.bytes, b"/other".to_vec());
    assert!(server.on_initialize(config(), None).version.is_none());
}

#[test]
fn a_new_load_replaces_the_running_one() {
    let mut server = server();
    assert_eq!(server.spawn_load_flake_workspace(1), None);
    assert_eq!(server.spawn_load_flake_workspace(2), Some(1));
    assert_eq!(server.spawn_load_flake_workspace(3), Some(2));
}

#[test]
fn the_length_limit_stays() {
    let mut server = server();
    open(&mut server, A);
    update(&mut server, &[], true);
    server.on_did_close(&A.to_string());
    assert!(matches!(server.on_did_open(&"12345678".to_string()), OpenDecision::Load));
    assert!(matches!(server.on_did_open(&"123456789".to_string()), OpenDecision::Refuse(_)));
}

#[test]
fn diagnostics_of_the_latest_change_are_published() {
    let mut server = server();
    open(&mut server, A);
    let first = server.apply_vfs_change(&vec![changed(A, 1)]).pop().unwrap();
    let second = server.apply_vfs_change(&vec![changed(A, 2)]).pop().unwrap();
    for (action, published) in [(second, true), (first, false)] {
        match action {
            DiagnosticsAction::Update(task) => {
                let event = task.finish(Some(vec![diagnostic("found")]));
                assert_eq!(server.on_event(event).is_some(), published);
            }
            DiagnosticsAction::Emit(_) => panic!("cleared"),
        }
    }
}

#[test]
fn clearing_an_empty_file_is_published() {
    let mut server = server();
    open(&mut server, A);
    assert!(server.on_event(calculated(A, 1, "found")).is_some());
    match server.apply_vfs_change(&vec![changed(A, 0)]).pop().unwrap() {
        DiagnosticsAction::Emit(event) => {
            assert!(server.on_event(event).unwrap().diagnostics.is_empty());
        }
        DiagnosticsAction::Update(_) => panic!("calculated"),
    }
}

#[test]
fn a_refresh_is_published() {
    let mut server = server();
    open(&mut server, A);
    assert!(server.on_event(calculated(A, 1, "found")).is_some());
    let mut reaction = update(&mut server, &[], true);
    let event = reaction.updates.pop().unwrap().finish(None);
    assert!(server.on_event(event).unwrap().diagnostics.is_empty());
}

#[test]
fn closing_undoes_opening() {
    let mut server = server();
    open(&mut server, B);
    open(&mut server, A);
    server.on_did_close(&A.to_string());
    let mut reaction = update(&mut server, &[], true);
    assert_eq!(reaction.updates.pop().unwrap().uri, B);
    assert!(reaction.updates.is_empty());
}

#[test]
fn edit_steps() {
    assert_eq!(edit_step(None), EditStep::ReplaceAll);
    assert_eq!(edit_step(Some(true)), EditStep::ReplaceRange);
    assert_eq!(edit_step(Some(false)), EditStep::Skip);
}

#[test]
fn every_edit_is_tried() {
    let mut run = EditRun::new(4);
    assert_eq!(run.next(), Some(0));
    assert_eq!(run.record(EditStep::ReplaceAll, true), EditOutcome::Applied);
    assert_eq!(run.next(), Some(1));
    assert_eq!(run.record(EditStep::ReplaceRange, false), EditOutcome::Rejected);
    assert_eq!(run.next(), Some(2));
    assert_eq!(run.record(EditStep::Skip, true), EditOutcome::InvalidRange);
    assert_eq!(run.next(), Some(3));
    assert_eq!(run.record(EditStep::ReplaceRange, true), EditOutcome::Applied);
    assert_eq!(run.next(), None);
    let edited = run.finish(vec![changed(A, 2)]);
    assert_eq!(edited.changes.len(), 1);
    assert_eq!(
        edited.edits,
        vec![
            EditOutcome::Applied,
            EditOutcome::Rejected,
            EditOutcome::InvalidRange,
            EditOutcome::Applied,
        ]
    );
}

#[test]
fn one_failed_edit_breaks_the_file() {
    for (accepted, broken) in [(true, false), (false, true)] {
        let mut server = server();
        open(&mut server, A);
        let mut run = EditRun::new(1);
        run.record(edit_step(None), accepted);
        let edited = run.finish(vec![changed(A, 2)]);
        let actions = server.on_did_change(&A.to_string(), Some(edited));
        assert_eq!(actions.is_empty(), broken);
    }
}
