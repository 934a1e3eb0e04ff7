use nil::flake_info::{
    FileId, FileIn, FlakeInfo, InfoAnswer, InfoLoad, LoadError, ReadOutcome, ResolvedInput,
};
use nil::flake_workspace::{FlakeReaction, OptionsEval, OptionsReaction, WorkspaceLoad};
use nil::protocol::MessageType;
use nil::string_map::StringMap;
use nil::{Config, FsPath};
use std::sync::Arc;

const WARNING: &str =
    "Some flake inputs are not available, please run `nix flake archive` to fetch all inputs";

fn path(text: &str) -> FsPath {
    FsPath { bytes: text.as_bytes().to_vec() }
}

fn config() -> Config {
    Config {
        root_path: path("/ws"),
        nix_binary: path("/bin/nix"),
        diagnostics_excluded_files: Vec::new(),
    }
}

fn input(name: &str, store_path: &str) -> ResolvedInput {
    ResolvedInput { name: name.to_string(), store_path: path(store_path) }
}

fn start() -> InfoLoad {
    InfoLoad::start(Arc::new(config()))
}

fn flake_read(read: ReadOutcome<String>) -> InfoLoad {
    start().advance(InfoAnswer::FlakeRead(read))
}

fn looked_up(managed: Option<FileId>) -> InfoLoad {
    flake_read(ReadOutcome::Read("{ }".to_string())).advance(InfoAnswer::FileLookedUp(managed))
}

fn lock_read(read: ReadOutcome<Vec<u8>>) -> InfoLoad {
    looked_up(Some(FileId(4))).advance(InfoAnswer::LockRead(read))
}

fn resolved(resolved: Result<Vec<ResolvedInput>, String>) -> InfoLoad {
    lock_read(ReadOutcome::Read(vec![1, 2])).advance(InfoAnswer::InputsResolved(resolved))
}

fn info(inputs: Vec<ResolvedInput>) -> FlakeInfo {
    match resolved(Ok(inputs)) {
        InfoLoad::Done(Ok(Some(info))) => info,
        _ => panic!("not loaded"),
    }
}

fn store_path(info: &FlakeInfo, name: &str) -> Option<Vec<u8>> {
    info.input_store_paths.get(&name.to_string()).map(|path| path.bytes.clone())
}

fn load_error(load: InfoLoad) -> LoadError {
    match load {
        InfoLoad::Done(Err(error)) => error,
        _ => panic!("no error"),
    }
}

fn inputs_loaded(inputs: Vec<ResolvedInput>) -> (FlakeReaction, WorkspaceLoad) {
    WorkspaceLoad::flake_info_loaded(&config(), Ok(Some(info(inputs))))
}

/// Answers the checks by `present`. Gives the warnings and the evaluation of options.
fn check(load: WorkspaceLoad, present: &[&str]) -> (Vec<String>, Option<OptionsEval>) {
    let mut load = load;
    let mut warnings = Vec::new();
    loop {
        match load {
            WorkspaceLoad::CheckInput(check) => {
                let found = present.iter().any(|path| path.as_bytes() == check.path().bytes);
                let (message, next) = check.answer(found);
                if let Some(message) = message {
                    assert_eq!(message.typ, MessageType::Warning);
                    warnings.push(message.message);
                }
                load = next;
            }
            WorkspaceLoad::EvalOptions(eval) => return (warnings, Some(eval)),
            WorkspaceLoad::Done => return (warnings, None),
        }
    }
}

#[test]
fn loading_starts_with_the_root_file() {
    match start() {
        InfoLoad::ReadFlake { file, .. } => {
            assert_eq!((file.dir.bytes, file.name.as_str()), (b"/ws".to_vec(), "flake.nix"));
        }
        _ => panic!("not read"),
    }
}

#[test]
fn only_the_answer_that_was_asked_for_fits() {
    let load = start();
    assert!(load.asks_for(&InfoAnswer::FlakeRead(ReadOutcome::NotFound)));
    assert!(!load.asks_for(&InfoAnswer::LockRead(ReadOutcome::NotFound)));
    assert!(!load.asks_for(&InfoAnswer::FileLookedUp(None)));
    let load = flake_read(ReadOutcome::NotFound);
    assert!(!load.asks_for(&InfoAnswer::FlakeRead(ReadOutcome::NotFound)));
}

#[test]
fn without_a_root_file_there_is_no_flake() {
    assert!(matches!(flake_read(ReadOutcome::NotFound), InfoLoad::Done(Ok(None))));
}

#[test]
fn an_unreadable_root_file_is_an_error() {
    let error = load_error(flake_read(ReadOutcome::Failed {
        raw_path: "raw".to_string(),
        cause: "denied".to_string(),
    }));
    assert_eq!(error.message(), "Failed to read flake root \"/ws/flake.nix\": denied");
    assert!(matches!(error, LoadError::FlakeRoot { cause, .. } if cause == "denied"));
}

#[test]
fn a_maintained_root_file_is_preferred() {
    match looked_up(Some(FileId(7))) {
        InfoLoad::ReadLock { file, flake_file, .. } => {
            assert_eq!(flake_file, FileId(7));
            assert_eq!((file.dir.bytes, file.name.as_str()), (b"/ws".to_vec(), "flake.lock"));
        }
        _ => panic!("not preferred"),
    }
}

#[test]
fn a_root_file_that_is_not_maintained_is_cached() {
    let load = looked_up(None);
    match &load {
        InfoLoad::CacheFile { file, src, .. } => {
            assert_eq!((file.name.as_str(), src.as_str()), ("flake.nix", "{ }"));
        }
        _ => panic!("not cached"),
    }
    match load.advance(InfoAnswer::FileCached(FileId(2))) {
        InfoLoad::ReadLock { flake_file, .. } => assert_eq!(flake_file, FileId(2)),
        _ => panic!("lock file not asked for"),
    }
}

#[test]
fn without_a_lock_file_there_are_no_inputs() {
    match lock_read(ReadOutcome::NotFound) {
        InfoLoad::Done(Ok(Some(info))) => {
            assert_eq!(info.flake_file, FileId(4));
            assert_eq!(info.input_store_paths.len(), 0);
        }
        _ => panic!("not loaded"),
    }
}

#[test]
fn an_unreadable_lock_file_is_an_error() {
    let error = load_error(lock_read(ReadOutcome::Failed {
        raw_path: "raw".to_string(),
        cause: "denied".to_string(),
    }));
    assert_eq!(error.message(), "Failed to read flake lock \"/ws/flake.lock\": denied");
    assert!(matches!(error, LoadError::FlakeLock { path, .. } if path == "\"/ws/flake.lock\""));
}

fn shown(dir: &[u8], name: &str) -> String {
    let file = FileIn { dir: FsPath { bytes: dir.to_vec() }, name: name.to_string() };
    file.shown("raw".to_string())
}

#[test]
fn a_path_is_shown_quoted_and_escaped() {
    assert_eq!(shown(b"/ws", "flake.nix"), "\"/ws/flake.nix\"");
    assert_eq!(shown(b"/ws/", "flake.nix"), "\"/ws/flake.nix\"");
    assert_eq!(shown(b"", "flake.nix"), "\"flake.nix\"");
    assert_eq!(shown(b"/w\"s\n", "flake.lock"), "\"/w\\\"s\\n/flake.lock\"");
    assert_eq!(shown("/\u{e9}".as_bytes(), "flake.nix"), "\"/\u{e9}/flake.nix\"");
}

#[test]
fn a_path_that_is_not_utf8_is_shown_as_it_was_given() {
    assert_eq!(shown(b"/ws\xff", "flake.nix"), "raw");
    assert_eq!(shown(b"/\xed\xa0\x80", "flake.nix"), "raw");
    assert_eq!(shown(b"/\xc0\xaf", "flake.nix"), "raw");
    let config = Config { root_path: FsPath { bytes: vec![0x2f, 0xff] }, ..config() };
    let error = load_error(InfoLoad::start(Arc::new(config)).advance(InfoAnswer::FlakeRead(
        ReadOutcome::Failed {
            raw_path: "\"/\\xFF/flake.nix\"".to_string(),
            cause: "denied".to_string(),
        },
    )));
    assert_eq!(error.message(), "Failed to read flake root \"/\\xFF/flake.nix\": denied");
}

#[test]
fn the_options_are_set_when_every_input_exists() {
    let (reaction, load) = inputs_loaded(vec![input("nixpkgs", "/s/1"), input("a", "/s/2")]);
    assert!(matches!(reaction, FlakeReaction::SetFlakeInfo(Some(_))));
    let (warnings, eval) = check(load, &["/s/1", "/s/2"]);
    assert!(warnings.is_empty());
    assert!(matches!(eval.unwrap().answer(Ok(1)), OptionsReaction::SetNixosOptions));
}

#[test]
fn the_lock_file_is_resolved_by_the_configured_nix() {
    match lock_read(ReadOutcome::Read(vec![1, 2])) {
        InfoLoad::ResolveInputs { nix_binary, flake_file, lock_src } => {
            assert_eq!(nix_binary.bytes, b"/bin/nix".to_vec());
            assert_eq!((flake_file, lock_src), (FileId(4), vec![1, 2]));
        }
        _ => panic!("not resolved"),
    }
}

#[test]
fn unresolved_inputs_are_an_error() {
    let error = load_error(resolved(Err("no nix".to_string())));
    assert_eq!(
        error.message(),
        "Failed to resolve flake inputs from lock file: no nix"
    );
    assert!(matches!(error, LoadError::Inputs { .. }));
}

#[test]
fn resolved_inputs_give_store_paths() {
    let info = info(vec![input("a", "/s/1"), input("b", "/s/2"), input("a", "/s/3")]);
    assert_eq!(info.flake_file, FileId(4));
    assert_eq!(info.input_store_paths.len(), 2);
    assert_eq!(store_path(&info, "a"), Some(b"/s/3".to_vec()));
    assert_eq!(store_path(&info, "b"), Some(b"/s/2".to_vec()));
    assert_eq!(store_path(&info, "c"), None);
}

#[test]
fn a_failed_load_is_shown() {
    let error = LoadError::Inputs { cause: "no nix".to_string() };
    let (reaction, load) = WorkspaceLoad::flake_info_loaded(&config(), Err(error));
    match reaction {
        FlakeReaction::Show(message) => {
            assert_eq!(message.typ, MessageType::Error);
            assert_eq!(
                message.message,
                "Failed to load flake workspace: \
                 Failed to resolve flake inputs from lock file: no nix"
            );
        }
        FlakeReaction::SetFlakeInfo(_) => panic!("no message"),
    }
    assert!(matches!(load, WorkspaceLoad::Done));
}

#[test]
fn a_missing_flake_is_reported_to_the_server() {
    let (reaction, load) = WorkspaceLoad::flake_info_loaded(&config(), Ok(None));
    assert!(matches!(reaction, FlakeReaction::SetFlakeInfo(None)));
    assert!(matches!(load, WorkspaceLoad::Done));
}

#[test]
fn missing_inputs_stop_loading() {
    let (reaction, load) = inputs_loaded(vec![input("nixpkgs", "/s/n"), input("b", "/s/2")]);
    assert!(matches!(reaction, FlakeReaction::SetFlakeInfo(Some(_))));
    let (warnings, eval) = check(load, &["/s/n"]);
    assert_eq!(warnings, vec![WARNING.to_string()]);
    assert!(eval.is_none());
}

#[test]
fn several_missing_inputs_are_reported_once() {
    let (_, load) = inputs_loaded(vec![input("a", "/s/1"), input("b", "/s/2")]);
    assert_eq!(check(load, &[]).0, vec![WARNING.to_string()]);
}

#[test]
fn options_are_evaluated_from_nixpkgs_by_the_configured_nix() {
    let (_, load) = inputs_loaded(vec![input("b", "/s/2"), input("nixpkgs", "/s/n")]);
    let (warnings, eval) = check(load, &["/s/2", "/s/n"]);
    let eval = eval.unwrap();
    assert!(warnings.is_empty());
    assert_eq!(eval.nixpkgs.bytes, b"/s/n".to_vec());
    assert_eq!(eval.nix_binary.bytes, b"/bin/nix".to_vec());
}

#[test]
fn without_nixpkgs_nothing_is_evaluated() {
    let (_, load) = inputs_loaded(vec![input("b", "/s/2")]);
    let (warnings, eval) = check(load, &["/s/2"]);
    assert!(warnings.is_empty() && eval.is_none());
    assert!(matches!(inputs_loaded(vec![]).1, WorkspaceLoad::Done));
}

#[test]
fn evaluated_options() {
    let eval = || OptionsEval { nix_binary: path("nix"), nixpkgs: path("/s/n") };
    assert!(matches!(eval().answer(Ok(1)), OptionsReaction::SetNixosOptions));
    assert!(matches!(eval().answer(Ok(0)), OptionsReaction::Ignore));
    match eval().answer(Err("no nix".to_string())) {
        OptionsReaction::Show(message) => {
            assert_eq!(message.typ, MessageType::Error);
            assert_eq!(message.message, "Failed to evaluate NixOS options: no nix");
        }
        _ => panic!("no message"),
    }
}

#[test]
fn string_map_inserts_replaces_and_removes() {
    let mut map: StringMap<u32> = StringMap::new();
    map.insert("a".to_string(), 1);
    map.insert("b".to_string(), 2);
    map.insert("a".to_string(), 3);
    assert_eq!(map.len(), 2);
    assert_eq!(map.get(&"a".to_string()), Some(&3));
    assert_eq!(map.keys(), vec!["a".to_string(), "b".to_string()]);
    map.remove(&"a".to_string());
    map.remove(&"c".to_string());
    assert!(!map.contains_key(&"a".to_string()));
    assert!(map.contains_key(&"b".to_string()));
    assert_eq!(map.len(), 1);
    assert_eq!(*map.value_at(0), 2);
}

/// Loads a flake whose root file has the content `{ }`. Gives the number of answers it took.
fn load(managed: Option<FileId>, cached: FileId, lock: ReadOutcome<Vec<u8>>) -> (FlakeInfo, usize) {
    let mut load = start();
    let mut lock = Some(lock);
    let mut answers = 0;
    loop {
        let answer = match &load {
            InfoLoad::ReadFlake { .. } => {
                InfoAnswer::FlakeRead(ReadOutcome::Read("{ }".to_string()))
            }
            InfoLoad::FindFile { .. } => InfoAnswer::FileLookedUp(managed),
            InfoLoad::CacheFile { .. } => InfoAnswer::FileCached(cached),
            InfoLoad::ReadLock { .. } => InfoAnswer::LockRead(lock.take().unwrap()),
            _ => InfoAnswer::InputsResolved(Ok(vec![input("a", "/s/1")])),
        };
        assert!(load.asks_for(&answer));
        answers += 1;
        load = match load.advance(answer) {
            InfoLoad::Done(Ok(Some(info))) => return (info, answers),
            next => next,
        };
    }
}

#[test]
fn loading_a_flake_ends() {
    let (info, answers) = load(None, FileId(1), ReadOutcome::Read(vec![0]));
    assert_eq!((info.flake_file, answers), (FileId(1), 5));
    assert_eq!(store_path(&info, "a"), Some(b"/s/1".to_vec()));
    let (info, answers) = load(Some(FileId(9)), FileId(1), ReadOutcome::NotFound);
    assert_eq!((info.flake_file, answers), (FileId(9), 3));
    assert_eq!(info.input_store_paths.len(), 0);
}
