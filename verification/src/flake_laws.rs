//! What holds of loading the workspace as a whole.

use crate::config::{Config, ConfigView, FsPath};
use crate::flake_info::{
    FileId, FileIn, FileInView, FlakeInfo, FlakeInfoView, InfoAnswer, InfoLoad, InfoResult,
    InfoView, LoadError, LoadErrorView, ReadOutcome, ResolvedInput,
};
use crate::flake_workspace::{
    FlakeReaction, InputCheck, OptionsEval, OptionsEvalView, OptionsReaction, WorkspaceEffect,
    WorkspaceLoad, WorkspaceView,
};
use crate::protocol::{MessageType, ShowMessage};
use std::sync::Arc;
use vstd::prelude::*;

verus! {

/// The answers to everything that loading a flake may ask for.
pub struct InfoAnswers {
    /// What reading the root file gives.
    pub flake: ReadOutcome<String>,
    /// The root file, where it is maintained already.
    pub managed: Option<FileId>,
    /// The root file, where it becomes maintained now.
    pub cached: FileId,
    /// What reading the lock file gives.
    pub lock: ReadOutcome<Vec<u8>>,
    /// What resolving the inputs gives.
    pub resolved: Result<Vec<ResolvedInput>, String>,
}

impl InfoAnswers {
    /// The maintained root file.
    pub open spec fn flake_file(self) -> FileId {
        match self.managed {
            Some(file) => file,
            None => self.cached,
        }
    }

    /// What loading the flake of a workspace comes to.
    pub open spec fn result(self, config: ConfigView) -> InfoResult {
        match (self.flake, self.lock, self.resolved) {
            (ReadOutcome::NotFound, _, _) => Ok(None),
            (ReadOutcome::Failed { raw_path, cause }, _, _) => Err(
                LoadErrorView::FlakeRoot {
                    path: FileInView::flake(config).shown(raw_path@),
                    cause: cause@,
                },
            ),
            (ReadOutcome::Read(_), ReadOutcome::NotFound, _) => Ok(
                Some(
                    FlakeInfoView {
                        flake_file: self.flake_file(),
                        input_store_paths: Map::empty(),
                    },
                ),
            ),
            (ReadOutcome::Read(_), ReadOutcome::Failed { raw_path, cause }, _) => Err(
                LoadErrorView::FlakeLock {
                    path: FileInView::lock(config).shown(raw_path@),
                    cause: cause@,
                },
            ),
            (ReadOutcome::Read(_), ReadOutcome::Read(_), Err(cause)) => Err(
                LoadErrorView::Inputs { cause: cause@ },
            ),
            (ReadOutcome::Read(_), ReadOutcome::Read(_), Ok(inputs)) => Ok(
                Some(
                    FlakeInfoView {
                        flake_file: self.flake_file(),
                        input_store_paths: crate::flake_info::store_paths(inputs@),
                    },
                ),
            ),
        }
    }

    /// The answer to what `load` asks for.
    pub open spec fn to(self, load: InfoView) -> InfoAnswer {
        match load {
            InfoView::ReadFlake { .. } => InfoAnswer::FlakeRead(self.flake),
            InfoView::FindFile { .. } => InfoAnswer::FileLookedUp(self.managed),
            InfoView::CacheFile { .. } => InfoAnswer::FileCached(self.cached),
            InfoView::ReadLock { .. } => InfoAnswer::LockRead(self.lock),
            _ => InfoAnswer::InputsResolved(self.resolved),
        }
    }

    /// The state that `steps` answers lead to.
    pub open spec fn run(self, load: InfoView, steps: nat) -> InfoView
        decreases steps,
    {
        if steps == 0 {
            load
        } else {
            self.run(load.after_answer(self.to(load)), (steps - 1) as nat)
        }
    }
}

/// Loading a flake ends after five answers at most. Without a root file there is no flake, without
/// a lock file there are no inputs, and a root file that is maintained already is preferred to
/// the one on disk. The error of a file that cannot be read shows the path of that file.
pub proof fn law_loading_a_flake_ends(config: ConfigView, answers: InfoAnswers)
    ensures
        answers.run(InfoView::start(config), 5) == InfoView::Done(answers.result(config)),
{
    reveal_with_fuel(InfoAnswers::run, 6);
}

/// Until it has ended, a load asks for something.
pub proof fn law_unfinished_load_asks(answers: InfoAnswers, load: InfoView)
    requires
        !(load is Done),
    ensures
        load.asks_for(answers.to(load)),
{
}

/// An answer fits a state just where it answers what that state does, whatever the answer is.
pub proof fn law_answers_fit_what_was_asked(load: InfoLoad, answer: InfoAnswer, asks: bool)
    requires
        call_ensures(InfoLoad::asks_for, (&load, &answer), asks),
    ensures
        load is ReadFlake ==> (asks <==> answer is FlakeRead),
        load is FindFile ==> (asks <==> answer is FileLookedUp),
        load is CacheFile ==> (asks <==> answer is FileCached),
        load is ReadLock ==> (asks <==> answer is LockRead),
        load is ResolveInputs ==> (asks <==> answer is InputsResolved),
        load is Done ==> !asks,
{
}

/// What the state reads, looks for or runs is what `config` says: the two files in the root of the
/// workspace, and its `nix`.
pub open spec fn stays_within(load: InfoView, config: ConfigView) -> bool {
    match load {
        InfoView::ReadFlake { config: own, file } => own == config && file == FileInView::flake(
            config,
        ),
        InfoView::FindFile { config: own, file, .. } => own == config && file
            == FileInView::flake(config),
        InfoView::CacheFile { config: own, file, .. } => own == config && file
            == FileInView::flake(config),
        InfoView::ReadLock { config: own, file, .. } => own == config && file == FileInView::lock(
            config,
        ),
        InfoView::ResolveInputs { nix_binary, .. } => nix_binary == config.nix_binary,
        InfoView::Done(_) => true,
    }
}

/// A load keeps to the configuration that it was started with, whatever it is answered.
pub proof fn law_load_keeps_its_configuration(
    config: ConfigView,
    load: InfoView,
    answer: InfoAnswer,
)
    ensures
        stays_within(InfoView::start(config), config),
        stays_within(load, config) ==> stays_within(load.after_answer(answer), config),
{
}

/// Where the root file of the flake is maintained already, its content on disk does not matter:
/// it is not taken over, and whatever it is, the flake has the maintained file.
pub proof fn law_maintained_file_is_preferred(
    config: ConfigView,
    answers: InfoAnswers,
    src: String,
    other_src: String,
    other: FileId,
)
    requires
        answers.managed is Some,
        answers.flake == ReadOutcome::Read(src),
    ensures
        answers.run(InfoView::start(config), 2) == InfoView::read_lock(
            config,
            answers.managed->0,
        ),
        answers.result(config) == (InfoAnswers {
            flake: ReadOutcome::Read(other_src),
            cached: other,
            ..answers
        }).result(config),
        answers.result(config) matches Ok(Some(info)) ==> Some(info.flake_file) == answers.managed,
{
    reveal_with_fuel(InfoAnswers::run, 3);
}

/// What checking the inputs comes to, where `present` says which paths exist: whether the user is
/// warned, and the state in the end.
pub open spec fn after_checks(load: WorkspaceView, present: spec_fn(Seq<u8>) -> bool) -> (
    bool,
    WorkspaceView,
)
    decreases
        (match load {
            WorkspaceView::CheckInput { paths, next, .. } => 1 + paths.len() - next,
            _ => 0,
        }),
{
    match load {
        WorkspaceView::CheckInput { paths, next, options } => if next >= paths.len() {
            (false, load)
        } else if present(paths[next as int]) {
            after_checks(WorkspaceView::checked(paths, next + 1, options), present)
        } else {
            (true, WorkspaceView::Done)
        },
        _ => (false, load),
    }
}

proof fn lemma_checks_from(
    paths: Seq<Seq<u8>>,
    next: nat,
    options: Option<OptionsEvalView>,
    present: spec_fn(Seq<u8>) -> bool,
)
    requires
        next <= paths.len(),
    ensures
        ({
            let (warned, end) = after_checks(WorkspaceView::checked(paths, next, options), present);
            &&& warned <==> exists|i: int| next <= i < paths.len() && !present(#[trigger] paths[i])
            &&& end == if warned {
                WorkspaceView::Done
            } else {
                WorkspaceView::checked(paths, paths.len(), options)
            }
        }),
    decreases paths.len() - next,
{
    if next < paths.len() {
        lemma_checks_from(paths, next + 1, options, present);
        if !present(paths[next as int]) {
            assert(next <= next as int && !present(paths[next as int]));
        }
    }
}

/// Where an input of the flake does not exist, the user is warned and nothing more is done. Where
/// all of them exist, the options of NixOS are evaluated from the input that gives them, if the
/// flake has it.
pub proof fn law_missing_inputs_stop_loading(
    inputs: Map<Seq<char>, Seq<u8>>,
    paths: Seq<Seq<u8>>,
    options: Option<OptionsEvalView>,
    present: spec_fn(Seq<u8>) -> bool,
)
    requires
        crate::flake_workspace::lists_values(paths, inputs),
    ensures
        ({
            let (warned, end) = after_checks(WorkspaceView::checked(paths, 0, options), present);
            &&& warned <==> exists|name: Seq<char>| #[trigger]
                inputs.contains_key(name) && !present(inputs[name])
            &&& end == match options {
                Some(eval) if !warned => WorkspaceView::EvalOptions(eval),
                _ => WorkspaceView::Done,
            }
        }),
{
    lemma_checks_from(paths, 0, options, present);
    let (warned, end) = after_checks(WorkspaceView::checked(paths, 0, options), present);
    if warned {
        let i = choose|i: int| 0 <= i < paths.len() && !present(#[trigger] paths[i]);
        assert(paths.contains(paths[i]));
    }
    if exists|name: Seq<char>| #[trigger] inputs.contains_key(name) && !present(inputs[name]) {
        let name = choose|name: Seq<char>| #[trigger]
            inputs.contains_key(name) && !present(inputs[name]);
        assert(inputs.contains_key(name) && inputs[name] == inputs[name]);
        assert(paths.contains(inputs[name]));
        let i = choose|i: int| 0 <= i < paths.len() && paths[i] == inputs[name];
        assert(!present(paths[i]));
    }
}

/// What loading the workspace does that others notice, in order, after the flake came to
/// `result`. `load` is the state after that, `present` says which paths exist, and `options` is
/// what evaluating the options of NixOS gives.
pub open spec fn workspace_effects(
    result: InfoResult,
    load: WorkspaceView,
    present: spec_fn(Seq<u8>) -> bool,
    options: Result<usize, Seq<char>>,
) -> Seq<WorkspaceEffect> {
    let (warned, end) = after_checks(load, present);
    let first = seq![WorkspaceEffect::of_flake(result)];
    if warned {
        first.push(WorkspaceEffect::missing_input())
    } else if end is EvalOptions {
        match WorkspaceEffect::of_options(options) {
            Some(effect) => first.push(effect),
            None => first,
        }
    } else {
        first
    }
}

/// Every input of the flake exists, where `present` says which paths do.
pub open spec fn inputs_exist(info: FlakeInfoView, present: spec_fn(Seq<u8>) -> bool) -> bool {
    forall|name: Seq<char>| #[trigger]
        info.input_store_paths.contains_key(name) ==> present(info.input_store_paths[name])
}

/// There is a flake, all of its inputs exist, one of them gives the options of NixOS, and
/// evaluating them gives some.
pub open spec fn gives_options(
    result: InfoResult,
    present: spec_fn(Seq<u8>) -> bool,
    options: Result<usize, Seq<char>>,
) -> bool {
    match (result, options) {
        (Ok(Some(info)), Ok(len)) => {
            &&& inputs_exist(info, present)
            &&& info.input_store_paths.contains_key(
                crate::flake_workspace::NIXOS_OPTIONS_FLAKE_INPUT@,
            )
            &&& len > 0
        },
        _ => false,
    }
}

/// What checking the inputs of a flake comes to, whatever the order they are checked in.
proof fn lemma_checks_of_flake(
    nix_binary: Seq<u8>,
    info: FlakeInfoView,
    load: WorkspaceView,
    present: spec_fn(Seq<u8>) -> bool,
)
    requires
        load.starts(nix_binary, Ok(Some(info))),
    ensures
        after_checks(load, present).0 <==> !inputs_exist(info, present),
        after_checks(load, present).1 == match WorkspaceView::options_of(nix_binary, info) {
            Some(eval) if inputs_exist(info, present) => WorkspaceView::EvalOptions(eval),
            _ => WorkspaceView::Done,
        },
{
    let options = WorkspaceView::options_of(nix_binary, info);
    let paths = choose|paths: Seq<Seq<u8>>| #[trigger]
        crate::flake_workspace::lists_values(paths, info.input_store_paths) && load
            == WorkspaceView::checked(paths, 0, options);
    law_missing_inputs_stop_loading(info.input_store_paths, paths, options, present);
}

/// Loading the workspace first tells the server of the flake, or the user why there is none. In
/// all it shows at most one message or sets the options of NixOS once, never both. It sets them,
/// after the server knows of the flake, just where all inputs of the flake exist, one of them
/// gives the options and there are some. It warns just where an input of the flake does not exist.
pub proof fn law_workspace_load_reports_once(
    nix_binary: Seq<u8>,
    result: InfoResult,
    load: WorkspaceView,
    present: spec_fn(Seq<u8>) -> bool,
    options: Result<usize, Seq<char>>,
)
    requires
        load.starts(nix_binary, result),
    ensures
        ({
            let effects = workspace_effects(result, load, present, options);
            &&& effects.len() >= 1
            &&& effects[0] == WorkspaceEffect::of_flake(result)
            &&& forall|i: int, j: int|
                0 <= i < effects.len() && 0 <= j < effects.len() && !(#[trigger] effects[i]
                    is SetFlakeInfo) && !(#[trigger] effects[j] is SetFlakeInfo) ==> i == j
            &&& forall|i: int|
                0 < i < effects.len() ==> !(#[trigger] effects[i] is SetFlakeInfo)
            &&& effects.contains(WorkspaceEffect::SetNixosOptions) <==> gives_options(
                result,
                present,
                options,
            )
            &&& gives_options(result, present, options) ==> effects == seq![
                WorkspaceEffect::SetFlakeInfo(result->Ok_0),
                WorkspaceEffect::SetNixosOptions,
            ]
            &&& effects.contains(WorkspaceEffect::missing_input()) <==> (result matches Ok(
                Some(info),
            ) && !inputs_exist(info, present))
        }),
{
    if let Ok(Some(info)) = result {
        lemma_checks_of_flake(nix_binary, info, load, present);
    }
    let effects = workspace_effects(result, load, present, options);
    if effects.len() == 2 {
        assert(effects.contains(effects[1]));
    }
}

/// The options of NixOS are evaluated by the `nix` of the configuration, from the store path of
/// the input that gives them.
pub proof fn law_options_come_from_the_flake(
    nix_binary: Seq<u8>,
    result: InfoResult,
    load: WorkspaceView,
    present: spec_fn(Seq<u8>) -> bool,
)
    requires
        load.starts(nix_binary, result),
    ensures
        after_checks(load, present).1 matches WorkspaceView::EvalOptions(eval) ==> {
            &&& result matches Ok(Some(info))
            &&& WorkspaceView::options_of(nix_binary, info) == Some(eval)
        },
{
    if let Ok(Some(info)) = result {
        lemma_checks_of_flake(nix_binary, info, load, present);
    }
}

/// An input in a list has a store path: its own, where no later input has the same name.
proof fn lemma_store_path_at(inputs: Seq<ResolvedInput>, i: int)
    requires
        0 <= i < inputs.len(),
    ensures
        crate::flake_info::store_paths(inputs).contains_key(inputs[i].name@),
        (forall|j: int| i < j < inputs.len() ==> (#[trigger] inputs[j]).name@ != inputs[i].name@)
            ==> crate::flake_info::store_paths(inputs)[inputs[i].name@] == inputs[i].store_path@,
    decreases inputs.len(),
{
    if i < inputs.len() - 1 {
        let earlier = inputs.drop_last();
        assert(earlier[i] == inputs[i]);
        lemma_store_path_at(earlier, i);
        if forall|j: int| i < j < inputs.len() ==> (#[trigger] inputs[j]).name@ != inputs[i].name@ {
            assert(inputs[inputs.len() - 1].name@ != inputs[i].name@);
            assert forall|j: int| i < j < earlier.len() implies (#[trigger] earlier[j]).name@
                != earlier[i].name@ by {
                assert(inputs[j].name@ != inputs[i].name@);
            }
        }
    }
}

/// What has a store path is an input in the list.
proof fn lemma_store_path_of(inputs: Seq<ResolvedInput>, name: Seq<char>) -> (i: int)
    requires
        crate::flake_info::store_paths(inputs).contains_key(name),
    ensures
        0 <= i < inputs.len(),
        inputs[i].name@ == name,
    decreases inputs.len(),
{
    if inputs.len() > 0 && name != inputs.last().name@ {
        lemma_store_path_of(inputs.drop_last(), name)
    } else {
        inputs.len() - 1
    }
}

/// When the inputs of a flake were resolved, the flake knows the store path of each of them, and
/// of nothing else. Where a name comes more than once, the last input of that name counts.
pub proof fn law_every_input_has_its_store_path(
    load: InfoLoad,
    inputs: Vec<ResolvedInput>,
    next: InfoLoad,
)
    requires
        load is ResolveInputs,
        call_ensures(InfoLoad::advance, (load, InfoAnswer::InputsResolved(Ok(inputs))), next),
    ensures
        next matches InfoLoad::Done(Ok(Some(info))) && {
            let paths = info.input_store_paths@;
            &&& info.flake_file == load->ResolveInputs_flake_file
            &&& forall|i: int|
                0 <= i < inputs@.len() ==> paths.contains_key((#[trigger] inputs@[i]).name@)
            &&& forall|name: Seq<char>| #[trigger]
                paths.contains_key(name) ==> exists|i: int|
                    0 <= i < inputs@.len() && (#[trigger] inputs@[i]).name@ == name
            &&& forall|i: int|
                0 <= i < inputs@.len() && (forall|j: int|
                    i < j < inputs@.len() ==> (#[trigger] inputs@[j]).name@ != inputs@[i].name@)
                    ==> paths[(#[trigger] inputs@[i]).name@].bytes@
                    == inputs@[i].store_path.bytes@
        },
{
    if let InfoLoad::Done(Ok(Some(info))) = next {
        let paths = info.input_store_paths@;
        let views = crate::flake_info::store_paths(inputs@);
        assert(info@.input_store_paths == views);
        assert(paths.map_values(|path: FsPath| path@) == views);
        assert forall|i: int| 0 <= i < inputs@.len() implies paths.contains_key(
            (#[trigger] inputs@[i]).name@,
        ) by {
            lemma_store_path_at(inputs@, i);
        }
        assert forall|name: Seq<char>| #[trigger] paths.contains_key(name) implies exists|i: int|
            0 <= i < inputs@.len() && (#[trigger] inputs@[i]).name@ == name by {
            let i = lemma_store_path_of(inputs@, name);
            assert(inputs@[i].name@ == name);
        }
        assert forall|i: int|
            0 <= i < inputs@.len() && (forall|j: int|
                i < j < inputs@.len() ==> (#[trigger] inputs@[j]).name@
                    != inputs@[i].name@) implies paths[(#[trigger] inputs@[i]).name@].bytes@
            == inputs@[i].store_path.bytes@ by {
            lemma_store_path_at(inputs@, i);
        }
    }
}

/// A flake whose inputs could not be resolved is not loaded, and the cause is kept.
pub proof fn law_unresolved_inputs_fail(load: InfoLoad, cause: String, next: InfoLoad)
    requires
        load is ResolveInputs,
        call_ensures(InfoLoad::advance, (load, InfoAnswer::InputsResolved(Err(cause))), next),
    ensures
        next matches InfoLoad::Done(Err(LoadError::Inputs { cause: kept })) && kept@ == cause@,
{
}

/// Loading starts with reading `flake.nix` in the root of the workspace.
pub proof fn law_load_starts_with_the_root_file(config: Arc<Config>, load: InfoLoad)
    requires
        call_ensures(InfoLoad::start, (config,), load),
    ensures
        load matches InfoLoad::ReadFlake { config: by, file } && {
            &&& (*by)@ == (*config)@
            &&& file.dir.bytes@ == config.root_path.bytes@
            &&& file.name@ == "flake.nix"@
        },
{
}

/// The content of the root file is handed on as it was read. Without a root file there is no
/// flake. Where it cannot be read, loading fails with its path and the cause.
pub proof fn law_root_file_decides(load: InfoLoad, read: ReadOutcome<String>, next: InfoLoad)
    requires
        load is ReadFlake,
        call_ensures(InfoLoad::advance, (load, InfoAnswer::FlakeRead(read)), next),
    ensures
        match read {
            ReadOutcome::Read(src) => next matches InfoLoad::FindFile {
                config: by,
                file,
                src: kept,
            } && {
                &&& (*by)@ == (*load->ReadFlake_config)@
                &&& file.dir.bytes@ == load->ReadFlake_file.dir.bytes@
                &&& file.name@ == load->ReadFlake_file.name@
                &&& kept@ == src@
            },
            ReadOutcome::NotFound => next matches InfoLoad::Done(Ok(None)),
            ReadOutcome::Failed { raw_path, cause } => next matches InfoLoad::Done(
                Err(LoadError::FlakeRoot { path, cause: kept }),
            ) && kept@ == cause@ && path@ == load->ReadFlake_file@.shown(raw_path@),
        },
{
}

/// Where the root file is maintained already, that file is the one of the flake and the lock file
/// is read next. Otherwise the content from disk is to be maintained, as it is.
pub proof fn law_lookup_decides(load: InfoLoad, managed: Option<FileId>, next: InfoLoad)
    requires
        load is FindFile,
        call_ensures(InfoLoad::advance, (load, InfoAnswer::FileLookedUp(managed)), next),
    ensures
        match managed {
            Some(id) => next matches InfoLoad::ReadLock { config: by, file, flake_file } && {
                &&& (*by)@ == (*load->FindFile_config)@
                &&& file.dir.bytes@ == load->FindFile_config.root_path.bytes@
                &&& file.name@ == "flake.lock"@
                &&& flake_file == id
            },
            None => next matches InfoLoad::CacheFile { config: by, file, src } && {
                &&& (*by)@ == (*load->FindFile_config)@
                &&& file.dir.bytes@ == load->FindFile_file.dir.bytes@
                &&& file.name@ == load->FindFile_file.name@
                &&& src@ == load->FindFile_src@
            },
        },
{
}

/// After the root file became maintained, it is the one of the flake, and the lock file is read.
pub proof fn law_cached_file_is_used(load: InfoLoad, cached: FileId, next: InfoLoad)
    requires
        load is CacheFile,
        call_ensures(InfoLoad::advance, (load, InfoAnswer::FileCached(cached)), next),
    ensures
        next matches InfoLoad::ReadLock { config: by, file, flake_file } && {
            &&& (*by)@ == (*load->CacheFile_config)@
            &&& file.dir.bytes@ == load->CacheFile_config.root_path.bytes@
            &&& file.name@ == "flake.lock"@
            &&& flake_file == cached
        },
{
}

/// The content of the lock file is resolved as it was read, by the configured `nix`. Without a
/// lock file the flake has no inputs. Where it cannot be read, loading fails with its path and
/// the cause.
pub proof fn law_lock_file_decides(load: InfoLoad, read: ReadOutcome<Vec<u8>>, next: InfoLoad)
    requires
        load is ReadLock,
        call_ensures(InfoLoad::advance, (load, InfoAnswer::LockRead(read)), next),
    ensures
        match read {
            ReadOutcome::Read(src) => next matches InfoLoad::ResolveInputs {
                nix_binary,
                flake_file,
                lock_src,
            } && {
                &&& nix_binary.bytes@ == load->ReadLock_config.nix_binary.bytes@
                &&& flake_file == load->ReadLock_flake_file
                &&& lock_src@ == src@
            },
            ReadOutcome::NotFound => next matches InfoLoad::Done(Ok(Some(info))) && {
                &&& info.flake_file == load->ReadLock_flake_file
                &&& forall|name: Seq<char>| !#[trigger]
                    info.input_store_paths@.contains_key(name)
            },
            ReadOutcome::Failed { raw_path, cause } => next matches InfoLoad::Done(
                Err(LoadError::FlakeLock { path, cause: kept }),
            ) && kept@ == cause@ && path@ == load->ReadLock_file@.shown(raw_path@),
        },
{
    if let InfoLoad::Done(Ok(Some(info))) = next {
        assert forall|name: Seq<char>| !#[trigger] info.input_store_paths@.contains_key(name) by {
            assert(!info@.input_store_paths.contains_key(name));
        }
    }
}

/// The path of a file in a directory that is UTF-8 is shown by joining the two, whatever text is
/// given for other directories; in another directory it is shown by that text.
pub proof fn law_shown_path_is_the_joined_path(file: FileIn, raw: String, text: String)
    requires
        call_ensures(FileIn::shown, (&file, raw), text),
    ensures
        vstd::utf8::valid_utf8(file.dir.bytes@) ==> text@ == crate::external::path_debug(
            crate::external::joined_path(
                vstd::utf8::decode_utf8(file.dir.bytes@),
                file.name@,
            ),
        ),
        !vstd::utf8::valid_utf8(file.dir.bytes@) ==> text@ == raw@,
{
}

/// The text of an error names what failed, the path where there is one, and the cause.
pub proof fn law_errors_name_path_and_cause(error: LoadError, text: String)
    requires
        call_ensures(LoadError::message, (&error,), text),
    ensures
        text@ == match error {
            LoadError::FlakeRoot { path, cause } => "Failed to read flake root "@ + path@ + ": "@
                + cause@,
            LoadError::FlakeLock { path, cause } => "Failed to read flake lock "@ + path@ + ": "@
                + cause@,
            LoadError::Inputs { cause } => "Failed to resolve flake inputs from lock file"@ + ": "@
                + cause@,
        },
{
}

/// The server is told of the flake just as it was loaded, or of its absence; of a failure the
/// user is told the text of the error, and nothing more is done then or without a flake.
pub proof fn law_load_result_is_reported(
    config: Config,
    result: Result<Option<FlakeInfo>, LoadError>,
    next: (FlakeReaction, WorkspaceLoad),
)
    requires
        call_ensures(WorkspaceLoad::flake_info_loaded, (&config, result), next),
    ensures
        match result {
            Ok(info) => next.0 == FlakeReaction::SetFlakeInfo(info),
            Err(error) => next.0 matches FlakeReaction::Show(message) && message.typ
                == MessageType::Error && forall|text: String| #[trigger]
                call_ensures(LoadError::message, (&error,), text) ==> message.message@
                    == "Failed to load flake workspace: "@ + text@,
        },
        !(result matches Ok(Some(_))) ==> next.1 is Done,
{
}

/// A run through the checks of the inputs in which every path was found, state by state.
pub open spec fn found_all_along(states: Seq<WorkspaceLoad>) -> bool {
    forall|i: int, j: int|
        #![trigger states[i], states[j]]
        0 <= i < j < states.len() && j == i + 1 ==> (states[i] matches WorkspaceLoad::CheckInput(
            check,
        ) && call_ensures(InputCheck::answer, (check, true), (None, states[j])))
}

/// The store paths of the inputs of a flake, in the order in which they are checked, and the
/// state that the checks start with.
proof fn lemma_first_state(
    config: Config,
    info: FlakeInfo,
    reaction: FlakeReaction,
    first: WorkspaceLoad,
) -> (paths: Seq<Seq<u8>>)
    requires
        call_ensures(
            WorkspaceLoad::flake_info_loaded,
            (&config, Ok(Some(info))),
            (reaction, first),
        ),
    ensures
        crate::flake_workspace::lists_values(paths, info@.input_store_paths),
        first@ == WorkspaceView::checked(
            paths,
            0,
            WorkspaceView::options_of(config@.nix_binary, info@),
        ),
{
    assert(first@.starts(config@.nix_binary, Ok(Some(info@))));
    choose|paths: Seq<Seq<u8>>| #[trigger]
        crate::flake_workspace::lists_values(paths, info@.input_store_paths) && first@
            == WorkspaceView::checked(
            paths,
            0,
            WorkspaceView::options_of(config@.nix_binary, info@),
        )
}

/// Wherever loading the workspace of a flake comes to evaluate the options of NixOS, the flake has
/// the input `nixpkgs`, and the options are evaluated from the store path of that input and by the
/// configured `nix`. Where all paths were found and nothing is evaluated, there is no such input.
pub proof fn law_options_come_from_nixpkgs(
    config: Config,
    info: FlakeInfo,
    reaction: FlakeReaction,
    states: Seq<WorkspaceLoad>,
)
    requires
        states.len() > 0,
        call_ensures(
            WorkspaceLoad::flake_info_loaded,
            (&config, Ok(Some(info))),
            (reaction, states[0]),
        ),
        found_all_along(states),
    ensures
        states.last() matches WorkspaceLoad::EvalOptions(eval) ==> {
            &&& info.input_store_paths@.contains_key("nixpkgs"@)
            &&& eval.nixpkgs.bytes@ == info.input_store_paths@["nixpkgs"@].bytes@
            &&& eval.nix_binary.bytes@ == config.nix_binary.bytes@
        },
        states.last() is Done ==> !info.input_store_paths@.contains_key("nixpkgs"@),
{
    let options = WorkspaceView::options_of(config@.nix_binary, info@);
    assert(info@.input_store_paths.contains_key("nixpkgs"@)
        == info.input_store_paths@.contains_key("nixpkgs"@));
    let paths = lemma_first_state(config, info, reaction, states[0]);
    lemma_states_of_run(states, paths, options, states.len() - 1);
}

/// Before loading the workspace of a flake comes to evaluate the options of NixOS, the path of
/// every input was looked for and found.
pub proof fn law_options_wait_for_every_input(
    config: Config,
    info: FlakeInfo,
    reaction: FlakeReaction,
    states: Seq<WorkspaceLoad>,
    name: Seq<char>,
) -> (i: int)
    requires
        states.len() > 0,
        call_ensures(
            WorkspaceLoad::flake_info_loaded,
            (&config, Ok(Some(info))),
            (reaction, states[0]),
        ),
        found_all_along(states),
        states.last() is EvalOptions,
        info.input_store_paths@.contains_key(name),
    ensures
        0 <= i < states.len() - 1,
        states[i] matches WorkspaceLoad::CheckInput(check) && forall|path: &FsPath| #[trigger]
            call_ensures(InputCheck::path, (&check,), path) ==> path.bytes@
                == info.input_store_paths@[name].bytes@,
{
    let options = WorkspaceView::options_of(config@.nix_binary, info@);
    let paths = lemma_first_state(config, info, reaction, states[0]);
    assert(info@.input_store_paths.contains_key(name));
    let i = lemma_listed(paths, info@.input_store_paths, name);
    lemma_states_of_run(states, paths, options, states.len() - 1);
    lemma_states_of_run(states, paths, options, i);
    i
}

proof fn lemma_listed(
    paths: Seq<Seq<u8>>,
    inputs: Map<Seq<char>, Seq<u8>>,
    name: Seq<char>,
) -> (i: int)
    requires
        crate::flake_workspace::lists_values(paths, inputs),
        inputs.contains_key(name),
    ensures
        0 <= i < paths.len(),
        paths[i] == inputs[name],
{
    assert(paths.contains(inputs[name]));
    choose|i: int| 0 <= i < paths.len() && paths[i] == inputs[name]
}

proof fn lemma_states_of_run(
    states: Seq<WorkspaceLoad>,
    paths: Seq<Seq<u8>>,
    options: Option<OptionsEvalView>,
    i: int,
)
    requires
        0 <= i < states.len(),
        states[0]@ == WorkspaceView::checked(paths, 0, options),
        found_all_along(states),
    ensures
        states[i]@ == WorkspaceView::checked(paths, i as nat, options),
        i <= paths.len(),
    decreases i,
{
    if i > 0 {
        lemma_states_of_run(states, paths, options, i - 1);
        assert(states[i - 1] is CheckInput && states[i] == states[i]);
    }
}

/// Where a path of an input is not found, the user is warned and loading the workspace ends.
/// Where it is found, the user is told nothing.
pub proof fn law_missing_path_ends_the_load(
    check: InputCheck,
    found: bool,
    next: (Option<ShowMessage>, WorkspaceLoad),
)
    requires
        call_ensures(InputCheck::answer, (check, found), next),
    ensures
        found ==> next.0 is None,
        !found ==> next.1 is Done,
        !found ==> (next.0 matches Some(message) && message.typ == MessageType::Warning
            && message.message@
            == "Some flake inputs are not available, please run `nix flake archive` to fetch all inputs"@),
{
}

/// Evaluated options are set where there are any; of a failure the user is told the cause.
pub proof fn law_evaluated_options_are_set(
    eval: OptionsEval,
    result: Result<usize, String>,
    reaction: OptionsReaction,
)
    requires
        call_ensures(OptionsEval::answer, (eval, result), reaction),
    ensures
        match result {
            Ok(len) => if len == 0 {
                reaction is Ignore
            } else {
                reaction is SetNixosOptions
            },
            Err(cause) => reaction matches OptionsReaction::Show(message) && message.typ
                == MessageType::Error && message.message@ == "Failed to evaluate NixOS options: "@
                + cause@,
        },
{
}

/// Checking the inputs of a flake warns just where one of their paths does not exist, and goes on
/// to the options just where all exist and the flake has `nixpkgs`.
pub proof fn law_checks_cover_every_input(
    nix_binary: Seq<u8>,
    info: FlakeInfoView,
    load: WorkspaceView,
    present: spec_fn(Seq<u8>) -> bool,
)
    requires
        load.starts(nix_binary, Ok(Some(info))),
    ensures
        after_checks(load, present).0 <==> exists|name: Seq<char>| #[trigger]
            info.input_store_paths.contains_key(name) && !present(info.input_store_paths[name]),
        after_checks(load, present).1 == (if !after_checks(load, present).0
            && info.input_store_paths.contains_key("nixpkgs"@) {
            WorkspaceView::EvalOptions(
                OptionsEvalView { nix_binary, nixpkgs: info.input_store_paths["nixpkgs"@] },
            )
        } else {
            WorkspaceView::Done
        }),
{
    lemma_checks_of_flake(nix_binary, info, load, present);
}

} // verus!
