//! Loading the workspace around a flake: its inputs have to be in the store, and one of them
//! gives the options of NixOS.

use crate::config::{Config, FsPath};
use crate::flake_info::{FlakeInfo, FlakeInfoView, InfoResult, InfoView, LoadError};
use crate::protocol::{MessageType, MessageView, ShowMessage};
use vstd::prelude::*;

verus! {

/// The flake input from which the options of NixOS are evaluated.
pub const NIXOS_OPTIONS_FLAKE_INPUT: &'static str = "nixpkgs";

/// What the user is told when an input of the flake is not in the store.
pub const INPUTS_NOT_AVAILABLE: &'static str =
    "Some flake inputs are not available, please run `nix flake archive` to fetch all inputs";

/// What is to be done first, after loading the flake ended.
pub enum FlakeReaction {
    /// Let the server know of the flake, or that there is none.
    SetFlakeInfo(Option<FlakeInfo>),
    /// Tell the user why it failed.
    Show(ShowMessage),
}

/// A check that the inputs of the flake are in the store, one after the other.
pub struct InputCheck {
    paths: Vec<FsPath>,
    next: usize,
    options: Option<OptionsEval>,
}

/// The evaluation of the options of NixOS, by `nix_binary` from `nixpkgs`.
pub struct OptionsEval {
    pub nix_binary: FsPath,
    pub nixpkgs: FsPath,
}

/// An evaluation of the options of NixOS as a value.
pub struct OptionsEvalView {
    pub nix_binary: Seq<u8>,
    pub nixpkgs: Seq<u8>,
}

impl View for OptionsEval {
    type V = OptionsEvalView;

    open spec fn view(&self) -> OptionsEvalView {
        OptionsEvalView { nix_binary: self.nix_binary@, nixpkgs: self.nixpkgs@ }
    }
}

/// How far the workspace is loaded, and what is to be done next.
pub enum WorkspaceLoad {
    /// Find out whether a path exists.
    CheckInput(InputCheck),
    /// Evaluate the options of NixOS.
    EvalOptions(OptionsEval),
    /// Nothing.
    Done,
}

/// What is to be done after evaluating the options of NixOS was tried.
pub enum OptionsReaction {
    /// Let the server know of the options.
    SetNixosOptions,
    /// There are none, which cannot be right.
    Ignore,
    /// Tell the user why it failed.
    Show(ShowMessage),
}

/// What loading the workspace does that others notice.
pub enum WorkspaceEffect {
    /// The server is told of the flake, or that there is none.
    SetFlakeInfo(Option<FlakeInfoView>),
    /// The server is told of the options of NixOS.
    SetNixosOptions,
    /// The user is told something.
    Show(MessageView),
}

impl WorkspaceEffect {
    /// What is done after loading the flake ended.
    pub open spec fn of_flake(result: InfoResult) -> WorkspaceEffect {
        match result {
            Ok(info) => WorkspaceEffect::SetFlakeInfo(info),
            Err(error) => WorkspaceEffect::Show(
                MessageView {
                    typ: MessageType::Error,
                    text: "Failed to load flake workspace: "@ + error.text(),
                },
            ),
        }
    }

    /// What is done when an input is not in the store.
    pub open spec fn missing_input() -> WorkspaceEffect {
        WorkspaceEffect::Show(
            MessageView { typ: MessageType::Warning, text: INPUTS_NOT_AVAILABLE@ },
        )
    }

    /// What is done after evaluating the options of NixOS gave `result`: the number of top-level
    /// options, or why it failed.
    pub open spec fn of_options(result: Result<usize, Seq<char>>) -> Option<WorkspaceEffect> {
        match result {
            Ok(len) => if len > 0 {
                Some(WorkspaceEffect::SetNixosOptions)
            } else {
                None
            },
            Err(cause) => Some(
                WorkspaceEffect::Show(
                    MessageView {
                        typ: MessageType::Error,
                        text: "Failed to evaluate NixOS options: "@ + cause,
                    },
                ),
            ),
        }
    }
}

impl View for FlakeReaction {
    type V = WorkspaceEffect;

    open spec fn view(&self) -> WorkspaceEffect {
        match self {
            FlakeReaction::SetFlakeInfo(Some(info)) => WorkspaceEffect::SetFlakeInfo(Some(info@)),
            FlakeReaction::SetFlakeInfo(None) => WorkspaceEffect::SetFlakeInfo(None),
            FlakeReaction::Show(message) => WorkspaceEffect::Show(message@),
        }
    }
}

impl View for OptionsReaction {
    type V = Option<WorkspaceEffect>;

    open spec fn view(&self) -> Option<WorkspaceEffect> {
        match self {
            OptionsReaction::SetNixosOptions => Some(WorkspaceEffect::SetNixosOptions),
            OptionsReaction::Ignore => None,
            OptionsReaction::Show(message) => Some(WorkspaceEffect::Show(message@)),
        }
    }
}

/// How far the workspace is loaded, as a value.
pub enum WorkspaceView {
    CheckInput { paths: Seq<Seq<u8>>, next: nat, options: Option<OptionsEvalView> },
    EvalOptions(OptionsEvalView),
    Done,
}

/// The paths of a list as values.
pub open spec fn path_views(paths: Seq<FsPath>) -> Seq<Seq<u8>> {
    paths.map_values(|path: FsPath| path@)
}

/// An evaluation, where there is one, as a value.
pub open spec fn options_view(options: Option<OptionsEval>) -> Option<OptionsEvalView> {
    match options {
        Some(eval) => Some(eval@),
        None => None,
    }
}

impl InputCheck {
    /// The paths of all inputs.
    pub closed spec fn paths(self) -> Seq<Seq<u8>> {
        path_views(self.paths@)
    }

    /// The position of the path to check now.
    pub closed spec fn next(self) -> nat {
        self.next as nat
    }

    /// The evaluation of the options of NixOS that follows, if there is one.
    pub closed spec fn options(self) -> Option<OptionsEvalView> {
        options_view(self.options)
    }

    #[verifier::type_invariant]
    spec fn in_range(self) -> bool {
        self.next < self.paths@.len()
    }
}

impl View for WorkspaceLoad {
    type V = WorkspaceView;

    open spec fn view(&self) -> WorkspaceView {
        match self {
            WorkspaceLoad::CheckInput(check) => WorkspaceView::CheckInput {
                paths: check.paths(),
                next: check.next(),
                options: check.options(),
            },
            WorkspaceLoad::EvalOptions(eval) => WorkspaceView::EvalOptions(eval@),
            WorkspaceLoad::Done => WorkspaceView::Done,
        }
    }
}

/// `paths` lists the values of `map`.
pub open spec fn lists_values(paths: Seq<Seq<u8>>, map: Map<Seq<char>, Seq<u8>>) -> bool {
    forall|path: Seq<u8>| #[trigger]
        paths.contains(path) <==> exists|name: Seq<char>| #[trigger]
            map.contains_key(name) && map[name] == path
}

impl WorkspaceView {
    /// The state in which `paths` exist up to the position `next`: the other ones are to be
    /// checked, and the options evaluated after that.
    pub open spec fn checked(
        paths: Seq<Seq<u8>>,
        next: nat,
        options: Option<OptionsEvalView>,
    ) -> WorkspaceView {
        if next < paths.len() {
            WorkspaceView::CheckInput { paths, next, options }
        } else {
            match options {
                Some(eval) => WorkspaceView::EvalOptions(eval),
                None => WorkspaceView::Done,
            }
        }
    }

    /// The evaluation of the options of NixOS: by `nix_binary`, from the input that gives them, if
    /// the flake has it.
    pub open spec fn options_of(nix_binary: Seq<u8>, info: FlakeInfoView) -> Option<
        OptionsEvalView,
    > {
        let inputs = info.input_store_paths;
        if inputs.contains_key(NIXOS_OPTIONS_FLAKE_INPUT@) {
            Some(OptionsEvalView { nix_binary, nixpkgs: inputs[NIXOS_OPTIONS_FLAKE_INPUT@] })
        } else {
            None
        }
    }

    /// The state after loading the flake ended. The inputs of a flake are checked in no
    /// particular order.
    pub open spec fn starts(self, nix_binary: Seq<u8>, result: InfoResult) -> bool {
        match result {
            Ok(Some(info)) => exists|paths: Seq<Seq<u8>>| #[trigger]
                lists_values(paths, info.input_store_paths) && self == WorkspaceView::checked(
                    paths,
                    0,
                    WorkspaceView::options_of(nix_binary, info),
                ),
            _ => self == WorkspaceView::Done,
        }
    }
}

/// Goes on after the paths up to the position `next` were found.
fn checked(paths: Vec<FsPath>, next: usize, options: Option<OptionsEval>) -> (load: WorkspaceLoad)
    ensures
        load@ == WorkspaceView::checked(path_views(paths@), next as nat, options_view(options)),
{
    if next < paths.len() {
        WorkspaceLoad::CheckInput(InputCheck { paths, next, options })
    } else {
        match options {
            Some(eval) => WorkspaceLoad::EvalOptions(eval),
            None => WorkspaceLoad::Done,
        }
    }
}

/// The store paths of the inputs of a flake.
fn input_paths(info: &FlakeInfo) -> (paths: Vec<FsPath>)
    ensures
        lists_values(path_views(paths@), info@.input_store_paths),
{
    let inputs = &info.input_store_paths;
    let mut paths: Vec<FsPath> = Vec::new();
    let mut i: usize = 0;
    while i < inputs.len()
        invariant
            i <= inputs.pairs().len(),
            paths@.len() == i,
            forall|j: int|
                0 <= j < i ==> (#[trigger] paths@[j])@ == inputs.pairs()[j].1@
                    && inputs@.contains_key(inputs.pairs()[j].0)
                    && inputs.pairs()[j].1 == inputs@[inputs.pairs()[j].0],
        decreases inputs.pairs().len() - i,
    {
        let path = inputs.value_at(i).clone();
        assert(path@ == inputs.pairs()[i as int].1@);
        paths.push(path);
        i = i + 1;
    }
    proof {
        let views = path_views(paths@);
        let map = info@.input_store_paths;
        assert forall|path: Seq<u8>| #[trigger]
            views.contains(path) <==> exists|name: Seq<char>| #[trigger]
                map.contains_key(name) && map[name] == path by {
            if views.contains(path) {
                let j = choose|j: int| 0 <= j < views.len() && views[j] == path;
                let name = inputs.pairs()[j].0;
                assert(inputs@.contains_key(name));
                assert(map.contains_key(name) && map[name] == path);
            }
            if exists|name: Seq<char>| #[trigger] map.contains_key(name) && map[name] == path {
                let name = choose|name: Seq<char>| #[trigger]
                    map.contains_key(name) && map[name] == path;
                assert(inputs@.contains_key(name));
                let j = choose|j: int| crate::string_map::has_key_at(inputs.pairs(), name, j);
                assert(paths@[j]@ == path);
                assert(views[j] == path);
            }
        }
    }
    paths
}

impl WorkspaceLoad {
    /// Goes on after loading the flake by the configuration `config` ended.
    pub fn flake_info_loaded(
        config: &Config,
        result: Result<Option<FlakeInfo>, LoadError>,
    ) -> (next: (FlakeReaction, WorkspaceLoad))
        ensures
            next.0@ == WorkspaceEffect::of_flake(InfoView::result(result)),
            result matches Ok(info) ==> next.0 == FlakeReaction::SetFlakeInfo(info),
            next.1@.starts(config@.nix_binary, InfoView::result(result)),
    {
        match result {
            Ok(Some(info)) => {
                let paths = input_paths(&info);
                let options = match info.input_store_paths.get(
                    &NIXOS_OPTIONS_FLAKE_INPUT.to_owned(),
                ) {
                    Some(path) => Some(
                        OptionsEval {
                            nix_binary: config.nix_binary.clone(),
                            nixpkgs: path.clone(),
                        },
                    ),
                    None => None,
                };
                let load = checked(paths, 0, options);
                (FlakeReaction::SetFlakeInfo(Some(info)), load)
            },
            Ok(None) => (FlakeReaction::SetFlakeInfo(None), WorkspaceLoad::Done),
            Err(error) => {
                let message = "Failed to load flake workspace: ".to_owned().concat(
                    error.message().as_str(),
                );
                (
                    FlakeReaction::Show(ShowMessage { typ: MessageType::Error, message }),
                    WorkspaceLoad::Done,
                )
            },
        }
    }
}

impl OptionsEval {
    /// Ends the load after the evaluation gave `result`: the number of top-level options, or why
    /// it failed.
    pub fn answer(self, result: Result<usize, String>) -> (reaction: OptionsReaction)
        ensures
            reaction@ == WorkspaceEffect::of_options(
                match result {
                    Ok(len) => Ok(len),
                    Err(cause) => Err(cause@),
                },
            ),
    {
        match result {
            // Sanity check.
            Ok(len) => if len > 0 {
                OptionsReaction::SetNixosOptions
            } else {
                OptionsReaction::Ignore
            },
            Err(cause) => {
                let message = "Failed to evaluate NixOS options: ".to_owned().concat(
                    cause.as_str(),
                );
                OptionsReaction::Show(ShowMessage { typ: MessageType::Error, message })
            },
        }
    }
}

impl InputCheck {
    /// The path to check now.
    pub fn path(&self) -> (path: &FsPath)
        ensures
            self.next() < self.paths().len(),
            path@ == self.paths()[self.next() as int],
    {
        proof {
            use_type_invariant(self);
        }
        &self.paths[self.next]
    }

    /// Goes on after the path was looked for.
    pub fn answer(self, found: bool) -> (next: (Option<ShowMessage>, WorkspaceLoad))
        ensures
            if found {
                next.0 is None && next.1@ == WorkspaceView::checked(
                    self.paths(),
                    self.next() + 1,
                    self.options(),
                )
            } else {
                &&& next.0 matches Some(message)
                &&& WorkspaceEffect::Show(message@) == WorkspaceEffect::missing_input()
                &&& next.1@ == WorkspaceView::Done
            },
    {
        proof {
            use_type_invariant(&self);
        }
        if !found {
            let message = ShowMessage {
                typ: MessageType::Warning,
                message: INPUTS_NOT_AVAILABLE.to_owned(),
            };
            return (Some(message), WorkspaceLoad::Done);
        }
        assert(self.next < self.paths.len());
        (None, checked(self.paths, self.next + 1, self.options))
    }
}

} // verus!
