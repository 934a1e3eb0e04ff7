//! Loading the flake of the workspace: its root file, its lock file and the store paths of its
//! inputs. Reading and resolving is done by the caller; each answer leads to the next state.

use crate::config::{Config, ConfigView, FsPath};
use crate::external::{debug_path, join_path, utf8_text};
use crate::string_map::StringMap;
use std::sync::Arc;
use vstd::prelude::*;

verus! {

/// The root file of a flake, in the root of the workspace.
pub const FLAKE_FILE: &'static str = "flake.nix";

/// The lock file of a flake, in the root of the workspace.
pub const FLAKE_LOCK_FILE: &'static str = "flake.lock";

/// A file that the server maintains the content of.
#[derive(Clone, Copy, Debug, PartialEq, Eq, Structural)]
pub struct FileId(pub u32);

/// A file, by its name, in a directory.
#[derive(Debug)]
pub struct FileIn {
    pub dir: FsPath,
    pub name: String,
}

/// A file in a directory as a value.
pub struct FileInView {
    pub dir: Seq<u8>,
    pub name: Seq<char>,
}

impl View for FileIn {
    type V = FileInView;

    open spec fn view(&self) -> FileInView {
        FileInView { dir: self.dir@, name: self.name@ }
    }
}

impl FileInView {
    /// The root file of the flake of a workspace.
    pub open spec fn flake(config: ConfigView) -> FileInView {
        FileInView { dir: config.root_path, name: FLAKE_FILE@ }
    }

    /// The lock file of the flake of a workspace.
    pub open spec fn lock(config: ConfigView) -> FileInView {
        FileInView { dir: config.root_path, name: FLAKE_LOCK_FILE@ }
    }

    /// The path of the file as it is shown to the user. Where the directory is not UTF-8 it is
    /// the text `raw`.
    pub open spec fn shown(self, raw: Seq<char>) -> Seq<char> {
        if vstd::utf8::valid_utf8(self.dir) {
            crate::external::path_debug(
                crate::external::joined_path(vstd::utf8::decode_utf8(self.dir), self.name),
            )
        } else {
            raw
        }
    }
}

impl FileIn {
    /// The file `name` in the root of the workspace.
    fn in_root(config: &Config, name: &str) -> (file: FileIn)
        ensures
            file@ == (FileInView { dir: config@.root_path, name: name@ }),
    {
        FileIn { dir: config.root_path.clone(), name: name.to_owned() }
    }

    /// The path of the file as it is shown to the user. Where the directory is not UTF-8 it is
    /// the text `raw`.
    pub fn shown(&self, raw: String) -> (text: String)
        ensures
            text@ == self@.shown(raw@),
    {
        match utf8_text(self.dir.bytes.as_slice()) {
            Some(dir) => debug_path(join_path(dir, self.name.as_str()).as_str()),
            None => raw,
        }
    }
}

/// What is known of the flake of the workspace.
#[derive(Debug)]
pub struct FlakeInfo {
    pub flake_file: FileId,
    pub input_store_paths: StringMap<FsPath>,
}

/// The flake of the workspace as a value.
#[verifier::ext_equal]
pub struct FlakeInfoView {
    pub flake_file: FileId,
    pub input_store_paths: Map<Seq<char>, Seq<u8>>,
}

impl View for FlakeInfo {
    type V = FlakeInfoView;

    open spec fn view(&self) -> FlakeInfoView {
        FlakeInfoView {
            flake_file: self.flake_file,
            input_store_paths: self.input_store_paths@.map_values(|path: FsPath| path@),
        }
    }
}

/// An input of the flake and where it is in the store.
pub struct ResolvedInput {
    pub name: String,
    pub store_path: FsPath,
}

/// How reading a file ended.
pub enum ReadOutcome<T> {
    Read(T),
    NotFound,
    /// The file is there and could not be read. `raw_path` is its path as the file system shows
    /// it, which the user sees where the directory is not UTF-8.
    Failed { raw_path: String, cause: String },
}

/// Why the flake could not be loaded.
pub enum LoadError {
    FlakeRoot { path: String, cause: String },
    FlakeLock { path: String, cause: String },
    Inputs { cause: String },
}

/// Why the flake could not be loaded, as a value.
pub enum LoadErrorView {
    FlakeRoot { path: Seq<char>, cause: Seq<char> },
    FlakeLock { path: Seq<char>, cause: Seq<char> },
    Inputs { cause: Seq<char> },
}

impl View for LoadError {
    type V = LoadErrorView;

    open spec fn view(&self) -> LoadErrorView {
        match self {
            LoadError::FlakeRoot { path, cause } => LoadErrorView::FlakeRoot {
                path: path@,
                cause: cause@,
            },
            LoadError::FlakeLock { path, cause } => LoadErrorView::FlakeLock {
                path: path@,
                cause: cause@,
            },
            LoadError::Inputs { cause } => LoadErrorView::Inputs { cause: cause@ },
        }
    }
}

impl LoadErrorView {
    /// The text of the error.
    pub open spec fn text(self) -> Seq<char> {
        match self {
            LoadErrorView::FlakeRoot { path, cause } => "Failed to read flake root "@ + path
                + ": "@ + cause,
            LoadErrorView::FlakeLock { path, cause } => "Failed to read flake lock "@ + path
                + ": "@ + cause,
            LoadErrorView::Inputs { cause } => "Failed to resolve flake inputs from lock file"@
                + ": "@ + cause,
        }
    }
}

impl LoadError {
    /// The text of the error.
    pub fn message(&self) -> (text: String)
        ensures
            text@ == self@.text(),
    {
        let (context, cause) = match self {
            LoadError::FlakeRoot { path, cause } => (
                "Failed to read flake root ".to_owned().concat(path.as_str()),
                cause,
            ),
            LoadError::FlakeLock { path, cause } => (
                "Failed to read flake lock ".to_owned().concat(path.as_str()),
                cause,
            ),
            LoadError::Inputs { cause } => (
                "Failed to resolve flake inputs from lock file".to_owned(),
                cause,
            ),
        };
        context.concat(": ").concat(cause.as_str())
    }
}

/// How far the flake is loaded, and what is to be done next. `config` is the configuration that
/// the load was started with.
pub enum InfoLoad {
    /// Read the root file.
    ReadFlake { config: Arc<Config>, file: FileIn },
    /// Look for the root file among the maintained files. On disk it has the content `src`.
    FindFile { config: Arc<Config>, file: FileIn, src: String },
    /// Maintain the root file, with the content `src`.
    CacheFile { config: Arc<Config>, file: FileIn, src: String },
    /// Read the lock file.
    ReadLock { config: Arc<Config>, file: FileIn, flake_file: FileId },
    /// Resolve the inputs that the lock file lists, by `nix_binary`.
    ResolveInputs { nix_binary: FsPath, flake_file: FileId, lock_src: Vec<u8> },
    /// There is no flake, it is loaded, or loading failed.
    Done(Result<Option<FlakeInfo>, LoadError>),
}

/// The answer to what a state of the load asks for.
pub enum InfoAnswer {
    /// What reading the root file gave.
    FlakeRead(ReadOutcome<String>),
    /// The root file among the maintained files, if it is there.
    FileLookedUp(Option<FileId>),
    /// The root file, which is maintained now.
    FileCached(FileId),
    /// What reading the lock file gave.
    LockRead(ReadOutcome<Vec<u8>>),
    /// What resolving the inputs gave.
    InputsResolved(Result<Vec<ResolvedInput>, String>),
}

/// How loading a flake ended, as a value.
pub type InfoResult = Result<Option<FlakeInfoView>, LoadErrorView>;

/// How far the flake is loaded, as a value.
#[verifier::ext_equal]
pub enum InfoView {
    ReadFlake { config: ConfigView, file: FileInView },
    FindFile { config: ConfigView, file: FileInView, src: Seq<char> },
    CacheFile { config: ConfigView, file: FileInView, src: Seq<char> },
    ReadLock { config: ConfigView, file: FileInView, flake_file: FileId },
    ResolveInputs { nix_binary: Seq<u8>, flake_file: FileId, lock_src: Seq<u8> },
    Done(InfoResult),
}

impl View for InfoLoad {
    type V = InfoView;

    open spec fn view(&self) -> InfoView {
        match self {
            InfoLoad::ReadFlake { config, file } => InfoView::ReadFlake {
                config: (**config)@,
                file: file@,
            },
            InfoLoad::FindFile { config, file, src } => InfoView::FindFile {
                config: (**config)@,
                file: file@,
                src: src@,
            },
            InfoLoad::CacheFile { config, file, src } => InfoView::CacheFile {
                config: (**config)@,
                file: file@,
                src: src@,
            },
            InfoLoad::ReadLock { config, file, flake_file } => InfoView::ReadLock {
                config: (**config)@,
                file: file@,
                flake_file: *flake_file,
            },
            InfoLoad::ResolveInputs { nix_binary, flake_file, lock_src } => {
                InfoView::ResolveInputs {
                    nix_binary: nix_binary@,
                    flake_file: *flake_file,
                    lock_src: lock_src@,
                }
            },
            InfoLoad::Done(result) => InfoView::Done(InfoView::result(*result)),
        }
    }
}

/// The store path of each input in a list. Of two inputs of the same name the later counts.
pub open spec fn store_paths(inputs: Seq<ResolvedInput>) -> Map<Seq<char>, Seq<u8>>
    decreases inputs.len(),
{
    if inputs.len() == 0 {
        Map::empty()
    } else {
        store_paths(inputs.drop_last()).insert(inputs.last().name@, inputs.last().store_path@)
    }
}

impl InfoView {
    /// A result as a value.
    pub open spec fn result(result: Result<Option<FlakeInfo>, LoadError>) -> InfoResult {
        match result {
            Ok(Some(info)) => Ok(Some(info@)),
            Ok(None) => Ok(None),
            Err(error) => Err(error@),
        }
    }

    /// Loading starts with the root file.
    pub open spec fn start(config: ConfigView) -> InfoView {
        InfoView::ReadFlake { config, file: FileInView::flake(config) }
    }

    /// The state in which the root file is maintained and the lock file is to be read.
    pub open spec fn read_lock(config: ConfigView, flake_file: FileId) -> InfoView {
        InfoView::ReadLock { config, file: FileInView::lock(config), flake_file }
    }

    /// Whether `answer` is an answer to what the state asks for.
    pub open spec fn asks_for(self, answer: InfoAnswer) -> bool {
        match self {
            InfoView::ReadFlake { .. } => answer is FlakeRead,
            InfoView::FindFile { .. } => answer is FileLookedUp,
            InfoView::CacheFile { .. } => answer is FileCached,
            InfoView::ReadLock { .. } => answer is LockRead,
            InfoView::ResolveInputs { .. } => answer is InputsResolved,
            InfoView::Done(_) => false,
        }
    }

    /// The state after reading the root file was tried. Without one there is no flake.
    pub open spec fn after_flake_read(
        config: ConfigView,
        file: FileInView,
        read: ReadOutcome<String>,
    ) -> InfoView {
        match read {
            ReadOutcome::Read(src) => InfoView::FindFile { config, file, src: src@ },
            ReadOutcome::NotFound => InfoView::Done(Ok(None)),
            ReadOutcome::Failed { raw_path, cause } => InfoView::Done(
                Err(LoadErrorView::FlakeRoot { path: file.shown(raw_path@), cause: cause@ }),
            ),
        }
    }

    /// The state after reading the lock file was tried. Without one the flake has no inputs.
    pub open spec fn after_lock_read(
        config: ConfigView,
        file: FileInView,
        flake_file: FileId,
        read: ReadOutcome<Vec<u8>>,
    ) -> InfoView {
        match read {
            ReadOutcome::Read(lock_src) => InfoView::ResolveInputs {
                nix_binary: config.nix_binary,
                flake_file,
                lock_src: lock_src@,
            },
            ReadOutcome::NotFound => InfoView::Done(
                Ok(Some(FlakeInfoView { flake_file, input_store_paths: Map::empty() })),
            ),
            ReadOutcome::Failed { raw_path, cause } => InfoView::Done(
                Err(LoadErrorView::FlakeLock { path: file.shown(raw_path@), cause: cause@ }),
            ),
        }
    }

    /// The state after resolving the inputs was tried.
    pub open spec fn after_resolve(
        flake_file: FileId,
        resolved: Result<Vec<ResolvedInput>, String>,
    ) -> InfoView {
        InfoView::Done(
            match resolved {
                Ok(inputs) => Ok(
                    Some(FlakeInfoView { flake_file, input_store_paths: store_paths(inputs@) }),
                ),
                Err(cause) => Err(LoadErrorView::Inputs { cause: cause@ }),
            },
        )
    }

    /// The state that an answer leads to. A root file that is maintained already is preferred to
    /// the one on disk. What was not asked for changes nothing.
    pub open spec fn after_answer(self, answer: InfoAnswer) -> InfoView {
        match (self, answer) {
            (
                InfoView::ReadFlake { config, file },
                InfoAnswer::FlakeRead(read),
            ) => InfoView::after_flake_read(config, file, read),
            (
                InfoView::FindFile { config, file, src },
                InfoAnswer::FileLookedUp(managed),
            ) => match managed {
                Some(flake_file) => InfoView::read_lock(config, flake_file),
                None => InfoView::CacheFile { config, file, src },
            },
            (
                InfoView::CacheFile { config, .. },
                InfoAnswer::FileCached(flake_file),
            ) => InfoView::read_lock(config, flake_file),
            (
                InfoView::ReadLock { config, file, flake_file },
                InfoAnswer::LockRead(read),
            ) => InfoView::after_lock_read(config, file, flake_file, read),
            (
                InfoView::ResolveInputs { flake_file, .. },
                InfoAnswer::InputsResolved(resolved),
            ) => InfoView::after_resolve(flake_file, resolved),
            _ => self,
        }
    }
}

impl InfoLoad {
    /// Starts to load the flake of a workspace.
    pub fn start(config: Arc<Config>) -> (load: InfoLoad)
        ensures
            load@ == InfoView::start((*config)@),
    {
        let file = FileIn::in_root(&config, FLAKE_FILE);
        InfoLoad::ReadFlake { config, file }
    }

    /// Whether `answer` is an answer to what the state asks for.
    pub fn asks_for(&self, answer: &InfoAnswer) -> (asks: bool)
        ensures
            asks == self@.asks_for(*answer),
    {
        match (self, answer) {
            (InfoLoad::ReadFlake { .. }, InfoAnswer::FlakeRead(_)) => true,
            (InfoLoad::FindFile { .. }, InfoAnswer::FileLookedUp(_)) => true,
            (InfoLoad::CacheFile { .. }, InfoAnswer::FileCached(_)) => true,
            (InfoLoad::ReadLock { .. }, InfoAnswer::LockRead(_)) => true,
            (InfoLoad::ResolveInputs { .. }, InfoAnswer::InputsResolved(_)) => true,
            _ => false,
        }
    }

    /// Goes on with the answer to what the state asks for.
    pub fn advance(self, answer: InfoAnswer) -> (next: InfoLoad)
        requires
            self@.asks_for(answer),
        ensures
            next@ == self@.after_answer(answer),
    {
        match (self, answer) {
            (InfoLoad::ReadFlake { config, file }, InfoAnswer::FlakeRead(read)) => match read {
                ReadOutcome::Read(src) => InfoLoad::FindFile { config, file, src },
                // Not a flake.
                ReadOutcome::NotFound => InfoLoad::Done(Ok(None)),
                ReadOutcome::Failed { raw_path, cause } => InfoLoad::Done(
                    Err(LoadError::FlakeRoot { path: file.shown(raw_path), cause }),
                ),
            },
            (InfoLoad::FindFile { config, file, src }, InfoAnswer::FileLookedUp(managed)) => {
                match managed {
                    // If the file is already opened (transferred from client),
                    // prefer the managed one. It contains more recent unsaved changes.
                    Some(flake_file) => InfoLoad::read_lock(config, flake_file),
                    None => InfoLoad::CacheFile { config, file, src },
                }
            },
            (InfoLoad::CacheFile { config, .. }, InfoAnswer::FileCached(flake_file)) => {
                InfoLoad::read_lock(config, flake_file)
            },
            (InfoLoad::ReadLock { config, file, flake_file }, InfoAnswer::LockRead(read)) => {
                InfoLoad::lock_read(config, file, flake_file, read)
            },
            (
                InfoLoad::ResolveInputs { flake_file, .. },
                InfoAnswer::InputsResolved(resolved),
            ) => InfoLoad::inputs_resolved(flake_file, resolved),
            (load, _) => load,
        }
    }

    fn read_lock(config: Arc<Config>, flake_file: FileId) -> (load: InfoLoad)
        ensures
            load@ == InfoView::read_lock((*config)@, flake_file),
    {
        let file = FileIn::in_root(&config, FLAKE_LOCK_FILE);
        InfoLoad::ReadLock { config, file, flake_file }
    }

    fn lock_read(
        config: Arc<Config>,
        file: FileIn,
        flake_file: FileId,
        read: ReadOutcome<Vec<u8>>,
    ) -> (load: InfoLoad)
        ensures
            load@ == InfoView::after_lock_read((*config)@, file@, flake_file, read),
    {
        match read {
            ReadOutcome::Read(lock_src) => InfoLoad::ResolveInputs {
                nix_binary: config.nix_binary.clone(),
                flake_file,
                lock_src,
            },
            // Flake without inputs has no lock file.
            ReadOutcome::NotFound => {
                let info = FlakeInfo { flake_file, input_store_paths: StringMap::new() };
                assert(info@.input_store_paths =~= Map::empty());
                InfoLoad::Done(Ok(Some(info)))
            },
            ReadOutcome::Failed { raw_path, cause } => InfoLoad::Done(
                Err(LoadError::FlakeLock { path: file.shown(raw_path), cause }),
            ),
        }
    }

    fn inputs_resolved(
        flake_file: FileId,
        resolved: Result<Vec<ResolvedInput>, String>,
    ) -> (load: InfoLoad)
        ensures
            load@ == InfoView::after_resolve(flake_file, resolved),
    {
        match resolved {
            Ok(inputs) => {
                // We only need the map for input -> store path.
                let mut paths: StringMap<FsPath> = StringMap::new();
                let mut i: usize = 0;
                assert(paths@.map_values(|path: FsPath| path@) =~= store_paths(inputs@.take(0)));
                while i < inputs.len()
                    invariant
                        i <= inputs@.len(),
                        paths@.map_values(|path: FsPath| path@) == store_paths(
                            inputs@.take(i as int),
                        ),
                    decreases inputs@.len() - i,
                {
                    paths.insert(inputs[i].name.clone(), inputs[i].store_path.clone());
                    proof {
                        let next = inputs@.take(i + 1);
                        assert(next.drop_last() =~= inputs@.take(i as int));
                        assert(next.last() == inputs@[i as int]);
                        assert(paths@.map_values(|path: FsPath| path@) =~= store_paths(next));
                    }
                    i = i + 1;
                }
                assert(inputs@.take(inputs@.len() as int) =~= inputs@);
                InfoLoad::Done(Ok(Some(FlakeInfo { flake_file, input_store_paths: paths })))
            },
            Err(cause) => InfoLoad::Done(Err(LoadError::Inputs { cause })),
        }
    }
}

} // verus!
