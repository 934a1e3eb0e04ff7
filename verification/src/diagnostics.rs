//! Diagnostics of opened files: what is stored of a file, and how its diagnostics are calculated
//! and published.

use crate::config::{Config, ConfigView};
use lsp_types::Diagnostic;
use std::sync::Arc;
use vstd::prelude::*;

verus! {

/// What the server keeps of an opened file.
pub struct FileData {
    /// The version of the latest diagnostics that were published.
    pub diagnostics_version: u64,
    /// The latest diagnostics that were published.
    pub diagnostics: Vec<Diagnostic>,
}

/// The state of an opened file as a value.
pub struct FileView {
    pub version: nat,
    pub diagnostics: Seq<Diagnostic>,
}

impl View for FileData {
    type V = FileView;

    open spec fn view(&self) -> FileView {
        FileView { version: self.diagnostics_version as nat, diagnostics: self.diagnostics@ }
    }
}

impl FileView {
    /// The state of a file that was just opened.
    pub open spec fn initial() -> FileView {
        FileView { version: 0, diagnostics: Seq::empty() }
    }
}

impl Default for FileData {
    fn default() -> (data: Self)
        ensures
            data@ == FileView::initial(),
    {
        FileData { diagnostics_version: 0, diagnostics: Vec::new() }
    }
}

/// A file whose content changed.
pub struct FileChange {
    pub uri: String,
    /// The length of the new content in bytes. Removed and closed files have the length 0, as
    /// empty files have.
    pub len: usize,
}

/// A changed file as a value.
pub struct ChangeView {
    pub uri: Seq<char>,
    pub len: nat,
}

impl View for FileChange {
    type V = ChangeView;

    open spec fn view(&self) -> ChangeView {
        ChangeView { uri: self.uri@, len: self.len as nat }
    }
}

impl ChangeView {
    /// The changes of a list as values.
    pub open spec fn list(changes: Seq<FileChange>) -> Seq<ChangeView> {
        changes.map_values(|change: FileChange| change@)
    }
}

/// What the server sends to itself.
pub enum Event {
    /// The diagnostics of a file have been calculated.
    Diagnostics { uri: String, version: u64, diagnostics: Vec<Diagnostic> },
}

/// Calculated diagnostics as a value.
pub struct EventView {
    pub uri: Seq<char>,
    pub version: nat,
    pub diagnostics: Seq<Diagnostic>,
}

impl View for Event {
    type V = EventView;

    open spec fn view(&self) -> EventView {
        match self {
            Event::Diagnostics { uri, version, diagnostics } => EventView {
                uri: uri@,
                version: *version as nat,
                diagnostics: diagnostics@,
            },
        }
    }
}

/// Diagnostics to publish to the client, without a document version.
pub struct PublishDiagnostics {
    pub uri: String,
    pub diagnostics: Vec<Diagnostic>,
}

/// Published diagnostics as a value.
pub struct PublishView {
    pub uri: Seq<char>,
    pub diagnostics: Seq<Diagnostic>,
}

impl View for PublishDiagnostics {
    type V = PublishView;

    open spec fn view(&self) -> PublishView {
        PublishView { uri: self.uri@, diagnostics: self.diagnostics@ }
    }
}

impl PublishView {
    /// The published diagnostics, where there are any, as a value.
    pub open spec fn option(publish: Option<PublishDiagnostics>) -> Option<PublishView> {
        match publish {
            Some(publish) => Some(publish@),
            None => None,
        }
    }
}

/// The state that a task running beside the server works on.
pub struct StateSnapshot {
    pub config: Arc<Config>,
}

/// The calculation of the diagnostics of one file.
pub struct DiagnosticsTask {
    pub uri: String,
    pub version: u64,
    pub snapshot: StateSnapshot,
}

/// A calculation of diagnostics as a value.
pub struct TaskView {
    pub uri: Seq<char>,
    pub version: nat,
    pub config: ConfigView,
}

impl View for DiagnosticsTask {
    type V = TaskView;

    open spec fn view(&self) -> TaskView {
        TaskView {
            uri: self.uri@,
            version: self.version as nat,
            config: (*self.snapshot.config)@,
        }
    }
}

impl TaskView {
    /// The tasks of a list as values.
    pub open spec fn list(tasks: Seq<DiagnosticsTask>) -> Seq<TaskView> {
        tasks.map_values(|task: DiagnosticsTask| task@)
    }

    /// The event in which the task ends, where the analysis gave `computed`, or failed.
    pub open spec fn event(self, computed: Option<Seq<Diagnostic>>) -> EventView {
        EventView {
            uri: self.uri,
            version: self.version,
            diagnostics: if self.config.excludes(self.uri) {
                Seq::empty()
            } else {
                match computed {
                    Some(diagnostics) => diagnostics,
                    None => Seq::empty(),
                }
            },
        }
    }
}

impl DiagnosticsTask {
    /// Whether the file is excluded from diagnostics, so that nothing has to be calculated.
    pub fn is_excluded(&self) -> (excluded: bool)
        ensures
            excluded == self@.config.excludes(self@.uri),
    {
        self.snapshot.config.excludes(&self.uri)
    }

    /// Ends the task with the diagnostics that were calculated, or `None` where the calculation
    /// failed or was not tried. A file that is excluded, or whose calculation failed, has no
    /// diagnostics.
    pub fn finish(self, computed: Option<Vec<Diagnostic>>) -> (event: Event)
        ensures
            event@ == self@.event(
                match computed {
                    Some(diagnostics) => Some(diagnostics@),
                    None => None,
                },
            ),
    {
        let excluded = self.is_excluded();
        let diagnostics = match computed {
            Some(diagnostics) if !excluded => diagnostics,
            _ => Vec::new(),
        };
        Event::Diagnostics { uri: self.uri, version: self.version, diagnostics }
    }
}

/// What is to be done about the diagnostics of one changed file.
pub enum DiagnosticsAction {
    /// Calculate them.
    Update(DiagnosticsTask),
    /// Send an event with the diagnostics that are known already.
    Emit(Event),
}

/// An action as a value.
pub enum ActionView {
    Update(TaskView),
    Emit(EventView),
}

impl View for DiagnosticsAction {
    type V = ActionView;

    open spec fn view(&self) -> ActionView {
        match self {
            DiagnosticsAction::Update(task) => ActionView::Update(task@),
            DiagnosticsAction::Emit(event) => ActionView::Emit(event@),
        }
    }
}

impl ActionView {
    /// The actions of a list as values.
    pub open spec fn list(actions: Seq<DiagnosticsAction>) -> Seq<ActionView> {
        actions.map_values(|action: DiagnosticsAction| action@)
    }

    /// The file that the action is about.
    pub open spec fn uri(self) -> Seq<char> {
        match self {
            ActionView::Update(task) => task.uri,
            ActionView::Emit(event) => event.uri,
        }
    }

    /// The version that the resulting diagnostics carry.
    pub open spec fn version(self) -> nat {
        match self {
            ActionView::Update(task) => task.version,
            ActionView::Emit(event) => event.version,
        }
    }

    /// The event in which the action ends, where a calculation gives `computed`, or fails.
    pub open spec fn event(self, computed: Option<Seq<Diagnostic>>) -> EventView {
        match self {
            ActionView::Update(task) => task.event(computed),
            ActionView::Emit(event) => event,
        }
    }
}

/// A task ends in an event for its file and version. Where the configuration of the task does not
/// list the file among the excluded ones, the event has exactly the diagnostics that the analysis
/// gave, in their order. For an excluded file or a failed analysis it has none.
pub proof fn law_calculated_diagnostics_are_kept(
    task: DiagnosticsTask,
    computed: Option<Vec<Diagnostic>>,
    event: Event,
)
    requires
        call_ensures(DiagnosticsTask::finish, (task, computed), event),
    ensures
        event matches Event::Diagnostics { uri, version, diagnostics } && {
            let excluded = task.snapshot.config.diagnostics_excluded_files@;
            &&& uri@ == task.uri@
            &&& version == task.version
            &&& (forall|i: int|
                0 <= i < excluded.len() ==> (#[trigger] excluded[i])@ != task.uri@)
                && computed is Some ==> diagnostics@ == computed->0@
            &&& computed is None ==> diagnostics@.len() == 0
            &&& forall|i: int|
                0 <= i < excluded.len() && (#[trigger] excluded[i])@ == task.uri@
                    ==> diagnostics@.len() == 0
        },
{
    let excluded = task.snapshot.config.diagnostics_excluded_files@;
    let files = task@.config.diagnostics_excluded_files;
    assert forall|i: int| 0 <= i < excluded.len() && (#[trigger] excluded[i])@
        == task.uri@ implies task@.config.excludes(task@.uri) by {
        assert(files[i] == excluded[i]@);
    }
    if task@.config.excludes(task@.uri) {
        let i = choose|i: int| 0 <= i < files.len() && files[i] == task@.uri;
        assert(excluded[i]@ == task.uri@);
    }
}

/// A task is excluded just where the configuration of the task lists its file.
pub proof fn law_listed_files_are_excluded(task: DiagnosticsTask, is_excluded: bool)
    requires
        call_ensures(DiagnosticsTask::is_excluded, (&task,), is_excluded),
    ensures
        is_excluded <==> exists|i: int|
            0 <= i < task.snapshot.config.diagnostics_excluded_files@.len() && (
            #[trigger] task.snapshot.config.diagnostics_excluded_files@[i])@ == task.uri@,
{
    let excluded = task.snapshot.config.diagnostics_excluded_files@;
    let files = task@.config.diagnostics_excluded_files;
    assert forall|i: int| 0 <= i < excluded.len() && (#[trigger] excluded[i])@
        == task.uri@ implies task@.config.excludes(task@.uri) by {
        assert(files[i] == excluded[i]@);
    }
    if task@.config.excludes(task@.uri) {
        let i = choose|i: int| 0 <= i < files.len() && files[i] == task@.uri;
        assert(excluded[i]@ == task.uri@);
    }
}

} // verus!
