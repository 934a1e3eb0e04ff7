//! The language server: which files are opened, which diagnostics are calculated and published,
//! and when the workspace is loaded.

use crate::config::Config;
use crate::diagnostics::{
    ActionView, ChangeView, DiagnosticsAction, DiagnosticsTask, Event, FileChange, FileData,
    PublishDiagnostics, PublishView, StateSnapshot, TaskView,
};
use crate::protocol::{
    failed_settings, MessageType, MessageView, ServerInfo, ShowMessage, LSP_SERVER_NAME,
};
use crate::state::{EditOutcome, EditedView, ServerView};
use crate::string_map::StringMap;
use std::sync::Arc;
use vstd::prelude::*;

verus! {

/// The state of the language server. `F` is the handle of a task that loads the workspace.
pub struct Server<F> {
    opened_files: StringMap<FileData>,
    config: Arc<Config>,
    /// Monotonic version counter for diagnostics calculation ordering.
    version_counter: u64,
    /// Tried to load flake?
    /// This is used to reload flake only once after the configuration is first loaded.
    tried_flake_load: bool,
    /// The task that loads the workspace.
    load_flake_workspace_fut: Option<F>,
    /// Files longer than this, in bytes, are not opened.
    max_file_len: usize,
}

/// What is to be done with a document that the client opens.
pub enum OpenDecision {
    /// Ignore it, and tell the user why.
    Refuse(ShowMessage),
    /// Take over its content.
    Load,
}

/// What came of the content changes of one notification, and the files that changed.
pub struct Edited {
    pub edits: Vec<EditOutcome>,
    pub changes: Vec<FileChange>,
}

impl View for Edited {
    type V = EditedView;

    open spec fn view(&self) -> EditedView {
        EditedView {
            edits: self.edits@,
            changes: ChangeView::list(self.changes@),
        }
    }
}

/// What is to be done after the configuration changed, in this order.
pub struct ConfigReaction {
    /// Show which settings were not applied.
    pub message: Option<ShowMessage>,
    /// Calculate diagnostics.
    pub updates: Vec<DiagnosticsTask>,
    /// Load the workspace, by this configuration.
    pub load_flake_workspace: Option<Arc<Config>>,
}

impl<F> View for Server<F> {
    type V = ServerView<F>;

    closed spec fn view(&self) -> ServerView<F> {
        ServerView {
            opened: self.opened_files@.map_values(|data: FileData| data@),
            config: (*self.config)@,
            version_counter: self.version_counter as nat,
            tried_flake_load: self.tried_flake_load,
            load_flake_workspace_fut: self.load_flake_workspace_fut,
            max_file_len: self.max_file_len,
        }
    }
}

impl<F> Server<F> {
    /// A server without opened files. `config` stands in until the client has named the
    /// workspace.
    pub fn new(config: Config, max_file_len: usize) -> (server: Self)
        ensures
            server@ == (ServerView::<F> {
                opened: Map::empty(),
                config: config@,
                version_counter: 0,
                tried_flake_load: false,
                load_flake_workspace_fut: None,
                max_file_len,
            }),
    {
        let server = Server {
            opened_files: StringMap::new(),
            config: Arc::new(config),
            version_counter: 0,
            tried_flake_load: false,
            load_flake_workspace_fut: None,
            max_file_len,
        };
        assert(server@.opened =~= Map::empty());
        server
    }

    /// The version of the latest diagnostics that were asked for.
    pub fn version_counter(&self) -> (version: u64)
        ensures
            version == self@.version_counter,
    {
        self.version_counter
    }

    /// Takes over the configuration of the workspace that the client named, and answers who the
    /// server is.
    pub fn on_initialize(&mut self, config: Config, release: Option<String>) -> (info: ServerInfo)
        ensures
            final(self)@ == (ServerView { config: config@, ..old(self)@ }),
            info.name@ == LSP_SERVER_NAME@,
            info.version == release,
    {
        self.config = Arc::new(config);
        ServerInfo { name: LSP_SERVER_NAME.to_owned(), version: release }
    }

    /// Decides whether to open a document with the content `text`. Too long ones are ignored,
    /// thus all following interactions fail due to unopened files.
    pub fn on_did_open(&self, text: &String) -> (decision: OpenDecision)
        ensures
            match decision {
                OpenDecision::Refuse(message) => {
                    &&& vstd::utf8::encode_utf8(text@).len() > self@.max_file_len
                    &&& message@ == (MessageView {
                        typ: MessageType::Warning,
                        text: TOO_LARGE@,
                    })
                },
                OpenDecision::Load => vstd::utf8::encode_utf8(text@).len() <= self@.max_file_len,
            },
    {
        if text.as_str().as_bytes().len() > self.max_file_len {
            OpenDecision::Refuse(
                ShowMessage { typ: MessageType::Warning, message: TOO_LARGE.to_owned() },
            )
        } else {
            OpenDecision::Load
        }
    }

    /// Counts `uri` as opened, after its content was taken over and `changes` are the files that
    /// changed thereby.
    pub fn finish_open(&mut self, uri: String, changes: &Vec<FileChange>) -> (actions: Vec<
        DiagnosticsAction,
    >)
        requires
            old(self)@.version_counter < u64::MAX,
        ensures
            final(self)@ == old(self)@.after_open(uri@),
            ActionView::list(actions@) == old(self)@.change_actions(ChangeView::list(changes@)),
    {
        let actions = self.apply_vfs_change(changes);
        self.opened_files.insert(uri, FileData::default());
        assert(self@.opened =~= old(self)@.after_open(uri@).opened);
        actions
    }

    /// Forgets an opened file. Its content stays.
    pub fn on_did_close(&mut self, uri: &String)
        ensures
            final(self)@ == old(self)@.after_close(uri@),
    {
        self.opened_files.remove(uri);
        assert(self@.opened =~= old(self)@.after_close(uri@).opened);
    }

    /// Handles the content changes of `uri`. `edited` says what came of them; it is `None` where
    /// the file is not maintained, and nothing happens then.
    pub fn on_did_change(&mut self, uri: &String, edited: Option<Edited>) -> (actions: Vec<
        DiagnosticsAction,
    >)
        requires
            edited is Some ==> old(self)@.version_counter < u64::MAX,
        ensures
            match edited {
                None => final(self)@ == old(self)@ && actions@.len() == 0,
                Some(edited) => {
                    let cleared = old(self)@.after_edits(uri@, edited@);
                    &&& final(self)@ == cleared.with_next_version()
                    &&& ActionView::list(actions@) == cleared.change_actions(edited@.changes)
                    &&& final(self)@.opened == if forall|i: int|
                        0 <= i < edited.edits@.len() ==> #[trigger] edited.edits@[i]
                            == EditOutcome::Applied {
                        old(self)@.opened
                    } else {
                        old(self)@.opened.remove(uri@)
                    }
                },
            },
    {
        let edited = match edited {
            Some(edited) => edited,
            None => {
                return Vec::new();
            },
        };
        let mut i: usize = 0;
        while i < edited.edits.len()
            invariant
                i <= edited.edits@.len(),
                self@ == if forall|j: int|
                    0 <= j < i ==> #[trigger] edited.edits@[j] == EditOutcome::Applied {
                    old(self)@
                } else {
                    old(self)@.after_close(uri@)
                },
            decreases edited.edits@.len() - i,
        {
            if edited.edits[i] != EditOutcome::Applied {
                // Clear file states to minimize pollution of the broken state.
                self.on_did_close(uri);
                assert(old(self)@.after_close(uri@).after_close(uri@) =~= old(self)@.after_close(
                    uri@,
                ));
            }
            i = i + 1;
        }
        self.apply_vfs_change(&edited.changes)
    }

    /// Stores calculated diagnostics and says what to publish. Diagnostics that are not newer
    /// than the stored ones, or of a file that is not opened, are ignored.
    pub fn on_event(&mut self, event: Event) -> (publish: Option<PublishDiagnostics>)
        ensures
            final(self)@ == old(self)@.after_event(event@),
            PublishView::option(publish) == old(self)@.published(event@),
    {
        match event {
            Event::Diagnostics { uri, version, diagnostics } => {
                let newer = match self.opened_files.get(&uri) {
                    Some(data) => data.diagnostics_version < version,
                    None => false,
                };
                if !newer {
                    return None;
                }
                let stored = diagnostics.clone();
                assert(stored@ =~= diagnostics@) by {
                    assert(forall|i: int|
                        0 <= i < diagnostics@.len() ==> cloned(diagnostics@[i], stored@[i]));
                }
                self.opened_files.insert(
                    uri.clone(),
                    FileData { diagnostics_version: version, diagnostics: stored },
                );
                assert(self@.opened =~= old(self)@.after_event(event@).opened);
                Some(PublishDiagnostics { uri, diagnostics })
            },
        }
    }

    /// Registers the task that loads the workspace, and hands back the one that it replaces,
    /// which is to be aborted.
    pub fn spawn_load_flake_workspace(&mut self, fut: F) -> (replaced: Option<F>)
        ensures
            final(self)@ == (ServerView { load_flake_workspace_fut: Some(fut), ..old(self)@ }),
            replaced == old(self)@.load_flake_workspace_fut,
    {
        let replaced = self.load_flake_workspace_fut.take();
        self.load_flake_workspace_fut = Some(fut);
        replaced
    }

    /// Takes over a changed configuration. `errors` are the settings that could not be applied;
    /// `updated_diagnostics` says whether diagnostics may be different now.
    pub fn on_update_config(
        &mut self,
        config: Config,
        errors: &Vec<String>,
        updated_diagnostics: bool,
    ) -> (reaction: ConfigReaction)
        requires
            updated_diagnostics ==> old(self)@.version_counter < u64::MAX,
        ensures
            final(self)@ == old(self)@.after_update_config(config@, updated_diagnostics),
            match reaction.message {
                Some(message) => errors@.len() > 0 && message@ == MessageView::failed_settings(
                    crate::config::texts(errors@),
                ),
                None => errors@.len() == 0,
            },
            if updated_diagnostics {
                final(self)@.refreshed_by(TaskView::list(reaction.updates@))
            } else {
                reaction.updates@.len() == 0
            },
            match reaction.load_flake_workspace {
                Some(by) => old(self)@.loads_workspace() && (*by)@ == config@,
                None => !old(self)@.loads_workspace(),
            },
    {
        self.config = Arc::new(config);

        let message = if errors.len() > 0 {
            Some(failed_settings(errors))
        } else {
            None
        };

        // Refresh all diagnostics since the filter may be changed.
        let updates = if updated_diagnostics {
            let version = self.next_version();
            self.refresh_diagnostics(version)
        } else {
            Vec::new()
        };

        // If this is the first load, load the flake workspace, which depends on `nix.binary`.
        let load_flake_workspace = if !self.tried_flake_load {
            self.tried_flake_load = true;
            Some(Arc::clone(&self.config))
        } else {
            None
        };

        ConfigReaction { message, updates, load_flake_workspace }
    }

    /// The calculation of the diagnostics of every opened file.
    fn refresh_diagnostics(&self, version: u64) -> (tasks: Vec<DiagnosticsTask>)
        requires
            version == self@.version_counter,
        ensures
            self@.refreshed_by(TaskView::list(tasks@)),
    {
        let keys = self.opened_files.keys();
        let ghost uris = keys@.map_values(|key: String| key@);
        let mut tasks: Vec<DiagnosticsTask> = Vec::new();
        let mut i: usize = 0;
        while i < keys.len()
            invariant
                i <= keys@.len(),
                tasks@.len() == i,
                forall|j: int|
                    0 <= j < i ==> (#[trigger] tasks@[j])@ == self@.diagnostics_task(
                        keys@[j]@,
                        version as nat,
                    ),
            decreases keys@.len() - i,
        {
            tasks.push(self.update_diagnostics(keys[i].clone(), version));
            i = i + 1;
        }
        proof {
            let views = TaskView::list(tasks@);
            assert forall|j: int, k: int| 0 <= j < views.len() && 0 <= k < views.len() && j
                != k implies views[j] != views[k] by {
                assert(views[j].uri == uris[j] && views[k].uri == uris[k]);
            }
            assert forall|task: TaskView| #[trigger]
                views.contains(task) <==> self@.is_open(task.uri) && task
                    == self@.diagnostics_task(task.uri, self@.version_counter) by {
                if views.contains(task) {
                    let j = choose|j: int| 0 <= j < views.len() && views[j] == task;
                    assert(uris[j] == task.uri);
                    assert(uris.contains(task.uri));
                    assert(self.opened_files@.contains_key(task.uri));
                }
                if self@.is_open(task.uri) && task == self@.diagnostics_task(
                    task.uri,
                    self@.version_counter,
                ) {
                    assert(self.opened_files@.contains_key(task.uri));
                    let j = choose|j: int| 0 <= j < uris.len() && uris[j] == task.uri;
                    assert(views[j] == task);
                }
            }
        }
        tasks
    }

    /// The calculation of the diagnostics of `uri`.
    pub fn update_diagnostics(&self, uri: String, version: u64) -> (task: DiagnosticsTask)
        ensures
            task@ == self@.diagnostics_task(uri@, version as nat),
    {
        DiagnosticsTask { uri, version, snapshot: self.snapshot() }
    }

    /// The next version of diagnostics.
    pub fn next_version(&mut self) -> (version: u64)
        requires
            old(self)@.version_counter < u64::MAX,
        ensures
            final(self)@ == old(self)@.with_next_version(),
            version == final(self)@.version_counter,
    {
        self.version_counter = self.version_counter + 1;
        self.version_counter
    }

    /// The state for a task that runs beside the server.
    pub fn snapshot(&self) -> (snapshot: StateSnapshot)
        ensures
            (*snapshot.config)@ == self@.config,
    {
        StateSnapshot { config: Arc::clone(&self.config) }
    }

    /// Says what to do about the diagnostics of the files that changed.
    pub fn apply_vfs_change(&mut self, changes: &Vec<FileChange>) -> (actions: Vec<
        DiagnosticsAction,
    >)
        requires
            old(self)@.version_counter < u64::MAX,
        ensures
            final(self)@ == old(self)@.with_next_version(),
            ActionView::list(actions@) == old(self)@.change_actions(ChangeView::list(changes@)),
    {
        let version = self.next_version();
        let mut actions: Vec<DiagnosticsAction> = Vec::new();
        let ghost views = ChangeView::list(changes@);
        let ghost action_of = |change: ChangeView| old(self)@.change_action(change);
        let mut i: usize = 0;
        assert(views.take(0).filter_map(action_of) =~= Seq::empty());
        while i < changes.len()
            invariant
                self@ == old(self)@.with_next_version(),
                version == self@.version_counter,
                views == ChangeView::list(changes@),
                action_of == |change: ChangeView|
                    old(self)@.change_action(change),
                i <= changes@.len(),
                ActionView::list(actions@) == views.take(i as int).filter_map(action_of),
            decreases changes@.len() - i,
        {
            let ghost done = actions@;
            let change = &changes[i];
            if self.opened_files.contains_key(&change.uri) {
                let action = if change.len > 0 {
                    DiagnosticsAction::Update(self.update_diagnostics(change.uri.clone(), version))
                } else {
                    // Clear diagnostics.
                    DiagnosticsAction::Emit(
                        Event::Diagnostics {
                            uri: change.uri.clone(),
                            version,
                            diagnostics: Vec::new(),
                        },
                    )
                };
                actions.push(action);
            }
            proof {
                let next = views.take(i + 1);
                assert(next.drop_last() =~= views.take(i as int));
                assert(next.last() == change@);
                assert(self@.is_open(change@.uri) == self.opened_files@.contains_key(change@.uri));
                match action_of(change@) {
                    Some(action) => {
                        assert(actions@.last()@ == action);
                        assert(ActionView::list(actions@) =~= ActionView::list(done)
                            + seq![action]);
                    },
                    None => {},
                }
            }
            i = i + 1;
        }
        assert(views.take(changes@.len() as int) =~= views);
        actions
    }
}

/// What the user is told of a document that is too long. The text is shown as it stands, braces
/// included.
pub const TOO_LARGE: &'static str =
    "Disable LSP functionalities for too large file ({len} > {MAX_FILE_LEN})";

} // verus!
