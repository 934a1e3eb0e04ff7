//! The state of the server as a value, and how each message changes it.

use crate::config::ConfigView;
use crate::diagnostics::{
    ActionView, ChangeView, EventView, FileView, PublishView, TaskView,
};
use vstd::prelude::*;

verus! {

/// How one content change of a document ended.
#[derive(Clone, Copy, Debug, PartialEq, Eq, Structural)]
pub enum EditOutcome {
    /// The content was changed.
    Applied,
    /// The range to replace is no range of the file.
    InvalidRange,
    /// The change itself was refused.
    Rejected,
}

/// What came of the content changes of one notification.
pub struct EditedView {
    pub edits: Seq<EditOutcome>,
    pub changes: Seq<ChangeView>,
}

impl EditedView {
    /// Every content change was applied, so that the server has the same content as the client.
    pub open spec fn in_sync(self) -> bool {
        forall|i: int|
            0 <= i < self.edits.len() ==> #[trigger] self.edits[i] == EditOutcome::Applied
    }
}

/// The state of the server.
#[verifier::ext_equal]
pub struct ServerView<F> {
    pub opened: Map<Seq<char>, FileView>,
    pub config: ConfigView,
    pub version_counter: nat,
    pub tried_flake_load: bool,
    pub load_flake_workspace_fut: Option<F>,
    pub max_file_len: usize,
}

impl<F> ServerView<F> {
    pub open spec fn is_open(self, uri: Seq<char>) -> bool {
        self.opened.contains_key(uri)
    }

    /// The state with the next version of diagnostics.
    pub open spec fn with_next_version(self) -> Self {
        ServerView { version_counter: self.version_counter + 1, ..self }
    }

    /// The calculation of the diagnostics of `uri`, by the current configuration.
    pub open spec fn diagnostics_task(self, uri: Seq<char>, version: nat) -> TaskView {
        TaskView { uri, version, config: self.config }
    }

    /// What is done about the diagnostics of a changed file: they are calculated anew, or cleared
    /// where the file is empty. Nothing is done for a file that is not opened.
    pub open spec fn change_action(self, change: ChangeView) -> Option<ActionView> {
        let version = self.version_counter + 1;
        if !self.is_open(change.uri) {
            None
        } else if change.len > 0 {
            Some(ActionView::Update(self.diagnostics_task(change.uri, version)))
        } else {
            Some(
                ActionView::Emit(
                    EventView { uri: change.uri, version, diagnostics: Seq::empty() },
                ),
            )
        }
    }

    /// What is done about the diagnostics of the changed files, in their order. All of it is
    /// for the next version.
    pub open spec fn change_actions(self, changes: Seq<ChangeView>) -> Seq<ActionView> {
        changes.filter_map(|change: ChangeView| self.change_action(change))
    }

    /// The state after `uri` was opened. The content is in place, and so a version was taken for
    /// it, before the file counts as opened.
    pub open spec fn after_open(self, uri: Seq<char>) -> Self {
        ServerView {
            opened: self.opened.insert(uri, FileView::initial()),
            ..self.with_next_version()
        }
    }

    /// The state after `uri` was closed.
    pub open spec fn after_close(self, uri: Seq<char>) -> Self {
        ServerView { opened: self.opened.remove(uri), ..self }
    }

    /// The state in which a file whose content may be out of sync no longer counts as opened.
    pub open spec fn after_edits(self, uri: Seq<char>, edited: EditedView) -> Self {
        if edited.in_sync() {
            self
        } else {
            self.after_close(uri)
        }
    }

    /// Whether calculated diagnostics are newer than what is stored of an opened file.
    pub open spec fn accepts(self, event: EventView) -> bool {
        self.is_open(event.uri) && self.opened[event.uri].version < event.version
    }

    /// The state after calculated diagnostics arrived.
    pub open spec fn after_event(self, event: EventView) -> Self {
        if self.accepts(event) {
            ServerView {
                opened: self.opened.insert(
                    event.uri,
                    FileView { version: event.version, diagnostics: event.diagnostics },
                ),
                ..self
            }
        } else {
            self
        }
    }

    /// What is published when calculated diagnostics arrive.
    pub open spec fn published(self, event: EventView) -> Option<PublishView> {
        if self.accepts(event) {
            Some(PublishView { uri: event.uri, diagnostics: event.diagnostics })
        } else {
            None
        }
    }

    /// Whether a configuration that comes now makes the server load the workspace.
    pub open spec fn loads_workspace(self) -> bool {
        !self.tried_flake_load
    }

    /// The state after a configuration was set for which diagnostics have to be calculated anew
    /// or not.
    pub open spec fn after_update_config(
        self,
        config: ConfigView,
        updated_diagnostics: bool,
    ) -> Self {
        ServerView {
            config,
            version_counter: if updated_diagnostics {
                self.version_counter + 1
            } else {
                self.version_counter
            },
            tried_flake_load: true,
            ..self
        }
    }

    /// `tasks` calculates the diagnostics of every opened file once, for the current version and
    /// configuration, and of no other file. The order is left open.
    pub open spec fn refreshed_by(self, tasks: Seq<TaskView>) -> bool {
        &&& tasks.no_duplicates()
        &&& forall|task: TaskView| #[trigger]
            tasks.contains(task) <==> self.is_open(task.uri) && task == self.diagnostics_task(
                task.uri,
                self.version_counter,
            )
    }
}

} // verus!
