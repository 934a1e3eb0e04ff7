//! What holds of the server over any history of messages.

use crate::config::{Config, ConfigView};
use crate::diagnostics::{
    ActionView, ChangeView, DiagnosticsAction, DiagnosticsTask, Event, EventView, FileChange,
    FileData, FileView, PublishDiagnostics, StateSnapshot, TaskView,
};
use crate::protocol::{MessageType, ServerInfo, ShowMessage};
use crate::server::{ConfigReaction, Edited, OpenDecision, Server};
use crate::state::{EditOutcome, EditedView, ServerView};
use lsp_types::Diagnostic;
use vstd::prelude::*;

verus! {

/// A message that the server handles.
pub enum Message<F> {
    Initialize { config: ConfigView },
    /// A document was opened and its content taken over.
    Open { uri: Seq<char> },
    Close { uri: Seq<char> },
    Change { uri: Seq<char>, edited: Option<EditedView> },
    Event(EventView),
    UpdateConfig { config: ConfigView, updated_diagnostics: bool },
    /// Files changed for any other reason.
    VfsChange,
    /// A task that loads the workspace was started.
    LoadFlakeWorkspace { fut: F },
}

impl<F> Message<F> {
    /// The message opens the document `uri`.
    pub open spec fn opens(self, uri: Seq<char>) -> bool {
        self matches Message::Open { uri: opened } && opened == uri
    }

    /// The message is about the one document `uri`.
    pub open spec fn concerns(self, uri: Seq<char>) -> bool {
        match self {
            Message::Open { uri: subject } => subject == uri,
            Message::Close { uri: subject } => subject == uri,
            Message::Change { uri: subject, .. } => subject == uri,
            Message::Event(event) => event.uri == uri,
            _ => false,
        }
    }
}

impl<F> ServerView<F> {
    /// The state after a message was handled.
    pub open spec fn after(self, message: Message<F>) -> Self {
        match message {
            Message::Initialize { config } => ServerView { config, ..self },
            Message::Open { uri } => self.after_open(uri),
            Message::Close { uri } => self.after_close(uri),
            Message::Change { uri, edited } => match edited {
                Some(edited) => self.after_edits(uri, edited).with_next_version(),
                None => self,
            },
            Message::Event(event) => self.after_event(event),
            Message::UpdateConfig { config, updated_diagnostics } => self.after_update_config(
                config,
                updated_diagnostics,
            ),
            Message::VfsChange => self.with_next_version(),
            Message::LoadFlakeWorkspace { fut } => ServerView {
                load_flake_workspace_fut: Some(fut),
                ..self
            },
        }
    }

    /// The state after messages were handled one after the other.
    pub open spec fn after_all(self, messages: Seq<Message<F>>) -> Self
        decreases messages.len(),
    {
        if messages.len() == 0 {
            self
        } else {
            self.after_all(messages.drop_last()).after(messages.last())
        }
    }

    /// No stored diagnostics carry a version that was not given out.
    pub open spec fn versions_issued(self) -> bool {
        forall|uri: Seq<char>| #[trigger]
            self.opened.contains_key(uri) ==> self.opened[uri].version <= self.version_counter
    }
}

/// The version counter is monotonic.
pub proof fn law_version_counter_is_monotonic<F>(server: ServerView<F>, messages: Seq<Message<F>>)
    ensures
        server.after_all(messages).version_counter >= server.version_counter,
    decreases messages.len(),
{
    if messages.len() > 0 {
        law_version_counter_is_monotonic(server, messages.drop_last());
    }
}

/// The limit on the length of documents never changes.
pub proof fn law_length_limit_is_constant<F>(server: ServerView<F>, messages: Seq<Message<F>>)
    ensures
        server.after_all(messages).max_file_len == server.max_file_len,
    decreases messages.len(),
{
    if messages.len() > 0 {
        law_length_limit_is_constant(server, messages.drop_last());
    }
}

/// Until the configuration is first loaded, the workspace is still to be loaded.
pub proof fn law_workspace_waits_for_configuration<F>(
    server: ServerView<F>,
    messages: Seq<Message<F>>,
)
    requires
        server.loads_workspace(),
        forall|i: int| 0 <= i < messages.len() ==> !(#[trigger] messages[i] is UpdateConfig),
    ensures
        server.after_all(messages).loads_workspace(),
    decreases messages.len(),
{
    if messages.len() > 0 {
        let earlier = messages.drop_last();
        assert forall|i: int| 0 <= i < earlier.len() implies !(#[trigger] earlier[i]
            is UpdateConfig) by {
            assert(earlier[i] == messages[i]);
        }
        law_workspace_waits_for_configuration(server, earlier);
        assert(!(messages[messages.len() - 1] is UpdateConfig));
    }
}

/// After the configuration was loaded once, no later configuration makes the server load the
/// workspace again.
pub proof fn law_workspace_is_loaded_once<F>(
    server: ServerView<F>,
    messages: Seq<Message<F>>,
    first: int,
)
    requires
        0 <= first < messages.len(),
        messages[first] is UpdateConfig,
    ensures
        !server.after_all(messages).loads_workspace(),
    decreases messages.len(),
{
    if first < messages.len() - 1 {
        law_workspace_is_loaded_once(server, messages.drop_last(), first);
    }
}

/// Diagnostics that are published for a file are the ones stored for it, under their version,
/// until newer ones come.
pub proof fn law_stored_diagnostics_are_the_published_ones<F>(
    server: ServerView<F>,
    event: EventView,
)
    ensures
        match server.published(event) {
            Some(publish) => {
                let after = server.after_event(event);
                &&& publish.uri == event.uri
                &&& publish.diagnostics == event.diagnostics
                &&& after.is_open(event.uri)
                &&& after.opened[event.uri] == (FileView {
                    version: event.version,
                    diagnostics: publish.diagnostics,
                })
            },
            None => server.after_event(event) == server,
        },
{
}

/// While a document is not opened anew, the version of its stored diagnostics does not decrease.
proof fn lemma_version_is_kept<F>(
    server: ServerView<F>,
    messages: Seq<Message<F>>,
    uri: Seq<char>,
    version: nat,
)
    requires
        server.is_open(uri) ==> version <= server.opened[uri].version,
        forall|i: int| 0 <= i < messages.len() ==> !(#[trigger] messages[i]).opens(uri),
    ensures
        server.after_all(messages).is_open(uri) ==> version <= server.after_all(
            messages,
        ).opened[uri].version,
    decreases messages.len(),
{
    if messages.len() > 0 {
        let earlier = messages.drop_last();
        assert forall|i: int| 0 <= i < earlier.len() implies !(#[trigger] earlier[i]).opens(
            uri,
        ) by {
            assert(earlier[i] == messages[i]);
        }
        lemma_version_is_kept(server, earlier, uri, version);
        assert(!messages[messages.len() - 1].opens(uri));
    }
}

/// Raced diagnostics are ignored: once diagnostics of a file were published, no diagnostics of
/// the same or an earlier version are published for it, whatever comes between, unless the file
/// is opened anew.
pub proof fn law_raced_diagnostics_are_ignored<F>(
    server: ServerView<F>,
    event: EventView,
    messages: Seq<Message<F>>,
    late: EventView,
)
    requires
        server.accepts(event),
        forall|i: int| 0 <= i < messages.len() ==> !(#[trigger] messages[i]).opens(event.uri),
        late.uri == event.uri,
        late.version <= event.version,
    ensures
        server.after_event(event).after_all(messages).published(late) is None,
        server.after_event(event).after_all(messages).after_event(late) == server.after_event(
            event,
        ).after_all(messages),
{
    lemma_version_is_kept(server.after_event(event), messages, event.uri, event.version);
}

/// Calculated diagnostics as messages.
pub open spec fn deliveries<F>(events: Seq<EventView>) -> Seq<Message<F>> {
    events.map_values(|event: EventView| Message::<F>::Event(event))
}

/// After diagnostics of an opened file arrived in any order, what is stored of it is at least as
/// new as all of them, and is the newest of them or what was stored before.
pub proof fn law_newest_diagnostics_win<F>(
    server: ServerView<F>,
    uri: Seq<char>,
    events: Seq<EventView>,
)
    requires
        server.is_open(uri),
        forall|i: int| 0 <= i < events.len() ==> (#[trigger] events[i]).uri == uri,
    ensures
        ({
            let after = server.after_all(deliveries(events));
            &&& after.is_open(uri)
            &&& after.opened[uri].version >= server.opened[uri].version
            &&& forall|i: int|
                0 <= i < events.len() ==> after.opened[uri].version >= (
                #[trigger] events[i]).version
            &&& after.opened[uri] == server.opened[uri] || exists|i: int|
                0 <= i < events.len() && after.opened[uri] == (FileView {
                    version: (#[trigger] events[i]).version,
                    diagnostics: events[i].diagnostics,
                }) && events[i].version > server.opened[uri].version
        }),
    decreases events.len(),
{
    if events.len() > 0 {
        let earlier = events.drop_last();
        assert forall|i: int| 0 <= i < earlier.len() implies (#[trigger] earlier[i]).uri == uri by {
            assert(earlier[i] == events[i]);
        }
        law_newest_diagnostics_win(server, uri, earlier);
        let before = server.after_all(deliveries(earlier));
        let after = server.after_all(deliveries(events));
        let last = events[events.len() - 1];
        assert(deliveries::<F>(events).drop_last() =~= deliveries(earlier));
        assert(after == before.after_event(last));
        assert forall|i: int| 0 <= i < events.len() implies after.opened[uri].version >= (
        #[trigger] events[i]).version by {
            if i < earlier.len() {
                assert(earlier[i] == events[i]);
            }
        }
        if !before.accepts(last) && before.opened[uri] != server.opened[uri] {
            let i = choose|i: int|
                0 <= i < earlier.len() && before.opened[uri] == (FileView {
                    version: (#[trigger] earlier[i]).version,
                    diagnostics: earlier[i].diagnostics,
                }) && earlier[i].version > server.opened[uri].version;
            assert(events[i] == earlier[i]);
        }
    }
}

/// The order in which calculated diagnostics of a file arrive does not matter, where they are of
/// different versions: what is stored in the end is the same.
pub proof fn law_arrival_order_does_not_matter<F>(
    server: ServerView<F>,
    uri: Seq<char>,
    events: Seq<EventView>,
    reordered: Seq<EventView>,
)
    requires
        server.is_open(uri),
        forall|i: int| 0 <= i < events.len() ==> (#[trigger] events[i]).uri == uri,
        forall|event: EventView| #[trigger] events.contains(event) <==> reordered.contains(event),
        forall|i: int, j: int|
            0 <= i < events.len() && 0 <= j < events.len() && (#[trigger] events[i]).version == (
            #[trigger] events[j]).version ==> events[i] == events[j],
    ensures
        server.after_all(deliveries(events)).opened[uri] == server.after_all(
            deliveries(reordered),
        ).opened[uri],
{
    assert forall|j: int| 0 <= j < reordered.len() implies (#[trigger] reordered[j]).uri == uri
        && exists|i: int| 0 <= i < events.len() && #[trigger] events[i] == reordered[j] by {
        assert(reordered.contains(reordered[j]));
        assert(events.contains(reordered[j]));
    }
    assert forall|i: int| 0 <= i < events.len() implies exists|j: int|
        0 <= j < reordered.len() && reordered[j] == #[trigger] events[i] by {
        assert(events.contains(events[i]));
        assert(reordered.contains(events[i]));
    }
    law_newest_diagnostics_win(server, uri, events);
    law_newest_diagnostics_win(server, uri, reordered);
    let one = server.after_all(deliveries(events)).opened[uri];
    let two = server.after_all(deliveries(reordered)).opened[uri];
    if one != server.opened[uri] {
        let i = choose|i: int|
            0 <= i < events.len() && one == (FileView {
                version: (#[trigger] events[i]).version,
                diagnostics: events[i].diagnostics,
            }) && events[i].version > server.opened[uri].version;
        let j = choose|j: int| 0 <= j < reordered.len() && reordered[j] == events[i];
        assert(two.version >= reordered[j].version);
    }
    if two != server.opened[uri] {
        let j = choose|j: int|
            0 <= j < reordered.len() && two == (FileView {
                version: (#[trigger] reordered[j]).version,
                diagnostics: reordered[j].diagnostics,
            }) && reordered[j].version > server.opened[uri].version;
        let i = choose|i: int| 0 <= i < events.len() && events[i] == reordered[j];
        assert(one.version >= events[i].version);
    }
}

/// The diagnostics of the latest version are published when they come, if the file is opened then.
pub proof fn law_latest_diagnostics_are_published<F>(
    server: ServerView<F>,
    messages: Seq<Message<F>>,
    event: EventView,
)
    requires
        0 < event.version,
        server.is_open(event.uri) ==> server.opened[event.uri].version < event.version,
        forall|i: int|
            0 <= i < messages.len() ==> ((#[trigger] messages[i]) matches Message::Event(other)
                ==> other.uri == event.uri ==> other.version < event.version),
    ensures
        server.after_all(messages).is_open(event.uri) ==> server.after_all(messages).accepts(event),
    decreases messages.len(),
{
    if messages.len() > 0 {
        let earlier = messages.drop_last();
        assert forall|i: int| 0 <= i < earlier.len() implies ((#[trigger] earlier[i]) matches
            Message::Event(other) ==> other.uri == event.uri ==> other.version < event.version) by {
            assert(earlier[i] == messages[i]);
        }
        law_latest_diagnostics_are_published(server, earlier, event);
        let last = messages[messages.len() - 1];
        assert(last matches Message::Event(other) ==> other.uri == event.uri ==> other.version
            < event.version);
    }
}

/// As long as no event carries a version that was not given out before, no stored diagnostics do.
pub proof fn law_stored_versions_were_issued<F>(server: ServerView<F>, messages: Seq<Message<F>>)
    requires
        server.versions_issued(),
        forall|i: int|
            0 <= i < messages.len() ==> ((#[trigger] messages[i]) matches Message::Event(event)
                ==> event.version <= server.after_all(messages.take(i)).version_counter),
    ensures
        server.after_all(messages).versions_issued(),
    decreases messages.len(),
{
    if messages.len() > 0 {
        let earlier = messages.drop_last();
        assert forall|i: int| 0 <= i < earlier.len() implies ((#[trigger] earlier[i]) matches
            Message::Event(event) ==> event.version <= server.after_all(
            earlier.take(i),
        ).version_counter) by {
            assert(earlier[i] == messages[i]);
            assert(earlier.take(i) =~= messages.take(i));
        }
        law_stored_versions_were_issued(server, earlier);
        let last = messages[messages.len() - 1];
        assert(messages.take(messages.len() - 1) =~= earlier);
        let before = server.after_all(earlier);
        let after = server.after_all(messages);
        assert forall|uri: Seq<char>| #[trigger] after.opened.contains_key(uri) implies
            after.opened[uri].version <= after.version_counter by {
            if before.opened.contains_key(uri) {
                assert(before.opened[uri].version <= before.version_counter);
            }
        }
    }
}

/// Whatever is done about changed files is about opened files among them, and carries the next
/// version.
pub proof fn law_actions_are_about_changed_opened_files<F>(
    server: ServerView<F>,
    changes: Seq<ChangeView>,
    action: ActionView,
)
    requires
        server.change_actions(changes).contains(action),
    ensures
        server.is_open(action.uri()),
        action.version() == server.with_next_version().version_counter,
        exists|change: ChangeView| #[trigger]
            changes.contains(change) && change.uri == action.uri() && server.change_action(change)
                == Some(action),
{
    let f = |change: ChangeView| server.change_action(change);
    changes.lemma_filter_map_contains(f, action);
    let change = choose|change: ChangeView| #[trigger]
        changes.contains(change) && f(change) == Some(action);
    assert(changes.contains(change) && server.change_action(change) == Some(action));
}

/// Diagnostics that result from changed files carry a version that was given out, whenever they
/// arrive.
pub proof fn law_results_carry_issued_versions<F>(
    server: ServerView<F>,
    changes: Seq<ChangeView>,
    action: ActionView,
    computed: Option<Seq<Diagnostic>>,
    messages: Seq<Message<F>>,
)
    requires
        server.change_actions(changes).contains(action),
    ensures
        server.version_counter < action.event(computed).version <= server.after(
            Message::VfsChange,
        ).after_all(messages).version_counter,
{
    law_actions_are_about_changed_opened_files(server, changes, action);
    law_version_counter_is_monotonic(server.after(Message::VfsChange), messages);
}

/// Something is done about every opened file that changed.
pub proof fn law_every_changed_opened_file_is_acted_on<F>(
    server: ServerView<F>,
    changes: Seq<ChangeView>,
    change: ChangeView,
)
    requires
        changes.contains(change),
        server.is_open(change.uri),
    ensures
        server.change_action(change) matches Some(action) && server.change_actions(
            changes,
        ).contains(action) && action.uri() == change.uri,
    decreases changes.len(),
{
    let f = |change: ChangeView| server.change_action(change);
    let rest = changes.drop_last();
    let action = f(change)->0;
    let i = choose|i: int| 0 <= i < changes.len() && changes[i] == change;
    if i == changes.len() - 1 {
        let actions = changes.filter_map(f);
        assert(actions == rest.filter_map(f) + seq![action]);
        assert(actions[actions.len() - 1] == action);
    } else {
        assert(rest[i] == change);
        law_every_changed_opened_file_is_acted_on(server, rest, change);
        let j = choose|j: int|
            0 <= j < rest.filter_map(f).len() && rest.filter_map(f)[j] == action;
        assert(changes.filter_map(f)[j] == action);
    }
}

/// When files change, the diagnostics that result from it are newer than all that are stored, and
/// so they are published if they come while nothing else happened.
pub proof fn law_changes_are_published<F>(
    server: ServerView<F>,
    changes: Seq<ChangeView>,
    action: ActionView,
    computed: Option<Seq<Diagnostic>>,
)
    requires
        server.versions_issued(),
        server.change_actions(changes).contains(action),
    ensures
        server.with_next_version().accepts(action.event(computed)),
{
    law_actions_are_about_changed_opened_files(server, changes, action);
    assert(server.opened.contains_key(action.uri()));
}

/// When the configuration changes the filter of diagnostics, every opened file gets diagnostics
/// that are newer than the stored ones.
pub proof fn law_refresh_is_published<F>(
    server: ServerView<F>,
    config: ConfigView,
    tasks: Seq<TaskView>,
    uri: Seq<char>,
    computed: Option<Seq<Diagnostic>>,
)
    requires
        server.versions_issued(),
        server.is_open(uri),
        server.after_update_config(config, true).refreshed_by(tasks),
    ensures
        exists|task: TaskView| #[trigger]
            tasks.contains(task) && task.uri == uri && task.config == config
                && server.after_update_config(config, true).accepts(task.event(computed)),
{
    let after = server.after_update_config(config, true);
    let task = after.diagnostics_task(uri, after.version_counter);
    assert(server.opened.contains_key(uri));
    assert(tasks.contains(task));
}

/// For a file that is not opened nothing is calculated, cleared or published, whatever happens,
/// until it is opened.
pub proof fn law_unopened_files_are_ignored<F>(
    server: ServerView<F>,
    messages: Seq<Message<F>>,
    uri: Seq<char>,
    event: EventView,
    changes: Seq<ChangeView>,
)
    requires
        !server.is_open(uri),
        forall|i: int| 0 <= i < messages.len() ==> !(#[trigger] messages[i]).opens(uri),
        event.uri == uri,
    ensures
        !server.after_all(messages).is_open(uri),
        server.after_all(messages).published(event) is None,
        forall|action: ActionView| #[trigger]
            server.after_all(messages).change_actions(changes).contains(action) ==> action.uri()
                != uri,
        forall|tasks: Seq<TaskView>, task: TaskView|
            server.after_all(messages).refreshed_by(tasks) && #[trigger] tasks.contains(task)
                ==> task.uri != uri,
    decreases messages.len(),
{
    if messages.len() > 0 {
        let earlier = messages.drop_last();
        assert forall|i: int| 0 <= i < earlier.len() implies !(#[trigger] earlier[i]).opens(
            uri,
        ) by {
            assert(earlier[i] == messages[i]);
        }
        law_unopened_files_are_ignored(server, earlier, uri, event, changes);
        assert(!messages[messages.len() - 1].opens(uri));
    }
    let after = server.after_all(messages);
    assert forall|action: ActionView| #[trigger]
        after.change_actions(changes).contains(action) implies action.uri() != uri by {
        law_actions_are_about_changed_opened_files(after, changes, action);
    }
}

/// A file that went out of sync is not opened any more, and the change that broke it leads to no
/// diagnostics of it.
pub proof fn law_broken_files_are_dropped<F>(
    server: ServerView<F>,
    uri: Seq<char>,
    edited: EditedView,
)
    requires
        !edited.in_sync(),
    ensures
        !server.after(Message::Change { uri, edited: Some(edited) }).is_open(uri),
        forall|action: ActionView| #[trigger]
            server.after_edits(uri, edited).change_actions(edited.changes).contains(action)
                ==> action.uri() != uri,
{
    let broken = server.after_edits(uri, edited);
    assert forall|action: ActionView| #[trigger]
        broken.change_actions(edited.changes).contains(action) implies action.uri() != uri by {
        law_actions_are_about_changed_opened_files(broken, edited.changes, action);
    }
}

/// Opening a file that was not opened leads to no diagnostics of it by itself: its content is
/// taken over before it counts as opened.
pub proof fn law_opening_gives_no_diagnostics<F>(
    server: ServerView<F>,
    uri: Seq<char>,
    changes: Seq<ChangeView>,
)
    requires
        !server.is_open(uri),
    ensures
        server.after(Message::Open { uri }).opened[uri] == FileView::initial(),
        forall|action: ActionView| #[trigger]
            server.change_actions(changes).contains(action) ==> action.uri() != uri,
{
    assert forall|action: ActionView| #[trigger]
        server.change_actions(changes).contains(action) implies action.uri() != uri by {
        law_actions_are_about_changed_opened_files(server, changes, action);
    }
}

/// Closing a file undoes opening it.
pub proof fn law_close_undoes_open<F>(server: ServerView<F>, uri: Seq<char>)
    ensures
        server.after_open(uri).after_close(uri).opened == server.after_close(uri).opened,
        !server.is_open(uri) ==> server.after_open(uri).after_close(uri)
            == server.with_next_version(),
{
    assert(server.after_open(uri).after_close(uri).opened =~= server.after_close(uri).opened);
    if !server.is_open(uri) {
        assert(server.after_open(uri).after_close(uri).opened =~= server.opened);
    }
}

/// A message about one file leaves what is known of all other files as it is.
pub proof fn law_files_are_independent<F>(
    server: ServerView<F>,
    message: Message<F>,
    uri: Seq<char>,
)
    requires
        !message.concerns(uri),
    ensures
        server.after(message).is_open(uri) == server.is_open(uri),
        server.is_open(uri) ==> server.after(message).opened[uri] == server.opened[uri],
{
}

/// An excluded file has no diagnostics, whatever the analysis would find, and neither has a file
/// whose analysis failed.
pub proof fn law_excluded_files_have_no_diagnostics(
    task: TaskView,
    computed: Option<Seq<Diagnostic>>,
)
    requires
        task.config.excludes(task.uri) || computed is None,
    ensures
        task.event(computed).diagnostics.len() == 0,
{
}

/// Each change of an opened file leads to one action, in the order of the changes, and no other
/// change does. The diagnostics are calculated anew, by the configuration of the server, where the
/// new content is not empty, and cleared where it is. The result gives the position of the change
/// that each action is for.
pub proof fn law_actions_follow_the_changes<F>(
    server: ServerView<F>,
    changes: Seq<ChangeView>,
) -> (at: Seq<int>)
    ensures
        at.len() == server.change_actions(changes).len(),
        forall|j: int, k: int| 0 <= j < k < at.len() ==> #[trigger] at[j] < #[trigger] at[k],
        forall|i: int|
            #![trigger at.contains(i)]
            #![trigger changes[i]]
            at.contains(i) <==> 0 <= i < changes.len() && server.opened.contains_key(
                changes[i].uri,
            ),
        forall|k: int|
            #![trigger at[k]]
            #![trigger server.change_actions(changes)[k]]
            0 <= k < at.len() ==> match server.change_actions(changes)[k] {
                ActionView::Update(task) => {
                    &&& changes[at[k]].len > 0
                    &&& task.uri == changes[at[k]].uri
                    &&& task.version == server.version_counter + 1
                    &&& task.config == server.config
                },
                ActionView::Emit(event) => {
                    &&& changes[at[k]].len == 0
                    &&& event.uri == changes[at[k]].uri
                    &&& event.version == server.version_counter + 1
                    &&& event.diagnostics.len() == 0
                },
            },
    decreases changes.len(),
{
    if changes.len() == 0 {
        Seq::empty()
    } else {
        let f = |change: ChangeView| server.change_action(change);
        let rest = changes.drop_last();
        let last = changes.len() - 1;
        let before = law_actions_follow_the_changes(server, rest);
        let actions = server.change_actions(changes);
        let earlier = server.change_actions(rest);
        assert forall|k: int| 0 <= k < before.len() implies 0 <= #[trigger] before[k] < last by {
            assert(before.contains(before[k]));
        }
        let at = if server.opened.contains_key(changes[last].uri) {
            before.push(last)
        } else {
            before
        };
        assert(actions == if server.opened.contains_key(changes[last].uri) {
            earlier + seq![f(changes[last])->0]
        } else {
            earlier
        });
        assert forall|i: int|
            #![trigger at.contains(i)]
            #![trigger changes[i]]
            at.contains(i) <==> 0 <= i < changes.len() && server.opened.contains_key(
                changes[i].uri,
            ) by {
            assert(before.contains(i) <==> 0 <= i < rest.len() && server.opened.contains_key(
                rest[i].uri,
            ));
            if at.contains(i) {
                let k = choose|k: int| 0 <= k < at.len() && at[k] == i;
                if k < before.len() {
                    assert(before[k] == i);
                }
            }
            if before.contains(i) {
                let k = choose|k: int| 0 <= k < before.len() && before[k] == i;
                assert(at[k] == i);
            }
            if i == last && server.opened.contains_key(changes[last].uri) {
                assert(at[before.len() as int] == i);
            }
        }
        assert forall|j: int, k: int| 0 <= j < k < at.len() implies #[trigger] at[j]
            < #[trigger] at[k] by {
            assert(at[j] == before[j]);
            if k < before.len() {
                assert(at[k] == before[k]);
            }
        }
        assert forall|k: int|
            #![trigger at[k]]
            #![trigger actions[k]]
            0 <= k < at.len() implies match actions[k] {
            ActionView::Update(task) => {
                &&& changes[at[k]].len > 0
                &&& task.uri == changes[at[k]].uri
                &&& task.version == server.version_counter + 1
                &&& task.config == server.config
            },
            ActionView::Emit(event) => {
                &&& changes[at[k]].len == 0
                &&& event.uri == changes[at[k]].uri
                &&& event.version == server.version_counter + 1
                &&& event.diagnostics.len() == 0
            },
        } by {
            if k < before.len() {
                assert(at[k] == before[k]);
                assert(actions[k] == earlier[k]);
                assert(rest[before[k]] == changes[before[k]]);
            }
        }
        at
    }
}

/// Changes that come together are handled as if they came one after the other: what is done about
/// the second ones is the same with the first ones and without them.
pub proof fn law_changes_do_not_influence_each_other<F>(
    server: ServerView<F>,
    first: Seq<ChangeView>,
    second: Seq<ChangeView>,
)
    ensures
        server.change_actions(first + second) == server.change_actions(first)
            + server.change_actions(second),
    decreases second.len(),
{
    let both = first + second;
    if second.len() == 0 {
        assert(both =~= first);
        assert(server.change_actions(second) =~= Seq::empty());
    } else {
        law_changes_do_not_influence_each_other(server, first, second.drop_last());
        assert(both.drop_last() =~= first + second.drop_last());
        assert(both.last() == second.last());
    }
    assert(server.change_actions(both) =~= server.change_actions(first) + server.change_actions(
        second,
    ));
}

proof fn lemma_refresh_covers_the_opened_files<F>(server: ServerView<F>, tasks: Seq<TaskView>)
    requires
        server.refreshed_by(tasks),
    ensures
        forall|k: int|
            0 <= k < tasks.len() ==> {
                &&& server.opened.contains_key((#[trigger] tasks[k]).uri)
                &&& tasks[k].version == server.version_counter
                &&& tasks[k].config == server.config
            },
        forall|uri: Seq<char>| #[trigger]
            server.opened.contains_key(uri) ==> exists|k: int|
                0 <= k < tasks.len() && (#[trigger] tasks[k]).uri == uri,
        forall|j: int, k: int|
            0 <= j < k < tasks.len() ==> (#[trigger] tasks[j]).uri != (#[trigger] tasks[k]).uri,
{
    assert forall|k: int| 0 <= k < tasks.len() implies {
        &&& server.opened.contains_key((#[trigger] tasks[k]).uri)
        &&& tasks[k].version == server.version_counter
        &&& tasks[k].config == server.config
    } by {
        assert(tasks.contains(tasks[k]));
    }
    assert forall|uri: Seq<char>| #[trigger] server.opened.contains_key(uri) implies exists|k: int|
        0 <= k < tasks.len() && (#[trigger] tasks[k]).uri == uri by {
        let task = server.diagnostics_task(uri, server.version_counter);
        assert(task.uri == uri);
        assert(tasks.contains(task));
        let k = choose|k: int| 0 <= k < tasks.len() && tasks[k] == task;
        assert(tasks[k].uri == uri);
    }
    assert forall|j: int, k: int| 0 <= j < k < tasks.len() implies (#[trigger] tasks[j]).uri != (
    #[trigger] tasks[k]).uri by {
        assert(tasks.contains(tasks[j]) && tasks.contains(tasks[k]));
        assert(tasks[j] != tasks[k]);
    }
}

/// `actions` are for the changes of files that are opened in `server`, one for each of them and in
/// their order; `at` gives the position of the change that each action is for. The diagnostics are
/// calculated anew where the new content is not empty, and cleared where it is.
pub open spec fn follows<F>(
    server: ServerView<F>,
    changes: Seq<FileChange>,
    actions: Seq<DiagnosticsAction>,
    at: Seq<int>,
) -> bool {
    &&& at.len() == actions.len()
    &&& forall|j: int, k: int| 0 <= j < k < at.len() ==> #[trigger] at[j] < #[trigger] at[k]
    &&& forall|i: int|
        #![trigger at.contains(i)]
        #![trigger changes[i]]
        at.contains(i) <==> 0 <= i < changes.len() && server.opened.contains_key(changes[i].uri@)
    &&& forall|k: int|
        #![trigger at[k]]
        #![trigger actions[k]]
        0 <= k < at.len() ==> match actions[k] {
            DiagnosticsAction::Update(task) => {
                &&& changes[at[k]].len > 0
                &&& task.uri@ == changes[at[k]].uri@
                &&& task.version == server.version_counter + 1
                &&& (*task.snapshot.config)@ == server.config
            },
            DiagnosticsAction::Emit(Event::Diagnostics { uri, version, diagnostics }) => {
                &&& changes[at[k]].len == 0
                &&& uri@ == changes[at[k]].uri@
                &&& version == server.version_counter + 1
                &&& diagnostics@.len() == 0
            },
        }
}

proof fn lemma_actions_follow<F>(
    server: ServerView<F>,
    changes: Seq<FileChange>,
    actions: Seq<DiagnosticsAction>,
) -> (at: Seq<int>)
    requires
        ActionView::list(actions) == server.change_actions(ChangeView::list(changes)),
    ensures
        follows(server, changes, actions, at),
{
    let views = ChangeView::list(changes);
    let at = law_actions_follow_the_changes(server, views);
    assert(actions.len() == ActionView::list(actions).len());
    assert forall|i: int|
        #![trigger at.contains(i)]
        #![trigger changes[i]]
        at.contains(i) <==> 0 <= i < changes.len() && server.opened.contains_key(
            changes[i].uri@,
        ) by {
        assert(at.contains(i) <==> 0 <= i < views.len() && server.opened.contains_key(
            views[i].uri,
        ));
    }
    assert forall|k: int|
        #![trigger at[k]]
        #![trigger actions[k]]
        0 <= k < at.len() implies match actions[k] {
        DiagnosticsAction::Update(task) => {
            &&& changes[at[k]].len > 0
            &&& task.uri@ == changes[at[k]].uri@
            &&& task.version == server.version_counter + 1
            &&& (*task.snapshot.config)@ == server.config
        },
        DiagnosticsAction::Emit(Event::Diagnostics { uri, version, diagnostics }) => {
            &&& changes[at[k]].len == 0
            &&& uri@ == changes[at[k]].uri@
            &&& version == server.version_counter + 1
            &&& diagnostics@.len() == 0
        },
    } by {
        assert(at.contains(at[k]));
        assert(views[at[k]] == changes[at[k]]@);
        assert(ActionView::list(actions)[k] == actions[k]@);
        assert(server.change_actions(views)[k] == actions[k]@);
    }
    at
}

/// Changed files take a version and are acted on one by one, where they are opened; nothing else
/// of the server changes.
pub proof fn law_changed_files_are_acted_on<F>(
    server: &mut Server<F>,
    changes: Vec<FileChange>,
    actions: Vec<DiagnosticsAction>,
) -> (at: Seq<int>)
    requires
        call_ensures(Server::<F>::apply_vfs_change, (server, &changes), actions),
    ensures
        final(server)@ == (ServerView {
            version_counter: old(server)@.version_counter + 1,
            ..old(server)@
        }),
        follows(old(server)@, changes@, actions@, at),
{
    lemma_actions_follow(server@, changes@, actions@)
}

/// Where every content change of a notification was applied, the opened files and what is stored
/// of them stay as they are, so that each opened file that changed is acted on.
pub proof fn law_applied_edits_keep_the_files<F>(
    server: &mut Server<F>,
    uri: String,
    edited: Edited,
    actions: Vec<DiagnosticsAction>,
) -> (at: Seq<int>)
    requires
        call_ensures(Server::<F>::on_did_change, (server, &uri, Some(edited)), actions),
        forall|i: int|
            0 <= i < edited.edits@.len() ==> #[trigger] edited.edits@[i] == EditOutcome::Applied,
    ensures
        final(server)@ == (ServerView {
            version_counter: old(server)@.version_counter + 1,
            ..old(server)@
        }),
        follows(old(server)@, edited.changes@, actions@, at),
{
    assert(server@.after_edits(uri@, edited@) == server@);
    lemma_actions_follow(server@, edited.changes@, actions@)
}

/// Where a content change was not applied, the file of the notification is dropped, whatever came
/// of the other changes. All other files stay as they are and are acted on where they changed.
pub proof fn law_failed_edit_drops_only_its_file<F>(
    server: &mut Server<F>,
    uri: String,
    edited: Edited,
    failed: int,
    actions: Vec<DiagnosticsAction>,
) -> (at: Seq<int>)
    requires
        call_ensures(Server::<F>::on_did_change, (server, &uri, Some(edited)), actions),
        0 <= failed < edited.edits@.len(),
        edited.edits@[failed] != EditOutcome::Applied,
    ensures
        final(server)@ == (ServerView {
            opened: old(server)@.opened.remove(uri@),
            version_counter: old(server)@.version_counter + 1,
            ..old(server)@
        }),
        follows(
            ServerView { opened: old(server)@.opened.remove(uri@), ..old(server)@ },
            edited.changes@,
            actions@,
            at,
        ),
{
    assert(edited@.edits[failed] != EditOutcome::Applied);
    lemma_actions_follow(server@.after_edits(uri@, edited@), edited.changes@, actions@)
}

/// A change notification for a file that is not maintained does nothing.
pub proof fn law_unmaintained_files_are_ignored<F>(
    server: &mut Server<F>,
    uri: String,
    actions: Vec<DiagnosticsAction>,
)
    requires
        call_ensures(Server::<F>::on_did_change, (server, &uri, None), actions),
    ensures
        final(server)@ == old(server)@,
        actions@.len() == 0,
{
}

/// A document is refused just where its content has more bytes than the limit of the server, and
/// the user is told so.
pub proof fn law_only_too_long_documents_are_refused<F>(
    server: Server<F>,
    text: String,
    decision: OpenDecision,
)
    requires
        call_ensures(Server::<F>::on_did_open, (&server, &text), decision),
    ensures
        decision is Load <==> vstd::utf8::encode_utf8(text@).len() <= server@.max_file_len,
        decision matches OpenDecision::Refuse(message) ==> message.typ == MessageType::Warning
            && message.message@
            == "Disable LSP functionalities for too large file ({len} > {MAX_FILE_LEN})"@,
{
}

/// An opened file has no diagnostics at first, and nothing of what was known of it before. All
/// other files stay as they are. What is done about changed files does not depend on whether the
/// file counts as opened afterwards.
pub proof fn law_opening_starts_afresh<F>(
    server: &mut Server<F>,
    uri: String,
    changes: Vec<FileChange>,
    actions: Vec<DiagnosticsAction>,
) -> (at: Seq<int>)
    requires
        call_ensures(Server::<F>::finish_open, (server, uri, &changes), actions),
    ensures
        final(server)@.opened.contains_key(uri@),
        final(server)@.opened[uri@].version == 0,
        final(server)@.opened[uri@].diagnostics.len() == 0,
        forall|other: Seq<char>|
            other != uri@ ==> #[trigger] final(server)@.opened.contains_key(other)
                == old(server)@.opened.contains_key(other),
        forall|other: Seq<char>|
            other != uri@ && old(server)@.opened.contains_key(other)
                ==> #[trigger] final(server)@.opened[other] == old(server)@.opened[other],
        final(server)@ == (ServerView {
            opened: final(server)@.opened,
            version_counter: old(server)@.version_counter + 1,
            ..old(server)@
        }),
        follows(old(server)@, changes@, actions@, at),
{
    lemma_actions_follow(server@, changes@, actions@)
}

/// A closed file is not opened any more. All other files stay as they are, and so does the rest.
pub proof fn law_closing_forgets_only_the_file<F>(server: &mut Server<F>, uri: String)
    requires
        call_ensures(Server::<F>::on_did_close, (server, &uri), ()),
    ensures
        !final(server)@.opened.contains_key(uri@),
        forall|other: Seq<char>|
            other != uri@ ==> #[trigger] final(server)@.opened.contains_key(other)
                == old(server)@.opened.contains_key(other),
        forall|other: Seq<char>|
            other != uri@ && old(server)@.opened.contains_key(other)
                ==> #[trigger] final(server)@.opened[other] == old(server)@.opened[other],
        final(server)@ == (ServerView { opened: final(server)@.opened, ..old(server)@ }),
{
}

/// Calculated diagnostics are published and stored, all of them and under their version, just
/// where the file is opened and the stored ones have a smaller version. Otherwise nothing changes.
pub proof fn law_newer_diagnostics_are_published<F>(
    server: &mut Server<F>,
    event: Event,
    publish: Option<PublishDiagnostics>,
)
    requires
        call_ensures(Server::<F>::on_event, (server, event), publish),
    ensures
        event matches Event::Diagnostics { uri, version, diagnostics } && {
            &&& publish is Some <==> old(server)@.opened.contains_key(uri@)
                && old(server)@.opened[uri@].version < version
            &&& publish matches Some(sent) ==> {
                &&& sent.uri@ == uri@
                &&& sent.diagnostics@ == diagnostics@
                &&& final(server)@.opened == old(server)@.opened.insert(
                    uri@,
                    FileView { version: version as nat, diagnostics: diagnostics@ },
                )
            }
            &&& publish is None ==> final(server)@.opened == old(server)@.opened
        },
        final(server)@ == (ServerView { opened: final(server)@.opened, ..old(server)@ }),
{
}

/// A new configuration replaces the old one and leaves the opened files as they are. A version is
/// taken just where diagnostics are calculated anew, and then they are calculated once for every
/// opened file and for no other, by the new configuration. The workspace is loaded with the first
/// configuration, and with no other. Settings that failed are told to the user, all of them.
pub proof fn law_configuration_is_taken_over<F>(
    server: &mut Server<F>,
    config: Config,
    errors: Vec<String>,
    updated_diagnostics: bool,
    reaction: ConfigReaction,
)
    requires
        call_ensures(
            Server::<F>::on_update_config,
            (server, config, &errors, updated_diagnostics),
            reaction,
        ),
    ensures
        final(server)@ == (ServerView {
            config: config@,
            version_counter: if updated_diagnostics {
                old(server)@.version_counter + 1
            } else {
                old(server)@.version_counter
            },
            tried_flake_load: true,
            ..old(server)@
        }),
        !updated_diagnostics ==> reaction.updates@.len() == 0,
        forall|k: int|
            0 <= k < reaction.updates@.len() ==> {
                &&& old(server)@.opened.contains_key((#[trigger] reaction.updates@[k]).uri@)
                &&& reaction.updates@[k].version == old(server)@.version_counter + 1
                &&& (*reaction.updates@[k].snapshot.config)@ == config@
            },
        updated_diagnostics ==> forall|uri: Seq<char>| #[trigger]
            old(server)@.opened.contains_key(uri) ==> exists|k: int|
                0 <= k < reaction.updates@.len() && (#[trigger] reaction.updates@[k]).uri@ == uri,
        forall|j: int, k: int|
            0 <= j < k < reaction.updates@.len() ==> (#[trigger] reaction.updates@[j]).uri@ != (
            #[trigger] reaction.updates@[k]).uri@,
        reaction.load_flake_workspace is Some <==> !old(server)@.tried_flake_load,
        reaction.load_flake_workspace matches Some(by) ==> (*by)@ == config@,
        reaction.message is Some <==> errors@.len() > 0,
        reaction.message matches Some(message) ==> message.typ == MessageType::Error
            && message.message@ == "Failed to apply some settings:"@ + Seq::new(
            errors@.len(),
            |i: int| "\n- "@ + errors@[i]@,
        ).flatten(),
{
    let updates = reaction.updates@;
    let tasks = TaskView::list(updates);
    let after = server@.after_update_config(config@, updated_diagnostics);
    assert(after.opened == server@.opened);
    if updated_diagnostics {
        lemma_refresh_covers_the_opened_files(after, tasks);
        assert forall|k: int| 0 <= k < updates.len() implies tasks[k]
            == #[trigger] updates[k]@ by {}
        assert forall|uri: Seq<char>| #[trigger]
            server@.opened.contains_key(uri) implies exists|k: int|
            0 <= k < updates.len() && (#[trigger] updates[k]).uri@ == uri by {
            assert(after.opened.contains_key(uri));
            let k = choose|k: int| 0 <= k < tasks.len() && (#[trigger] tasks[k]).uri == uri;
            assert(updates[k].uri@ == uri);
        }
        assert forall|k: int| 0 <= k < updates.len() implies {
            &&& server@.opened.contains_key((#[trigger] updates[k]).uri@)
            &&& updates[k].version == server@.version_counter + 1
            &&& (*updates[k].snapshot.config)@ == config@
        } by {
            assert(tasks[k] == updates[k]@);
        }
        assert forall|j: int, k: int| 0 <= j < k < updates.len() implies (
        #[trigger] updates[j]).uri@ != (#[trigger] updates[k]).uri@ by {
            assert(tasks[j] == updates[j]@ && tasks[k] == updates[k]@);
        }
    }
    if reaction.message is Some {
        crate::protocol::lemma_failed_settings(errors, reaction.message->0);
    }
}

/// A server starts with no file opened, no version taken, and the workspace still to be loaded.
pub proof fn law_server_starts_empty<F>(config: Config, max_file_len: usize, server: Server<F>)
    requires
        call_ensures(Server::<F>::new, (config, max_file_len), server),
    ensures
        forall|uri: Seq<char>| !#[trigger] server@.opened.contains_key(uri),
        server@.config == config@,
        server@.version_counter == 0,
        !server@.tried_flake_load,
        server@.load_flake_workspace_fut is None,
        server@.max_file_len == max_file_len,
{
}

/// The workspace that the client named decides the configuration, and nothing else of the server.
/// The server introduces itself by its name and its release.
pub proof fn law_initialization_sets_the_configuration<F>(
    server: &mut Server<F>,
    config: Config,
    release: Option<String>,
    info: ServerInfo,
)
    requires
        call_ensures(Server::<F>::on_initialize, (server, config, release), info),
    ensures
        final(server)@ == (ServerView { config: config@, ..old(server)@ }),
        info.name@ == "nil"@,
        info.version == release,
{
}

/// A task that loads the workspace takes the place of the one before, which is handed back.
pub proof fn law_load_task_is_replaced<F>(server: &mut Server<F>, fut: F, replaced: Option<F>)
    requires
        call_ensures(Server::<F>::spawn_load_flake_workspace, (server, fut), replaced),
    ensures
        replaced == old(server)@.load_flake_workspace_fut,
        final(server)@ == (ServerView { load_flake_workspace_fut: Some(fut), ..old(server)@ }),
{
}

/// Versions are given out one after the other, and giving one out changes nothing else. The last
/// one is what the server tells afterwards.
pub proof fn law_versions_are_consecutive<F>(server: &mut Server<F>, version: u64, told: u64)
    requires
        call_ensures(Server::<F>::next_version, (server,), version),
        call_ensures(Server::<F>::version_counter, (&*final(server),), told),
    ensures
        version == old(server)@.version_counter + 1,
        told == version,
        final(server)@ == (ServerView { version_counter: version as nat, ..old(server)@ }),
{
}

/// A calculation is for the file and version asked for, by the configuration of the server, which
/// every other task beside the server works on as well.
pub proof fn law_calculation_is_as_asked_for<F>(
    server: Server<F>,
    uri: String,
    version: u64,
    task: DiagnosticsTask,
    snapshot: StateSnapshot,
)
    requires
        call_ensures(Server::<F>::update_diagnostics, (&server, uri, version), task),
        call_ensures(Server::<F>::snapshot, (&server,), snapshot),
    ensures
        (*snapshot.config)@ == server@.config,
        task.uri@ == uri@,
        task.version == version,
        (*task.snapshot.config)@ == server@.config,
{
}

/// Nothing of a configuration or of what is stored of a file is left out where it is taken as a
/// value.
pub proof fn law_values_are_seen_whole(config: Config, data: FileData, message: ShowMessage)
    ensures
        config@.root_path == config.root_path.bytes@,
        config@.nix_binary == config.nix_binary.bytes@,
        config@.diagnostics_excluded_files.len() == config.diagnostics_excluded_files@.len(),
        forall|i: int|
            0 <= i < config.diagnostics_excluded_files@.len()
                ==> #[trigger] config@.diagnostics_excluded_files[i]
                == config.diagnostics_excluded_files@[i]@,
        data@.version == data.diagnostics_version,
        data@.diagnostics == data.diagnostics@,
        message@.typ == message.typ,
        message@.text == message.message@,
{
}

} // verus!
