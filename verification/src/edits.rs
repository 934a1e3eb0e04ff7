//! The content changes of one notification, applied one after the other.

use crate::diagnostics::FileChange;
use crate::server::Edited;
use crate::state::EditOutcome;
use vstd::prelude::*;

verus! {

/// What is to be done with one content change.
#[derive(Clone, Copy, Debug, PartialEq, Eq, Structural)]
pub enum EditStep {
    /// Replace the whole content.
    ReplaceAll,
    /// Replace the range.
    ReplaceRange,
    /// Nothing: the range is no range of the file.
    Skip,
}

impl EditStep {
    /// What is to be done with a content change. `range` says whether its range is a range of the
    /// file; it is `None` where the change has no range.
    pub open spec fn of_range(range: Option<bool>) -> EditStep {
        match range {
            None => EditStep::ReplaceAll,
            Some(true) => EditStep::ReplaceRange,
            Some(false) => EditStep::Skip,
        }
    }

    /// How the change ends, where replacing is accepted or not.
    pub open spec fn ends_in(self, accepted: bool) -> EditOutcome {
        if self == EditStep::Skip {
            EditOutcome::InvalidRange
        } else if accepted {
            EditOutcome::Applied
        } else {
            EditOutcome::Rejected
        }
    }
}

/// What is to be done with a content change. `range` says whether its range is a range of the
/// file; it is `None` where the change has no range.
pub fn edit_step(range: Option<bool>) -> (step: EditStep)
    ensures
        step == EditStep::of_range(range),
{
    match range {
        None => EditStep::ReplaceAll,
        Some(valid) => if valid {
            EditStep::ReplaceRange
        } else {
            EditStep::Skip
        },
    }
}

/// A run through the content changes of one notification.
pub struct EditRun {
    total: usize,
    edits: Vec<EditOutcome>,
}

/// A run through content changes as a value: how many there are, and how the first ones ended.
#[verifier::ext_equal]
pub struct EditRunView {
    pub total: nat,
    pub edits: Seq<EditOutcome>,
}

impl View for EditRun {
    type V = EditRunView;

    closed spec fn view(&self) -> EditRunView {
        EditRunView { total: self.total as nat, edits: self.edits@ }
    }
}

impl EditRunView {
    /// The position of the change to apply now. Every change is tried, whether the ones before it
    /// were applied or not.
    pub open spec fn next(self) -> Option<int> {
        if self.edits.len() < self.total {
            Some(self.edits.len() as int)
        } else {
            None
        }
    }

    /// The run after a change was tried.
    pub open spec fn after(self, step: EditStep, accepted: bool) -> EditRunView {
        EditRunView { edits: self.edits.push(step.ends_in(accepted)), ..self }
    }

    /// The run after changes were tried one after the other.
    pub open spec fn after_all(self, steps: Seq<(EditStep, bool)>) -> EditRunView
        decreases steps.len(),
    {
        if steps.len() == 0 {
            self
        } else {
            self.after_all(steps.drop_last()).after(steps.last().0, steps.last().1)
        }
    }
}

impl EditRun {
    /// A run through `total` changes, none of which was tried.
    pub fn new(total: usize) -> (run: EditRun)
        ensures
            run@ == (EditRunView { total: total as nat, edits: Seq::empty() }),
    {
        EditRun { total, edits: Vec::new() }
    }

    /// The position of the change to apply now.
    pub fn next(&self) -> (position: Option<usize>)
        ensures
            match position {
                Some(i) => self@.next() == Some(i as int),
                None => self@.next() is None,
            },
    {
        if self.edits.len() < self.total {
            Some(self.edits.len())
        } else {
            None
        }
    }

    /// Takes down how the change ended: what was done with it, and whether that was accepted.
    pub fn record(&mut self, step: EditStep, accepted: bool) -> (outcome: EditOutcome)
        requires
            old(self)@.next() is Some,
        ensures
            final(self)@ == old(self)@.after(step, accepted),
            outcome == step.ends_in(accepted),
    {
        let outcome = match step {
            EditStep::Skip => EditOutcome::InvalidRange,
            _ => if accepted {
                EditOutcome::Applied
            } else {
                EditOutcome::Rejected
            },
        };
        self.edits.push(outcome);
        outcome
    }

    /// Ends the run, after which `changes` are the files that changed.
    pub fn finish(self, changes: Vec<FileChange>) -> (edited: Edited)
        requires
            self@.next() is None,
        ensures
            edited.edits@ == self@.edits,
            edited.changes == changes,
    {
        Edited { edits: self.edits, changes }
    }
}

/// Every content change is tried in its turn, and a change that fails keeps none of the later
/// ones from being tried.
pub proof fn law_every_edit_is_tried(total: nat, steps: Seq<(EditStep, bool)>)
    requires
        steps.len() <= total,
    ensures
        ({
            let run = (EditRunView { total, edits: Seq::empty() }).after_all(steps);
            &&& run.edits == steps.map_values(|step: (EditStep, bool)| step.0.ends_in(step.1))
            &&& run.next() == if steps.len() < total {
                Some(steps.len() as int)
            } else {
                None
            }
        }),
    decreases steps.len(),
{
    let run = (EditRunView { total, edits: Seq::empty() }).after_all(steps);
    lemma_total_is_kept(EditRunView { total, edits: Seq::empty() }, steps);
    if steps.len() > 0 {
        law_every_edit_is_tried(total, steps.drop_last());
    }
    assert(run.edits =~= steps.map_values(|step: (EditStep, bool)| step.0.ends_in(step.1)));
}

proof fn lemma_total_is_kept(run: EditRunView, steps: Seq<(EditStep, bool)>)
    ensures
        run.after_all(steps).total == run.total,
    decreases steps.len(),
{
    if steps.len() > 0 {
        lemma_total_is_kept(run, steps.drop_last());
    }
}

/// A file goes out of sync if and only if one of its content changes was skipped or not accepted.
pub proof fn law_one_failed_edit_breaks_the_file(
    total: nat,
    steps: Seq<(EditStep, bool)>,
    edited: crate::state::EditedView,
)
    requires
        steps.len() <= total,
        edited.edits == (EditRunView { total, edits: Seq::empty() }).after_all(steps).edits,
    ensures
        edited.in_sync() <==> forall|i: int|
            0 <= i < steps.len() ==> (#[trigger] steps[i]).0 != EditStep::Skip && steps[i].1,
{
    law_every_edit_is_tried(total, steps);
    assert forall|i: int| 0 <= i < steps.len() implies (edited.edits[i] == EditOutcome::Applied
        <==> (#[trigger] steps[i]).0 != EditStep::Skip && steps[i].1) by {}
    if edited.in_sync() {
        assert forall|i: int| 0 <= i < steps.len() implies (#[trigger] steps[i]).0
            != EditStep::Skip && steps[i].1 by {
            assert(edited.edits[i] == EditOutcome::Applied);
        }
    } else {
        let i = choose|i: int|
            0 <= i < edited.edits.len() && #[trigger] edited.edits[i] != EditOutcome::Applied;
        assert(steps[i].0 == EditStep::Skip || !steps[i].1);
    }
}

/// A content change without a range replaces the whole content, and one with a range of the file
/// replaces that range. It counts as applied just where that was accepted; a change whose range is
/// no range of the file never does.
pub proof fn law_edit_is_applied_where_it_is_accepted(
    range: Option<bool>,
    step: EditStep,
    accepted: bool,
)
    requires
        call_ensures(edit_step, (range,), step),
    ensures
        step == EditStep::ReplaceAll <==> range is None,
        step == EditStep::ReplaceRange <==> range == Some(true),
        step == EditStep::Skip <==> range == Some(false),
        step.ends_in(accepted) == EditOutcome::Applied <==> range != Some(false) && accepted,
        step.ends_in(accepted) == EditOutcome::InvalidRange <==> range == Some(false),
        step.ends_in(accepted) == EditOutcome::Rejected <==> range != Some(false) && !accepted,
{
}

/// What came of a content change stands at its position, one outcome for each change that was
/// tried, and the run goes on until all were.
pub proof fn law_outcomes_stand_at_their_positions(total: nat, steps: Seq<(EditStep, bool)>)
    requires
        steps.len() <= total,
    ensures
        ({
            let run = (EditRunView { total, edits: Seq::empty() }).after_all(steps);
            &&& run.edits.len() == steps.len()
            &&& forall|i: int|
                0 <= i < steps.len() ==> ((#[trigger] run.edits[i]) == EditOutcome::Applied <==> (
                steps[i].0 != EditStep::Skip && steps[i].1))
            &&& run.next() is None <==> steps.len() == total
            &&& run.next() matches Some(position) ==> position == steps.len()
        }),
{
    law_every_edit_is_tried(total, steps);
}

/// Taking down how a change ended adds it behind the earlier outcomes. It counts as applied just
/// where it was not skipped and was accepted.
pub proof fn law_recording_adds_one_outcome(
    run: &mut EditRun,
    step: EditStep,
    accepted: bool,
    outcome: EditOutcome,
)
    requires
        call_ensures(EditRun::record, (run, step, accepted), outcome),
    ensures
        final(run)@.total == old(run)@.total,
        final(run)@.edits == old(run)@.edits.push(outcome),
        outcome == EditOutcome::Applied <==> step != EditStep::Skip && accepted,
        outcome == EditOutcome::InvalidRange <==> step == EditStep::Skip,
{
}

/// A run starts without outcomes, asks for the change behind the ones that were tried until all
/// were, and hands over every outcome and every changed file in the end.
pub proof fn law_run_covers_all_changes(
    total: usize,
    new: EditRun,
    run: EditRun,
    next: Option<usize>,
    changes: Vec<FileChange>,
    edited: Edited,
)
    requires
        call_ensures(EditRun::new, (total,), new),
        call_ensures(EditRun::next, (&run,), next),
        call_ensures(EditRun::finish, (run, changes), edited),
    ensures
        new@.total == total,
        new@.edits.len() == 0,
        next is Some <==> run@.edits.len() < run@.total,
        next matches Some(position) ==> position == run@.edits.len(),
        edited.edits@ == run@.edits,
        edited.changes@ == changes@,
{
}

} // verus!
