use vstd::prelude::*;
use crate::error::ProvisionError;
use crate::workflow::{transition, ActionView, EventView, ProvisioningView, Stage};

verus! {

/// Whether the provisioning has ended.
pub open spec fn ended(stage: Stage) -> bool {
    stage is Done || stage is Failed
}

/// The provisioning after a sequence of events.
pub open spec fn run(s: ProvisioningView, events: Seq<EventView>) -> ProvisioningView
    decreases events.len(),
{
    if events.len() == 0 {
        s
    } else {
        transition(run(s, events.drop_last()), events.last()).0
    }
}

/// The actions that a sequence of events calls for, one for each event.
pub open spec fn trace(s: ProvisioningView, events: Seq<EventView>) -> Seq<ActionView>
    decreases events.len(),
{
    if events.len() == 0 {
        seq![]
    } else {
        trace(s, events.drop_last()).push(transition(run(s, events.drop_last()), events.last()).1)
    }
}

/// The requester is told that the server exists only when the descriptor
/// has been written, and the provisioning finishes only when the requester
/// has been told.
pub proof fn lemma_success_is_told_last(s: ProvisioningView, event: EventView)
    ensures
        transition(s, event).1 is NotifyCreated ==> s.stage == Stage::WritingDescriptor
            && event is DescriptorWritten,
        transition(s, event).1 is Finish ==> s.stage == Stage::AnnouncingCreated
            && event is Notified,
        transition(s, event).0.stage is Done ==> s.stage is Done
            || transition(s, event).1 is Finish,
{
}

/// A step that fails says so, and fails for good: the action is `Fail`
/// with the error of the new stage.
pub proof fn lemma_failure_is_reported(s: ProvisioningView, event: EventView)
    requires
        !ended(s.stage),
        transition(s, event).0.stage is Failed,
    ensures
        transition(s, event).1 == (ActionView::Fail {
            error: transition(s, event).0.stage->Failed_0,
        }),
{
}

/// The record goes to the store only after the name was found free, a
/// port was taken and the version, if one was asked for, was found among
/// the known ones: that is, from the two stages that follow those checks.
pub proof fn lemma_record_follows_checks(s: ProvisioningView, event: EventView)
    requires
        transition(s, event).1 is InsertRecord,
    ensures
        s.stage == Stage::AnnouncingStart && s.request.version is None || s.stage
            == Stage::LoadingVersions,
{
}

/// The name is refused wherever the store finds it taken: at the check
/// before anything else is done, and at the insertion, should another
/// request have taken the name in between. Either way the provisioning
/// fails with `DuplicateName`, and neither a directory nor a descriptor
/// is asked for.
pub proof fn lemma_taken_name_is_refused(s: ProvisioningView)
    requires
        s.stage == Stage::CheckingName || s.stage == Stage::InsertingRecord,
    ensures
        ({
            let event = if s.stage == Stage::CheckingName {
                EventView::NameChecked { exists: true }
            } else {
                EventView::NameTaken
            };
            transition(s, event) == (
                ProvisioningView { stage: Stage::Failed(ProvisionError::DuplicateName), ..s },
                ActionView::Fail { error: ProvisionError::DuplicateName },
            )
        }),
{
}

/// Once a provisioning has ended, nothing moves it and no action follows,
/// whatever events come: after a failure no record is inserted, no
/// descriptor is written and no success is told.
pub proof fn lemma_ended_stays_ended(s: ProvisioningView, events: Seq<EventView>)
    requires
        ended(s.stage),
    ensures
        run(s, events) == s,
        trace(s, events).len() == events.len(),
        forall|i: int| 0 <= i < events.len() ==> trace(s, events)[i] == ActionView::Idle,
    decreases events.len(),
{
    if events.len() > 0 {
        lemma_ended_stays_ended(s, events.drop_last());
    }
}

} // verus!
