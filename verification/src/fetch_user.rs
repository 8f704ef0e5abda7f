//! The decisions of the request that fetches a user's profile, as a machine
//! that the server drives: it performs each action and hands back what came of it.
use vstd::prelude::*;
use crate::errors::Error;

verus! {

/// How far a fetch has come.
#[derive(Debug, Clone, Copy, PartialEq, Eq, Structural)]
pub enum FetchStage {
    Start,
    LoadingTarget,
    CheckingAccess,
    Finished,
}

/// What the server hands to the machine.
#[derive(Debug)]
pub enum FetchEvent {
    /// The request: who asks, and about whom.
    Requested { user_id: String, target_id: String },
    /// Whether the target's profile could be loaded.
    TargetLoaded(Result<(), Error>),
    /// Whether the asking user may see the target.
    AccessChecked(Result<(), Error>),
}

/// What the machine asks the server to do next.
#[derive(Debug)]
pub enum FetchAction {
    /// Answer with the asking user's own profile.
    RespondWithSelf,
    /// Load the target's profile.
    LoadTarget,
    /// Work out whether the asking user may see the target.
    CheckAccess,
    /// Answer with the target's profile, as the asking user sees it.
    RespondWithTarget,
    /// Answer with this error.
    Fail(Error),
    /// Nothing: the event does not belong to this stage.
    Ignore,
}

/// The next stage and action of a fetch at `stage` on `event`.
pub open spec fn fetch_transition(stage: FetchStage, event: FetchEvent) -> (FetchStage, FetchAction) {
    match stage {
        FetchStage::Start => match event {
            FetchEvent::Requested { user_id, target_id } => if user_id@ == target_id@ {
                (FetchStage::Finished, FetchAction::RespondWithSelf)
            } else {
                (FetchStage::LoadingTarget, FetchAction::LoadTarget)
            },
            _ => (stage, FetchAction::Ignore),
        },
        FetchStage::LoadingTarget => match event {
            FetchEvent::TargetLoaded(Ok(_)) => (FetchStage::CheckingAccess, FetchAction::CheckAccess),
            FetchEvent::TargetLoaded(Err(e)) => (FetchStage::Finished, FetchAction::Fail(e)),
            _ => (stage, FetchAction::Ignore),
        },
        FetchStage::CheckingAccess => match event {
            FetchEvent::AccessChecked(Ok(_)) => (FetchStage::Finished, FetchAction::RespondWithTarget),
            FetchEvent::AccessChecked(Err(e)) => (FetchStage::Finished, FetchAction::Fail(e)),
            _ => (stage, FetchAction::Ignore),
        },
        FetchStage::Finished => (stage, FetchAction::Ignore),
    }
}

/// Takes one step of a fetch: a user who asks for themselves is answered at
/// once; otherwise the target is loaded, access is checked, and the target is
/// answered only once access is granted; any failure ends the fetch with its error.
pub fn fetch_step(stage: FetchStage, event: FetchEvent) -> (r: (FetchStage, FetchAction))
    ensures
        r == fetch_transition(stage, event),
{
    match stage {
        FetchStage::Start => match event {
            FetchEvent::Requested { user_id, target_id } => {
                if user_id == target_id {
                    (FetchStage::Finished, FetchAction::RespondWithSelf)
                } else {
                    (FetchStage::LoadingTarget, FetchAction::LoadTarget)
                }
            },
            _ => (stage, FetchAction::Ignore),
        },
        FetchStage::LoadingTarget => match event {
            FetchEvent::TargetLoaded(Ok(_)) => (FetchStage::CheckingAccess, FetchAction::CheckAccess),
            FetchEvent::TargetLoaded(Err(e)) => (FetchStage::Finished, FetchAction::Fail(e)),
            _ => (stage, FetchAction::Ignore),
        },
        FetchStage::CheckingAccess => match event {
            FetchEvent::AccessChecked(Ok(_)) => (FetchStage::Finished, FetchAction::RespondWithTarget),
            FetchEvent::AccessChecked(Err(e)) => (FetchStage::Finished, FetchAction::Fail(e)),
            _ => (stage, FetchAction::Ignore),
        },
        FetchStage::Finished => (stage, FetchAction::Ignore),
    }
}

/// Another user's profile is answered only in the step that learns that
/// access was granted.
pub proof fn lemma_target_only_after_access(stage: FetchStage, event: FetchEvent)
    ensures
        fetch_transition(stage, event).1 is RespondWithTarget ==> {
            &&& stage == FetchStage::CheckingAccess
            &&& event matches FetchEvent::AccessChecked(Ok(_))
        },
{
}

/// A user who asks for their own profile is answered at once, with no lookup
/// and no check of access.
pub proof fn lemma_self_answered_at_once(user_id: String, target_id: String)
    requires
        user_id@ == target_id@,
    ensures
        fetch_transition(FetchStage::Start, FetchEvent::Requested { user_id, target_id })
            == (FetchStage::Finished, FetchAction::RespondWithSelf),
{
}

/// A request about another user loads that user, whatever the two ids look
/// like; a user's own profile is answered only when the two ids are the same.
pub proof fn lemma_self_answered_only_for_self(stage: FetchStage, event: FetchEvent)
    ensures
        stage == FetchStage::Start ==> (event matches FetchEvent::Requested { user_id, target_id }
            ==> (user_id@ != target_id@ ==> fetch_transition(stage, event) == (
            FetchStage::LoadingTarget,
            FetchAction::LoadTarget,
        ))),
        fetch_transition(stage, event).1 is RespondWithSelf ==> {
            &&& stage == FetchStage::Start
            &&& event matches FetchEvent::Requested { user_id, target_id }
            &&& user_id@ == target_id@
        },
{
}

/// A finished fetch stays finished and asks for nothing more.
pub proof fn lemma_finished_is_final(event: FetchEvent)
    ensures
        fetch_transition(FetchStage::Finished, event) == (FetchStage::Finished, FetchAction::Ignore),
{
}

/// A failure ends the fetch with exactly the error that the server reported.
pub proof fn lemma_failure_ends_with_its_error(stage: FetchStage, e: Error)
    ensures
        stage == FetchStage::LoadingTarget ==> fetch_transition(stage, FetchEvent::TargetLoaded(Err(e)))
            == (FetchStage::Finished, FetchAction::Fail(e)),
        stage == FetchStage::CheckingAccess ==> fetch_transition(stage, FetchEvent::AccessChecked(Err(e)))
            == (FetchStage::Finished, FetchAction::Fail(e)),
{
}

} // verus!
