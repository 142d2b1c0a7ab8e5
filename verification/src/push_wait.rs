//! The push-wait controller: subscribe to the server's change notices, wait
//! for one within a fixed ceiling, and always unsubscribe again so that the
//! session can be used for the next command.

use vstd::prelude::*;

verus! {

/// Longest time, in seconds, that one wait may last. Servers drop a
/// connection that idles for much longer.
pub const MAX_WAIT_SECONDS: u64 = 300;

/// Where the controller stands.
#[derive(Clone, Copy, Debug, PartialEq, Eq, Structural)]
pub enum PushWaitState {
    /// Nothing has been sent yet.
    IdleInit,
    /// Subscribed, and waiting for the server.
    Waiting,
    /// The wait is over; the subscription is being ended.
    Done,
}

/// Why a wait ended.
#[derive(Clone, Copy, Debug, PartialEq, Eq, Structural)]
pub enum WaitOutcome {
    /// The ceiling was reached.
    Timeout,
    /// The server reported a change.
    ServerPush,
    /// The wait was interrupted from outside.
    Interrupted,
}

/// What the controller is told.
#[derive(Clone, Copy, Debug, PartialEq, Eq, Structural)]
pub enum PushSignal {
    /// A wait is wanted.
    Begin,
    /// The wait has ended.
    Ended(WaitOutcome),
    /// The server has confirmed the end of the subscription.
    Unsubscribed,
}

/// What the controller asks for.
#[derive(Clone, Copy, Debug, PartialEq, Eq, Structural)]
pub enum PushCommand {
    /// Subscribe, then wait for at most `max_seconds`.
    Subscribe { max_seconds: u64 },
    /// End the subscription.
    Unsubscribe,
    /// Hand the session back: it is free for the next command.
    Release,
}

/// The controller's move on `signal` in `state`, or `None` where the signal
/// has no place in that state.
pub open spec fn push_next(state: PushWaitState, signal: PushSignal) -> Option<
    (PushWaitState, PushCommand),
> {
    match (state, signal) {
        (PushWaitState::IdleInit, PushSignal::Begin) => Some(
            (PushWaitState::Waiting, PushCommand::Subscribe { max_seconds: MAX_WAIT_SECONDS }),
        ),
        (PushWaitState::Waiting, PushSignal::Ended(_)) => Some(
            (PushWaitState::Done, PushCommand::Unsubscribe),
        ),
        (PushWaitState::Done, PushSignal::Unsubscribed) => Some(
            (PushWaitState::IdleInit, PushCommand::Release),
        ),
        _ => None,
    }
}

/// Moves the controller. A signal that has no place in the state is refused
/// with `None`.
pub fn push_step(state: PushWaitState, signal: PushSignal) -> (r: Option<
    (PushWaitState, PushCommand),
>)
    ensures
        r == push_next(state, signal),
{
    match state {
        PushWaitState::IdleInit => match signal {
            PushSignal::Begin => Some(
                (PushWaitState::Waiting, PushCommand::Subscribe { max_seconds: MAX_WAIT_SECONDS }),
            ),
            _ => None,
        },
        PushWaitState::Waiting => match signal {
            PushSignal::Ended(_) => Some((PushWaitState::Done, PushCommand::Unsubscribe)),
            _ => None,
        },
        PushWaitState::Done => match signal {
            PushSignal::Unsubscribed => Some((PushWaitState::IdleInit, PushCommand::Release)),
            _ => None,
        },
    }
}

/// However a wait ends, the subscription is ended and the session handed
/// back: a round of begin, end and confirmation asks for a bounded wait,
/// then for the unsubscription, then releases the session, and leaves the
/// controller where it began.
pub proof fn lemma_wait_round(outcome: WaitOutcome)
    ensures
        push_next(PushWaitState::IdleInit, PushSignal::Begin) == Some(
            (PushWaitState::Waiting, PushCommand::Subscribe { max_seconds: MAX_WAIT_SECONDS }),
        ),
        push_next(PushWaitState::Waiting, PushSignal::Ended(outcome)) == Some(
            (PushWaitState::Done, PushCommand::Unsubscribe),
        ),
        push_next(PushWaitState::Done, PushSignal::Unsubscribed) == Some(
            (PushWaitState::IdleInit, PushCommand::Release),
        ),
{
}

/// The session is released only out of `Done`, that is after an
/// unsubscription was asked for; and a wait is only begun out of `IdleInit`.
pub proof fn lemma_release_follows_unsubscribe(state: PushWaitState, signal: PushSignal)
    ensures
        push_next(state, signal) matches Some((_, PushCommand::Release)) ==> state
            == PushWaitState::Done,
        push_next(state, signal) matches Some((_, PushCommand::Unsubscribe)) ==> state
            == PushWaitState::Waiting,
        push_next(state, signal) matches Some((_, PushCommand::Subscribe { max_seconds })) ==> state
            == PushWaitState::IdleInit && max_seconds == MAX_WAIT_SECONDS,
{
}

} // verus!
