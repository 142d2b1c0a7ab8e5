use unseen_mail::push_wait::push_step;
use unseen_mail::push_wait::PushCommand;
use unseen_mail::push_wait::PushSignal;
use unseen_mail::push_wait::PushWaitState;
use unseen_mail::push_wait::WaitOutcome;
use unseen_mail::push_wait::MAX_WAIT_SECONDS;

#[test]
fn wait_ceiling_is_five_minutes() {
    assert_eq!(MAX_WAIT_SECONDS, 300);
}

#[test]
fn begin_subscribes_with_the_ceiling() {
    assert_eq!(
        push_step(PushWaitState::IdleInit, PushSignal::Begin),
        Some((PushWaitState::Waiting, PushCommand::Subscribe { max_seconds: 300 }))
    );
}

#[test]
fn every_outcome_leads_to_unsubscription() {
    for outcome in [WaitOutcome::Timeout, WaitOutcome::ServerPush, WaitOutcome::Interrupted] {
        assert_eq!(
            push_step(PushWaitState::Waiting, PushSignal::Ended(outcome)),
            Some((PushWaitState::Done, PushCommand::Unsubscribe))
        );
    }
}

#[test]
fn confirmation_releases_the_session() {
    assert_eq!(
        push_step(PushWaitState::Done, PushSignal::Unsubscribed),
        Some((PushWaitState::IdleInit, PushCommand::Release))
    );
}

#[test]
fn signals_out_of_place_are_refused() {
    let ended = PushSignal::Ended(WaitOutcome::Timeout);
    assert_eq!(push_step(PushWaitState::IdleInit, ended), None);
    assert_eq!(push_step(PushWaitState::IdleInit, PushSignal::Unsubscribed), None);
    assert_eq!(push_step(PushWaitState::Waiting, PushSignal::Begin), None);
    assert_eq!(push_step(PushWaitState::Waiting, PushSignal::Unsubscribed), None);
    assert_eq!(push_step(PushWaitState::Done, PushSignal::Begin), None);
    assert_eq!(push_step(PushWaitState::Done, ended), None);
}

#[test]
fn a_round_ends_where_it_began() {
    let mut state = PushWaitState::IdleInit;
    let signals =
        [PushSignal::Begin, PushSignal::Ended(WaitOutcome::ServerPush), PushSignal::Unsubscribed];
    for _ in 0..3 {
        for signal in signals {
            let (next, _) = push_step(state, signal).unwrap();
            state = next;
        }
        assert_eq!(state, PushWaitState::IdleInit);
    }
}
