//! The watcher of one account: connect, select the mailbox, then look for new
//! messages and wait for the server in turn; after a failure, back off and
//! connect again. It never ends by itself.
//!
//! The watcher decides and the caller acts: each [`Action`] is carried out
//! outside and its outcome handed back as an [`Event`].

use vstd::prelude::*;
use crate::account::Account;
use crate::account::AccountView;
use crate::backoff::Backoff;
use crate::detector::announce;
use crate::detector::announcements;
use crate::detector::blocks_view;
use crate::detector::raised;
use crate::detector::survey;
use crate::detector::uid_set;
use crate::detector::uid_set_text;
use crate::detector::unseen;
use crate::notification::connection_failed;
use crate::notification::views;
use crate::notification::Notification;
use crate::notification::NotificationView;
use crate::push_wait::push_next;
use crate::push_wait::push_step;
use crate::push_wait::PushCommand;
use crate::push_wait::PushSignal;
use crate::push_wait::PushWaitState;
use crate::push_wait::WaitOutcome;
use crate::push_wait::MAX_WAIT_SECONDS;

verus! {

/// The mailbox that is watched.
pub const MAILBOX: &'static str = "INBOX";

/// The search that lists every UID of the mailbox.
pub const SEARCH_QUERY: &'static str = "ALL";

/// The part of a message that is fetched.
pub const HEADER_ITEM: &'static str = "RFC822.HEADER";

/// What is said of a server that cannot push.
pub const NO_PUSH_TEXT: &'static str = "server does not support IDLE";

/// The kinds of failure that cost the connection. Each is confined to its
/// account and answered by backing off.
#[derive(Clone, Copy, Debug, PartialEq, Eq, Structural)]
pub enum ErrorKind {
    /// The server could not be reached, or the line broke.
    Network,
    /// The server refused the login.
    Auth,
    /// The server answered a command with an error.
    Protocol,
    /// The server cannot push changes.
    UnsupportedServer,
}

/// Where a watcher stands.
#[derive(Clone, Copy, Debug, PartialEq, Eq, Structural)]
pub enum Phase {
    /// Not started yet.
    Disconnected,
    /// Connecting and logging in.
    Connecting,
    /// Selecting the mailbox.
    Selecting,
    /// Active: listing the UIDs of the mailbox.
    Searching,
    /// Active: fetching the headers of the new messages.
    Fetching,
    /// Active: the notifications are on their way.
    Notifying,
    /// Active: waiting for the server to report a change.
    PushWaiting(PushWaitState),
    /// Sleeping after a failure.
    Backoff,
}

/// What has happened outside since the last action.
#[derive(Debug)]
pub enum Event {
    /// The watcher is set going.
    Start,
    /// Connected and logged in; `push_wait` says whether the server offers
    /// to push changes.
    Connected { push_wait: bool },
    /// The mailbox is selected.
    Selected,
    /// The search returned these UIDs.
    Found(Vec<u32>),
    /// The fetch returned these header blocks, `None` for a message that came
    /// without one.
    Fetched(Vec<Option<Vec<u8>>>),
    /// The notifications have been handed over, delivered or not.
    Notified,
    /// The wait for the server has ended.
    PushWaitOver(WaitOutcome),
    /// The subscription is ended and the session free again.
    Resumed,
    /// The sleep is over.
    Slept,
    /// The action failed and the connection with it.
    Failed { kind: ErrorKind, text: String },
}

/// What the caller is to do next.
#[derive(Debug)]
pub enum Action {
    /// Connect to the account's server, log in and ask what it can do.
    Connect,
    /// Select the mailbox [`MAILBOX`].
    Select,
    /// Search the mailbox with [`SEARCH_QUERY`].
    Search,
    /// Fetch [`HEADER_ITEM`] of the messages of this UID set.
    Fetch(String),
    /// Send these notifications. One that cannot be delivered does not stop
    /// the others.
    Notify(Vec<Notification>),
    /// Subscribe to the server's change notices and wait, `max_seconds` at
    /// most.
    PushWait { max_seconds: u64 },
    /// End the subscription.
    PushDone,
    /// Give the connection up: log out first where `logout` says so, not
    /// minding whether that works; send the warning if there is one; then
    /// sleep for `seconds`.
    Backoff { cause: ErrorKind, logout: bool, warning: Option<Notification>, seconds: u64 },
}

/// An event as plain values.
pub ghost enum EventView {
    Start,
    Connected { push_wait: bool },
    Selected,
    Found(Seq<u32>),
    Fetched(Seq<Option<Seq<u8>>>),
    Notified,
    PushWaitOver(WaitOutcome),
    Resumed,
    Slept,
    Failed { kind: ErrorKind, text: Seq<char> },
}

/// An action as plain values.
pub ghost enum ActionView {
    Connect,
    Select,
    Search,
    Fetch(Seq<char>),
    Notify(Seq<NotificationView>),
    PushWait { max_seconds: u64 },
    PushDone,
    Backoff { cause: ErrorKind, logout: bool, warning: Option<NotificationView>, seconds: u64 },
}

impl View for Event {
    type V = EventView;

    open spec fn view(&self) -> EventView {
        match *self {
            Event::Start => EventView::Start,
            Event::Connected { push_wait } => EventView::Connected { push_wait },
            Event::Selected => EventView::Selected,
            Event::Found(uids) => EventView::Found(uids@),
            Event::Fetched(blocks) => EventView::Fetched(blocks_view(blocks@)),
            Event::Notified => EventView::Notified,
            Event::PushWaitOver(outcome) => EventView::PushWaitOver(outcome),
            Event::Resumed => EventView::Resumed,
            Event::Slept => EventView::Slept,
            Event::Failed { kind, text } => EventView::Failed { kind, text: text@ },
        }
    }
}

/// An optional notification as plain values.
pub open spec fn warning_view(warning: Option<Notification>) -> Option<NotificationView> {
    match warning {
        Some(n) => Some(n@),
        None => None,
    }
}

impl View for Action {
    type V = ActionView;

    open spec fn view(&self) -> ActionView {
        match *self {
            Action::Connect => ActionView::Connect,
            Action::Select => ActionView::Select,
            Action::Search => ActionView::Search,
            Action::Fetch(set) => ActionView::Fetch(set@),
            Action::Notify(list) => ActionView::Notify(views(list@)),
            Action::PushWait { max_seconds } => ActionView::PushWait { max_seconds },
            Action::PushDone => ActionView::PushDone,
            Action::Backoff { cause, logout, warning, seconds } => ActionView::Backoff {
                cause,
                logout,
                warning: warning_view(warning),
                seconds,
            },
        }
    }
}

/// The watcher of one account. It owns all that is remembered about the
/// account between two actions.
#[derive(Debug)]
pub struct Watcher {
    /// The account watched.
    pub account: Account,
    /// The highest UID that the user has been told about.
    pub watermark: u32,
    /// The retry schedule.
    pub backoff: Backoff,
    /// Where the watcher stands.
    pub phase: Phase,
}

/// A watcher as plain values.
pub ghost struct WatcherView {
    pub account: AccountView,
    pub watermark: u32,
    pub backoff: Backoff,
    pub phase: Phase,
}

impl View for Watcher {
    type V = WatcherView;

    open spec fn view(&self) -> WatcherView {
        WatcherView {
            account: self.account@,
            watermark: self.watermark,
            backoff: self.backoff,
            phase: self.phase,
        }
    }
}

/// Whether the phase belongs to the active cycle, in which a session is
/// open and the mailbox selected.
pub open spec fn is_active(phase: Phase) -> bool {
    phase is Searching || phase is Fetching || phase is Notifying || phase is PushWaiting
}

/// The watcher as it starts out for `account`: nothing seen, no failure
/// behind it.
pub open spec fn fresh(account: AccountView, backoff: Backoff) -> WatcherView {
    WatcherView { account, watermark: 0, backoff: backoff.succeeded(), phase: Phase::Disconnected }
}

/// The move after a failure that cost the connection: the delay of the
/// schedule is slept and doubled, and the user is warned if the delay has
/// reached the threshold.
pub open spec fn retreat(w: WatcherView, cause: ErrorKind, text: Seq<char>, logout: bool) -> (
    WatcherView,
    ActionView,
) {
    let retry = w.backoff.retry();
    (
        WatcherView { backoff: w.backoff.failed(), phase: Phase::Backoff, ..w },
        ActionView::Backoff {
            cause,
            logout,
            warning: if retry.escalate {
                Some(connection_failed(w.account, text, retry.seconds))
            } else {
                None
            },
            seconds: retry.seconds,
        },
    )
}

/// The move into a wait for the server.
pub open spec fn enter_push_wait(w: WatcherView) -> (WatcherView, ActionView) {
    (
        WatcherView { phase: Phase::PushWaiting(PushWaitState::Waiting), ..w },
        ActionView::PushWait { max_seconds: MAX_WAIT_SECONDS },
    )
}

/// The move on the UIDs that a search returned: the watermark rises to the
/// highest of them, and the headers of those above the old watermark are
/// fetched; where there is none, nothing is fetched and the wait begins.
pub open spec fn on_found(w: WatcherView, uids: Seq<u32>) -> (WatcherView, ActionView) {
    let seen = WatcherView { watermark: raised(w.watermark, uids), ..w };
    let fetch = unseen(w.watermark, uids);
    if fetch.len() == 0 {
        enter_push_wait(seen)
    } else {
        (WatcherView { phase: Phase::Fetching, ..seen }, ActionView::Fetch(uid_set(fetch)))
    }
}

/// The move on fetched header blocks: one notification for each block that
/// can be parsed; where there is none, the wait begins.
pub open spec fn on_fetched(w: WatcherView, blocks: Seq<Option<Seq<u8>>>) -> (
    WatcherView,
    ActionView,
) {
    let list = announcements(w.account, blocks);
    if list.len() == 0 {
        enter_push_wait(w)
    } else {
        (WatcherView { phase: Phase::Notifying, ..w }, ActionView::Notify(list))
    }
}

/// The watcher's move on `event`: the state it goes to and what it asks
/// for, or `None` where the event has no place in its phase.
pub open spec fn next(w: WatcherView, event: EventView) -> Option<(WatcherView, ActionView)> {
    match (w.phase, event) {
        (Phase::Disconnected, EventView::Start) | (Phase::Backoff, EventView::Slept) => Some(
            (WatcherView { phase: Phase::Connecting, ..w }, ActionView::Connect),
        ),
        (Phase::Connecting, EventView::Connected { push_wait }) => if push_wait {
            Some((WatcherView { phase: Phase::Selecting, ..w }, ActionView::Select))
        } else {
            Some(retreat(w, ErrorKind::UnsupportedServer, NO_PUSH_TEXT@, false))
        },
        (Phase::Selecting, EventView::Selected) => Some(
            (
                WatcherView { backoff: w.backoff.succeeded(), phase: Phase::Searching, ..w },
                ActionView::Search,
            ),
        ),
        (Phase::Searching, EventView::Found(uids)) => Some(on_found(w, uids)),
        (Phase::Fetching, EventView::Fetched(blocks)) => Some(on_fetched(w, blocks)),
        (Phase::Notifying, EventView::Notified) => Some(enter_push_wait(w)),
        (Phase::PushWaiting(state), EventView::PushWaitOver(outcome)) => match push_next(
            state,
            PushSignal::Ended(outcome),
        ) {
            Some((after, _)) => Some(
                (WatcherView { phase: Phase::PushWaiting(after), ..w }, ActionView::PushDone),
            ),
            None => None,
        },
        (Phase::PushWaiting(state), EventView::Resumed) => match push_next(
            state,
            PushSignal::Unsubscribed,
        ) {
            Some(_) => Some((WatcherView { phase: Phase::Searching, ..w }, ActionView::Search)),
            None => None,
        },
        (phase, EventView::Failed { kind, text }) => if phase is Connecting || phase is Selecting {
            Some(retreat(w, kind, text, false))
        } else if is_active(phase) && !(phase is Notifying) {
            Some(retreat(w, kind, text, true))
        } else {
            None
        },
        _ => None,
    }
}

/// The watcher after `event`: where the event has no place, as it was.
pub open spec fn state_after(w: WatcherView, event: EventView) -> WatcherView {
    match next(w, event) {
        Some((after, _)) => after,
        None => w,
    }
}

/// What the watcher asks for on `event`: nothing where the event has no
/// place.
pub open spec fn action_on(w: WatcherView, event: EventView) -> Option<ActionView> {
    match next(w, event) {
        Some((_, action)) => Some(action),
        None => None,
    }
}

/// The answer of a step as plain values.
pub open spec fn asked(r: Option<Action>) -> Option<ActionView> {
    match r {
        Some(action) => Some(action@),
        None => None,
    }
}

impl Watcher {
    /// A watcher for `account` that has seen nothing yet and waits to be
    /// started.
    pub fn new(account: Account, backoff: Backoff) -> (w: Watcher)
        ensures
            w@ == fresh(account@, backoff),
    {
        let mut backoff = backoff;
        backoff.succeed();
        Watcher { account, watermark: 0, backoff, phase: Phase::Disconnected }
    }

    fn retreat(&mut self, cause: ErrorKind, text: &str, logout: bool) -> (a: Action)
        ensures
            (final(self)@, a@) == retreat(old(self)@, cause, text@, logout),
    {
        let retry = self.backoff.fail();
        self.phase = Phase::Backoff;
        let warning = if retry.escalate {
            Some(Notification::connection_failed(&self.account, text, retry.seconds))
        } else {
            None
        };
        Action::Backoff { cause, logout, warning, seconds: retry.seconds }
    }

    fn enter_push_wait(&mut self) -> (a: Action)
        ensures
            (final(self)@, a@) == enter_push_wait(old(self)@),
    {
        match push_step(PushWaitState::IdleInit, PushSignal::Begin) {
            Some((state, PushCommand::Subscribe { max_seconds })) => {
                self.phase = Phase::PushWaiting(state);
                Action::PushWait { max_seconds }
            },
            _ => unreached(),
        }
    }

    fn on_found(&mut self, uids: &Vec<u32>) -> (a: Action)
        ensures
            (final(self)@, a@) == on_found(old(self)@, uids@),
    {
        let pass = survey(self.watermark, uids);
        self.watermark = pass.watermark;
        if pass.fetch.len() == 0 {
            self.enter_push_wait()
        } else {
            self.phase = Phase::Fetching;
            Action::Fetch(uid_set_text(&pass.fetch))
        }
    }

    fn on_fetched(&mut self, blocks: &Vec<Option<Vec<u8>>>) -> (a: Action)
        ensures
            (final(self)@, a@) == on_fetched(old(self)@, blocks_view(blocks@)),
    {
        let list = announce(&self.account, blocks);
        if list.len() == 0 {
            self.enter_push_wait()
        } else {
            self.phase = Phase::Notifying;
            Action::Notify(list)
        }
    }

    /// Takes in what happened and says what to do next. An event that has
    /// no place in the watcher's phase is refused with `None` and changes
    /// nothing.
    pub fn step(&mut self, event: Event) -> (r: Option<Action>)
        ensures
            final(self)@ == state_after(old(self)@, event@),
            asked(r) == action_on(old(self)@, event@),
    {
        match event {
            Event::Start => match self.phase {
                Phase::Disconnected => {
                    self.phase = Phase::Connecting;
                    Some(Action::Connect)
                },
                _ => None,
            },
            Event::Slept => match self.phase {
                Phase::Backoff => {
                    self.phase = Phase::Connecting;
                    Some(Action::Connect)
                },
                _ => None,
            },
            Event::Connected { push_wait } => match self.phase {
                Phase::Connecting => {
                    if push_wait {
                        self.phase = Phase::Selecting;
                        Some(Action::Select)
                    } else {
                        Some(self.retreat(ErrorKind::UnsupportedServer, NO_PUSH_TEXT, false))
                    }
                },
                _ => None,
            },
            Event::Selected => match self.phase {
                Phase::Selecting => {
                    self.backoff.succeed();
                    self.phase = Phase::Searching;
                    Some(Action::Search)
                },
                _ => None,
            },
            Event::Found(uids) => match self.phase {
                Phase::Searching => Some(self.on_found(&uids)),
                _ => None,
            },
            Event::Fetched(blocks) => match self.phase {
                Phase::Fetching => Some(self.on_fetched(&blocks)),
                _ => None,
            },
            Event::Notified => match self.phase {
                Phase::Notifying => Some(self.enter_push_wait()),
                _ => None,
            },
            Event::PushWaitOver(outcome) => match self.phase {
                Phase::PushWaiting(state) => match push_step(state, PushSignal::Ended(outcome)) {
                    Some((after, _)) => {
                        self.phase = Phase::PushWaiting(after);
                        Some(Action::PushDone)
                    },
                    None => None,
                },
                _ => None,
            },
            Event::Resumed => match self.phase {
                Phase::PushWaiting(state) => match push_step(state, PushSignal::Unsubscribed) {
                    Some(_) => {
                        self.phase = Phase::Searching;
                        Some(Action::Search)
                    },
                    None => None,
                },
                _ => None,
            },
            Event::Failed { kind, text } => match self.phase {
                Phase::Connecting | Phase::Selecting => Some(
                    self.retreat(kind, text.as_str(), false),
                ),
                Phase::Searching | Phase::Fetching | Phase::PushWaiting(_) => Some(
                    self.retreat(kind, text.as_str(), true),
                ),
                _ => None,
            },
        }
    }
}

/// The watermark of a watcher never goes down: the outcome of a search
/// raises it to the highest UID returned, if that is higher, and nothing
/// else moves it. Nothing that happens changes the account watched or the
/// settings of the retry schedule.
pub proof fn lemma_step_keeps(w: WatcherView, event: EventView)
    ensures
        state_after(w, event).watermark >= w.watermark,
        state_after(w, event).watermark == if w.phase is Searching && event is Found {
            raised(w.watermark, event->Found_0)
        } else {
            w.watermark
        },
        state_after(w, event).account == w.account,
        state_after(w, event).backoff.initial == w.backoff.initial,
        state_after(w, event).backoff.threshold == w.backoff.threshold,
{
}

/// A watcher never comes to rest: in every phase there is an event that it
/// takes, and every event taken is answered with an action.
pub proof fn lemma_never_stuck(w: WatcherView)
    ensures
        exists|event: EventView| #[trigger] next(w, event) is Some,
        forall|event: EventView| #[trigger]
            next(w, event) is Some <==> action_on(w, event) is Some,
{
    let event = match w.phase {
        Phase::Disconnected => EventView::Start,
        Phase::Connecting => EventView::Connected { push_wait: true },
        Phase::Selecting => EventView::Selected,
        Phase::Searching => EventView::Found(Seq::empty()),
        Phase::Fetching => EventView::Fetched(Seq::empty()),
        Phase::Notifying => EventView::Notified,
        Phase::PushWaiting(_) => EventView::Failed {
            kind: ErrorKind::Network,
            text: Seq::empty(),
        },
        Phase::Backoff => EventView::Slept,
    };
    assert(next(w, event) is Some);
}

/// Whether the phase is one that a watcher can come to: while it waits for
/// the server, the subscription has been asked for.
pub open spec fn settled(phase: Phase) -> bool {
    phase != Phase::PushWaiting(PushWaitState::IdleInit)
}

/// A watcher starts in a phase it can come to and every step keeps it in
/// one; and in such a phase a wait that has ended is always followed by the
/// end of the subscription, and that by the next search.
pub proof fn lemma_wait_is_closed(w: WatcherView, event: EventView, outcome: WaitOutcome)
    requires
        settled(w.phase),
    ensures
        settled(fresh(w.account, w.backoff).phase),
        settled(state_after(w, event).phase),
        w.phase == Phase::PushWaiting(PushWaitState::Waiting) ==> next(
            w,
            EventView::PushWaitOver(outcome),
        ) == Some(
            (
                WatcherView { phase: Phase::PushWaiting(PushWaitState::Done), ..w },
                ActionView::PushDone,
            ),
        ),
        w.phase == Phase::PushWaiting(PushWaitState::Done) ==> next(w, EventView::Resumed) == Some(
            (WatcherView { phase: Phase::Searching, ..w }, ActionView::Search),
        ),
{
}

/// Only messages above the watermark are fetched: a fetch is asked for on
/// the outcome of a search alone, and then for exactly the UIDs that the
/// search returned above the watermark, while the watermark rises to the
/// highest UID returned.
pub proof fn lemma_fetch_only_unseen(w: WatcherView, event: EventView)
    requires
        action_on(w, event) is Some,
        action_on(w, event)->0 is Fetch,
    ensures
        w.phase is Searching,
        event is Found,
        unseen(w.watermark, event->Found_0).len() > 0,
        action_on(w, event) == Some(ActionView::Fetch(uid_set(unseen(w.watermark, event->Found_0)))),
        state_after(w, event).watermark == raised(w.watermark, event->Found_0),
{
}

/// A search that finds nothing above the watermark is followed by no fetch
/// and no notification: the watcher goes straight to waiting, with the
/// watermark as it was.
pub proof fn lemma_quiet_pass(w: WatcherView, uids: Seq<u32>)
    requires
        w.phase is Searching,
        forall|i: int| 0 <= i < uids.len() ==> uids[i] <= w.watermark,
    ensures
        next(w, EventView::Found(uids)) == Some(enter_push_wait(w)),
        action_on(w, EventView::Found(uids)) == Some(
            ActionView::PushWait { max_seconds: MAX_WAIT_SECONDS },
        ),
        state_after(w, EventView::Found(uids)).watermark == w.watermark,
{
    crate::detector::lemma_empty_pass(w.account, w.watermark, uids);
}

/// A warning goes out with a retreat exactly when the delay that is about to
/// be slept has reached the threshold; the delay slept is the one in force,
/// and the next one is its double.
pub proof fn lemma_warning_gate(w: WatcherView, event: EventView)
    requires
        action_on(w, event) is Some,
        action_on(w, event)->0 is Backoff,
    ensures
        action_on(w, event)->0->seconds == w.backoff.delay,
        action_on(w, event)->0->warning is Some <==> w.backoff.delay >= w.backoff.threshold,
        state_after(w, event).phase is Backoff,
        state_after(w, event).backoff == w.backoff.failed(),
        action_on(w, event)->0->logout <==> is_active(w.phase),
{
}

/// Once the mailbox is selected the failures before count no longer: the
/// next failure waits the first delay again.
pub proof fn lemma_selected_resets(w: WatcherView)
    requires
        w.phase is Selecting,
    ensures
        state_after(w, EventView::Selected).backoff.delay == w.backoff.initial,
        state_after(w, EventView::Selected).phase is Searching,
        action_on(w, EventView::Selected) == Some(ActionView::Search),
{
}

/// What goes wrong with single messages does not cost the connection:
/// whatever header blocks a fetch returns and whatever becomes of the
/// notifications, the watcher stays in its active cycle.
pub proof fn lemma_message_trouble_stays_active(w: WatcherView, event: EventView)
    requires
        is_active(w.phase),
        event is Fetched || event is Notified,
    ensures
        is_active(state_after(w, event).phase),
        state_after(w, event).backoff == w.backoff,
{
}

/// A failure leaves the active cycle, or a connection attempt, only by way
/// of a retreat, and the sleep that follows leads back to connecting.
pub proof fn lemma_failure_backs_off(w: WatcherView, kind: ErrorKind, text: Seq<char>)
    requires
        w.phase is Connecting || w.phase is Selecting || (is_active(w.phase) && !(w.phase
            is Notifying)),
    ensures
        next(w, EventView::Failed { kind, text }) == Some(
            retreat(w, kind, text, is_active(w.phase)),
        ),
        next(state_after(w, EventView::Failed { kind, text }), EventView::Slept) == Some(
            (
                WatcherView { phase: Phase::Connecting, backoff: w.backoff.failed(), ..w },
                ActionView::Connect,
            ),
        ),
{
}

} // verus!
