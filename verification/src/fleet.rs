//! The fleet: one watcher for each account, none of which touches another.

use vstd::prelude::*;
use crate::account::Account;
use crate::backoff::Backoff;
use crate::watcher::action_on;
use crate::watcher::asked;
use crate::watcher::fresh;
use crate::watcher::state_after;
use crate::watcher::Action;
use crate::watcher::ActionView;
use crate::watcher::Event;
use crate::watcher::EventView;
use crate::watcher::Watcher;
use crate::watcher::WatcherView;

verus! {

/// The watchers of all accounts.
#[derive(Debug)]
pub struct Fleet {
    /// One watcher for each account, in the order of the accounts.
    pub watchers: Vec<Watcher>,
}

impl View for Fleet {
    type V = Seq<WatcherView>;

    open spec fn view(&self) -> Seq<WatcherView> {
        self.watchers@.map_values(|w: Watcher| w@)
    }
}

/// The fleet after `event` has reached the watcher at `index`: that watcher
/// has moved, the others are as they were. An index that no watcher has
/// changes nothing.
pub open spec fn fleet_after(fleet: Seq<WatcherView>, index: int, event: EventView) -> Seq<
    WatcherView,
> {
    if 0 <= index < fleet.len() {
        fleet.update(index, state_after(fleet[index], event))
    } else {
        fleet
    }
}

/// What the watcher at `index` asks for on `event`.
pub open spec fn fleet_action(fleet: Seq<WatcherView>, index: int, event: EventView) -> Option<
    ActionView,
> {
    if 0 <= index < fleet.len() {
        action_on(fleet[index], event)
    } else {
        None
    }
}

impl Fleet {
    /// A fresh watcher with the usual retry schedule for each account.
    pub fn new(accounts: &Vec<Account>) -> (fleet: Fleet)
        ensures
            fleet@.len() == accounts@.len(),
            forall|i: int|
                0 <= i < accounts@.len() ==> #[trigger] fleet@[i] == fresh(
                    accounts@[i]@,
                    Backoff {
                        initial: crate::backoff::INITIAL_DELAY,
                        threshold: crate::backoff::ESCALATION_THRESHOLD,
                        delay: crate::backoff::INITIAL_DELAY,
                    },
                ),
    {
        let mut watchers: Vec<Watcher> = Vec::new();
        let mut i: usize = 0;
        while i < accounts.len()
            invariant
                i <= accounts.len(),
                watchers@.len() == i,
                forall|j: int|
                    0 <= j < i ==> #[trigger] watchers@[j]@ == fresh(
                        accounts@[j]@,
                        Backoff {
                            initial: crate::backoff::INITIAL_DELAY,
                            threshold: crate::backoff::ESCALATION_THRESHOLD,
                            delay: crate::backoff::INITIAL_DELAY,
                        },
                    ),
            decreases accounts.len() - i,
        {
            watchers.push(Watcher::new(accounts[i].clone(), Backoff::standard()));
            i = i + 1;
        }
        Fleet { watchers }
    }

    /// The number of watchers.
    pub fn len(&self) -> (n: usize)
        ensures
            n == self@.len(),
    {
        self.watchers.len()
    }

    /// Hands `event` to the watcher at `index` and returns what it asks for.
    /// No other watcher is touched.
    pub fn deliver(&mut self, index: usize, event: Event) -> (r: Option<Action>)
        ensures
            final(self)@ == fleet_after(old(self)@, index as int, event@),
            asked(r) == fleet_action(old(self)@, index as int, event@),
    {
        if index < self.watchers.len() {
            let r = self.watchers[index].step(event);
            assert(self@ =~= fleet_after(old(self)@, index as int, event@));
            r
        } else {
            None
        }
    }

    /// Takes the fleet apart, so that each watcher can be run by itself.
    pub fn into_watchers(self) -> (watchers: Vec<Watcher>)
        ensures
            watchers@.map_values(|w: Watcher| w@) == self@,
    {
        self.watchers
    }
}

/// One account's trouble is its own: whatever reaches the watcher of one
/// account, the watcher of every other account keeps its watermark, its
/// retry schedule and its phase, and answers its own events as before.
pub proof fn lemma_isolation(
    fleet: Seq<WatcherView>,
    hit: int,
    event: EventView,
    other: int,
    later: EventView,
)
    requires
        0 <= other < fleet.len(),
        hit != other,
    ensures
        fleet_after(fleet, hit, event).len() == fleet.len(),
        fleet_after(fleet, hit, event)[other] == fleet[other],
        fleet_action(fleet_after(fleet, hit, event), other, later) == fleet_action(
            fleet,
            other,
            later,
        ),
        fleet_after(fleet_after(fleet, hit, event), other, later)[other] == fleet_after(
            fleet,
            other,
            later,
        )[other],
{
}

} // verus!
