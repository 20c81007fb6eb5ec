//! The lifecycle channel: snapshots of a market's progress, and the state
//! that each one puts the market in.

use super::SubscriptionChannel;
use crate::stream::time::Timestamp;
use std::cmp::Ordering;
use vstd::prelude::*;
use vstd::std_specs::cmp::PartialEqSpecImpl;
use vstd::std_specs::cmp::PartialOrdSpecImpl;

verus! {

/// The channel of market lifecycles. Every message on it is a whole
/// [`Lifecycle`], never a delta.
#[derive(Clone, Copy, Debug, Eq, Hash)]
pub struct MarketLifecycles;

impl PartialEq for MarketLifecycles {
    fn eq(&self, other: &MarketLifecycles) -> (r: bool) {
        true
    }
}

impl PartialEqSpecImpl for MarketLifecycles {
    open spec fn obeys_eq_spec() -> bool {
        true
    }

    open spec fn eq_spec(&self, other: &MarketLifecycles) -> bool {
        *self == *other
    }
}

impl SubscriptionChannel for MarketLifecycles {
    type Event = Lifecycle;
}

/// The phases of a market, in the order in which a market passes through them.
#[derive(Clone, Copy, Debug, PartialEq, Eq, Structural, Hash, Ord)]
pub enum LifecycleState {
    /// The market is open for trading.
    Opened,
    /// The market is open, but trading on it is suspended.
    Paused,
    /// The closing time has passed and nothing has been determined yet.
    Closed,
    /// The outcome is known.
    Determined,
    /// The market has been paid out.
    Settled,
}

impl LifecycleState {
    /// The place of this state in the progression, counted from zero.
    pub open spec fn stage(self) -> nat {
        match self {
            LifecycleState::Opened => 0,
            LifecycleState::Paused => 1,
            LifecycleState::Closed => 2,
            LifecycleState::Determined => 3,
            LifecycleState::Settled => 4,
        }
    }

    /// The place of this state in the progression, counted from zero.
    pub fn stage_number(&self) -> (stage: u8)
        ensures
            stage == self.stage(),
    {
        match self {
            LifecycleState::Opened => 0,
            LifecycleState::Paused => 1,
            LifecycleState::Closed => 2,
            LifecycleState::Determined => 3,
            LifecycleState::Settled => 4,
        }
    }

    /// The word for this state in text.
    pub open spec fn label(self) -> Seq<char> {
        match self {
            LifecycleState::Opened => "opened"@,
            LifecycleState::Paused => "paused"@,
            LifecycleState::Closed => "closed"@,
            LifecycleState::Determined => "determined"@,
            LifecycleState::Settled => "settled"@,
        }
    }

    /// The word for this state in text.
    pub fn as_str(&self) -> (label: &'static str)
        ensures
            label@ == self.label(),
    {
        match self {
            LifecycleState::Opened => "opened",
            LifecycleState::Paused => "paused",
            LifecycleState::Closed => "closed",
            LifecycleState::Determined => "determined",
            LifecycleState::Settled => "settled",
        }
    }

    /// The text of this state: its word.
    pub fn to_string(&self) -> (text: String)
        ensures
            text@ == self.label(),
    {
        self.as_str().to_owned()
    }
}

impl PartialOrd for LifecycleState {
    fn partial_cmp(&self, other: &LifecycleState) -> (r: Option<Ordering>) {
        let mine: u8 = self.stage_number();
        let theirs: u8 = other.stage_number();
        if mine < theirs {
            Some(Ordering::Less)
        } else if mine > theirs {
            Some(Ordering::Greater)
        } else {
            Some(Ordering::Equal)
        }
    }
}

impl PartialOrdSpecImpl for LifecycleState {
    open spec fn obeys_partial_cmp_spec() -> bool {
        true
    }

    /// States compare as their places in the progression do.
    open spec fn partial_cmp_spec(&self, other: &LifecycleState) -> Option<Ordering> {
        if self.stage() < other.stage() {
            Some(Ordering::Less)
        } else if self.stage() > other.stage() {
            Some(Ordering::Greater)
        } else {
            Some(Ordering::Equal)
        }
    }
}

/// The progression puts the five states in a line: no two states share a
/// place, and every place is one of the five.
pub proof fn stage_names_one_state(first: LifecycleState, second: LifecycleState)
    ensures
        first.stage() < 5,
        first.stage() == second.stage() <==> first == second,
{
}

/// The word names the state: states with the same word are the same.
pub proof fn label_names_one_state(first: LifecycleState, second: LifecycleState)
    requires
        first.label() == second.label(),
    ensures
        first == second,
{
    reveal_strlit("opened");
    reveal_strlit("paused");
    reveal_strlit("closed");
    reveal_strlit("determined");
    reveal_strlit("settled");
    assert("opened"@[0] == 'o');
    assert("paused"@[0] == 'p');
    assert("closed"@[0] == 'c');
    assert("determined"@[0] == 'd');
    assert("settled"@[0] == 's');
}

/// What the exchange reports of one market's progress.
#[derive(Debug)]
pub struct Lifecycle {
    /// When the market opened.
    pub open_ts: Timestamp,
    /// When the market is due to close. The exchange moves it forward when a
    /// market is determined early.
    pub close_ts: Timestamp,
    /// When the market was determined; absent until it is.
    pub determination_ts: Option<Timestamp>,
    /// When the market was settled; absent until it is.
    pub settled_ts: Option<Timestamp>,
    /// The outcome; absent until the market is determined.
    pub result: Option<String>,
    /// Whether trading is suspended. It counts only while the market is open.
    pub is_deactivated: bool,
}

/// A [`Lifecycle`] as a mathematical value.
pub struct LifecycleView {
    pub open_ts: Timestamp,
    pub close_ts: Timestamp,
    pub determination_ts: Option<Timestamp>,
    pub settled_ts: Option<Timestamp>,
    pub result: Option<Seq<char>>,
    pub is_deactivated: bool,
}

impl View for Lifecycle {
    type V = LifecycleView;

    open spec fn view(&self) -> LifecycleView {
        LifecycleView {
            open_ts: self.open_ts,
            close_ts: self.close_ts,
            determination_ts: self.determination_ts,
            settled_ts: self.settled_ts,
            result: match self.result {
                Some(text) => Some(text@),
                None => None,
            },
            is_deactivated: self.is_deactivated,
        }
    }
}

/// The state that a snapshot puts a market in, with the times that go with it.
#[derive(Clone, Copy, Debug, PartialEq, Eq)]
pub struct LifecycleUpdate {
    /// The state of the market.
    pub state: LifecycleState,
    /// The instant that the snapshot gives for that state.
    pub status_ts: Timestamp,
    /// The instant at which the snapshot was classified.
    pub update_ts: Timestamp,
}

impl LifecycleUpdate {
    pub fn new(state: LifecycleState, status_ts: Timestamp, update_ts: Timestamp) -> (u: Self)
        ensures
            u.state == state,
            u.status_ts == status_ts,
            u.update_ts == update_ts,
    {
        LifecycleUpdate { state, status_ts, update_ts }
    }
}

impl LifecycleView {
    /// The classification of this snapshot at the instant `now`. The first of
    /// these that applies decides: settled, determined, past its closing time,
    /// deactivated, open.
    pub open spec fn classification(self, now: Timestamp) -> LifecycleUpdate {
        if let Some(settled_ts) = self.settled_ts {
            LifecycleUpdate { state: LifecycleState::Settled, status_ts: settled_ts, update_ts: now }
        } else if let Some(determination_ts) = self.determination_ts {
            LifecycleUpdate {
                state: LifecycleState::Determined,
                status_ts: determination_ts,
                update_ts: now,
            }
        } else if now.is_at_or_after(self.close_ts) {
            LifecycleUpdate { state: LifecycleState::Closed, status_ts: self.close_ts, update_ts: now }
        } else if self.is_deactivated {
            LifecycleUpdate { state: LifecycleState::Paused, status_ts: now, update_ts: now }
        } else {
            LifecycleUpdate { state: LifecycleState::Opened, status_ts: self.open_ts, update_ts: now }
        }
    }
}

impl Lifecycle {
    /// Classifies this snapshot as of `now`.
    pub fn classify(&self, now: Timestamp) -> (u: LifecycleUpdate)
        ensures
            u == self@.classification(now),
    {
        let expired = now >= self.close_ts;
        let (state, status_ts) = match (
            self.settled_ts,
            self.determination_ts,
            expired,
            self.is_deactivated,
        ) {
            (Some(settled_ts), _, _, _) => (LifecycleState::Settled, settled_ts),
            (None, Some(determination_ts), _, _) => (LifecycleState::Determined, determination_ts),
            (None, None, true, _) => (LifecycleState::Closed, self.close_ts),
            (None, None, false, true) => (LifecycleState::Paused, now),
            (None, None, false, false) => (LifecycleState::Opened, self.open_ts),
        };
        LifecycleUpdate::new(state, status_ts, now)
    }

    /// Classifies this snapshot as of the instant that the system clock
    /// shows, and always returns an update. The clock is read once; what it
    /// showed is the update's `update_ts`.
    ///
    /// Panics when the system clock is set before 1970.
    pub fn update(&self) -> (r: Option<LifecycleUpdate>)
        ensures
            r matches Some(u) && u == self@.classification(u.update_ts),
    {
        let now = Timestamp::now();
        Some(self.classify(now))
    }
}

/// Classification is total: whatever the snapshot and the instant, the state
/// is one of the five, and each state comes with exactly the condition that
/// the order of precedence gives it.
pub proof fn classification_is_total(snapshot: LifecycleView, now: Timestamp)
    ensures
        ({
            let state = snapshot.classification(now).state;
            let terminal = snapshot.settled_ts is Some || snapshot.determination_ts is Some;
            let expired = now.is_at_or_after(snapshot.close_ts);
            &&& state == LifecycleState::Settled <==> snapshot.settled_ts is Some
            &&& state == LifecycleState::Determined <==> snapshot.settled_ts is None
                && snapshot.determination_ts is Some
            &&& state == LifecycleState::Closed <==> !terminal && expired
            &&& state == LifecycleState::Paused <==> !terminal && !expired
                && snapshot.is_deactivated
            &&& state == LifecycleState::Opened <==> !terminal && !expired
                && !snapshot.is_deactivated
            &&& state == LifecycleState::Settled || state == LifecycleState::Determined || state
                == LifecycleState::Closed || state == LifecycleState::Paused || state
                == LifecycleState::Opened
        }),
{
}

/// A settlement time decides alone: the market is settled as of that time,
/// whatever the other fields and the instant are.
pub proof fn settlement_dominates(snapshot: LifecycleView, now: Timestamp)
    requires
        snapshot.settled_ts is Some,
    ensures
        snapshot.classification(now).state == LifecycleState::Settled,
        snapshot.classification(now).status_ts == snapshot.settled_ts->0,
{
}

/// Without a settlement time, a determination time decides: the market is
/// determined as of that time.
pub proof fn determination_dominates(snapshot: LifecycleView, now: Timestamp)
    requires
        snapshot.settled_ts is None,
        snapshot.determination_ts is Some,
    ensures
        snapshot.classification(now).state == LifecycleState::Determined,
        snapshot.classification(now).status_ts == snapshot.determination_ts->0,
{
}

/// With neither of the two, a market whose closing time has come is closed as
/// of its closing time, deactivated or not.
pub proof fn closing_time_dominates(snapshot: LifecycleView, now: Timestamp)
    requires
        snapshot.settled_ts is None,
        snapshot.determination_ts is None,
        now.is_at_or_after(snapshot.close_ts),
    ensures
        snapshot.classification(now).state == LifecycleState::Closed,
        snapshot.classification(now).status_ts == snapshot.close_ts,
{
}

/// Before its closing time, a market with neither of the two is paused as of
/// `now` when it is deactivated, and open as of its opening time when not.
pub proof fn open_market_follows_the_flag(snapshot: LifecycleView, now: Timestamp)
    requires
        snapshot.settled_ts is None,
        snapshot.determination_ts is None,
        now.is_before(snapshot.close_ts),
    ensures
        snapshot.is_deactivated ==> snapshot.classification(now).state == LifecycleState::Paused
            && snapshot.classification(now).status_ts == now,
        !snapshot.is_deactivated ==> snapshot.classification(now).state == LifecycleState::Opened
            && snapshot.classification(now).status_ts == snapshot.open_ts,
{
}

/// The update always carries the instant at which it was made.
pub proof fn update_time_is_now(snapshot: LifecycleView, now: Timestamp)
    ensures
        snapshot.classification(now).update_ts == now,
{
}

/// Classification is a function of the snapshot's value and the instant:
/// snapshots that hold the same values, classified at the same instant, give
/// the same update.
pub proof fn classification_is_deterministic(
    first: Lifecycle,
    second: Lifecycle,
    first_now: Timestamp,
    second_now: Timestamp,
)
    requires
        first@ == second@,
        first_now == second_now,
    ensures
        first@.classification(first_now) == second@.classification(second_now),
{
}

/// A snapshot that carries a determination or settlement time is classified
/// as determined or settled at every instant, with the same state and the same
/// status time each time.
pub proof fn terminal_states_are_sticky(
    snapshot: LifecycleView,
    earlier: Timestamp,
    later: Timestamp,
)
    requires
        snapshot.settled_ts is Some || snapshot.determination_ts is Some,
    ensures
        snapshot.classification(earlier).state == snapshot.classification(later).state,
        snapshot.classification(earlier).status_ts == snapshot.classification(later).status_ts,
        snapshot.classification(earlier).state == LifecycleState::Determined
            || snapshot.classification(earlier).state == LifecycleState::Settled,
{
}

} // verus!
