use vstd::prelude::*;

verus! {

/// How long, in milliseconds, the watcher waits for quiet before it rebuilds.
pub const DEBOUNCE_WINDOW_MS: u64 = 100;

/// The watcher's state between file-system notifications.
#[derive(Debug, Clone, Copy, PartialEq, Eq, Structural)]
pub enum WatchState {
    /// Waiting, with no timeout, for a first change.
    Idle,
    /// A change was seen; waiting for a debounce window with no further change.
    Debouncing,
}

/// What the watcher observed while waiting.
#[derive(Debug, Clone, Copy, PartialEq, Eq, Structural)]
pub enum WatchEvent {
    /// A file under a watched directory changed.
    Change,
    /// A whole debounce window passed with no change.
    Quiet,
}

/// What the watcher does next.
#[derive(Debug, Clone, Copy, PartialEq, Eq, Structural)]
pub enum WatchAction {
    /// Keep waiting.
    Wait,
    /// Rebuild the site in development mode, then tell every client to reload,
    /// whatever the build's outcome.
    RebuildAndReload,
}

/// The transition of the debounce state machine.
pub open spec fn step(s: WatchState, e: WatchEvent) -> (WatchState, WatchAction) {
    match (s, e) {
        (WatchState::Idle, WatchEvent::Change) => (WatchState::Debouncing, WatchAction::Wait),
        (WatchState::Idle, WatchEvent::Quiet) => (WatchState::Idle, WatchAction::Wait),
        (WatchState::Debouncing, WatchEvent::Change) => (
            WatchState::Debouncing,
            WatchAction::Wait,
        ),
        (WatchState::Debouncing, WatchEvent::Quiet) => (
            WatchState::Idle,
            WatchAction::RebuildAndReload,
        ),
    }
}

/// The state reached from `s` after the events `es`.
pub open spec fn run_state(s: WatchState, es: Seq<WatchEvent>) -> WatchState
    decreases es.len(),
{
    if es.len() == 0 {
        s
    } else {
        step(run_state(s, es.drop_last()), es.last()).0
    }
}

/// How many rebuilds (each followed by one reload signal) the events `es` cause from `s`.
pub open spec fn rebuilds(s: WatchState, es: Seq<WatchEvent>) -> nat
    decreases es.len(),
{
    if es.len() == 0 {
        0
    } else {
        rebuilds(s, es.drop_last()) + if step(run_state(s, es.drop_last()), es.last()).1
            == WatchAction::RebuildAndReload {
            1nat
        } else {
            0nat
        }
    }
}

/// `n` change notifications in a row.
pub open spec fn changes(n: nat) -> Seq<WatchEvent> {
    Seq::new(n, |i: int| WatchEvent::Change)
}

/// From a debouncing state, any run of changes keeps debouncing and rebuilds nothing.
proof fn lemma_changes_keep_debouncing(s: WatchState, n: nat)
    requires
        s == WatchState::Debouncing || n > 0,
    ensures
        run_state(s, changes(n)) == WatchState::Debouncing || (n == 0 && s == WatchState::Debouncing),
        rebuilds(s, changes(n)) == 0,
    decreases n,
{
    if n == 0 {
        assert(changes(0) =~= Seq::<WatchEvent>::empty());
    } else {
        let es = changes(n);
        assert(es.drop_last() =~= changes((n - 1) as nat));
        assert(es.last() == WatchEvent::Change);
        if n > 1 || s == WatchState::Debouncing {
            lemma_changes_keep_debouncing(s, (n - 1) as nat);
        } else {
            assert(changes(0) =~= Seq::<WatchEvent>::empty());
            assert(rebuilds(s, changes(0)) == 0);
        }
        assert(step(run_state(s, es.drop_last()), es.last()).1 == WatchAction::Wait);
        assert(rebuilds(s, es) == rebuilds(s, es.drop_last()));
    }
}

/// A burst of one or more changes followed by a quiet window triggers exactly
/// one rebuild, and with it one reload signal, and leaves the watcher idle.
pub proof fn lemma_burst_rebuilds_once(n: nat)
    requires
        n >= 1,
    ensures
        rebuilds(WatchState::Idle, changes(n).push(WatchEvent::Quiet)) == 1,
        run_state(WatchState::Idle, changes(n).push(WatchEvent::Quiet)) == WatchState::Idle,
{
    let es = changes(n).push(WatchEvent::Quiet);
    assert(es.drop_last() =~= changes(n));
    lemma_changes_keep_debouncing(WatchState::Idle, n);
}

impl WatchState {
    /// The state and action that follow `event` in this state.
    pub fn next(self, event: WatchEvent) -> (r: (WatchState, WatchAction))
        ensures
            r == step(self, event),
    {
        match (self, event) {
            (WatchState::Idle, WatchEvent::Change) => (WatchState::Debouncing, WatchAction::Wait),
            (WatchState::Idle, WatchEvent::Quiet) => (WatchState::Idle, WatchAction::Wait),
            (WatchState::Debouncing, WatchEvent::Change) => (
                WatchState::Debouncing,
                WatchAction::Wait,
            ),
            (WatchState::Debouncing, WatchEvent::Quiet) => (
                WatchState::Idle,
                WatchAction::RebuildAndReload,
            ),
        }
    }

    /// Tells whether the wait in this state ends after a debounce window.
    pub fn waits_with_timeout(self) -> (r: bool)
        ensures
            r == (self == WatchState::Debouncing),
    {
        match self {
            WatchState::Idle => false,
            WatchState::Debouncing => true,
        }
    }
}

} // verus!
