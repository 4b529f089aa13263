//! The session's phase and the signals that move it.
use vstd::prelude::*;

verus! {

/// The phase of a session. `Menu` is where a session starts; `Win` and `Lose`
/// end it.
#[derive(Debug, Clone, Copy, PartialEq, Eq, Hash, Structural)]
pub enum AppState {
    Menu,
    Game,
    Win,
    Lose,
}

/// What can move a session from one phase to another.
#[derive(Debug, Clone, Copy, PartialEq, Eq, Structural)]
pub enum Signal {
    /// The start key was held on the menu.
    Start,
    /// The pursued actor reached its destination; `seen` is the result of the
    /// sight check made at that instant.
    Arrival { seen: bool },
}

impl AppState {
    /// `Win` and `Lose` are the terminal phases.
    pub open spec fn terminal(self) -> bool {
        self == AppState::Win || self == AppState::Lose
    }

    /// The phase that follows `self` on `signal`.
    pub open spec fn after(self, signal: Signal) -> AppState {
        match (self, signal) {
            (AppState::Menu, Signal::Start) => AppState::Game,
            (AppState::Game, Signal::Arrival { seen }) => if seen {
                AppState::Lose
            } else {
                AppState::Win
            },
            _ => self,
        }
    }

    /// The phase reached from `self` when `signals` arrive in order.
    pub open spec fn after_all(self, signals: Seq<Signal>) -> AppState
        decreases signals.len(),
    {
        if signals.len() == 0 {
            self
        } else {
            self.after(signals.first()).after_all(signals.drop_first())
        }
    }

    /// The phase in which every session starts.
    pub fn initial() -> (state: AppState)
        ensures
            state == AppState::Menu,
    {
        AppState::Menu
    }

    /// Whether the session is over.
    pub fn is_terminal(self) -> (over: bool)
        ensures
            over == self.terminal(),
    {
        match self {
            AppState::Win | AppState::Lose => true,
            AppState::Menu | AppState::Game => false,
        }
    }

    /// Whether the per-frame simulation runs in this phase.
    pub fn simulates(self) -> (runs: bool)
        ensures
            runs == (self == AppState::Game),
    {
        match self {
            AppState::Game => true,
            _ => false,
        }
    }

    /// Applies one signal.
    pub fn on_signal(self, signal: Signal) -> (next: AppState)
        ensures
            next == self.after(signal),
    {
        match self {
            AppState::Menu => match signal {
                Signal::Start => AppState::Game,
                Signal::Arrival { .. } => AppState::Menu,
            },
            AppState::Game => match signal {
                Signal::Start => AppState::Game,
                Signal::Arrival { seen } => if seen {
                    AppState::Lose
                } else {
                    AppState::Win
                },
            },
            AppState::Win => AppState::Win,
            AppState::Lose => AppState::Lose,
        }
    }
}

/// The menu's only rule: while the start key is held, the session begins.
/// In any other phase the key does nothing.
pub fn main_menu_space_to_start(state: AppState, space_pressed: bool) -> (next: AppState)
    ensures
        next == if space_pressed {
            state.after(Signal::Start)
        } else {
            state
        },
        next != state <==> space_pressed && state == AppState::Menu,
{
    if space_pressed {
        state.on_signal(Signal::Start)
    } else {
        state
    }
}

/// A signal changes the phase in exactly three ways: a start on the menu
/// begins the game, an arrival while seen loses it, and an arrival while
/// unseen wins it. Every other pair of phase and signal leaves the phase as
/// it was.
pub proof fn lemma_only_listed_transitions(state: AppState, signal: Signal)
    ensures
        state.after(signal) != state <==> (state == AppState::Menu && signal == Signal::Start) || (
        state == AppState::Game && signal is Arrival),
        state == AppState::Menu && signal == Signal::Start ==> state.after(signal)
            == AppState::Game,
        state == AppState::Game && signal == (Signal::Arrival { seen: true }) ==> state.after(
            signal,
        ) == AppState::Lose,
        state == AppState::Game && signal == (Signal::Arrival { seen: false }) ==> state.after(
            signal,
        ) == AppState::Win,
{
}

/// Nothing leaves a terminal phase: whatever signals follow a win or a loss,
/// the phase stays.
pub proof fn lemma_terminal_is_final(state: AppState, signals: Seq<Signal>)
    requires
        state.terminal(),
    ensures
        state.after_all(signals) == state,
    decreases signals.len(),
{
    if signals.len() > 0 {
        lemma_terminal_is_final(state, signals.drop_first());
    }
}

/// No sequence of signals leads back to the menu once it has been left.
pub proof fn lemma_menu_is_never_reentered(state: AppState, signals: Seq<Signal>)
    requires
        state != AppState::Menu,
    ensures
        state.after_all(signals) != AppState::Menu,
    decreases signals.len(),
{
    if signals.len() > 0 {
        lemma_menu_is_never_reentered(state.after(signals.first()), signals.drop_first());
    }
}

} // verus!
