use pursuit::state::{main_menu_space_to_start, AppState, Signal};

const ALL: [AppState; 4] = [AppState::Menu, AppState::Game, AppState::Win, AppState::Lose];

#[test]
fn session_starts_on_the_menu() {
    assert_eq!(AppState::initial(), AppState::Menu);
}

#[test]
fn start_leaves_the_menu() {
    assert_eq!(AppState::Menu.on_signal(Signal::Start), AppState::Game);
    assert_eq!(main_menu_space_to_start(AppState::Menu, true), AppState::Game);
}

#[test]
fn menu_waits_without_the_key() {
    assert_eq!(main_menu_space_to_start(AppState::Menu, false), AppState::Menu);
}

#[test]
fn arrival_does_nothing_on_the_menu() {
    assert_eq!(AppState::Menu.on_signal(Signal::Arrival { seen: true }), AppState::Menu);
    assert_eq!(AppState::Menu.on_signal(Signal::Arrival { seen: false }), AppState::Menu);
}

#[test]
fn start_does_nothing_in_the_game() {
    assert_eq!(AppState::Game.on_signal(Signal::Start), AppState::Game);
    assert_eq!(main_menu_space_to_start(AppState::Game, true), AppState::Game);
}

#[test]
fn seen_on_arrival_loses() {
    assert_eq!(AppState::Game.on_signal(Signal::Arrival { seen: true }), AppState::Lose);
}

#[test]
fn unseen_on_arrival_wins() {
    assert_eq!(AppState::Game.on_signal(Signal::Arrival { seen: false }), AppState::Win);
}

#[test]
fn nothing_leaves_a_terminal_phase() {
    for end in [AppState::Win, AppState::Lose] {
        assert!(end.is_terminal());
        for signal in [Signal::Start, Signal::Arrival { seen: true }, Signal::Arrival { seen: false }] {
            assert_eq!(end.on_signal(signal), end);
        }
        assert_eq!(main_menu_space_to_start(end, true), end);
    }
}

#[test]
fn only_the_game_simulates() {
    for phase in ALL {
        assert_eq!(phase.simulates(), phase == AppState::Game);
        assert_eq!(phase.is_terminal(), phase == AppState::Win || phase == AppState::Lose);
    }
}

#[test]
fn a_whole_session_in_signals() {
    let mut phase = AppState::initial();
    for signal in [
        Signal::Arrival { seen: true },
        Signal::Start,
        Signal::Start,
        Signal::Arrival { seen: false },
        Signal::Arrival { seen: true },
        Signal::Start,
    ] {
        phase = phase.on_signal(signal);
    }
    assert_eq!(phase, AppState::Win);
}
