use nurep::{
    remaining_delay, Action, Cluster, Color, Connection, DrawCommand, Game, Phase, Planet, State,
    Transform, TICK_MS,
};
use std::collections::HashMap;

fn game_of(num_turns: i32) -> Game {
    let mut turns: HashMap<i32, i32> = HashMap::new();
    for turn in 1..=8 {
        turns.insert(turn, turn);
    }
    let mut planet_to_owners: HashMap<i32, HashMap<i32, i32>> = HashMap::new();
    planet_to_owners.insert(1, turns);
    Game {
        cluster: Cluster {
            planets: vec![Planet { id: 1, position: (3, 4) }],
            connections: vec![Connection { id_a: 1, id_b: 1 }],
            dimensions: Some((10, 10)),
        },
        planet_to_owners,
        num_turns,
    }
}

fn circle_colour(commands: &[DrawCommand]) -> Color {
    match commands.last() {
        Some(DrawCommand::Circle { color, .. }) => *color,
        other => panic!("no circle at the end of the frame: {:?}", other),
    }
}

#[test]
fn new_session_runs_at_turn_one() {
    let state = State::new(game_of(3), 640, 480);
    assert_eq!(state.turn, 1);
    assert_eq!(state.phase, Phase::Running);
    assert_eq!(state.game, game_of(3));
    assert_eq!(state.transform, Transform::new(640, 480, (10, 10)));
    assert!(!state.finished());
}

#[test]
fn three_turns_give_three_frames_in_order() {
    let mut state = State::new(game_of(3), 640, 480);
    let none: Vec<Action> = Vec::new();
    let mut shown: Vec<Color> = Vec::new();
    let mut ticks = 0;
    loop {
        ticks += 1;
        match state.tick(&none) {
            Some(commands) => shown.push(circle_colour(&commands)),
            None => break,
        }
    }
    assert_eq!(ticks, 4);
    assert_eq!(
        shown,
        vec![
            Color { r: 0, g: 0xff, b: 0 },
            Color { r: 0, g: 0xff, b: 0x80 },
            Color { r: 0, g: 0xff, b: 0xff },
        ]
    );
    assert_eq!(state.phase, Phase::Stopped);
    assert_eq!(state.turn, 4);
    assert!(state.finished());
    assert_eq!(state.tick(&none), None);
    assert_eq!(state.phase, Phase::Stopped);
    assert_eq!(state.turn, 4);
}

#[test]
fn each_tick_shows_the_frame_of_its_turn() {
    let mut state = State::new(game_of(5), 640, 480);
    let none: Vec<Action> = Vec::new();
    for turn in 1..=5 {
        assert!(!state.finished());
        assert_eq!(state.turn, turn);
        let mut at_turn = State::new(game_of(5), 640, 480);
        at_turn.turn = turn;
        let expected = nurep::draw(&at_turn);
        assert_eq!(state.tick(&none), Some(expected));
        assert_eq!(state.phase, Phase::Running);
    }
    assert!(state.finished());
    assert_eq!(state.turn, 6);
}

#[test]
fn quit_ends_a_running_session_without_a_frame() {
    let mut state = State::new(game_of(3), 640, 480);
    assert!(state.tick(&vec![]).is_some());
    assert_eq!(state.tick(&vec![Action::Quit]), None);
    assert_eq!(state.phase, Phase::Quitting);
    assert_eq!(state.turn, 2);
    assert!(state.finished());
    assert_eq!(state.tick(&vec![]), None);
    assert_eq!(state.phase, Phase::Quitting);
    assert_eq!(state.turn, 2);
}

#[test]
fn quit_at_the_first_tick_shows_nothing() {
    let mut state = State::new(game_of(3), 640, 480);
    assert_eq!(state.tick(&vec![Action::Quit, Action::Quit]), None);
    assert_eq!(state.phase, Phase::Quitting);
    assert_eq!(state.turn, 1);
}

#[test]
fn session_past_its_last_turn_stops_even_when_asked_to_quit() {
    let mut state = State::new(game_of(1), 640, 480);
    assert!(state.tick(&vec![]).is_some());
    assert!(state.finished());
    assert_eq!(state.tick(&vec![Action::Quit]), None);
    assert_eq!(state.phase, Phase::Stopped);
}

#[test]
fn game_without_turns_stops_at_once() {
    for num_turns in [0, -1, i32::MIN] {
        let mut state = State::new(game_of(num_turns), 640, 480);
        assert!(state.finished());
        assert_eq!(state.tick(&vec![]), None);
        assert_eq!(state.phase, Phase::Stopped);
        assert_eq!(state.turn, 1);
    }
}

#[test]
fn last_possible_turn_does_not_overflow() {
    let mut state = State::new(game_of(i32::MAX), 640, 480);
    state.turn = i32::MAX as i64;
    assert!(state.tick(&vec![]).is_some());
    assert_eq!(state.turn, i32::MAX as i64 + 1);
    assert_eq!(state.phase, Phase::Running);
    assert_eq!(state.tick(&vec![]), None);
    assert_eq!(state.phase, Phase::Stopped);
}

#[test]
fn tick_leaves_game_and_transform_alone() {
    let mut state = State::new(game_of(2), 640, 480);
    let game = state.game.clone();
    let transform = state.transform;
    for _ in 0..4 {
        let _ = state.tick(&vec![]);
        assert_eq!(state.game, game);
        assert_eq!(state.transform, transform);
    }
}

#[test]
fn delay_fills_the_tick() {
    assert_eq!(TICK_MS, 500);
    assert_eq!(remaining_delay(0), 500);
    assert_eq!(remaining_delay(1), 499);
    assert_eq!(remaining_delay(120), 380);
    assert_eq!(remaining_delay(499), 1);
}

#[test]
fn delay_is_never_negative() {
    assert_eq!(remaining_delay(500), 0);
    assert_eq!(remaining_delay(501), 0);
    assert_eq!(remaining_delay(u32::MAX), 0);
}
