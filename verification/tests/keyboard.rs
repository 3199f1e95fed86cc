use bevy::input::keyboard::KeyCode;
use bevy::input::ButtonInput;
use bevy_playground::input::Keys;
use bevy_playground::keyboard::held_keys;
use bevy_playground::scene::{player_movement, setup, Player};
use bevy_playground::surd::{Surd, Vector};

fn keyboard_with(codes: &[KeyCode]) -> ButtonInput<KeyCode> {
    let mut keyboard: ButtonInput<KeyCode> = ButtonInput::default();
    for code in codes {
        keyboard.press(*code);
    }
    keyboard
}

fn straight(x: i64, y: i64) -> Vector {
    Vector {
        x: Surd { whole: x, diagonal: 0 },
        y: Surd { whole: y, diagonal: 0 },
        z: Surd { whole: 0, diagonal: 0 },
    }
}

fn slanted(x: i64, y: i64) -> Vector {
    Vector {
        x: Surd { whole: 0, diagonal: x },
        y: Surd { whole: 0, diagonal: y },
        z: Surd { whole: 0, diagonal: 0 },
    }
}

#[test]
fn held_keys_of_an_idle_keyboard() {
    assert_eq!(held_keys(&keyboard_with(&[])), Keys::released());
}

#[test]
fn held_keys_reads_each_movement_key() {
    let none: Keys = Keys::released();
    assert_eq!(
        held_keys(&keyboard_with(&[KeyCode::ArrowUp])),
        Keys { arrow_up: true, ..none }
    );
    assert_eq!(
        held_keys(&keyboard_with(&[KeyCode::ArrowDown])),
        Keys { arrow_down: true, ..none }
    );
    assert_eq!(
        held_keys(&keyboard_with(&[KeyCode::ArrowLeft])),
        Keys { arrow_left: true, ..none }
    );
    assert_eq!(
        held_keys(&keyboard_with(&[KeyCode::ArrowRight])),
        Keys { arrow_right: true, ..none }
    );
    assert_eq!(held_keys(&keyboard_with(&[KeyCode::KeyW])), Keys { key_w: true, ..none });
    assert_eq!(held_keys(&keyboard_with(&[KeyCode::KeyA])), Keys { key_a: true, ..none });
    assert_eq!(held_keys(&keyboard_with(&[KeyCode::KeyS])), Keys { key_s: true, ..none });
    assert_eq!(held_keys(&keyboard_with(&[KeyCode::KeyD])), Keys { key_d: true, ..none });
}

#[test]
fn held_keys_reads_several_keys() {
    let keyboard: ButtonInput<KeyCode> =
        keyboard_with(&[KeyCode::KeyW, KeyCode::ArrowRight, KeyCode::KeyS]);
    assert_eq!(
        held_keys(&keyboard),
        Keys { key_w: true, arrow_right: true, key_s: true, ..Keys::released() }
    );
}

#[test]
fn held_keys_ignores_other_keys() {
    let keyboard: ButtonInput<KeyCode> =
        keyboard_with(&[KeyCode::Space, KeyCode::Enter, KeyCode::KeyQ, KeyCode::ArrowLeft]);
    assert_eq!(held_keys(&keyboard), Keys { arrow_left: true, ..Keys::released() });
}

#[test]
fn held_keys_forgets_released_keys() {
    let mut keyboard: ButtonInput<KeyCode> = keyboard_with(&[KeyCode::KeyD, KeyCode::KeyW]);
    keyboard.release(KeyCode::KeyD);
    assert_eq!(held_keys(&keyboard), Keys { key_w: true, ..Keys::released() });
    keyboard.clear();
    assert_eq!(held_keys(&keyboard), Keys { key_w: true, ..Keys::released() });
    keyboard.release(KeyCode::KeyW);
    assert_eq!(held_keys(&keyboard), Keys::released());
}

#[test]
fn player_movement_follows_the_keyboard() {
    let mut player: Player = setup();
    assert!(player_movement(&mut player, &keyboard_with(&[KeyCode::KeyD]), 16_667));
    assert_eq!(player.position, straight(5_000_100, 0));
    assert!(player_movement(&mut player, &keyboard_with(&[KeyCode::ArrowUp]), 1_000_000));
    assert_eq!(player.position, straight(5_000_100, 300_000_000));
    assert!(player_movement(&mut player, &keyboard_with(&[KeyCode::KeyA]), 16_667));
    assert_eq!(player.position, straight(0, 300_000_000));
    assert!(player_movement(&mut player, &keyboard_with(&[KeyCode::KeyS]), 1_000_000));
    assert_eq!(player.position, straight(0, 0));
}

#[test]
fn player_movement_on_a_diagonal() {
    let mut player: Player = setup();
    let keyboard: ButtonInput<KeyCode> = keyboard_with(&[KeyCode::ArrowUp, KeyCode::ArrowRight]);
    assert!(player_movement(&mut player, &keyboard, 1_000_000_000));
    assert_eq!(player.position, slanted(300_000_000_000, 300_000_000_000));
    let x: f64 = player.position.x.diagonal as f64 * std::f64::consts::FRAC_1_SQRT_2 / 1e9;
    assert!((x - 212.132).abs() < 1e-3);
}

#[test]
fn player_movement_with_opposite_keys() {
    let mut player: Player = setup();
    let keyboard: ButtonInput<KeyCode> =
        keyboard_with(&[KeyCode::ArrowUp, KeyCode::KeyS, KeyCode::ArrowLeft]);
    assert!(player_movement(&mut player, &keyboard, 10_000));
    assert_eq!(player.position, straight(-3_000_000, 0));
}

#[test]
fn player_movement_without_keys_or_time() {
    let mut player: Player = Player { position: straight(12, -34), ..setup() };
    assert!(player_movement(&mut player, &keyboard_with(&[]), 1_000_000));
    assert_eq!(player.position, straight(12, -34));
    assert!(player_movement(&mut player, &keyboard_with(&[KeyCode::KeyW, KeyCode::KeyD]), 0));
    assert_eq!(player.position, straight(12, -34));
}

#[test]
fn player_movement_in_a_long_frame() {
    let mut player: Player = setup();
    assert!(player_movement(&mut player, &keyboard_with(&[KeyCode::KeyD]), 5_000_000_000_000));
    assert_eq!(player.position, straight(1_500_000_000_000_000, 0));
    let mut other: Player = setup();
    let keyboard: ButtonInput<KeyCode> =
        keyboard_with(&[KeyCode::ArrowUp, KeyCode::ArrowDown, KeyCode::ArrowRight]);
    assert!(player_movement(&mut other, &keyboard, 5_000_000_000_000));
    assert_eq!(other.position, straight(1_500_000_000_000_000, 0));
}

#[test]
fn player_movement_in_a_frame_too_long_to_follow() {
    let mut player: Player = Player { position: straight(12, -34), ..setup() };
    assert!(!player_movement(&mut player, &keyboard_with(&[KeyCode::KeyD]), u128::MAX));
    assert_eq!(player.position, straight(12, -34));
    assert!(player_movement(&mut player, &keyboard_with(&[]), u128::MAX));
    assert_eq!(player.position, straight(12, -34));
    let both: ButtonInput<KeyCode> = keyboard_with(&[KeyCode::KeyA, KeyCode::KeyD]);
    assert!(player_movement(&mut player, &both, u128::MAX));
    assert_eq!(player.position, straight(12, -34));
}

#[test]
fn player_movement_stops_at_the_edge() {
    let edge: Player = Player { position: straight(0, i64::MIN + 299), ..setup() };
    let mut player: Player = edge;
    assert!(!player_movement(&mut player, &keyboard_with(&[KeyCode::ArrowDown]), 1));
    assert_eq!(player, edge);
    assert!(player_movement(&mut player, &keyboard_with(&[KeyCode::ArrowUp]), 1));
    assert_eq!(player.position, straight(0, i64::MIN + 599));
}
