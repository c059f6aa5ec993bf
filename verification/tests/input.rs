use platformer::input::{handle_input_x, HorizontalDrive};
use platformer::player::Player;
use platformer::units::{FRICTION, WALK_ACCEL};

fn player_with_vx(vx: i16) -> Player {
    let mut player = Player::default();
    player.vx = vx;
    player
}

#[test]
fn friction_slows_forty_five_to_fifteen_to_rest() {
    let mut player = player_with_vx(45);
    handle_input_x(&mut player, false, false);
    assert_eq!(player.vx, 15);
    handle_input_x(&mut player, false, false);
    assert_eq!(player.vx, 0);
    handle_input_x(&mut player, false, false);
    assert_eq!(player.vx, 0);
}

#[test]
fn friction_slows_leftward_speed_without_crossing_zero() {
    let mut player = player_with_vx(-45);
    handle_input_x(&mut player, false, false);
    assert_eq!(player.vx, -15);
    handle_input_x(&mut player, false, false);
    assert_eq!(player.vx, 0);
}

#[test]
fn friction_never_changes_the_sign_of_any_speed() {
    for start in [i16::MIN, -20000, -31, -30, -29, -1, 0, 1, 29, 30, 31, 20000, i16::MAX] {
        let mut player = player_with_vx(start);
        let mut before = start;
        for _ in 0..1200 {
            handle_input_x(&mut player, false, false);
            if start >= 0 {
                assert!(0 <= player.vx && player.vx <= before);
            } else {
                assert!(before <= player.vx && player.vx <= 0);
            }
            before = player.vx;
        }
        assert_eq!(player.vx, 0);
    }
}

#[test]
fn friction_takes_thirty_per_frame() {
    let mut player = player_with_vx(100);
    handle_input_x(&mut player, false, false);
    assert_eq!(player.vx, 70);
    handle_input_x(&mut player, false, false);
    assert_eq!(player.vx, 40);
    handle_input_x(&mut player, false, false);
    assert_eq!(player.vx, 10);
    handle_input_x(&mut player, false, false);
    assert_eq!(player.vx, 0);
    assert_eq!(FRICTION, 30);
}

#[test]
fn right_key_adds_ten_per_frame() {
    let mut player = player_with_vx(0);
    handle_input_x(&mut player, true, false);
    assert_eq!(player.vx, 10);
    handle_input_x(&mut player, true, false);
    assert_eq!(player.vx, 20);
    assert_eq!(WALK_ACCEL, 10);
}

#[test]
fn left_key_takes_ten_per_frame() {
    let mut player = player_with_vx(5);
    handle_input_x(&mut player, false, true);
    assert_eq!(player.vx, -5);
    handle_input_x(&mut player, false, true);
    assert_eq!(player.vx, -15);
}

#[test]
fn right_key_wins_when_both_are_held() {
    let mut player = player_with_vx(0);
    handle_input_x(&mut player, true, true);
    assert_eq!(player.vx, 10);
    assert_eq!(HorizontalDrive::from_keys(true, true), HorizontalDrive::Right);
    assert_eq!(HorizontalDrive::from_keys(true, false), HorizontalDrive::Right);
    assert_eq!(HorizontalDrive::from_keys(false, true), HorizontalDrive::Left);
    assert_eq!(HorizontalDrive::from_keys(false, false), HorizontalDrive::Coast);
}

#[test]
fn held_key_does_not_apply_friction() {
    let mut player = player_with_vx(-100);
    handle_input_x(&mut player, true, false);
    assert_eq!(player.vx, -90);
    let mut player = player_with_vx(100);
    handle_input_x(&mut player, false, true);
    assert_eq!(player.vx, 90);
}

#[test]
fn speed_stops_at_the_limits_of_its_type() {
    let mut player = player_with_vx(i16::MAX - 3);
    handle_input_x(&mut player, true, false);
    assert_eq!(player.vx, i16::MAX);
    handle_input_x(&mut player, true, false);
    assert_eq!(player.vx, i16::MAX);
    let mut player = player_with_vx(i16::MIN + 3);
    handle_input_x(&mut player, false, true);
    assert_eq!(player.vx, i16::MIN);
}

#[test]
fn input_phase_touches_only_the_horizontal_speed() {
    let mut player = Player {
        vx: 7,
        vy: -33,
        is_on_floor: false,
        is_jumping: true,
        jump_hover_speed: 11,
        jump_speed: 22,
        jump_started: true,
    };
    handle_input_x(&mut player, true, false);
    assert_eq!(
        player,
        Player {
            vx: 17,
            vy: -33,
            is_on_floor: false,
            is_jumping: true,
            jump_hover_speed: 11,
            jump_speed: 22,
            jump_started: true,
        }
    );
}
