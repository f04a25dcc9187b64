use flappy::player::Player;
use flappy::player::FLAP_VELOCITY_HALVES;
use flappy::player::VELOCITY_CAP_HALVES;

// Velocity is stored in half-cells: 1 is 0.5 cells per step, -4 is -2.0.

#[test]
fn one_step_from_rest() {
    let mut p = Player::new(5, 25);
    p.gravity_and_move();
    assert_eq!(p.velocity_halves, 1); // 0.5 after one gravity increment
    assert_eq!(p.y, 25); // 0.5 truncates to no whole-cell movement
    assert_eq!(p.x, 6);
}

#[test]
fn flap_then_step() {
    let mut p = Player::new(5, 25);
    p.flap();
    assert_eq!(p.velocity_halves, FLAP_VELOCITY_HALVES); // -2.0
    p.gravity_and_move();
    assert_eq!(p.velocity_halves, -3); // -1.5 after the gravity increment
    assert_eq!(p.y, 24); // -1.5 truncates toward zero: one cell up
    assert_eq!(p.x, 6);
}

#[test]
fn flap_resets_velocity_from_any_prior_value() {
    let mut falling = Player::new(5, 25);
    for _ in 0..10 {
        falling.gravity_and_move();
    }
    falling.flap();
    assert_eq!(falling.velocity_halves, FLAP_VELOCITY_HALVES);

    let mut rising = Player::new(5, 25);
    rising.flap();
    rising.flap();
    assert_eq!(rising.velocity_halves, FLAP_VELOCITY_HALVES);
    assert_eq!(rising.x, 5);
    assert_eq!(rising.y, 25);
}

#[test]
fn velocity_never_exceeds_cap() {
    let mut p = Player::new(0, 0);
    for _ in 0..20 {
        p.gravity_and_move();
        assert!(p.velocity_halves <= VELOCITY_CAP_HALVES);
    }
    assert_eq!(p.velocity_halves, VELOCITY_CAP_HALVES); // 2.0, the terminal speed
}

#[test]
fn vertical_position_clamped_at_top() {
    let mut p = Player::new(0, 0);
    p.flap();
    p.gravity_and_move();
    assert_eq!(p.y, 0); // would be -1, clamped to the top of the world
    assert_eq!(p.x, 1);
}
