use striker_ball::dense::{round_ratio, DenseMoveDirection, PlayInputDense, PlayTeamInputDense};
use striker_ball::play_input::{PlayInput, PlayTeamInput};
use striker_ball::press::PressInput;

fn pressed() -> PressInput {
    let mut p = PressInput::default();
    p.press();
    p
}

#[test]
fn dense_conversions() {
    let mut b = PlayInput::default();
    b.update_from_dense(&PlayInput::default().get_dense_input());

    assert_eq!(PlayInput::default(), b);
}

#[test]
fn dense_right_with_shoot_round_trips() {
    let source = PlayInput { x: 1000, y: 0, shoot: pressed(), pass: PressInput::default() };
    let dense = source.get_dense_input();
    assert!(dense.shoot());
    assert!(!dense.pass());
    assert!(dense.some_angle());
    let mut out = PlayInput::default();
    out.update_from_dense(&dense);
    assert!(out.shoot.pressed());
    assert!(out.shoot.just_pressed());
    assert!(!out.pass.pressed());
    assert_eq!((out.x, out.y), (1000, 0));
}

#[test]
fn dense_rest_is_zero_vector() {
    let source = PlayInput { x: 60, y: -70, shoot: PressInput::default(), pass: pressed() };
    let dense = source.get_dense_input();
    assert!(!dense.some_angle());
    assert_eq!(dense.angle(), 0);
    let mut out = PlayInput { x: 500, y: 500, shoot: PressInput::default(), pass: PressInput::default() };
    out.update_from_dense(&dense);
    assert_eq!((out.x, out.y), (0, 0));
    assert!(out.pass.pressed());
    assert!(!out.shoot.pressed());
}

#[test]
fn dense_layout_bits() {
    // shoot, pass, has-direction, then direction x = +31, y = 0
    let source = PlayInput { x: 1000, y: 0, shoot: pressed(), pass: pressed() };
    assert_eq!(source.get_dense_input().0, 0b111 | (31 << 3));
    let down = PlayInput { x: 0, y: -1000, shoot: PressInput::default(), pass: PressInput::default() };
    assert_eq!(down.get_dense_input().0, 0b100 | (((31 | 0x20) << 6) << 3));
}

#[test]
fn dense_diagonal_within_one_step() {
    let source = PlayInput { x: 700, y: 700, shoot: PressInput::default(), pass: PressInput::default() };
    let dense = source.get_dense_input();
    let dir = DenseMoveDirection::from_bits(dense.angle() as u16);
    // 31 * cos(45 degrees) = 21.92
    assert_eq!((dir.x, dir.y), (22, 22));
    let mut out = PlayInput::default();
    out.update_from_dense(&dense);
    // 1000 / sqrt(2) = 707.1
    assert_eq!((out.x, out.y), (707, 707));
}

#[test]
fn dense_direction_bits_round_trip() {
    for x in -31..=31 {
        for y in [-31, -7, 0, 5, 31] {
            let d = DenseMoveDirection { x, y };
            assert_eq!(DenseMoveDirection::from_bits(d.to_bits()), d);
        }
    }
}

#[test]
fn dense_round_ratio_values() {
    assert_eq!(round_ratio(1, 4, 31), 16);
    assert_eq!(round_ratio(0, 9, 31), 0);
    assert_eq!(round_ratio(9, 9, 1000), 1000);
    assert_eq!(round_ratio(1, 2, 1000), 707);
}

#[test]
fn dense_team_halves() {
    let team = PlayTeamInput {
        p1: PlayInput { x: 0, y: 1000, shoot: pressed(), pass: PressInput::default() },
        p2: PlayInput { x: -1000, y: 0, shoot: PressInput::default(), pass: pressed() },
    };
    let dense: PlayTeamInputDense = team.get_dense_input();
    assert_eq!(dense.p1(), team.p1.get_dense_input());
    assert_eq!(dense.p2(), team.p2.get_dense_input());
    let mut out = PlayTeamInput::default();
    out.update_from_dense(&dense);
    assert_eq!((out.p1.x, out.p1.y), (0, 1000));
    assert_eq!((out.p2.x, out.p2.y), (-1000, 0));
    assert!(out.p1.shoot.pressed() && !out.p1.pass.pressed());
    assert!(out.p2.pass.pressed() && !out.p2.shoot.pressed());
    let p1: PlayInputDense = dense.p1();
    assert!(p1.shoot());
}
