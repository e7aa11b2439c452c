use striker_ball::press::PressInput;

#[test]
fn press_last_apply_wins() {
    let mut p = PressInput::default();
    p.apply_bool(true);
    p.apply_bool(false);
    p.apply_bool(true);
    assert!(p.pressed());
    assert!(p.just_pressed());
    p.apply_bool(false);
    assert!(!p.pressed());
    assert!(!p.just_pressed());
    assert!(!p.just_released());
}

#[test]
fn press_edges_across_advance() {
    let mut p = PressInput::default();
    p.press();
    assert!(p.just_pressed());
    p.advance();
    assert!(p.pressed());
    assert!(!p.just_pressed());
    p.release();
    assert!(p.just_released());
    assert!(p.released());
    p.advance();
    assert!(!p.just_released());
}

#[test]
fn press_held_counts_and_resets() {
    let mut p = PressInput::default();
    p.press();
    assert_eq!(p.held(), 0);
    p.advance();
    assert_eq!(p.held(), 1);
    p.advance();
    p.advance();
    assert_eq!(p.held(), 3);
    assert!(p.just_held(3));
    assert!(!p.just_held(4));
    p.release();
    p.advance();
    assert_eq!(p.held(), 3);
    p.press();
    assert!(p.just_pressed());
    assert_eq!(p.held(), 0);
}

#[test]
fn press_advance_without_apply_keeps_state() {
    let mut p = PressInput::default();
    p.press();
    p.advance();
    let before = p;
    p.advance();
    assert_eq!(p.last, before.last);
    assert!(p.pressed());
    assert_eq!(p.held(), before.held() + 1);
}

#[test]
fn press_toggle_and_bitor() {
    let mut a = PressInput::default();
    a.toggle();
    assert!(a.pressed());
    a.toggle();
    assert!(!a.pressed());
    let mut b = PressInput::default();
    b.press();
    let c = a.bitor(b);
    assert!(c.pressed());
    assert!(c.just_pressed());
}
