use striker_ball::collection::SingleSource;
use striker_ball::local_input::LocalInput;
use striker_ball::scene::TeamInfo;
use striker_ball::slot::PlayerSlot;
use striker_ball::team_select::{Join, PartnerSetting, TeamSelect, TeamSelectOutput};

#[test]
fn team_select_join_flow() {
    let mut t = TeamSelect::new();
    t.add_gamepad(7);
    t.add_gamepad(7);
    assert!(t.joins[0].is_gamepad_id(7));
    assert!(t.joins[1].is_empty());
    assert_eq!(t.get_index_from_gamepad(7), Some(0));
    assert_eq!(t.next_slot_a(), Some(PlayerSlot::A1));
    t.left_gamepad(7);
    assert_eq!(t.joins[0].get_player_slot(), Some(PlayerSlot::A1));
    assert!(t.is_player_slot_hovered(PlayerSlot::A1));
    assert_eq!(t.next_slot_a(), Some(PlayerSlot::A2));
    t.ready_gamepad(7);
    assert!(t.joins[0].is_single());
    assert!(t.is_player_slot_set(PlayerSlot::A1));
    t.left_gamepad(7);
    assert!(matches!(t.joins[0], Join::Single { partner_setting: PartnerSetting::TwinStick, .. }));
    t.ready_gamepad(7);
    assert!(t.is_double(7));
    assert!(t.is_player_slot_double(PlayerSlot::A2));
    assert!(t.is_player_slot_dual_stick(PlayerSlot::A1));
    assert_eq!(t.next_slot_a(), None);
    let info = t.get_player_signs().unwrap();
    assert!(info.team_a.is_dual_stick());
    assert_eq!(info.team_a.primary().source, SingleSource::Gamepad(7));
    assert_eq!(info.team_a.secondary().slot, PlayerSlot::A2);
    assert_eq!(info.team_b, TeamInfo::TwoPlayer(info.team_b.primary(), info.team_b.secondary()));
    assert_eq!(info.team_b.primary().source, SingleSource::CPU(PlayerSlot::B1));
    t.reverse_gamepad(7);
    assert!(!t.is_double(7));
    t.reverse_gamepad(7);
    t.reverse_gamepad(7);
    t.reverse_gamepad(7);
    assert!(t.joins[0].is_empty());
    assert!(t.get_player_signs().is_none());
}

#[test]
fn team_select_single_needs_partner() {
    let mut t = TeamSelect::new();
    t.add_gamepad(1);
    t.right_gamepad(1);
    assert_eq!(t.joins[0].get_player_slot(), Some(PlayerSlot::B1));
    t.ready_gamepad(1);
    assert!(t.get_player_signs().is_none());
    t.add_gamepad(2);
    t.right_gamepad(2);
    assert_eq!(t.joins[1].get_player_slot(), Some(PlayerSlot::B2));
    t.ready_gamepad(2);
    let info = t.get_player_signs().unwrap();
    assert_eq!(info.team_b.primary().source, SingleSource::Gamepad(1));
    assert_eq!(info.team_b.secondary().source, SingleSource::Gamepad(2));
    assert_eq!(info.team_a.primary().source, SingleSource::CPU(PlayerSlot::A1));
    t.remove_gamepad(1);
    assert!(t.joins[0].is_empty());
    assert!(t.is_player_slot_empty(PlayerSlot::B1));
}

#[test]
fn team_select_process_input() {
    let mut t = TeamSelect::new();
    let mut input = LocalInput::default();
    input.start.press();
    let inputs = vec![(SingleSource::Gamepad(3), input)];
    assert!(t.process_input(&inputs, 30).is_none());
    assert!(t.joins[0].is_gamepad_id(3));
    let mut back = LocalInput::default();
    back.menu_back.press();
    for _ in 0..30 {
        back.menu_back.advance();
    }
    let held = vec![(SingleSource::Gamepad(3), back)];
    assert_eq!(t.process_input(&held, 30), Some(TeamSelectOutput::Exit));
}

#[test]
fn join_state_steps() {
    let mut j = Join::Empty;
    j.join(4);
    assert!(j.is_joined() && !j.is_hovered());
    j.hover(PlayerSlot::B2);
    assert!(j.is_player_id(PlayerSlot::B2));
    j.single();
    j.double();
    assert!(j.is_double() && !j.is_dual_stick());
    j.undouble();
    j.unsingle();
    j.unhover();
    j.unjoin();
    assert!(j.is_empty());
    let mut s = PartnerSetting::CPU;
    s.cycle();
    assert!(s == PartnerSetting::TwinStick);
}

#[test]
fn team_select_mutable_join_by_slot() {
    let mut t = TeamSelect::new();
    t.add_gamepad(2);
    t.left_gamepad(2);
    assert!(t.get_join_from_slot(PlayerSlot::A1).is_some());
    assert!(t.get_mut_join_from_slot(PlayerSlot::B1).is_none());
    if let Some(j) = t.get_mut_join_from_slot(PlayerSlot::A1) {
        j.single();
    }
    assert!(t.is_player_slot_set(PlayerSlot::A1));
}
