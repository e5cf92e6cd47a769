use koii_sequencer::state::{pulse_period_ms, AppState, UIState};

#[test]
fn test_app_state_navigation() {
    let mut state = AppState::new();

    assert_eq!(state.current_group, 0);
    state.next_group();
    assert_eq!(state.current_group, 1);
    state.next_group();
    assert_eq!(state.current_group, 2);
    state.next_group();
    assert_eq!(state.current_group, 3);
    state.next_group();
    assert_eq!(state.current_group, 0);

    state.prev_group();
    assert_eq!(state.current_group, 3);
    state.prev_group();
    assert_eq!(state.current_group, 2);
}

#[test]
fn test_app_state_patterns() {
    let mut state = AppState::new();

    assert_eq!(state.get_current_pattern(), 0);
    state.next_pattern();
    assert_eq!(state.get_current_pattern(), 1);

    state.set_current_pattern(50);
    assert_eq!(state.get_current_pattern(), 50);

    state.set_current_pattern(98);
    state.next_pattern();
    assert_eq!(state.get_current_pattern(), 0);

    state.prev_pattern();
    assert_eq!(state.get_current_pattern(), 98);
}

#[test]
fn test_app_state_tempo() {
    let mut state = AppState::new();

    assert_eq!(state.tempo, 120);
    state.adjust_tempo(10);
    assert_eq!(state.tempo, 130);
    state.adjust_tempo(-20);
    assert_eq!(state.tempo, 110);

    state.adjust_tempo(-100);
    assert_eq!(state.tempo, 60);
    state.adjust_tempo(300);
    assert_eq!(state.tempo, 300);
}

#[test]
fn test_app_state_toggles() {
    let mut state = AppState::new();

    assert!(!state.is_playing);
    state.toggle_playback();
    assert!(state.is_playing);
    state.toggle_playback();
    assert!(!state.is_playing);

    assert!(!state.is_recording);
    state.toggle_recording();
    assert!(state.is_recording);
    state.toggle_recording();
    assert!(!state.is_recording);
}

#[test]
fn ui_state_selection_and_flash() {
    let mut state = UIState::new();

    assert_eq!(state.selected_pad, None);
    state.select_pad(5);
    assert_eq!(state.selected_pad, Some(5));
    state.clear_selection();
    assert_eq!(state.selected_pad, None);

    assert!(state.flashing_pads.is_empty());
    state.start_flash(vec![(0, 1), (1, 2)]);
    assert_eq!(state.flashing_pads.len(), 2);
    assert!(state.is_pad_flashing(0, 1));
    assert!(state.is_pad_flashing(1, 2));
    assert!(!state.is_pad_flashing(0, 2));

    state.update_flash_after(149);
    assert_eq!(state.flashing_pads.len(), 2);
    state.update_flash_after(150);
    assert!(state.flashing_pads.is_empty());
}

#[test]
fn pulse_period_follows_tempo() {
    assert_eq!(pulse_period_ms(60), 250);
    assert_eq!(pulse_period_ms(300), 50);
    assert_eq!(pulse_period_ms(120), 125);
    assert_eq!(pulse_period_ms(90), 166);
    for tempo in 60..=300u32 {
        assert_eq!(pulse_period_ms(tempo), 60000 / (tempo as u64 * 4));
    }
}

#[test]
fn pulse_is_due_after_one_period_while_playing() {
    let mut state = AppState::new();
    assert!(!state.should_tick_after(1000));
    state.toggle_playback();
    assert!(!state.should_tick_after(124));
    assert!(state.should_tick_after(125));
    state.adjust_tempo(180);
    assert!(state.should_tick_after(50));
    assert!(!state.should_tick_after(49));
}

#[test]
fn pattern_selection_wraps_both_ways() {
    let mut state = AppState::new();
    state.set_current_pattern(98);
    state.next_pattern();
    assert_eq!(state.get_current_pattern(), 0);
    state.prev_pattern();
    assert_eq!(state.get_current_pattern(), 98);
    state.prev_pattern();
    assert_eq!(state.get_current_pattern(), 97);
}

#[test]
fn tempo_clamps_at_both_ends() {
    let mut state = AppState::new();
    state.adjust_tempo(i32::MAX);
    assert_eq!(state.tempo, 300);
    state.adjust_tempo(i32::MIN);
    assert_eq!(state.tempo, 60);
}

#[test]
fn pattern_index_out_of_range_is_ignored() {
    let mut state = AppState::new();
    state.set_current_pattern(40);
    state.set_current_pattern(99);
    assert_eq!(state.get_current_pattern(), 40);
}
