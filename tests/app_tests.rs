use koii_sequencer::app::{App, Voice};
use koii_sequencer::command::Command;
use koii_sequencer::sample::{wav_from_pcm, SampleBank};

fn new_app() -> App {
    App::new(SampleBank::new())
}

#[test]
fn test_app_creation() {
    let app = new_app();
    assert_eq!(app.state.current_group, 0);
    assert_eq!(app.state.group_patterns, [0; 4]);
    assert!(!app.state.is_playing);
    assert!(!app.state.is_recording);
    assert_eq!(app.state.tempo, 120);
    assert_eq!(app.ui_state.selected_pad, None);
    assert!(app.ui_state.flashing_pads.is_empty());
}

#[test]
fn test_group_navigation() {
    let mut app = new_app();

    app.next_group();
    assert_eq!(app.state.current_group, 1);
    app.next_group();
    assert_eq!(app.state.current_group, 2);
    app.next_group();
    assert_eq!(app.state.current_group, 3);
    app.next_group();
    assert_eq!(app.state.current_group, 0);

    app.prev_group();
    assert_eq!(app.state.current_group, 3);
    app.prev_group();
    assert_eq!(app.state.current_group, 2);
}

#[test]
fn test_pattern_navigation() {
    let mut app = new_app();

    app.next_pattern();
    assert_eq!(app.state.group_patterns[0], 1);

    app.state.group_patterns[0] = 98;
    app.next_pattern();
    assert_eq!(app.state.group_patterns[0], 0);

    app.prev_pattern();
    assert_eq!(app.state.group_patterns[0], 98);

    app.state.group_patterns[0] = 1;
    app.prev_pattern();
    assert_eq!(app.state.group_patterns[0], 0);
}

#[test]
fn test_tempo_adjustment() {
    let mut app = new_app();

    app.adjust_tempo(10);
    assert_eq!(app.state.tempo, 130);

    app.adjust_tempo(-20);
    assert_eq!(app.state.tempo, 110);

    app.adjust_tempo(-100);
    assert_eq!(app.state.tempo, 60);

    app.adjust_tempo(300);
    assert_eq!(app.state.tempo, 300);

    app.adjust_tempo(10);
    assert_eq!(app.state.tempo, 300);
}

#[test]
fn test_playback_toggle() {
    let mut app = new_app();

    assert!(!app.state.is_playing);
    app.toggle_playback();
    assert!(app.state.is_playing);
    app.toggle_playback();
    assert!(!app.state.is_playing);
}

#[test]
fn test_recording_toggle() {
    let mut app = new_app();

    assert!(!app.state.is_recording);
    app.toggle_recording();
    assert!(app.state.is_recording);
    app.toggle_recording();
    assert!(!app.state.is_recording);
}

#[test]
fn test_pad_trigger() {
    let mut app = new_app();

    app.trigger_pad(5);
    assert_eq!(app.ui_state.selected_pad, Some(5));

    app.trigger_pad(20);
    assert_eq!(app.ui_state.selected_pad, Some(5));
}

#[test]
fn test_volume_controls() {
    let mut app = new_app();

    let initial_master = app.get_master_volume();
    app.adjust_master_volume(100);
    assert_eq!(app.get_master_volume(), initial_master + 100);

    app.adjust_master_volume(-200);
    assert_eq!(app.get_master_volume(), initial_master - 100);

    let initial_group = app.get_group_volume(0);
    app.adjust_group_volume(0, 50);
    assert_eq!(app.get_group_volume(0), initial_group + 50);
}

#[test]
fn test_mute_controls() {
    let mut app = new_app();

    assert!(!app.is_master_muted());
    app.toggle_master_mute();
    assert!(app.is_master_muted());
    app.toggle_master_mute();
    assert!(!app.is_master_muted());

    assert!(!app.is_group_muted(0));
    app.toggle_group_mute(0);
    assert!(app.is_group_muted(0));
    app.toggle_group_mute(0);
    assert!(!app.is_group_muted(0));
}

#[test]
fn invalid_pad_press_changes_nothing() {
    let mut app = new_app();
    app.toggle_playback();
    app.toggle_recording();
    let grid_before = app.get_pattern_grid();
    assert_eq!(app.trigger_pad(20), None);
    assert_eq!(app.get_selected_pad(), None);
    assert_eq!(app.get_pattern_grid(), grid_before);
    assert_eq!(app.sequencer.pattern_count(), 0);
}

#[test]
fn pad_press_plays_or_records() {
    let mut bank = SampleBank::new();
    assert!(bank.load_sample_data(0, 2, wav_from_pcm(&[0, 0], 44100), "snare".to_string()).is_ok());
    let mut app = App::new(bank);

    assert_eq!(app.trigger_pad(2), Some(Voice { group: 0, pad: 2, gain: 700 * 800 }));
    assert_eq!(app.trigger_pad(3), None);

    app.toggle_playback();
    app.toggle_recording();
    assert_eq!(app.trigger_pad(2), None);
    assert!(app.get_pattern_grid()[2][0]);
}

#[test]
fn pulse_returns_voices_of_hits_with_samples() {
    let mut bank = SampleBank::new();
    assert!(bank.load_sample_data(0, 1, wav_from_pcm(&[0, 0], 44100), "kick".to_string()).is_ok());
    let mut app = App::new(bank);
    app.sequencer.record_hit(0, 0, 1);
    app.sequencer.record_hit(0, 0, 4);
    app.toggle_group_mute(0);
    let voices = app.pulse();
    assert_eq!(voices, vec![Voice { group: 0, pad: 1, gain: 0 }]);
    assert!(app.is_pad_flashing(0, 1));
    assert!(app.is_pad_flashing(0, 4));
    assert_eq!(app.get_current_step(), 1);
}

#[test]
fn starting_playback_rewinds() {
    let mut app = new_app();
    app.pulse();
    app.pulse();
    assert_eq!(app.get_current_step(), 2);
    app.toggle_playback();
    assert_eq!(app.get_current_step(), 0);
    app.pulse();
    app.toggle_playback();
    assert_eq!(app.get_current_step(), 1);
}

#[test]
fn pattern_change_reaches_sequencer() {
    let mut app = new_app();
    app.next_group();
    app.prev_pattern();
    assert_eq!(app.get_current_pattern(), 98);
    assert_eq!(app.sequencer.active_patterns(), [0, 98, 0, 0]);
}

#[test]
fn test_command_creation() {
    let cmd = Command::TogglePlayback;
    assert_eq!(cmd, Command::TogglePlayback);

    let cmd = Command::TriggerPad(5);
    assert_eq!(cmd, Command::TriggerPad(5));

    let cmd = Command::AdjustMasterVolume(100);
    assert_eq!(cmd, Command::AdjustMasterVolume(100));
}

#[test]
fn test_command_execution() {
    let mut app = new_app();

    let initial_playing = app.is_playing();
    let cmd = Command::TogglePlayback;
    assert!(cmd.execute(&mut app).is_ok());
    assert_eq!(app.is_playing(), !initial_playing);

    let cmd = Command::TriggerPad(20);
    assert!(cmd.execute(&mut app).is_err());

    let cmd = Command::TriggerPad(5);
    assert!(cmd.execute(&mut app).is_ok());

    let initial_group = app.get_current_group();
    let cmd = Command::NextGroup;
    assert!(cmd.execute(&mut app).is_ok());
    assert_eq!(app.get_current_group(), (initial_group + 1) % 4);
}

#[test]
fn test_volume_commands() {
    let mut app = new_app();

    let initial_vol = app.get_master_volume();
    let cmd = Command::AdjustMasterVolume(100);
    assert!(cmd.execute(&mut app).is_ok());
    assert_eq!(app.get_master_volume(), initial_vol + 100);

    let cmd = Command::AdjustGroupVolume(0, 50);
    assert!(cmd.execute(&mut app).is_ok());

    let cmd = Command::AdjustGroupVolume(5, 50);
    assert!(cmd.execute(&mut app).is_err());

    let initial_muted = app.is_master_muted();
    let cmd = Command::ToggleMasterMute;
    assert!(cmd.execute(&mut app).is_ok());
    assert_eq!(app.is_master_muted(), !initial_muted);
}

#[test]
fn test_tempo_commands() {
    let mut app = new_app();

    let initial_tempo = app.get_tempo();
    let cmd = Command::IncreaseTempo(10);
    assert!(cmd.execute(&mut app).is_ok());
    assert_eq!(app.get_tempo(), initial_tempo + 10);

    let cmd = Command::DecreaseTempo(5);
    assert!(cmd.execute(&mut app).is_ok());
    assert_eq!(app.get_tempo(), initial_tempo + 5);
}

#[test]
fn refused_commands_report_the_index() {
    let mut app = new_app();
    assert_eq!(Command::TriggerPad(20).execute(&mut app), Err("Invalid pad index: 20".to_string()));
    assert_eq!(Command::ToggleGroupMute(9).execute(&mut app), Err("Invalid group index: 9".to_string()));
    assert_eq!(Command::AdjustGroupVolume(9, 100).execute(&mut app), Err("Invalid group index: 9".to_string()));
    for group in 0..4 {
        assert_eq!(app.get_group_volume(group), 800);
        assert!(!app.is_group_muted(group));
    }
    assert_eq!(Command::DecreaseTempo(i32::MIN).execute(&mut app), Ok(None));
    assert_eq!(app.get_tempo(), 300);
}

#[test]
fn frame_pulses_only_when_due() {
    let mut bank = SampleBank::new();
    assert!(bank.load_sample_data(0, 3, wav_from_pcm(&[0, 0], 44100), "hat".to_string()).is_ok());
    let mut app = App::new(bank);
    app.sequencer.record_hit(0, 0, 3);

    assert!(app.tick_after(0, 10_000).is_empty());
    assert_eq!(app.get_current_step(), 0);

    app.toggle_playback();
    assert!(app.tick_after(0, 124).is_empty());
    assert_eq!(app.get_current_step(), 0);

    let voices = app.tick_after(0, 125);
    assert_eq!(voices, vec![Voice { group: 0, pad: 3, gain: 700 * 800 }]);
    assert_eq!(app.get_current_step(), 1);
    assert!(app.is_pad_flashing(0, 3));
    assert_eq!(app.get_tempo(), 120);

    assert!(app.tick_after(149, 0).is_empty());
    assert!(app.is_pad_flashing(0, 3));
    assert!(app.tick_after(150, 0).is_empty());
    assert!(!app.is_pad_flashing(0, 3));
    assert_eq!(app.get_current_step(), 1);
}

#[test]
fn recording_writes_at_current_step() {
    let mut app = new_app();
    app.next_pattern();
    app.toggle_playback();
    app.toggle_recording();
    app.pulse();
    app.pulse();
    assert_eq!(app.trigger_pad(6), None);
    let grid = app.get_pattern_grid();
    assert!(grid[6][2]);
    assert_eq!(app.sequencer.get_pattern_grid(0, 1)[6][2], true);
    assert_eq!(app.sequencer.pattern_count(), 1);
}
