use koii_sequencer::sequencer::{Pattern, Sequencer, MAX_GROUPS, MAX_PATTERNS, PADS_PER_GROUP, STEPS_PER_PATTERN};

#[test]
fn test_pattern_creation() {
    let pattern = Pattern::new();
    assert_eq!(pattern.steps.len(), PADS_PER_GROUP);
    assert_eq!(pattern.length, STEPS_PER_PATTERN);

    for pad_steps in &pattern.steps {
        assert_eq!(pad_steps.len(), STEPS_PER_PATTERN);
        for &step in pad_steps {
            assert!(!step);
        }
    }
}

#[test]
fn test_pattern_set_hit() {
    let mut pattern = Pattern::new();

    pattern.set_hit(0, 0, true);
    assert!(pattern.steps[0][0]);

    pattern.set_hit(5, 10, true);
    assert!(pattern.steps[5][10]);

    pattern.set_hit(0, 0, false);
    assert!(!pattern.steps[0][0]);

    pattern.set_hit(99, 0, true);
    pattern.set_hit(0, 99, true);
}

#[test]
fn test_pattern_get_hits_at_step() {
    let mut pattern = Pattern::new();

    let hits = pattern.get_hits_at_step(0);
    assert!(hits.is_empty());

    pattern.set_hit(0, 0, true);
    pattern.set_hit(5, 0, true);
    pattern.set_hit(10, 0, true);

    let hits = pattern.get_hits_at_step(0);
    assert_eq!(hits.len(), 3);
    assert!(hits.contains(&0));
    assert!(hits.contains(&5));
    assert!(hits.contains(&10));

    let hits = pattern.get_hits_at_step(1);
    assert!(hits.is_empty());

    let hits = pattern.get_hits_at_step(99);
    assert!(hits.is_empty());
}

#[test]
fn test_pattern_clear() {
    let mut pattern = Pattern::new();

    pattern.set_hit(0, 0, true);
    pattern.set_hit(5, 10, true);
    pattern.set_hit(15, 15, true);

    assert!(pattern.steps[0][0]);
    assert!(pattern.steps[5][10]);
    assert!(pattern.steps[15][15]);

    pattern.clear();

    for pad_steps in &pattern.steps {
        for &step in pad_steps {
            assert!(!step);
        }
    }
}

#[test]
fn test_sequencer_creation() {
    let sequencer = Sequencer::new();
    assert_eq!(sequencer.current_step, 0);
    assert_eq!(sequencer.active_patterns(), [0; MAX_GROUPS]);
    assert_eq!(sequencer.pattern_count(), 0);
}

#[test]
fn test_sequencer_tick() {
    let mut sequencer = Sequencer::new();

    let hits = sequencer.tick(120);
    assert!(hits.is_empty());
    assert_eq!(sequencer.current_step, 1);

    sequencer.current_step = STEPS_PER_PATTERN - 1;
    sequencer.tick(120);
    assert_eq!(sequencer.current_step, 0);
}

#[test]
fn test_sequencer_record_hit() {
    let mut sequencer = Sequencer::new();

    sequencer.record_hit(0, 0, 5);

    let pattern_grid = sequencer.get_pattern_grid(0, 0);
    assert!(pattern_grid[5][0]);

    sequencer.current_step = 5;
    sequencer.record_hit(0, 0, 10);

    let pattern_grid = sequencer.get_pattern_grid(0, 0);
    assert!(pattern_grid[10][5]);
}

#[test]
fn test_sequencer_clear_pattern() {
    let mut sequencer = Sequencer::new();

    sequencer.record_hit(0, 0, 5);
    sequencer.current_step = 3;
    sequencer.record_hit(0, 0, 10);

    let pattern_grid = sequencer.get_pattern_grid(0, 0);
    assert!(pattern_grid[5][0]);
    assert!(pattern_grid[10][3]);

    sequencer.clear_pattern(0, 0);

    let pattern_grid = sequencer.get_pattern_grid(0, 0);
    for pad_steps in pattern_grid {
        for step in pad_steps {
            assert!(!step);
        }
    }

    sequencer.clear_pattern(1, 50);
}

#[test]
fn test_sequencer_pattern_grid() {
    let sequencer = Sequencer::new();

    let grid = sequencer.get_pattern_grid(0, 0);
    assert_eq!(grid.len(), PADS_PER_GROUP);
    assert_eq!(grid[0].len(), STEPS_PER_PATTERN);

    let grid = sequencer.get_pattern_grid(3, 99);
    assert_eq!(grid.len(), PADS_PER_GROUP);
    for pad_steps in grid {
        for step in pad_steps {
            assert!(!step);
        }
    }
}

#[test]
fn test_sequencer_active_patterns() {
    let mut sequencer = Sequencer::new();

    sequencer.set_active_pattern(0, 5);
    assert_eq!(sequencer.active_patterns()[0], 5);

    sequencer.set_active_pattern(3, 98);
    assert_eq!(sequencer.active_patterns()[3], 98);

    sequencer.set_active_pattern(99, 0);
    sequencer.set_active_pattern(0, 999);
    assert_eq!(sequencer.active_patterns()[0], 5);
}

#[test]
fn test_sequencer_reset_position() {
    let mut sequencer = Sequencer::new();

    sequencer.current_step = 10;
    sequencer.reset_position();
    assert_eq!(sequencer.current_step, 0);
}

#[test]
fn test_sequencer_current_step() {
    let mut sequencer = Sequencer::new();

    assert_eq!(sequencer.get_current_step(), 0);

    sequencer.current_step = 5;
    assert_eq!(sequencer.get_current_step(), 5);
}

#[test]
fn test_sequencer_multi_group_playback() {
    let mut sequencer = Sequencer::new();

    sequencer.record_hit(0, 0, 0);
    sequencer.record_hit(1, 0, 5);
    sequencer.record_hit(2, 1, 10);

    sequencer.set_active_pattern(0, 0);
    sequencer.set_active_pattern(1, 0);
    sequencer.set_active_pattern(2, 1);

    sequencer.reset_position();
    let hits = sequencer.tick(120);

    assert_eq!(hits.len(), 3);
    assert!(hits.contains(&(0, 0)));
    assert!(hits.contains(&(1, 5)));
    assert!(hits.contains(&(2, 10)));
}

#[test]
fn test_constants() {
    assert_eq!(STEPS_PER_PATTERN, 16);
    assert_eq!(MAX_PATTERNS, 99);
    assert_eq!(MAX_GROUPS, 4);
    assert_eq!(PADS_PER_GROUP, 16);
}

#[test]
fn full_bar_returns_to_first_step() {
    let mut sequencer = Sequencer::new();
    for i in 0..16 {
        assert_eq!(sequencer.get_current_step(), i);
        sequencer.tick(120);
    }
    assert_eq!(sequencer.get_current_step(), 0);
}

#[test]
fn recorded_hit_reads_back_and_nothing_else_changes() {
    let mut sequencer = Sequencer::new();
    sequencer.current_step = 7;
    let before = sequencer.get_pattern_grid(2, 40);
    sequencer.record_hit(2, 40, 9);
    let after = sequencer.get_pattern_grid(2, 40);
    for pad in 0..PADS_PER_GROUP {
        for step in 0..STEPS_PER_PATTERN {
            if pad == 9 && step == 7 {
                assert!(after[pad][step]);
            } else {
                assert_eq!(after[pad][step], before[pad][step]);
            }
        }
    }
    let other = sequencer.get_pattern_grid(2, 41);
    assert!(other.iter().all(|row| row.iter().all(|&cell| !cell)));
}

#[test]
fn tick_orders_hits_by_group_then_pad() {
    let mut sequencer = Sequencer::new();
    sequencer.set_active_pattern(0, 4);
    sequencer.set_active_pattern(1, 7);
    sequencer.record_hit(1, 7, 5);
    sequencer.record_hit(0, 4, 3);
    sequencer.record_hit(0, 5, 8);
    let hits = sequencer.tick(120);
    assert_eq!(hits, vec![(0, 3), (1, 5)]);
}

#[test]
fn tick_reads_pads_in_ascending_order() {
    let mut sequencer = Sequencer::new();
    sequencer.record_hit(0, 0, 12);
    sequencer.record_hit(0, 0, 2);
    sequencer.record_hit(0, 0, 7);
    assert_eq!(sequencer.tick(120), vec![(0, 2), (0, 7), (0, 12)]);
    assert!(sequencer.tick(120).is_empty());
}

#[test]
fn untouched_pattern_reads_empty_and_is_not_created() {
    let sequencer = Sequencer::new();
    let grid = sequencer.get_pattern_grid(1, 17);
    assert_eq!(grid.len(), 16);
    for row in &grid {
        assert_eq!(row.len(), 16);
        assert!(row.iter().all(|&cell| !cell));
    }
    assert_eq!(sequencer.pattern_count(), 0);
}

#[test]
fn invalid_active_pattern_changes_nothing() {
    let mut sequencer = Sequencer::new();
    sequencer.set_active_pattern(1, 3);
    sequencer.set_active_pattern(9, 0);
    sequencer.set_active_pattern(1, 99);
    assert_eq!(sequencer.active_patterns(), [0, 3, 0, 0]);
    assert_eq!(sequencer.get_current_step(), 0);
    assert_eq!(sequencer.pattern_count(), 0);
}

#[test]
fn record_into_invalid_pattern_is_ignored() {
    let mut sequencer = Sequencer::new();
    sequencer.record_hit(4, 0, 1);
    sequencer.record_hit(0, 99, 1);
    assert_eq!(sequencer.pattern_count(), 0);
    sequencer.record_hit(0, 0, 16);
    assert_eq!(sequencer.pattern_count(), 1);
    assert!(sequencer.get_pattern_grid(0, 0).iter().all(|row| row.iter().all(|&cell| !cell)));
}
