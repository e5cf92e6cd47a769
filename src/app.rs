//! The application core: the sequencer, sample bank, mixer, transport and
//! display state together, and the operations a user or the pulse clock
//! drives. What is to be heard comes back as voices, for an audio backend to
//! play.

use vstd::prelude::*;
use crate::mixer::{Mixer, MixerLevels};
use crate::sample::SampleBank;
use crate::sequencer::{Sequencer, MAX_GROUPS, MAX_PATTERNS, PADS_PER_GROUP};
use crate::state::{AppState, UIState};

verus! {

/// A sample to be played: the pad that holds it, and the gain to play it
/// at, in millionths of unity.
#[derive(Debug, Clone, Copy, PartialEq, Eq, Structural)]
pub struct Voice {
    pub group: usize,
    pub pad: usize,
    pub gain: u32,
}

/// The voices for `hits`: each hit whose pad holds a sample, in order, at
/// the gain of its group.
pub open spec fn voices_for(hits: Seq<(usize, usize)>, bank: SampleBank, levels: MixerLevels) -> Seq<Voice>
    decreases hits.len(),
{
    if hits.len() == 0 {
        Seq::empty()
    } else {
        let (group, pad) = hits.last();
        let rest = voices_for(hits.drop_last(), bank, levels);
        if bank.sample_at(group as int, pad as int).is_some() {
            rest.push(Voice { group, pad, gain: levels.gain(group as int) as u32 })
        } else {
            rest
        }
    }
}

/// Everything the application keeps between frames.
pub struct App {
    pub mixer: Mixer,
    pub sequencer: Sequencer,
    pub sample_bank: SampleBank,
    pub state: AppState,
    pub ui_state: UIState,
}

impl App {
    /// Every part is well formed.
    pub open spec fn wf(&self) -> bool {
        &&& self.mixer.wf()
        &&& self.sequencer.wf()
        &&& self.sample_bank.wf()
        &&& self.state.wf()
        &&& self.sequencer.active() == self.state.group_patterns@
    }

    /// A pulse is due `tick_elapsed_ms` milliseconds after the last one: the
    /// transport plays and a whole pulse period has passed.
    pub open spec fn pulse_due(&self, tick_elapsed_ms: int) -> bool {
        self.state.is_playing && tick_elapsed_ms >= crate::state::pulse_period(self.state.tempo as int)
    }

    /// The pattern index of the current group.
    pub open spec fn current_pattern(&self) -> usize {
        self.state.group_patterns@[self.state.current_group as int]
    }

    /// A fresh application around `sample_bank`: stopped, group 0, pattern
    /// 0 everywhere, default tempo and levels.
    pub fn new(sample_bank: SampleBank) -> (r: Self)
        requires
            sample_bank.wf(),
        ensures
            r.wf(),
            r.sample_bank == sample_bank,
            r.state.current_group == 0,
            r.state.group_patterns@ == seq![0usize, 0, 0, 0],
            !r.state.is_playing,
            !r.state.is_recording,
            r.state.tempo == crate::state::DEFAULT_TEMPO,
            r.ui_state.selected_pad.is_none(),
            r.ui_state.flashing_pads@.len() == 0,
            r.sequencer.cursor() == 0,
            r.sequencer.store() == Map::<usize, Seq<Seq<bool>>>::empty(),
            r.sequencer.active() == seq![0usize, 0, 0, 0],
            r.mixer@ == Mixer::new_levels(),
    {
        App {
            mixer: Mixer::new(),
            sequencer: Sequencer::new(),
            sample_bank,
            state: AppState::new(),
            ui_state: UIState::new(),
        }
    }

    /// Presses `pad` of the current group: unless recording, its sample is
    /// to be heard; while recording and playing, the hit is recorded into
    /// the current pattern at the current step; the pad becomes selected. An
    /// invalid pad changes nothing.
    pub fn trigger_pad(&mut self, pad: usize) -> (r: Option<Voice>)
        requires
            old(self).wf(),
        ensures
            final(self).wf(),
            pad >= PADS_PER_GROUP ==> r.is_none() && *final(self) == *old(self),
            pad < PADS_PER_GROUP ==> {
                let group = old(self).state.current_group;
                &&& r == if !old(self).state.is_recording && old(self).sample_bank.sample_at(
                    group as int,
                    pad as int,
                ).is_some() {
                    Some(Voice { group, pad, gain: old(self).mixer@.gain(group as int) as u32 })
                } else {
                    None
                }
                &&& final(self).sequencer.store() == if old(self).state.is_recording
                    && old(self).state.is_playing {
                    old(self).sequencer.store_after_record(group as int, old(self).current_pattern() as int, pad as int)
                } else {
                    old(self).sequencer.store()
                }
                &&& final(self).sequencer.cursor() == old(self).sequencer.cursor()
                &&& final(self).sequencer.active() == old(self).sequencer.active()
                &&& final(self).ui_state == (UIState { selected_pad: Some(pad), ..old(self).ui_state })
                &&& final(self).state == old(self).state
                &&& final(self).mixer == old(self).mixer
                &&& final(self).sample_bank == old(self).sample_bank
            },
    {
        if pad >= PADS_PER_GROUP {
            return None;
        }
        let group = self.state.current_group;
        let voice = if !self.state.is_recording && self.sample_bank.has_sample(group, pad) {
            Some(Voice { group, pad, gain: self.mixer.effective_gain(group) })
        } else {
            None
        };
        if self.state.is_recording && self.state.is_playing {
            let pattern = self.state.group_patterns[group];
            self.sequencer.record_hit(group, pattern, pad);
        }
        self.ui_state.select_pad(pad);
        voice
    }

    /// Starts or stops the transport; starting moves the cursor to the
    /// first step and restarts the pulse clock.
    pub fn toggle_playback(&mut self)
        requires
            old(self).wf(),
        ensures
            final(self).wf(),
            final(self).state.is_playing == !old(self).state.is_playing,
            final(self).state == (AppState {
                is_playing: !old(self).state.is_playing,
                last_tick: final(self).state.last_tick,
                ..old(self).state
            }),
            !old(self).state.is_playing ==> final(self).sequencer.cursor() == 0,
            old(self).state.is_playing ==> final(self).sequencer.cursor() == old(self).sequencer.cursor()
                && final(self).state.last_tick == old(self).state.last_tick,
            final(self).sequencer.store() == old(self).sequencer.store(),
            final(self).sequencer.active() == old(self).sequencer.active(),
            final(self).mixer == old(self).mixer,
            final(self).sample_bank == old(self).sample_bank,
            final(self).ui_state == old(self).ui_state,
    {
        self.state.toggle_playback();
        if self.state.is_playing {
            self.sequencer.reset_position();
            self.state.update_tick_time();
        }
    }

    /// Arms or disarms recording.
    pub fn toggle_recording(&mut self)
        ensures
            *final(self) == (App {
                state: AppState { is_recording: !old(self).state.is_recording, ..old(self).state },
                ..*old(self)
            }),
    {
        self.state.toggle_recording();
    }

    /// Clears the current pattern of the current group.
    pub fn clear_pattern(&mut self)
        requires
            old(self).wf(),
        ensures
            final(self).wf(),
            final(self).sequencer.store() == if old(self).sequencer.is_stored(
                old(self).state.current_group as int,
                old(self).current_pattern() as int,
            ) {
                old(self).sequencer.store().insert(
                    crate::sequencer::pattern_slot(old(self).state.current_group as int, old(self).current_pattern() as int),
                    crate::sequencer::empty_grid(),
                )
            } else {
                old(self).sequencer.store()
            },
            final(self).sequencer.cursor() == old(self).sequencer.cursor(),
            final(self).sequencer.active() == old(self).sequencer.active(),
            *final(self) == (App { sequencer: final(self).sequencer, ..*old(self) }),
    {
        let group = self.state.current_group;
        let pattern = self.state.group_patterns[group];
        self.sequencer.clear_pattern(group, pattern);
    }

    /// Selects the next group, wrapping after the last.
    pub fn next_group(&mut self)
        requires
            old(self).wf(),
        ensures
            final(self).wf(),
            *final(self) == (App {
                state: AppState {
                    current_group: ((old(self).state.current_group + 1) % (MAX_GROUPS as int)) as usize,
                    ..old(self).state
                },
                ..*old(self)
            }),
    {
        self.state.next_group();
    }

    /// Selects the previous group, wrapping before the first.
    pub fn prev_group(&mut self)
        requires
            old(self).wf(),
        ensures
            final(self).wf(),
            *final(self) == (App {
                state: AppState {
                    current_group: if old(self).state.current_group == 0 {
                        (MAX_GROUPS - 1) as usize
                    } else {
                        (old(self).state.current_group - 1) as usize
                    },
                    ..old(self).state
                },
                ..*old(self)
            }),
    {
        self.state.prev_group();
    }

    /// Moves the current group to its next pattern, wrapping after the
    /// last, and makes the sequencer play it.
    pub fn next_pattern(&mut self)
        requires
            old(self).wf(),
        ensures
            final(self).wf(),
            final(self).state.group_patterns@ == old(self).state.group_patterns@.update(
                old(self).state.current_group as int,
                ((old(self).current_pattern() + 1) % (MAX_PATTERNS as int)) as usize,
            ),
            final(self).state == (AppState { group_patterns: final(self).state.group_patterns, ..old(self).state }),
            final(self).sequencer.active() == old(self).sequencer.active().update(
                old(self).state.current_group as int,
                ((old(self).current_pattern() + 1) % (MAX_PATTERNS as int)) as usize,
            ),
            final(self).sequencer.store() == old(self).sequencer.store(),
            final(self).sequencer.cursor() == old(self).sequencer.cursor(),
            *final(self) == (App { state: final(self).state, sequencer: final(self).sequencer, ..*old(self) }),
    {
        self.state.next_pattern();
        let group = self.state.current_group;
        self.sequencer.set_active_pattern(group, self.state.group_patterns[group]);
    }

    /// Moves the current group to its previous pattern, wrapping before the
    /// first, and makes the sequencer play it.
    pub fn prev_pattern(&mut self)
        requires
            old(self).wf(),
        ensures
            final(self).wf(),
            final(self).state.group_patterns@ == old(self).state.group_patterns@.update(
                old(self).state.current_group as int,
                if old(self).current_pattern() == 0 {
                    (MAX_PATTERNS - 1) as usize
                } else {
                    (old(self).current_pattern() - 1) as usize
                },
            ),
            final(self).state == (AppState { group_patterns: final(self).state.group_patterns, ..old(self).state }),
            final(self).sequencer.active() == old(self).sequencer.active().update(
                old(self).state.current_group as int,
                final(self).current_pattern(),
            ),
            final(self).sequencer.store() == old(self).sequencer.store(),
            final(self).sequencer.cursor() == old(self).sequencer.cursor(),
            *final(self) == (App { state: final(self).state, sequencer: final(self).sequencer, ..*old(self) }),
    {
        self.state.prev_pattern();
        let group = self.state.current_group;
        self.sequencer.set_active_pattern(group, self.state.group_patterns[group]);
    }

    /// Adds `delta` to the tempo, held within its range.
    pub fn adjust_tempo(&mut self, delta: i32)
        requires
            old(self).wf(),
        ensures
            final(self).wf(),
            *final(self) == (App {
                state: AppState {
                    tempo: crate::state::clamp_tempo(old(self).state.tempo + delta) as u32,
                    ..old(self).state
                },
                ..*old(self)
            }),
    {
        self.state.adjust_tempo(delta);
    }

    /// One pulse: restarts the pulse clock, advances the sequencer, lights
    /// the pads it hit, and returns the voices of those hits.
    pub fn pulse(&mut self) -> (r: Vec<Voice>)
        requires
            old(self).wf(),
        ensures
            final(self).wf(),
            r@ == voices_for(
                old(self).sequencer.hits_at(old(self).sequencer.cursor()),
                old(self).sample_bank,
                old(self).mixer@,
            ),
            final(self).ui_state.flashing_pads@ == old(self).sequencer.hits_at(old(self).sequencer.cursor()),
            final(self).ui_state.selected_pad == old(self).ui_state.selected_pad,
            final(self).sequencer.cursor() == crate::sequencer::next_step(old(self).sequencer.cursor()),
            final(self).sequencer.store() == old(self).sequencer.store(),
            final(self).sequencer.active() == old(self).sequencer.active(),
            final(self).state == (AppState { last_tick: final(self).state.last_tick, ..old(self).state }),
            final(self).mixer == old(self).mixer,
            final(self).sample_bank == old(self).sample_bank,
    {
        self.state.update_tick_time();
        let hits = self.sequencer.tick(self.state.tempo);
        let mut voices: Vec<Voice> = Vec::new();
        let mut i: usize = 0;
        while i < hits.len()
            invariant
                self.wf(),
                i <= hits@.len(),
                voices@ == voices_for(hits@.subrange(0, i as int), self.sample_bank, self.mixer@),
            decreases hits@.len() - i,
        {
            let (group, pad) = hits[i];
            assert(hits@.subrange(0, i + 1).drop_last() =~= hits@.subrange(0, i as int));
            if self.sample_bank.has_sample(group, pad) {
                voices.push(Voice { group, pad, gain: self.mixer.effective_gain(group) });
            }
            i += 1;
        }
        assert(hits@.subrange(0, hits@.len() as int) =~= hits@);
        self.ui_state.start_flash(hits);
        voices
    }

    /// One frame, by the clock: the lit pads go out once the flash has
    /// lasted long enough, and a pulse is played when one is due. What
    /// holds whatever the clock reads: either no pulse and no voices, or one
    /// pulse and its voices; only the time of the last pulse changes in the
    /// transport state.
    pub fn tick(&mut self) -> (r: Vec<Voice>)
        requires
            old(self).wf(),
        ensures
            final(self).wf(),
            !old(self).state.is_playing ==> r@.len() == 0 && final(self).sequencer.cursor() == old(
                self,
            ).sequencer.cursor() && final(self).state == old(self).state,
            final(self).sequencer.cursor() == old(self).sequencer.cursor() && r@.len() == 0
                || final(self).sequencer.cursor() == crate::sequencer::next_step(old(self).sequencer.cursor()) && r@
                == voices_for(
                old(self).sequencer.hits_at(old(self).sequencer.cursor()),
                old(self).sample_bank,
                old(self).mixer@,
            ),
            final(self).state == (AppState { last_tick: final(self).state.last_tick, ..old(self).state }),
            final(self).sequencer.store() == old(self).sequencer.store(),
            final(self).sequencer.active() == old(self).sequencer.active(),
            final(self).ui_state.selected_pad == old(self).ui_state.selected_pad,
            final(self).mixer == old(self).mixer,
            final(self).sample_bank == old(self).sample_bank,
    {
        let flash_elapsed = crate::state::millis_since(&self.ui_state.flash_timer);
        let tick_elapsed = crate::state::millis_since(&self.state.last_tick);
        self.tick_after(flash_elapsed, tick_elapsed)
    }

    /// One frame, `flash_elapsed_ms` milliseconds after the pads were lit and
    /// `tick_elapsed_ms` milliseconds after the last pulse: the lit pads go
    /// out once the flash has lasted `FLASH_DURATION_MS`; then, exactly when
    /// a pulse is due, the pulse is played as `pulse` plays it and lights
    /// its hits. With no pulse due nothing else changes and no voice sounds.
    pub fn tick_after(&mut self, flash_elapsed_ms: u128, tick_elapsed_ms: u128) -> (r: Vec<Voice>)
        requires
            old(self).wf(),
        ensures
            final(self).wf(),
            old(self).pulse_due(tick_elapsed_ms as int) ==> {
                &&& r@ == voices_for(
                    old(self).sequencer.hits_at(old(self).sequencer.cursor()),
                    old(self).sample_bank,
                    old(self).mixer@,
                )
                &&& final(self).ui_state.flashing_pads@ == old(self).sequencer.hits_at(old(self).sequencer.cursor())
                &&& final(self).sequencer.cursor() == crate::sequencer::next_step(old(self).sequencer.cursor())
                &&& final(self).state == (AppState { last_tick: final(self).state.last_tick, ..old(self).state })
            },
            !old(self).pulse_due(tick_elapsed_ms as int) ==> {
                &&& r@.len() == 0
                &&& final(self).sequencer.cursor() == old(self).sequencer.cursor()
                &&& final(self).state == old(self).state
                &&& final(self).ui_state.flashing_pads@ == if flash_elapsed_ms >= crate::state::FLASH_DURATION_MS {
                    Seq::<(usize, usize)>::empty()
                } else {
                    old(self).ui_state.flashing_pads@
                }
                &&& final(self).ui_state.flash_timer == old(self).ui_state.flash_timer
            },
            final(self).sequencer.store() == old(self).sequencer.store(),
            final(self).sequencer.active() == old(self).sequencer.active(),
            final(self).ui_state.selected_pad == old(self).ui_state.selected_pad,
            final(self).mixer == old(self).mixer,
            final(self).sample_bank == old(self).sample_bank,
    {
        self.ui_state.update_flash_after(flash_elapsed_ms);
        if self.state.should_tick_after(tick_elapsed_ms) {
            self.pulse()
        } else {
            Vec::new()
        }
    }

    /// A copy of the grid of the current pattern of the current group.
    pub fn get_pattern_grid(&self) -> (r: Vec<Vec<bool>>)
        requires
            self.wf(),
        ensures
            crate::sequencer::rows_view(r@) == self.sequencer.grid_at(
                self.state.current_group as int,
                self.current_pattern() as int,
            ),
    {
        let group = self.state.current_group;
        self.sequencer.get_pattern_grid(group, self.state.group_patterns[group])
    }

    /// The pattern index of the current group.
    pub fn get_current_pattern(&self) -> (r: usize)
        requires
            self.wf(),
        ensures
            r == self.current_pattern(),
    {
        self.state.get_current_pattern()
    }

    /// The step the cursor is on.
    pub fn get_current_step(&self) -> (r: usize)
        ensures
            r == self.sequencer.cursor(),
    {
        self.sequencer.get_current_step()
    }

    /// The current group.
    pub fn get_current_group(&self) -> (r: usize)
        ensures
            r == self.state.current_group,
    {
        self.state.current_group
    }

    /// The selected pad, if any.
    pub fn get_selected_pad(&self) -> (r: Option<usize>)
        ensures
            r == self.ui_state.selected_pad,
    {
        self.ui_state.selected_pad
    }

    /// Pad `pad` of `group` is lit.
    pub fn is_pad_flashing(&self, group: usize, pad: usize) -> (r: bool)
        ensures
            r == self.ui_state.flashing_pads@.contains((group, pad)),
    {
        self.ui_state.is_pad_flashing(group, pad)
    }

    /// The transport plays.
    pub fn is_playing(&self) -> (r: bool)
        ensures
            r == self.state.is_playing,
    {
        self.state.is_playing
    }

    /// Recording is armed.
    pub fn is_recording(&self) -> (r: bool)
        ensures
            r == self.state.is_recording,
    {
        self.state.is_recording
    }

    /// The tempo, in beats per minute.
    pub fn get_tempo(&self) -> (r: u32)
        ensures
            r == self.state.tempo,
    {
        self.state.tempo
    }

    /// Adds `delta` to the master level, held within range.
    pub fn adjust_master_volume(&mut self, delta: i32)
        requires
            old(self).wf(),
        ensures
            final(self).wf(),
            final(self).mixer@ == (MixerLevels {
                master: crate::mixer::clamp_volume(old(self).mixer@.master + delta),
                ..old(self).mixer@
            }),
            *final(self) == (App { mixer: final(self).mixer, ..*old(self) }),
    {
        self.mixer.adjust_master_volume(delta);
    }

    /// Mutes or unmutes the master.
    pub fn toggle_master_mute(&mut self)
        requires
            old(self).wf(),
        ensures
            final(self).wf(),
            final(self).mixer@ == (MixerLevels { master_muted: !old(self).mixer@.master_muted, ..old(self).mixer@ }),
            *final(self) == (App { mixer: final(self).mixer, ..*old(self) }),
    {
        self.mixer.toggle_master_mute();
    }

    /// Adds `delta` to the level of `group`, held within range; an invalid
    /// group changes nothing.
    pub fn adjust_group_volume(&mut self, group: usize, delta: i32)
        requires
            old(self).wf(),
        ensures
            final(self).wf(),
            group < MAX_GROUPS ==> final(self).mixer@ == (MixerLevels {
                groups: old(self).mixer@.groups.update(
                    group as int,
                    crate::mixer::clamp_volume(old(self).mixer@.groups[group as int] + delta),
                ),
                ..old(self).mixer@
            }),
            group >= MAX_GROUPS ==> *final(self) == *old(self),
            *final(self) == (App { mixer: final(self).mixer, ..*old(self) }),
    {
        self.mixer.adjust_group_volume(group, delta);
    }

    /// Mutes or unmutes `group`; an invalid group changes nothing.
    pub fn toggle_group_mute(&mut self, group: usize)
        requires
            old(self).wf(),
        ensures
            final(self).wf(),
            group < MAX_GROUPS ==> final(self).mixer@ == (MixerLevels {
                groups_muted: old(self).mixer@.groups_muted.update(group as int, !old(self).mixer@.groups_muted[group as int]),
                ..old(self).mixer@
            }),
            group >= MAX_GROUPS ==> *final(self) == *old(self),
            *final(self) == (App { mixer: final(self).mixer, ..*old(self) }),
    {
        self.mixer.toggle_group_mute(group);
    }

    /// The master level.
    pub fn get_master_volume(&self) -> (r: u32)
        ensures
            r == self.mixer@.master,
    {
        self.mixer.get_master_volume()
    }

    /// The level of `group`; an invalid group reads as 0.
    pub fn get_group_volume(&self, group: usize) -> (r: u32)
        ensures
            r == self.mixer@.group_level(group as int),
    {
        self.mixer.get_group_volume(group)
    }

    /// The master is muted.
    pub fn is_master_muted(&self) -> (r: bool)
        ensures
            r == self.mixer@.master_muted,
    {
        self.mixer.is_master_muted()
    }

    /// `group` is muted; an invalid group reads as not muted.
    pub fn is_group_muted(&self, group: usize) -> (r: bool)
        ensures
            r == self.mixer@.group_mute(group as int),
    {
        self.mixer.is_group_muted(group)
    }
}

} // verus!
