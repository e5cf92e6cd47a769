//! The commands that key bindings produce, and how each acts on the
//! application.

use vstd::prelude::*;
use vstd::string::*;
use crate::app::{App, Voice};
use crate::mixer::MixerLevels;
use crate::sample::{append_decimal, decimal};
use crate::sequencer::{MAX_GROUPS, PADS_PER_GROUP};
use crate::state::{clamp_tempo, AppState, UIState};

verus! {

/// A user command. Volume deltas are in thousandths of full scale.
#[derive(Debug, Clone, PartialEq)]
pub enum Command {
    TogglePlayback,
    ToggleRecording,
    ClearPattern,
    NextGroup,
    PrevGroup,
    NextPattern,
    PrevPattern,
    IncreaseTempo(i32),
    DecreaseTempo(i32),
    TriggerPad(usize),
    AdjustMasterVolume(i32),
    ToggleMasterMute,
    AdjustGroupVolume(usize, i32),
    ToggleGroupMute(usize),
    Quit,
}

impl Command {
    /// The command names a pad or group that does not exist.
    pub open spec fn rejected(&self) -> bool {
        match *self {
            Command::TriggerPad(pad) => pad >= PADS_PER_GROUP,
            Command::AdjustGroupVolume(group, _) => group >= MAX_GROUPS,
            Command::ToggleGroupMute(group) => group >= MAX_GROUPS,
            _ => false,
        }
    }

    /// The message that a rejected command reports.
    pub open spec fn rejection(&self) -> Seq<char> {
        match *self {
            Command::TriggerPad(pad) => "Invalid pad index: "@ + decimal(pad as nat),
            Command::AdjustGroupVolume(group, _) => "Invalid group index: "@ + decimal(group as nat),
            Command::ToggleGroupMute(group) => "Invalid group index: "@ + decimal(group as nat),
            _ => Seq::empty(),
        }
    }

    /// Carries the command out on `app`. A command that names a pad or
    /// group that does not exist is refused with a message and changes
    /// nothing. A pad press returns the voice to be heard, if any; `Quit` is
    /// left to the caller.
    pub fn execute(&self, app: &mut App) -> (r: Result<Option<Voice>, String>)
        requires
            old(app).wf(),
        ensures
            final(app).wf(),
            r.is_err() == self.rejected(),
            match r {
                Err(msg) => msg@ == self.rejection() && *final(app) == *old(app),
                Ok(voice) => voice.is_some() ==> (self matches Command::TriggerPad(_)),
            },
            match *self {
                Command::TogglePlayback => final(app).state == (AppState {
                    is_playing: !old(app).state.is_playing,
                    last_tick: final(app).state.last_tick,
                    ..old(app).state
                }) && (!old(app).state.is_playing ==> final(app).sequencer.cursor() == 0) && (old(app).state.is_playing
                    ==> final(app).sequencer.cursor() == old(app).sequencer.cursor())
                    && final(app).sequencer.store() == old(app).sequencer.store()
                    && final(app).sequencer.active() == old(app).sequencer.active()
                    && final(app).mixer == old(app).mixer && final(app).sample_bank == old(app).sample_bank
                    && final(app).ui_state == old(app).ui_state,
                Command::ToggleRecording => *final(app) == (App {
                    state: AppState { is_recording: !old(app).state.is_recording, ..old(app).state },
                    ..*old(app)
                }),
                Command::ClearPattern => final(app).sequencer.store() == if old(app).sequencer.is_stored(
                    old(app).state.current_group as int,
                    old(app).current_pattern() as int,
                ) {
                    old(app).sequencer.store().insert(
                        crate::sequencer::pattern_slot(
                            old(app).state.current_group as int,
                            old(app).current_pattern() as int,
                        ),
                        crate::sequencer::empty_grid(),
                    )
                } else {
                    old(app).sequencer.store()
                } && final(app).sequencer.grid_at(
                    old(app).state.current_group as int,
                    old(app).current_pattern() as int,
                ) == crate::sequencer::empty_grid() && final(app).sequencer.cursor() == old(app).sequencer.cursor()
                    && final(app).sequencer.active() == old(app).sequencer.active() && *final(app) == (App {
                    sequencer: final(app).sequencer,
                    ..*old(app)
                }),
                Command::NextGroup => *final(app) == (App {
                    state: AppState {
                        current_group: ((old(app).state.current_group + 1) % (MAX_GROUPS as int)) as usize,
                        ..old(app).state
                    },
                    ..*old(app)
                }),
                Command::PrevGroup => *final(app) == (App {
                    state: AppState {
                        current_group: if old(app).state.current_group == 0 {
                            (MAX_GROUPS - 1) as usize
                        } else {
                            (old(app).state.current_group - 1) as usize
                        },
                        ..old(app).state
                    },
                    ..*old(app)
                }),
                Command::NextPattern => final(app).current_pattern() == (old(app).current_pattern() + 1) % 99
                    && final(app).sequencer.active() == old(app).sequencer.active().update(
                    old(app).state.current_group as int,
                    final(app).current_pattern(),
                ) && final(app).state == (AppState { group_patterns: final(app).state.group_patterns, ..old(app).state })
                    && final(app).sequencer.store() == old(app).sequencer.store()
                    && final(app).sequencer.cursor() == old(app).sequencer.cursor()
                    && *final(app) == (App { state: final(app).state, sequencer: final(app).sequencer, ..*old(app) }),
                Command::PrevPattern => final(app).current_pattern() == if old(app).current_pattern() == 0 {
                    98
                } else {
                    old(app).current_pattern() - 1
                } && final(app).sequencer.active() == old(app).sequencer.active().update(
                    old(app).state.current_group as int,
                    final(app).current_pattern(),
                ) && final(app).state == (AppState { group_patterns: final(app).state.group_patterns, ..old(app).state })
                    && final(app).sequencer.store() == old(app).sequencer.store()
                    && final(app).sequencer.cursor() == old(app).sequencer.cursor()
                    && *final(app) == (App { state: final(app).state, sequencer: final(app).sequencer, ..*old(app) }),
                Command::IncreaseTempo(amount) => *final(app) == (App {
                    state: AppState { tempo: clamp_tempo(old(app).state.tempo + amount) as u32, ..old(app).state },
                    ..*old(app)
                }),
                Command::DecreaseTempo(amount) => *final(app) == (App {
                    state: AppState { tempo: clamp_tempo(old(app).state.tempo - amount) as u32, ..old(app).state },
                    ..*old(app)
                }),
                Command::TriggerPad(pad) => pad < PADS_PER_GROUP ==> {
                    let group = old(app).state.current_group;
                    &&& r == Ok::<Option<Voice>, String>(
                        if !old(app).state.is_recording && old(app).sample_bank.sample_at(group as int, pad as int).is_some() {
                            Some(Voice { group, pad, gain: old(app).mixer@.gain(group as int) as u32 })
                        } else {
                            None
                        },
                    )
                    &&& final(app).sequencer.store() == if old(app).state.is_recording && old(app).state.is_playing {
                        old(app).sequencer.store_after_record(group as int, old(app).current_pattern() as int, pad as int)
                    } else {
                        old(app).sequencer.store()
                    }
                    &&& final(app).sequencer.cursor() == old(app).sequencer.cursor()
                    &&& final(app).sequencer.active() == old(app).sequencer.active()
                    &&& final(app).ui_state == (UIState { selected_pad: Some(pad), ..old(app).ui_state })
                    &&& final(app).state == old(app).state
                    &&& final(app).mixer == old(app).mixer
                    &&& final(app).sample_bank == old(app).sample_bank
                },
                Command::AdjustMasterVolume(delta) => final(app).mixer@ == (MixerLevels {
                    master: crate::mixer::clamp_volume(old(app).mixer@.master + delta),
                    ..old(app).mixer@
                }) && *final(app) == (App { mixer: final(app).mixer, ..*old(app) }),
                Command::ToggleMasterMute => final(app).mixer@ == (MixerLevels {
                    master_muted: !old(app).mixer@.master_muted,
                    ..old(app).mixer@
                }) && *final(app) == (App { mixer: final(app).mixer, ..*old(app) }),
                Command::AdjustGroupVolume(group, delta) => group < MAX_GROUPS ==> final(app).mixer@ == (
                MixerLevels {
                    groups: old(app).mixer@.groups.update(
                        group as int,
                        crate::mixer::clamp_volume(old(app).mixer@.groups[group as int] + delta),
                    ),
                    ..old(app).mixer@
                }) && *final(app) == (App { mixer: final(app).mixer, ..*old(app) }),
                Command::ToggleGroupMute(group) => group < MAX_GROUPS ==> final(app).mixer@ == (MixerLevels {
                    groups_muted: old(app).mixer@.groups_muted.update(
                        group as int,
                        !old(app).mixer@.groups_muted[group as int],
                    ),
                    ..old(app).mixer@
                }) && *final(app) == (App { mixer: final(app).mixer, ..*old(app) }),
                Command::Quit => *final(app) == *old(app),
            },
    {
        match self {
            Command::TogglePlayback => {
                app.toggle_playback();
                Ok(None)
            },
            Command::ToggleRecording => {
                app.toggle_recording();
                Ok(None)
            },
            Command::ClearPattern => {
                proof {
                    app.sequencer.lemma_grids_shaped();
                }
                app.clear_pattern();
                Ok(None)
            },
            Command::NextGroup => {
                app.next_group();
                Ok(None)
            },
            Command::PrevGroup => {
                app.prev_group();
                Ok(None)
            },
            Command::NextPattern => {
                app.next_pattern();
                Ok(None)
            },
            Command::PrevPattern => {
                app.prev_pattern();
                Ok(None)
            },
            Command::IncreaseTempo(amount) => {
                app.adjust_tempo(*amount);
                Ok(None)
            },
            Command::DecreaseTempo(amount) => {
                // Negating the smallest amount overflows; the largest one
                // clamps the tempo alike.
                let delta = if *amount == i32::MIN {
                    i32::MAX
                } else {
                    -*amount
                };
                app.adjust_tempo(delta);
                Ok(None)
            },
            Command::TriggerPad(pad) => {
                if *pad >= PADS_PER_GROUP {
                    return Err(index_message("Invalid pad index: ", *pad));
                }
                Ok(app.trigger_pad(*pad))
            },
            Command::AdjustMasterVolume(delta) => {
                app.adjust_master_volume(*delta);
                Ok(None)
            },
            Command::ToggleMasterMute => {
                app.toggle_master_mute();
                Ok(None)
            },
            Command::AdjustGroupVolume(group, delta) => {
                if *group >= MAX_GROUPS {
                    return Err(index_message("Invalid group index: ", *group));
                }
                app.adjust_group_volume(*group, *delta);
                Ok(None)
            },
            Command::ToggleGroupMute(group) => {
                if *group >= MAX_GROUPS {
                    return Err(index_message("Invalid group index: ", *group));
                }
                app.toggle_group_mute(*group);
                Ok(None)
            },
            Command::Quit => Ok(None),
        }
    }
}

/// `prefix` followed by the decimal digits of `index`.
fn index_message(prefix: &str, index: usize) -> (r: String)
    ensures
        r@ == prefix@ + decimal(index as nat),
{
    let mut text = String::from_str(prefix);
    append_decimal(&mut text, index);
    text
}

} // verus!
