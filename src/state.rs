//! Transport state (tempo, play and record flags, pulse timing), the
//! selected group and patterns, and the pad flashes shown by a renderer.

use std::time::Instant;
use vstd::prelude::*;
use crate::sequencer::{MAX_GROUPS, MAX_PATTERNS};

verus! {

/// Slowest tempo, in beats per minute.
pub const MIN_TEMPO: u32 = 60;

/// Fastest tempo, in beats per minute.
pub const MAX_TEMPO: u32 = 300;

/// Tempo of a fresh state.
pub const DEFAULT_TEMPO: u32 = 120;

/// How long a pad stays lit after it sounded, in milliseconds.
pub const FLASH_DURATION_MS: u128 = 150;

#[verifier::external_type_specification]
#[verifier::external_body]
pub struct ExInstant(Instant);

/// Relies on std::time::Instant::now: reads the monotonic clock.
#[verifier::external_body]
fn instant_now() -> (r: Instant) {
    Instant::now()
}

/// Relies on std::time::Instant::elapsed: the time passed since `since`,
/// in whole milliseconds.
#[verifier::external_body]
pub(crate) fn millis_since(since: &Instant) -> (r: u128) {
    since.elapsed().as_millis()
}

/// Milliseconds between two pulses at `tempo`: four steps to the beat.
pub open spec fn pulse_period(tempo: int) -> int {
    60000int / (tempo * 4)
}

/// `t` held within the tempo range.
pub open spec fn clamp_tempo(t: int) -> int {
    if t < MIN_TEMPO {
        MIN_TEMPO as int
    } else if t > MAX_TEMPO {
        MAX_TEMPO as int
    } else {
        t
    }
}

/// Milliseconds between two pulses at `tempo` beats per minute, with four
/// steps to the beat.
pub fn pulse_period_ms(tempo: u32) -> (r: u64)
    requires
        tempo > 0,
    ensures
        r == pulse_period(tempo as int),
{
    60000 / (tempo as u64 * 4)
}

/// What a renderer shows besides the patterns: the selected pad and the
/// pads lit by the last pulse.
#[derive(Debug)]
pub struct UIState {
    pub selected_pad: Option<usize>,
    pub flashing_pads: Vec<(usize, usize)>,
    pub flash_timer: Instant,
}

impl UIState {
    /// No pad selected and none lit.
    pub fn new() -> (r: Self)
        ensures
            r.selected_pad.is_none(),
            r.flashing_pads@ == Seq::<(usize, usize)>::empty(),
    {
        UIState { selected_pad: None, flashing_pads: Vec::new(), flash_timer: instant_now() }
    }

    /// Selects `pad`.
    pub fn select_pad(&mut self, pad: usize)
        ensures
            *final(self) == (UIState { selected_pad: Some(pad), ..*old(self) }),
    {
        self.selected_pad = Some(pad);
    }

    /// Selects no pad.
    pub fn clear_selection(&mut self)
        ensures
            *final(self) == (UIState { selected_pad: None, ..*old(self) }),
    {
        self.selected_pad = None;
    }

    /// Lights `pads`, as `(group, pad)` pairs, from now on.
    pub fn start_flash(&mut self, pads: Vec<(usize, usize)>)
        ensures
            final(self).flashing_pads@ == pads@,
            final(self).selected_pad == old(self).selected_pad,
    {
        self.flashing_pads = pads;
        self.flash_timer = instant_now();
    }

    /// Puts the lit pads out once the flash has lasted long enough, by the
    /// clock.
    pub fn update_flash(&mut self)
        ensures
            final(self).flashing_pads@ == old(self).flashing_pads@ || final(self).flashing_pads@ == Seq::<
                (usize, usize),
            >::empty(),
            final(self).selected_pad == old(self).selected_pad,
            final(self).flash_timer == old(self).flash_timer,
    {
        let elapsed = millis_since(&self.flash_timer);
        self.update_flash_after(elapsed);
    }

    /// Puts the lit pads out when `elapsed_ms` milliseconds since the flash
    /// started reach the flash duration; otherwise changes nothing.
    pub fn update_flash_after(&mut self, elapsed_ms: u128)
        ensures
            elapsed_ms >= FLASH_DURATION_MS ==> final(self).flashing_pads@ == Seq::<(usize, usize)>::empty(),
            elapsed_ms < FLASH_DURATION_MS ==> *final(self) == *old(self),
            final(self).selected_pad == old(self).selected_pad,
            final(self).flash_timer == old(self).flash_timer,
    {
        if elapsed_ms >= FLASH_DURATION_MS {
            self.flashing_pads.clear();
        }
    }

    /// Pad `pad` of `group` is lit.
    pub fn is_pad_flashing(&self, group: usize, pad: usize) -> (r: bool)
        ensures
            r == self.flashing_pads@.contains((group, pad)),
    {
        let mut i: usize = 0;
        while i < self.flashing_pads.len()
            invariant
                i <= self.flashing_pads@.len(),
                forall|j: int| 0 <= j < i ==> self.flashing_pads@[j] != (group, pad),
            decreases self.flashing_pads@.len() - i,
        {
            let (g, p) = self.flashing_pads[i];
            if g == group && p == pad {
                assert(self.flashing_pads@[i as int] == (group, pad));
                return true;
            }
            i += 1;
        }
        false
    }
}

impl Default for UIState {
    /// No pad selected and none lit.
    fn default() -> (r: Self)
        ensures
            r.selected_pad.is_none(),
            r.flashing_pads@ == Seq::<(usize, usize)>::empty(),
    {
        Self::new()
    }
}

/// The transport and the selection: current group, each group's current
/// pattern, the play and record flags, the tempo and when the last pulse
/// fired.
#[derive(Debug)]
pub struct AppState {
    pub current_group: usize,
    pub group_patterns: [usize; MAX_GROUPS],
    pub is_playing: bool,
    pub is_recording: bool,
    pub tempo: u32,
    pub last_tick: Instant,
}

impl AppState {
    /// The current group is a group and the tempo is in range.
    pub open spec fn wf(&self) -> bool {
        &&& self.current_group < MAX_GROUPS
        &&& MIN_TEMPO <= self.tempo <= MAX_TEMPO
        &&& forall|g: int| 0 <= g < MAX_GROUPS ==> #[trigger] self.group_patterns@[g] < MAX_PATTERNS
    }

    /// Group 0 on pattern 0 everywhere, stopped, not recording, at the
    /// default tempo.
    pub fn new() -> (r: Self)
        ensures
            r.wf(),
            r.current_group == 0,
            r.group_patterns@ == seq![0usize, 0, 0, 0],
            !r.is_playing,
            !r.is_recording,
            r.tempo == DEFAULT_TEMPO,
    {
        let r = AppState {
            current_group: 0,
            group_patterns: [0; MAX_GROUPS],
            is_playing: false,
            is_recording: false,
            tempo: DEFAULT_TEMPO,
            last_tick: instant_now(),
        };
        assert(r.group_patterns@ =~= seq![0usize, 0, 0, 0]);
        r
    }

    /// Selects the next group, wrapping after the last.
    pub fn next_group(&mut self)
        ensures
            *final(self) == (AppState {
                current_group: ((old(self).current_group + 1) % (MAX_GROUPS as int)) as usize,
                ..*old(self)
            }),
    {
        proof {
            vstd::arithmetic::div_mod::lemma_add_mod_noop(self.current_group as int, 1, MAX_GROUPS as int);
        }
        self.current_group = (self.current_group % MAX_GROUPS + 1) % MAX_GROUPS;
    }

    /// Selects the previous group, wrapping before the first.
    pub fn prev_group(&mut self)
        ensures
            *final(self) == (AppState {
                current_group: if old(self).current_group == 0 {
                    (MAX_GROUPS - 1) as usize
                } else {
                    (old(self).current_group - 1) as usize
                },
                ..*old(self)
            }),
    {
        self.current_group = if self.current_group == 0 {
            MAX_GROUPS - 1
        } else {
            self.current_group - 1
        };
    }

    /// The pattern index of the current group.
    pub fn get_current_pattern(&self) -> (r: usize)
        requires
            self.current_group < MAX_GROUPS,
        ensures
            r == self.group_patterns@[self.current_group as int],
    {
        self.group_patterns[self.current_group]
    }

    /// Sets the pattern index of the current group; an index that names no
    /// pattern changes nothing.
    pub fn set_current_pattern(&mut self, pattern: usize)
        requires
            old(self).current_group < MAX_GROUPS,
        ensures
            pattern < MAX_PATTERNS ==> final(self).group_patterns@ == old(self).group_patterns@.update(
                old(self).current_group as int,
                pattern,
            ),
            pattern >= MAX_PATTERNS ==> *final(self) == *old(self),
            *final(self) == (AppState { group_patterns: final(self).group_patterns, ..*old(self) }),
    {
        if pattern < MAX_PATTERNS {
            self.group_patterns[self.current_group] = pattern;
        }
    }

    /// Moves the current group to its next pattern, wrapping after the last.
    pub fn next_pattern(&mut self)
        requires
            old(self).current_group < MAX_GROUPS,
        ensures
            final(self).group_patterns@ == old(self).group_patterns@.update(
                old(self).current_group as int,
                ((old(self).group_patterns@[old(self).current_group as int] + 1) % (MAX_PATTERNS as int)) as usize,
            ),
            *final(self) == (AppState { group_patterns: final(self).group_patterns, ..*old(self) }),
    {
        let current = self.group_patterns[self.current_group];
        proof {
            vstd::arithmetic::div_mod::lemma_add_mod_noop(current as int, 1, MAX_PATTERNS as int);
        }
        self.group_patterns[self.current_group] = (current % MAX_PATTERNS + 1) % MAX_PATTERNS;
    }

    /// Moves the current group to its previous pattern, wrapping before the
    /// first.
    pub fn prev_pattern(&mut self)
        requires
            old(self).current_group < MAX_GROUPS,
        ensures
            final(self).group_patterns@ == old(self).group_patterns@.update(
                old(self).current_group as int,
                if old(self).group_patterns@[old(self).current_group as int] == 0 {
                    (MAX_PATTERNS - 1) as usize
                } else {
                    (old(self).group_patterns@[old(self).current_group as int] - 1) as usize
                },
            ),
            *final(self) == (AppState { group_patterns: final(self).group_patterns, ..*old(self) }),
    {
        let current = self.group_patterns[self.current_group];
        self.group_patterns[self.current_group] = if current == 0 {
            MAX_PATTERNS - 1
        } else {
            current - 1
        };
    }

    /// Adds `delta` to the tempo, held within `MIN_TEMPO..=MAX_TEMPO`.
    pub fn adjust_tempo(&mut self, delta: i32)
        ensures
            *final(self) == (AppState {
                tempo: clamp_tempo(old(self).tempo + delta) as u32,
                ..*old(self)
            }),
    {
        let t: i64 = self.tempo as i64 + delta as i64;
        self.tempo = if t < MIN_TEMPO as i64 {
            MIN_TEMPO
        } else if t > MAX_TEMPO as i64 {
            MAX_TEMPO
        } else {
            t as u32
        };
    }

    /// Starts or stops the transport.
    pub fn toggle_playback(&mut self)
        ensures
            *final(self) == (AppState { is_playing: !old(self).is_playing, ..*old(self) }),
    {
        self.is_playing = !self.is_playing;
    }

    /// Arms or disarms recording.
    pub fn toggle_recording(&mut self)
        ensures
            *final(self) == (AppState { is_recording: !old(self).is_recording, ..*old(self) }),
    {
        self.is_recording = !self.is_recording;
    }

    /// Marks now as the time of the last pulse.
    pub fn update_tick_time(&mut self)
        ensures
            *final(self) == (AppState { last_tick: final(self).last_tick, ..*old(self) }),
    {
        self.last_tick = instant_now();
    }

    /// A pulse is due, by the clock: the transport plays and a pulse period
    /// has passed since the last pulse.
    pub fn should_tick(&self) -> (r: bool)
        requires
            self.tempo > 0,
        ensures
            r ==> self.is_playing,
    {
        if !self.is_playing {
            return false;
        }
        let elapsed = millis_since(&self.last_tick);
        self.should_tick_after(elapsed)
    }

    /// A pulse is due when `elapsed_ms` milliseconds have passed since the
    /// last pulse: the transport plays and a whole pulse period has passed.
    pub fn should_tick_after(&self, elapsed_ms: u128) -> (r: bool)
        requires
            self.tempo > 0,
        ensures
            r == (self.is_playing && elapsed_ms >= pulse_period(self.tempo as int)),
    {
        self.is_playing && elapsed_ms >= pulse_period_ms(self.tempo) as u128
    }
}

impl Default for AppState {
    /// Group 0 on pattern 0 everywhere, stopped, not recording, at the
    /// default tempo.
    fn default() -> (r: Self)
        ensures
            r.wf(),
            r.current_group == 0,
            r.group_patterns@ == seq![0usize, 0, 0, 0],
            !r.is_playing,
            !r.is_recording,
            r.tempo == DEFAULT_TEMPO,
    {
        Self::new()
    }
}

} // verus!
