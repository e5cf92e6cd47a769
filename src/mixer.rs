//! Master and per-group gain and mute state, and the gain that a sounding
//! pad is played at.
//!
//! Volume levels are thousandths of full scale: `0..=FULL_VOLUME` stands for
//! the range from silence to unity gain. A gain, the product of two levels,
//! is in millionths of unity.

use vstd::prelude::*;
use vstd::string::*;

verus! {

/// The level of unity gain: volume levels range over `0..=FULL_VOLUME`.
pub const FULL_VOLUME: u32 = 1000;

/// Master level of a fresh mixer.
pub const DEFAULT_MASTER_VOLUME: u32 = 700;

/// Group level of a fresh mixer.
pub const DEFAULT_GROUP_VOLUME: u32 = 800;

/// Mixer channels, one per group.
pub const MIXER_GROUPS: usize = 4;

/// `v` held within `0..=FULL_VOLUME`.
pub open spec fn clamp_volume(v: int) -> int {
    if v < 0 {
        0
    } else if v > FULL_VOLUME {
        FULL_VOLUME as int
    } else {
        v
    }
}

/// What a mixer holds: the master level and mute, and each group's level
/// and mute.
pub struct MixerLevels {
    pub master: int,
    pub master_muted: bool,
    pub groups: Seq<int>,
    pub groups_muted: Seq<bool>,
}

impl MixerLevels {
    /// One level and one mute per group, every level within
    /// `0..=FULL_VOLUME`.
    pub open spec fn wf(self) -> bool {
        &&& 0 <= self.master <= FULL_VOLUME
        &&& self.groups.len() == MIXER_GROUPS
        &&& self.groups_muted.len() == MIXER_GROUPS
        &&& forall|g: int| 0 <= g < MIXER_GROUPS ==> 0 <= #[trigger] self.groups[g] <= FULL_VOLUME
    }

    /// The level of `group`; an invalid group reads as silent.
    pub open spec fn group_level(self, group: int) -> int {
        if 0 <= group < MIXER_GROUPS {
            self.groups[group]
        } else {
            0
        }
    }

    /// `group` is muted; an invalid group reads as not muted.
    pub open spec fn group_mute(self, group: int) -> bool {
        if 0 <= group < MIXER_GROUPS {
            self.groups_muted[group]
        } else {
            false
        }
    }

    /// The gain that `group` plays at, in millionths: silent when the master
    /// or the group is muted, else the product of the two levels.
    pub open spec fn gain(self, group: int) -> int {
        if self.master_muted || self.group_mute(group) {
            0
        } else {
            self.master * self.group_level(group)
        }
    }
}

/// The levels and mutes of the master channel and of each group.
pub struct Mixer {
    master_volume: u32,
    group_volumes: [u32; MIXER_GROUPS],
    group_muted: [bool; MIXER_GROUPS],
    master_muted: bool,
}

impl View for Mixer {
    type V = MixerLevels;

    closed spec fn view(&self) -> MixerLevels {
        MixerLevels {
            master: self.master_volume as int,
            master_muted: self.master_muted,
            groups: self.group_volumes@.map_values(|v: u32| v as int),
            groups_muted: self.group_muted@,
        }
    }
}

impl Mixer {
    /// Every level is within `0..=FULL_VOLUME`, with one level and one mute
    /// per group.
    pub open spec fn wf(&self) -> bool {
        self@.wf()
    }

    /// The levels of a fresh mixer.
    pub open spec fn new_levels() -> MixerLevels {
        MixerLevels {
            master: DEFAULT_MASTER_VOLUME as int,
            master_muted: false,
            groups: seq![DEFAULT_GROUP_VOLUME as int, DEFAULT_GROUP_VOLUME as int, DEFAULT_GROUP_VOLUME as int, DEFAULT_GROUP_VOLUME as int],
            groups_muted: seq![false, false, false, false],
        }
    }

    /// Master at `DEFAULT_MASTER_VOLUME`, every group at
    /// `DEFAULT_GROUP_VOLUME`, nothing muted.
    pub fn new() -> (r: Self)
        ensures
            r.wf(),
            r@ == Self::new_levels(),
    {
        let r = Mixer {
            master_volume: DEFAULT_MASTER_VOLUME,
            group_volumes: [DEFAULT_GROUP_VOLUME; MIXER_GROUPS],
            group_muted: [false; MIXER_GROUPS],
            master_muted: false,
        };
        assert(r@.groups =~= seq![DEFAULT_GROUP_VOLUME as int, DEFAULT_GROUP_VOLUME as int, DEFAULT_GROUP_VOLUME as int, DEFAULT_GROUP_VOLUME as int]);
        assert(r@.groups_muted =~= seq![false, false, false, false]);
        r
    }

    /// Sets the master level, held within `0..=FULL_VOLUME`.
    pub fn set_master_volume(&mut self, level: i32)
        requires
            old(self).wf(),
        ensures
            final(self).wf(),
            final(self)@ == (MixerLevels { master: clamp_volume(level as int), ..old(self)@ }),
    {
        self.master_volume = clamp_level(level as i64);
    }

    /// The master level.
    pub fn get_master_volume(&self) -> (r: u32)
        ensures
            r == self@.master,
            self.wf() ==> r <= FULL_VOLUME,
    {
        self.master_volume
    }

    /// Adds `delta` to the master level, held within `0..=FULL_VOLUME`.
    pub fn adjust_master_volume(&mut self, delta: i32)
        requires
            old(self).wf(),
        ensures
            final(self).wf(),
            final(self)@ == (MixerLevels { master: clamp_volume(old(self)@.master + delta), ..old(self)@ }),
    {
        self.master_volume = clamp_level(self.master_volume as i64 + delta as i64);
    }

    /// Mutes or unmutes the master; the level is kept.
    pub fn toggle_master_mute(&mut self)
        requires
            old(self).wf(),
        ensures
            final(self).wf(),
            final(self)@ == (MixerLevels { master_muted: !old(self)@.master_muted, ..old(self)@ }),
    {
        self.master_muted = !self.master_muted;
    }

    /// The master is muted.
    pub fn is_master_muted(&self) -> (r: bool)
        ensures
            r == self@.master_muted,
    {
        self.master_muted
    }

    /// Sets the level of `group`, held within `0..=FULL_VOLUME`; an invalid
    /// group changes nothing.
    pub fn set_group_volume(&mut self, group: usize, level: i32)
        requires
            old(self).wf(),
        ensures
            final(self).wf(),
            group < MIXER_GROUPS ==> final(self)@ == (MixerLevels {
                groups: old(self)@.groups.update(group as int, clamp_volume(level as int)),
                ..old(self)@
            }),
            group >= MIXER_GROUPS ==> *final(self) == *old(self),
    {
        if group < MIXER_GROUPS {
            self.group_volumes[group] = clamp_level(level as i64);
            assert(self@.groups =~= old(self)@.groups.update(group as int, clamp_volume(level as int)));
        }
    }

    /// The level of `group`; an invalid group reads as 0.
    pub fn get_group_volume(&self, group: usize) -> (r: u32)
        ensures
            r == self@.group_level(group as int),
            self.wf() ==> r <= FULL_VOLUME,
    {
        if group < MIXER_GROUPS {
            assert(self@.groups[group as int] == self.group_volumes@[group as int] as int);
            self.group_volumes[group]
        } else {
            0
        }
    }

    /// Adds `delta` to the level of `group`, held within
    /// `0..=FULL_VOLUME`; an invalid group changes nothing.
    pub fn adjust_group_volume(&mut self, group: usize, delta: i32)
        requires
            old(self).wf(),
        ensures
            final(self).wf(),
            group < MIXER_GROUPS ==> final(self)@ == (MixerLevels {
                groups: old(self)@.groups.update(group as int, clamp_volume(old(self)@.groups[group as int] + delta)),
                ..old(self)@
            }),
            group >= MIXER_GROUPS ==> *final(self) == *old(self),
    {
        if group < MIXER_GROUPS {
            self.group_volumes[group] = clamp_level(self.group_volumes[group] as i64 + delta as i64);
            assert(self@.groups =~= old(self)@.groups.update(
                group as int,
                clamp_volume(old(self)@.groups[group as int] + delta),
            ));
        }
    }

    /// Mutes or unmutes `group`; the level is kept, and an invalid group
    /// changes nothing.
    pub fn toggle_group_mute(&mut self, group: usize)
        requires
            old(self).wf(),
        ensures
            final(self).wf(),
            group < MIXER_GROUPS ==> final(self)@ == (MixerLevels {
                groups_muted: old(self)@.groups_muted.update(group as int, !old(self)@.groups_muted[group as int]),
                ..old(self)@
            }),
            group >= MIXER_GROUPS ==> *final(self) == *old(self),
    {
        if group < MIXER_GROUPS {
            self.group_muted[group] = !self.group_muted[group];
            assert(self@.groups =~= old(self)@.groups);
        }
    }

    /// `group` is muted; an invalid group reads as not muted.
    pub fn is_group_muted(&self, group: usize) -> (r: bool)
        ensures
            r == self@.group_mute(group as int),
    {
        if group < MIXER_GROUPS {
            self.group_muted[group]
        } else {
            false
        }
    }

    /// The gain, in millionths of unity, that a pad of `group` plays at: 0
    /// when the master or the group is muted, else the master level times
    /// the group level. An invalid group plays silent.
    pub fn effective_gain(&self, group: usize) -> (r: u32)
        requires
            self.wf(),
        ensures
            r == self@.gain(group as int),
    {
        if self.master_muted || self.is_group_muted(group) {
            0
        } else {
            let level = self.get_group_volume(group);
            assert(self.master_volume * level <= FULL_VOLUME * FULL_VOLUME) by (nonlinear_arith)
                requires
                    self.master_volume <= FULL_VOLUME,
                    level <= FULL_VOLUME,
            ;
            self.master_volume * level
        }
    }

    /// The names of the groups, in group order.
    pub fn get_group_names() -> (r: [&'static str; MIXER_GROUPS])
        ensures
            r@ == seq!["DRUMS", "BASS", "LEAD", "VOCAL"],
    {
        let r = ["DRUMS", "BASS", "LEAD", "VOCAL"];
        assert(r@ =~= seq!["DRUMS", "BASS", "LEAD", "VOCAL"]);
        r
    }
}

/// A bar of ten cells showing a level in percent, one filled cell per
/// whole ten percent; a muted channel shows all cells as muted.
pub open spec fn volume_bar(percent: int, muted: bool) -> Seq<char> {
    if muted {
        Seq::new(10, |_i: int| '\u{25A0}')
    } else {
        Seq::new(10, |i: int| if i < percent / 10 { '\u{2588}' } else { '\u{2591}' })
    }
}

/// The bar of `volume_bar` for `volume` percent.
pub fn create_volume_bar(volume: u8, is_muted: bool) -> (r: String)
    requires
        volume < 110,
    ensures
        r@ == volume_bar(volume as int, is_muted),
{
    proof {
        reveal_strlit("\u{25A0}");
        reveal_strlit("\u{2588}");
        reveal_strlit("\u{2591}");
        assert("\u{25A0}"@ =~= seq!['\u{25A0}']);
        assert("\u{2588}"@ =~= seq!['\u{2588}']);
        assert("\u{2591}"@ =~= seq!['\u{2591}']);
    }
    let filled: usize = if is_muted {
        0
    } else {
        (volume / 10) as usize
    };
    let mut bar = String::new();
    let mut i: usize = 0;
    while i < 10
        invariant
            i <= 10,
            filled <= 10,
            !is_muted ==> filled == volume / 10,
            "\u{25A0}"@ == seq!['\u{25A0}'],
            "\u{2588}"@ == seq!['\u{2588}'],
            "\u{2591}"@ == seq!['\u{2591}'],
            bar@ =~= volume_bar(volume as int, is_muted).subrange(0, i as int),
        decreases 10 - i,
    {
        if is_muted {
            bar.append("\u{25A0}");
        } else if i < filled {
            bar.append("\u{2588}");
        } else {
            bar.append("\u{2591}");
        }
        assert(volume_bar(volume as int, is_muted).subrange(0, i + 1) =~= volume_bar(volume as int, is_muted).subrange(0, i as int).push(volume_bar(volume as int, is_muted)[i as int]));
        i += 1;
    }
    bar
}

/// `v` held within `0..=FULL_VOLUME`.
fn clamp_level(v: i64) -> (r: u32)
    ensures
        r == clamp_volume(v as int),
{
    if v < 0 {
        0
    } else if v > FULL_VOLUME as i64 {
        FULL_VOLUME
    } else {
        v as u32
    }
}

} // verus!
