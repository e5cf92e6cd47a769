//! User configuration: key bindings by key name, audio and display
//! settings, and how a key name reads as a key.

use vstd::prelude::*;
use vstd::string::*;
use crate::input::KeyCode;
use crate::sample::{all_digits, decimal_value, read_decimal};

verus! {

/// The whole configuration.
pub struct Config {
    pub key_bindings: KeyBindingsConfig,
    pub audio: AudioConfig,
    pub ui: UIConfig,
}

/// The key names bound to each command; `pads` pairs a key name with the
/// pad it plays.
pub struct KeyBindingsConfig {
    pub transport: TransportKeys,
    pub navigation: NavigationKeys,
    pub volume: VolumeKeys,
    pub pads: Vec<(String, usize)>,
}

/// Keys of the transport.
pub struct TransportKeys {
    pub play_stop: String,
    pub record: String,
    pub clear: String,
}

/// Keys that move between groups and patterns and change the tempo.
pub struct NavigationKeys {
    pub next_group: String,
    pub prev_group: String,
    pub next_pattern: String,
    pub prev_pattern: String,
    pub tempo_up: String,
    pub tempo_down: String,
}

/// Keys of the mixer; the group lists are in group order.
pub struct VolumeKeys {
    pub master_up: String,
    pub master_down: String,
    pub master_mute: String,
    pub group_up: Vec<String>,
    pub group_down: Vec<String>,
    pub group_mute: Vec<String>,
}

/// Audio settings.
pub struct AudioConfig {
    pub default_tempo: u32,
    pub sample_rate: u32,
    pub buffer_size: usize,
}

/// Display settings, in milliseconds.
pub struct UIConfig {
    pub flash_duration_ms: u64,
    pub tick_interval_ms: u64,
}

/// The default pad keys, pad by pad.
pub open spec fn default_pad_keys() -> Seq<char> {
    seq!['7', '8', '9', '0', 'u', 'i', 'o', 'p', 'j', 'k', 'l', ';', 'm', ',', '.', '/']
}

/// The number that `t` writes as an unsigned byte: an optional `+`, then
/// one or more ASCII digits, worth at most 255.
pub open spec fn parse_u8(t: Seq<char>) -> Option<u8> {
    let d = if t.len() > 0 && t[0] == '+' {
        t.drop_first()
    } else {
        t
    };
    if d.len() > 0 && all_digits(d) && decimal_value(d) <= 255 {
        Some(decimal_value(d) as u8)
    } else {
        None
    }
}

/// The key that key name `s` stands for: a named key, `F` and a number for
/// a function key, or a single ASCII character.
pub open spec fn key_code_of(s: Seq<char>) -> Option<KeyCode> {
    if s == " "@ {
        Some(KeyCode::Char(' '))
    } else if s == "Tab"@ {
        Some(KeyCode::Tab)
    } else if s == "BackTab"@ {
        Some(KeyCode::BackTab)
    } else if s == "Enter"@ {
        Some(KeyCode::Enter)
    } else if s == "Esc"@ {
        Some(KeyCode::Esc)
    } else if s == "Backspace"@ {
        Some(KeyCode::Backspace)
    } else if s == "Left"@ {
        Some(KeyCode::Left)
    } else if s == "Right"@ {
        Some(KeyCode::Right)
    } else if s == "Up"@ {
        Some(KeyCode::Up)
    } else if s == "Down"@ {
        Some(KeyCode::Down)
    } else if s == "Home"@ {
        Some(KeyCode::Home)
    } else if s == "End"@ {
        Some(KeyCode::End)
    } else if s == "PageUp"@ {
        Some(KeyCode::PageUp)
    } else if s == "PageDown"@ {
        Some(KeyCode::PageDown)
    } else if s == "Delete"@ {
        Some(KeyCode::Delete)
    } else if s == "Insert"@ {
        Some(KeyCode::Insert)
    } else if s.len() > 1 && s[0] == 'F' {
        match parse_u8(s.drop_first()) {
            Some(n) => Some(KeyCode::F(n)),
            None => None,
        }
    } else if s.len() == 1 && (s[0] as int) < 128 {
        Some(KeyCode::Char(s[0]))
    } else {
        None
    }
}

/// `s` holds the same characters as `lit`.
pub(crate) fn text_is(s: &str, lit: &str) -> (r: bool)
    ensures
        r == (s@ == lit@),
{
    let n = s.unicode_len();
    if n != lit.unicode_len() {
        return false;
    }
    let mut i: usize = 0;
    while i < n
        invariant
            n == s@.len(),
            n == lit@.len(),
            i <= n,
            forall|j: int| 0 <= j < i ==> s@[j] == lit@[j],
        decreases n - i,
    {
        if s.get_char(i) != lit.get_char(i) {
            return false;
        }
        i += 1;
    }
    assert(s@ =~= lit@);
    true
}

/// The byte that the characters of `s` from index 1 on write, as
/// `parse_u8` reads them.
fn read_u8_after_first(s: &str) -> (r: Option<u8>)
    requires
        s@.len() > 1,
    ensures
        r == parse_u8(s@.drop_first()),
{
    let ghost t = s@.drop_first();
    let from: usize = if s.get_char(1) == '+' {
        2
    } else {
        1
    };
    proof {
        let d = if t.len() > 0 && t[0] == '+' {
            t.drop_first()
        } else {
            t
        };
        assert(d =~= s@.subrange(from as int, s@.len() as int));
    }
    match read_decimal(s, from, 256) {
        Some(v) => {
            if v <= 255 {
                Some(v as u8)
            } else {
                None
            }
        },
        None => None,
    }
}

impl Config {
    /// The pad bindings name each key once.
    pub open spec fn wf(&self) -> bool {
        self.key_bindings.wf()
    }

    /// The key that key name `key_str` stands for: a named key (`Tab`,
    /// `Left`, `PageUp`, ...), `F` and a number for a function key, or a
    /// single ASCII character.
    pub fn parse_key_code(&self, key_str: &str) -> (r: Option<KeyCode>)
        ensures
            r == key_code_of(key_str@),
    {
        if text_is(key_str, " ") {
            Some(KeyCode::Char(' '))
        } else if text_is(key_str, "Tab") {
            Some(KeyCode::Tab)
        } else if text_is(key_str, "BackTab") {
            Some(KeyCode::BackTab)
        } else if text_is(key_str, "Enter") {
            Some(KeyCode::Enter)
        } else if text_is(key_str, "Esc") {
            Some(KeyCode::Esc)
        } else if text_is(key_str, "Backspace") {
            Some(KeyCode::Backspace)
        } else if text_is(key_str, "Left") {
            Some(KeyCode::Left)
        } else if text_is(key_str, "Right") {
            Some(KeyCode::Right)
        } else if text_is(key_str, "Up") {
            Some(KeyCode::Up)
        } else if text_is(key_str, "Down") {
            Some(KeyCode::Down)
        } else if text_is(key_str, "Home") {
            Some(KeyCode::Home)
        } else if text_is(key_str, "End") {
            Some(KeyCode::End)
        } else if text_is(key_str, "PageUp") {
            Some(KeyCode::PageUp)
        } else if text_is(key_str, "PageDown") {
            Some(KeyCode::PageDown)
        } else if text_is(key_str, "Delete") {
            Some(KeyCode::Delete)
        } else if text_is(key_str, "Insert") {
            Some(KeyCode::Insert)
        } else {
            let n = key_str.unicode_len();
            if n > 1 && key_str.get_char(0) == 'F' {
                match read_u8_after_first(key_str) {
                    Some(k) => Some(KeyCode::F(k)),
                    None => None,
                }
            } else if n == 1 && (key_str.get_char(0) as u32) < 128 {
                Some(KeyCode::Char(key_str.get_char(0)))
            } else {
                None
            }
        }
    }
}

impl KeyBindingsConfig {
    /// No key name is paired with two pads.
    pub open spec fn wf(&self) -> bool {
        forall|i: int, j: int|
            0 <= i < j < self.pads@.len() ==> #[trigger] self.pads@[i].0@ != #[trigger] self.pads@[j].0@
    }

    /// The pad that key name `key` plays, by the first pair from the `i`th
    /// on that names it.
    pub open spec fn pad_of_key_from(&self, key: Seq<char>, i: int) -> Option<usize>
        decreases self.pads@.len() - i,
    {
        if i < 0 || i >= self.pads@.len() {
            None
        } else if self.pads@[i].0@ == key {
            Some(self.pads@[i].1)
        } else {
            self.pad_of_key_from(key, i + 1)
        }
    }

    /// The pad that key name `key` plays, if any.
    pub fn pad_for_key(&self, key: &str) -> (r: Option<usize>)
        ensures
            r == self.pad_of_key_from(key@, 0),
    {
        let mut i: usize = 0;
        while i < self.pads.len()
            invariant
                i <= self.pads@.len(),
                self.pad_of_key_from(key@, 0) == self.pad_of_key_from(key@, i as int),
            decreases self.pads@.len() - i,
        {
            if text_is(self.pads[i].0.as_str(), key) {
                return Some(self.pads[i].1);
            }
            i += 1;
        }
        None
    }
}

/// The text of `s`, owned.
fn text(s: &str) -> (r: String)
    ensures
        r@ == s@,
{
    String::from_str(s)
}

impl Default for Config {
    /// Space plays and stops, `r` records, `c` clears; Tab and BackTab
    /// change group, the arrows change pattern and tempo; `=`, `-`, `M` and
    /// the number row drive the mixer; the pads sit on `7890 uiop jkl; m,./`.
    /// Tempo 120, 44.1 kHz, 1024-frame buffers, 150 ms flashes, 50 ms frames.
    fn default() -> (r: Self)
        ensures
            r.key_bindings.transport.play_stop@ == " "@,
            r.key_bindings.transport.record@ == "r"@,
            r.key_bindings.transport.clear@ == "c"@,
            r.key_bindings.navigation.next_group@ == "Tab"@,
            r.key_bindings.navigation.prev_group@ == "BackTab"@,
            r.key_bindings.navigation.next_pattern@ == "Right"@,
            r.key_bindings.navigation.prev_pattern@ == "Left"@,
            r.key_bindings.navigation.tempo_up@ == "Up"@,
            r.key_bindings.navigation.tempo_down@ == "Down"@,
            r.key_bindings.volume.master_up@ == "="@,
            r.key_bindings.volume.master_down@ == "-"@,
            r.key_bindings.volume.master_mute@ == "M"@,
            r.key_bindings.volume.group_up@.map_values(|s: String| s@) == seq!["1"@, "2"@, "3"@, "4"@],
            r.key_bindings.volume.group_down@.map_values(|s: String| s@) == seq!["!"@, "@"@, "#"@, "$"@],
            r.key_bindings.volume.group_mute@.map_values(|s: String| s@) == seq!["F1"@, "F2"@, "F3"@, "F4"@],
            r.wf(),
            r.key_bindings.pads@.len() == 16,
            forall|i: int|
                0 <= i < 16 ==> (#[trigger] r.key_bindings.pads@[i]).0@ == seq![default_pad_keys()[i]]
                    && r.key_bindings.pads@[i].1 == i,
            r.audio.default_tempo == 120,
            r.audio.sample_rate == 44100,
            r.audio.buffer_size == 1024,
            r.ui.flash_duration_ms == 150,
            r.ui.tick_interval_ms == 50,
    {
        let keys: [&'static str; 16] = ["7", "8", "9", "0", "u", "i", "o", "p", "j", "k", "l", ";", "m", ",", ".", "/"];
        proof {
            reveal_strlit("7");
            reveal_strlit("8");
            reveal_strlit("9");
            reveal_strlit("0");
            reveal_strlit("u");
            reveal_strlit("i");
            reveal_strlit("o");
            reveal_strlit("p");
            reveal_strlit("j");
            reveal_strlit("k");
            reveal_strlit("l");
            reveal_strlit(";");
            reveal_strlit("m");
            reveal_strlit(",");
            reveal_strlit(".");
            reveal_strlit("/");
            assert(forall|i: int| 0 <= i < 16 ==> (#[trigger] keys@[i])@ == seq![default_pad_keys()[i]]);
        }
        let mut pads: Vec<(String, usize)> = Vec::new();
        let mut pad: usize = 0;
        while pad < 16
            invariant
                pad <= 16,
                pads@.len() == pad,
                forall|i: int| 0 <= i < 16 ==> (#[trigger] keys@[i])@ == seq![default_pad_keys()[i]],
                forall|i: int|
                    0 <= i < pad ==> (#[trigger] pads@[i]).0@ == seq![default_pad_keys()[i]] && pads@[i].1 == i,
            decreases 16 - pad,
        {
            pads.push((text(keys[pad]), pad));
            pad += 1;
        }
        assert(forall|i: int, j: int|
            0 <= i < j < 16 ==> #[trigger] default_pad_keys()[i] != #[trigger] default_pad_keys()[j]);
        assert(forall|i: int, j: int|
            0 <= i < j < 16 ==> #[trigger] pads@[i].0@ != #[trigger] pads@[j].0@) by {
            assert forall|i: int, j: int| 0 <= i < j < 16 implies #[trigger] pads@[i].0@ != #[trigger] pads@[j].0@ by {
                assert(pads@[i].0@[0] == default_pad_keys()[i]);
                assert(pads@[j].0@[0] == default_pad_keys()[j]);
            }
        }
        let mut group_up: Vec<String> = Vec::new();
        group_up.push(text("1"));
        group_up.push(text("2"));
        group_up.push(text("3"));
        group_up.push(text("4"));
        let mut group_down: Vec<String> = Vec::new();
        group_down.push(text("!"));
        group_down.push(text("@"));
        group_down.push(text("#"));
        group_down.push(text("$"));
        let mut group_mute: Vec<String> = Vec::new();
        group_mute.push(text("F1"));
        group_mute.push(text("F2"));
        group_mute.push(text("F3"));
        group_mute.push(text("F4"));
        assert(group_up@.map_values(|s: String| s@) =~= seq!["1"@, "2"@, "3"@, "4"@]);
        assert(group_down@.map_values(|s: String| s@) =~= seq!["!"@, "@"@, "#"@, "$"@]);
        assert(group_mute@.map_values(|s: String| s@) =~= seq!["F1"@, "F2"@, "F3"@, "F4"@]);
        Config {
            key_bindings: KeyBindingsConfig {
                transport: TransportKeys { play_stop: text(" "), record: text("r"), clear: text("c") },
                navigation: NavigationKeys {
                    next_group: text("Tab"),
                    prev_group: text("BackTab"),
                    next_pattern: text("Right"),
                    prev_pattern: text("Left"),
                    tempo_up: text("Up"),
                    tempo_down: text("Down"),
                },
                volume: VolumeKeys {
                    master_up: text("="),
                    master_down: text("-"),
                    master_mute: text("M"),
                    group_up,
                    group_down,
                    group_mute,
                },
                pads,
            },
            audio: AudioConfig { default_tempo: 120, sample_rate: 44100, buffer_size: 1024 },
            ui: UIConfig { flash_duration_ms: 150, tick_interval_ms: 50 },
        }
    }
}

} // verus!
