//! Keys, key bindings, and the table that maps a pressed key to a command.

use std::collections::HashMap;
use vstd::prelude::*;
use crate::command::Command;
use crate::config::{key_code_of, Config};

verus! {

broadcast use vstd::std_specs::hash::group_hash_axioms;

/// A key of the keyboard.
#[derive(Debug, Clone, Copy, PartialEq, Eq, Hash, Structural)]
pub enum KeyCode {
    Char(char),
    Tab,
    BackTab,
    Enter,
    Esc,
    Backspace,
    Left,
    Right,
    Up,
    Down,
    Home,
    End,
    PageUp,
    PageDown,
    Delete,
    Insert,
    F(u8),
}

/// The modifier keys held with a key, one bit each: shift 1, control 2,
/// alt 4, super 8, hyper 16, meta 32.
#[derive(Debug, Clone, Copy, PartialEq, Eq, Hash, Structural)]
pub struct KeyModifiers {
    pub bits: u8,
}

impl KeyModifiers {
    /// No modifier.
    pub fn empty() -> (r: Self)
        ensures
            r.bits == 0,
    {
        KeyModifiers { bits: 0 }
    }

    /// Shift alone.
    pub fn shift() -> (r: Self)
        ensures
            r.bits == 1,
    {
        KeyModifiers { bits: 1 }
    }

    /// Control alone.
    pub fn control() -> (r: Self)
        ensures
            r.bits == 2,
    {
        KeyModifiers { bits: 2 }
    }
}

/// A key together with the modifiers held.
#[derive(Debug, Clone, Copy, PartialEq, Eq, Hash, Structural)]
pub struct KeyBinding {
    pub code: KeyCode,
    pub modifiers: KeyModifiers,
}

/// Where the keys that are not characters start in `code_number`, past
/// every character.
pub const SPECIAL_KEYS: u64 = 0x110000;

/// A number for each key, distinct for distinct keys.
pub open spec fn code_number(code: KeyCode) -> int {
    match code {
        KeyCode::Char(c) => c as int,
        KeyCode::Tab => SPECIAL_KEYS + 1,
        KeyCode::BackTab => SPECIAL_KEYS + 2,
        KeyCode::Enter => SPECIAL_KEYS + 3,
        KeyCode::Esc => SPECIAL_KEYS + 4,
        KeyCode::Backspace => SPECIAL_KEYS + 5,
        KeyCode::Left => SPECIAL_KEYS + 6,
        KeyCode::Right => SPECIAL_KEYS + 7,
        KeyCode::Up => SPECIAL_KEYS + 8,
        KeyCode::Down => SPECIAL_KEYS + 9,
        KeyCode::Home => SPECIAL_KEYS + 10,
        KeyCode::End => SPECIAL_KEYS + 11,
        KeyCode::PageUp => SPECIAL_KEYS + 12,
        KeyCode::PageDown => SPECIAL_KEYS + 13,
        KeyCode::Delete => SPECIAL_KEYS + 14,
        KeyCode::Insert => SPECIAL_KEYS + 15,
        KeyCode::F(n) => SPECIAL_KEYS + 16 + n,
    }
}

/// A number for each binding, distinct for distinct bindings.
pub open spec fn binding_number(b: KeyBinding) -> u64 {
    (code_number(b.code) * 256 + b.modifiers.bits) as u64
}

/// Distinct bindings have distinct numbers.
pub proof fn lemma_binding_number_injective(a: KeyBinding, b: KeyBinding)
    ensures
        binding_number(a) == binding_number(b) ==> a == b,
{
    if binding_number(a) == binding_number(b) {
        assert(0 <= code_number(a.code) < SPECIAL_KEYS + 16 + 256);
        assert(0 <= code_number(b.code) < SPECIAL_KEYS + 16 + 256);
        assert(code_number(a.code) == code_number(b.code) && a.modifiers.bits == b.modifiers.bits);
    }
}

impl KeyBinding {
    /// `code` with no modifier.
    pub fn new(code: KeyCode) -> (r: Self)
        ensures
            r == (KeyBinding { code, modifiers: KeyModifiers { bits: 0 } }),
    {
        KeyBinding { code, modifiers: KeyModifiers::empty() }
    }

    /// `code` with `modifiers`.
    pub fn with_modifiers(code: KeyCode, modifiers: KeyModifiers) -> (r: Self)
        ensures
            r == (KeyBinding { code, modifiers }),
    {
        KeyBinding { code, modifiers }
    }

    /// The number of this binding.
    fn number(&self) -> (r: u64)
        ensures
            r == binding_number(*self),
    {
        let code: u64 = match self.code {
            KeyCode::Char(c) => c as u64,
            KeyCode::Tab => SPECIAL_KEYS + 1,
            KeyCode::BackTab => SPECIAL_KEYS + 2,
            KeyCode::Enter => SPECIAL_KEYS + 3,
            KeyCode::Esc => SPECIAL_KEYS + 4,
            KeyCode::Backspace => SPECIAL_KEYS + 5,
            KeyCode::Left => SPECIAL_KEYS + 6,
            KeyCode::Right => SPECIAL_KEYS + 7,
            KeyCode::Up => SPECIAL_KEYS + 8,
            KeyCode::Down => SPECIAL_KEYS + 9,
            KeyCode::Home => SPECIAL_KEYS + 10,
            KeyCode::End => SPECIAL_KEYS + 11,
            KeyCode::PageUp => SPECIAL_KEYS + 12,
            KeyCode::PageDown => SPECIAL_KEYS + 13,
            KeyCode::Delete => SPECIAL_KEYS + 14,
            KeyCode::Insert => SPECIAL_KEYS + 15,
            KeyCode::F(n) => SPECIAL_KEYS + 16 + n as u64,
        };
        code * 256 + self.modifiers.bits as u64
    }
}

/// `code` with no modifier.
pub open spec fn plain(code: KeyCode) -> KeyBinding {
    KeyBinding { code, modifiers: KeyModifiers { bits: 0 } }
}

/// Volume step of a key press, in thousandths of full scale.
pub const VOLUME_STEP: i32 = 50;

/// Volume step of a key press that lowers a level.
pub const VOLUME_STEP_DOWN: i32 = -50;

/// Tempo step of a key press, in beats per minute.
pub const TEMPO_STEP: i32 = 5;

/// The command that the default table binds to `b`.
pub open spec fn default_command(b: KeyBinding) -> Option<Command> {
    if b.modifiers.bits != 0 {
        None
    } else {
        match b.code {
            KeyCode::Char(' ') => Some(Command::TogglePlayback),
            KeyCode::Char('r') => Some(Command::ToggleRecording),
            KeyCode::Char('c') => Some(Command::ClearPattern),
            KeyCode::Tab => Some(Command::NextGroup),
            KeyCode::BackTab => Some(Command::PrevGroup),
            KeyCode::Right => Some(Command::NextPattern),
            KeyCode::Left => Some(Command::PrevPattern),
            KeyCode::Up => Some(Command::IncreaseTempo(TEMPO_STEP)),
            KeyCode::Down => Some(Command::DecreaseTempo(TEMPO_STEP)),
            KeyCode::Char('=') => Some(Command::AdjustMasterVolume(VOLUME_STEP)),
            KeyCode::Char('-') => Some(Command::AdjustMasterVolume(VOLUME_STEP_DOWN)),
            KeyCode::Char('M') => Some(Command::ToggleMasterMute),
            KeyCode::Char('1') => Some(Command::AdjustGroupVolume(0, VOLUME_STEP)),
            KeyCode::Char('!') => Some(Command::AdjustGroupVolume(0, VOLUME_STEP_DOWN)),
            KeyCode::Char('2') => Some(Command::AdjustGroupVolume(1, VOLUME_STEP)),
            KeyCode::Char('@') => Some(Command::AdjustGroupVolume(1, VOLUME_STEP_DOWN)),
            KeyCode::Char('3') => Some(Command::AdjustGroupVolume(2, VOLUME_STEP)),
            KeyCode::Char('#') => Some(Command::AdjustGroupVolume(2, VOLUME_STEP_DOWN)),
            KeyCode::Char('4') => Some(Command::AdjustGroupVolume(3, VOLUME_STEP)),
            KeyCode::Char('$') => Some(Command::AdjustGroupVolume(3, VOLUME_STEP_DOWN)),
            KeyCode::F(1) => Some(Command::ToggleGroupMute(0)),
            KeyCode::F(2) => Some(Command::ToggleGroupMute(1)),
            KeyCode::F(3) => Some(Command::ToggleGroupMute(2)),
            KeyCode::F(4) => Some(Command::ToggleGroupMute(3)),
            KeyCode::Char('7') => Some(Command::TriggerPad(0)),
            KeyCode::Char('8') => Some(Command::TriggerPad(1)),
            KeyCode::Char('9') => Some(Command::TriggerPad(2)),
            KeyCode::Char('0') => Some(Command::TriggerPad(3)),
            KeyCode::Char('u') => Some(Command::TriggerPad(4)),
            KeyCode::Char('i') => Some(Command::TriggerPad(5)),
            KeyCode::Char('o') => Some(Command::TriggerPad(6)),
            KeyCode::Char('p') => Some(Command::TriggerPad(7)),
            KeyCode::Char('j') => Some(Command::TriggerPad(8)),
            KeyCode::Char('k') => Some(Command::TriggerPad(9)),
            KeyCode::Char('l') => Some(Command::TriggerPad(10)),
            KeyCode::Char(';') => Some(Command::TriggerPad(11)),
            KeyCode::Char('m') => Some(Command::TriggerPad(12)),
            KeyCode::Char(',') => Some(Command::TriggerPad(13)),
            KeyCode::Char('.') => Some(Command::TriggerPad(14)),
            KeyCode::Char('/') => Some(Command::TriggerPad(15)),
            KeyCode::Esc => Some(Command::Quit),
            _ => None,
        }
    }
}

/// `m` with key name `name`, if it names a key, bound to `c`.
pub open spec fn bind_name(m: Map<KeyBinding, Command>, name: Seq<char>, c: Command) -> Map<KeyBinding, Command> {
    match key_code_of(name) {
        Some(k) => m.insert(plain(k), c),
        None => m,
    }
}

/// The command that the `i`th key of a group list binds: raise the level
/// (`kind` 0), lower it (1), or toggle the mute (2) of group `i`.
pub open spec fn group_command(kind: int, i: usize) -> Command {
    if kind == 0 {
        Command::AdjustGroupVolume(i, VOLUME_STEP)
    } else if kind == 1 {
        Command::AdjustGroupVolume(i, VOLUME_STEP_DOWN)
    } else {
        Command::ToggleGroupMute(i)
    }
}

/// `m` with the keys of a group list bound in order.
pub open spec fn bind_groups(m: Map<KeyBinding, Command>, names: Seq<String>, kind: int) -> Map<KeyBinding, Command>
    decreases names.len(),
{
    if names.len() == 0 {
        m
    } else {
        bind_name(bind_groups(m, names.drop_last(), kind), names.last()@, group_command(kind, (names.len() - 1) as usize))
    }
}

/// `m` with the pad keys bound in order.
pub open spec fn bind_pads(m: Map<KeyBinding, Command>, pads: Seq<(String, usize)>) -> Map<KeyBinding, Command>
    decreases pads.len(),
{
    if pads.len() == 0 {
        m
    } else {
        bind_name(bind_pads(m, pads.drop_last()), pads.last().0@, Command::TriggerPad(pads.last().1))
    }
}

/// The table that a configuration gives: its keys bound in the order
/// transport, navigation, master, groups, pads, a later key taking the
/// place of an earlier one; then Esc quits.
pub open spec fn config_commands(config: Config) -> Map<KeyBinding, Command> {
    let kb = config.key_bindings;
    let m = Map::<KeyBinding, Command>::empty();
    let m = bind_name(m, kb.transport.play_stop@, Command::TogglePlayback);
    let m = bind_name(m, kb.transport.record@, Command::ToggleRecording);
    let m = bind_name(m, kb.transport.clear@, Command::ClearPattern);
    let m = bind_name(m, kb.navigation.next_group@, Command::NextGroup);
    let m = bind_name(m, kb.navigation.prev_group@, Command::PrevGroup);
    let m = bind_name(m, kb.navigation.next_pattern@, Command::NextPattern);
    let m = bind_name(m, kb.navigation.prev_pattern@, Command::PrevPattern);
    let m = bind_name(m, kb.navigation.tempo_up@, Command::IncreaseTempo(TEMPO_STEP));
    let m = bind_name(m, kb.navigation.tempo_down@, Command::DecreaseTempo(TEMPO_STEP));
    let m = bind_name(m, kb.volume.master_up@, Command::AdjustMasterVolume(VOLUME_STEP));
    let m = bind_name(m, kb.volume.master_down@, Command::AdjustMasterVolume(VOLUME_STEP_DOWN));
    let m = bind_name(m, kb.volume.master_mute@, Command::ToggleMasterMute);
    let m = bind_groups(m, kb.volume.group_up@, 0);
    let m = bind_groups(m, kb.volume.group_down@, 1);
    let m = bind_groups(m, kb.volume.group_mute@, 2);
    let m = bind_pads(m, kb.pads@);
    m.insert(plain(KeyCode::Esc), Command::Quit)
}

/// The commands bound to keys.
pub struct InputMapper {
    bindings: HashMap<u64, Command>,
}

impl InputMapper {
    /// The command bound to each binding.
    pub closed spec fn commands(&self) -> Map<KeyBinding, Command> {
        Map::new(
            |b: KeyBinding| self.bindings@.contains_key(binding_number(b)),
            |b: KeyBinding| self.bindings@[binding_number(b)],
        )
    }

    /// A table with no binding.
    pub fn empty() -> (r: Self)
        ensures
            r.commands() == Map::<KeyBinding, Command>::empty(),
    {
        let r = InputMapper { bindings: HashMap::new() };
        assert(r.commands() =~= Map::<KeyBinding, Command>::empty());
        r
    }

    /// The command bound to `key`, if any.
    pub fn get_command(&self, key: &KeyBinding) -> (r: Option<&Command>)
        ensures
            match r {
                Some(c) => self.commands().contains_key(*key) && self.commands()[*key] == *c,
                None => !self.commands().contains_key(*key),
            },
    {
        self.bindings.get(&key.number())
    }

    /// Binds `key` to `command`, in place of any command it had.
    pub fn add_binding(&mut self, key: KeyBinding, command: Command)
        ensures
            final(self).commands() == old(self).commands().insert(key, command),
    {
        self.bindings.insert(key.number(), command);
        assert forall|b: KeyBinding| #[trigger] binding_number(b) == binding_number(key) implies b == key by {
            lemma_binding_number_injective(b, key);
        }
        assert(self.commands() =~= old(self).commands().insert(key, command));
    }

    /// Binds the key that `name` names, if any, to `command`.
    fn bind(&mut self, config: &Config, name: &str, command: Command)
        ensures
            final(self).commands() == bind_name(old(self).commands(), name@, command),
    {
        match config.parse_key_code(name) {
            Some(code) => self.add_binding(KeyBinding::new(code), command),
            None => {},
        }
    }

    /// Binds the keys of a group list in order, the `i`th to
    /// `group_command(kind, i)`.
    fn bind_group_list(&mut self, config: &Config, names: &Vec<String>, kind: u8)
        requires
            kind <= 2,
        ensures
            final(self).commands() == bind_groups(old(self).commands(), names@, kind as int),
    {
        let mut i: usize = 0;
        while i < names.len()
            invariant
                kind <= 2,
                i <= names@.len(),
                self.commands() == bind_groups(old(self).commands(), names@.subrange(0, i as int), kind as int),
            decreases names@.len() - i,
        {
            let command = if kind == 0 {
                Command::AdjustGroupVolume(i, VOLUME_STEP)
            } else if kind == 1 {
                Command::AdjustGroupVolume(i, VOLUME_STEP_DOWN)
            } else {
                Command::ToggleGroupMute(i)
            };
            self.bind(config, names[i].as_str(), command);
            assert(names@.subrange(0, i + 1).drop_last() =~= names@.subrange(0, i as int));
            i += 1;
        }
        assert(names@.subrange(0, names@.len() as int) =~= names@);
    }

    /// The table that `config` gives: its keys bound in the order
    /// transport, navigation, master, groups, pads, a later key taking the
    /// place of an earlier one; Esc quits. Names that are no key are
    /// skipped.
    pub fn from_config(config: &Config) -> (r: Result<Self, crate::error::AppError>)
        ensures
            match r {
                Ok(m) => m.commands() == config_commands(*config),
                Err(_) => false,
            },
    {
        let mut m = InputMapper::empty();
        let kb = &config.key_bindings;
        m.bind(config, kb.transport.play_stop.as_str(), Command::TogglePlayback);
        m.bind(config, kb.transport.record.as_str(), Command::ToggleRecording);
        m.bind(config, kb.transport.clear.as_str(), Command::ClearPattern);
        m.bind(config, kb.navigation.next_group.as_str(), Command::NextGroup);
        m.bind(config, kb.navigation.prev_group.as_str(), Command::PrevGroup);
        m.bind(config, kb.navigation.next_pattern.as_str(), Command::NextPattern);
        m.bind(config, kb.navigation.prev_pattern.as_str(), Command::PrevPattern);
        m.bind(config, kb.navigation.tempo_up.as_str(), Command::IncreaseTempo(TEMPO_STEP));
        m.bind(config, kb.navigation.tempo_down.as_str(), Command::DecreaseTempo(TEMPO_STEP));
        m.bind(config, kb.volume.master_up.as_str(), Command::AdjustMasterVolume(VOLUME_STEP));
        m.bind(config, kb.volume.master_down.as_str(), Command::AdjustMasterVolume(VOLUME_STEP_DOWN));
        m.bind(config, kb.volume.master_mute.as_str(), Command::ToggleMasterMute);
        m.bind_group_list(config, &kb.volume.group_up, 0);
        m.bind_group_list(config, &kb.volume.group_down, 1);
        m.bind_group_list(config, &kb.volume.group_mute, 2);
        let ghost before_pads = m.commands();
        let mut i: usize = 0;
        while i < kb.pads.len()
            invariant
                i <= kb.pads@.len(),
                m.commands() == bind_pads(before_pads, kb.pads@.subrange(0, i as int)),
            decreases kb.pads@.len() - i,
        {
            m.bind(config, kb.pads[i].0.as_str(), Command::TriggerPad(kb.pads[i].1));
            assert(kb.pads@.subrange(0, i + 1).drop_last() =~= kb.pads@.subrange(0, i as int));
            i += 1;
        }
        assert(kb.pads@.subrange(0, kb.pads@.len() as int) =~= kb.pads@);
        m.add_binding(KeyBinding::new(KeyCode::Esc), Command::Quit);
        Ok(m)
    }

    /// The default table, as `default_command` gives it.
    pub fn new() -> (r: Self)
        ensures
            forall|b: KeyBinding| #[trigger] r.commands().contains_key(b) == default_command(b).is_some(),
            forall|b: KeyBinding| #[trigger] r.commands().contains_key(b) ==> Some(r.commands()[b]) == default_command(b),
    {
        Self::from_default_bindings()
    }

    /// The default table, as `default_command` gives it.
    fn from_default_bindings() -> (r: Self)
        ensures
            forall|b: KeyBinding| #[trigger] r.commands().contains_key(b) == default_command(b).is_some(),
            forall|b: KeyBinding| #[trigger] r.commands().contains_key(b) ==> Some(r.commands()[b]) == default_command(b),
    {
        let mut m = InputMapper::empty();
        m.add_binding(KeyBinding::new(KeyCode::Char(' ')), Command::TogglePlayback);
        m.add_binding(KeyBinding::new(KeyCode::Char('r')), Command::ToggleRecording);
        m.add_binding(KeyBinding::new(KeyCode::Char('c')), Command::ClearPattern);
        m.add_binding(KeyBinding::new(KeyCode::Tab), Command::NextGroup);
        m.add_binding(KeyBinding::new(KeyCode::BackTab), Command::PrevGroup);
        m.add_binding(KeyBinding::new(KeyCode::Right), Command::NextPattern);
        m.add_binding(KeyBinding::new(KeyCode::Left), Command::PrevPattern);
        m.add_binding(KeyBinding::new(KeyCode::Up), Command::IncreaseTempo(TEMPO_STEP));
        m.add_binding(KeyBinding::new(KeyCode::Down), Command::DecreaseTempo(TEMPO_STEP));
        m.add_binding(KeyBinding::new(KeyCode::Char('=')), Command::AdjustMasterVolume(VOLUME_STEP));
        m.add_binding(KeyBinding::new(KeyCode::Char('-')), Command::AdjustMasterVolume(VOLUME_STEP_DOWN));
        m.add_binding(KeyBinding::new(KeyCode::Char('M')), Command::ToggleMasterMute);
        m.add_binding(KeyBinding::new(KeyCode::Char('1')), Command::AdjustGroupVolume(0, VOLUME_STEP));
        m.add_binding(KeyBinding::new(KeyCode::Char('!')), Command::AdjustGroupVolume(0, VOLUME_STEP_DOWN));
        m.add_binding(KeyBinding::new(KeyCode::Char('2')), Command::AdjustGroupVolume(1, VOLUME_STEP));
        m.add_binding(KeyBinding::new(KeyCode::Char('@')), Command::AdjustGroupVolume(1, VOLUME_STEP_DOWN));
        m.add_binding(KeyBinding::new(KeyCode::Char('3')), Command::AdjustGroupVolume(2, VOLUME_STEP));
        m.add_binding(KeyBinding::new(KeyCode::Char('#')), Command::AdjustGroupVolume(2, VOLUME_STEP_DOWN));
        m.add_binding(KeyBinding::new(KeyCode::Char('4')), Command::AdjustGroupVolume(3, VOLUME_STEP));
        m.add_binding(KeyBinding::new(KeyCode::Char('$')), Command::AdjustGroupVolume(3, VOLUME_STEP_DOWN));
        m.add_binding(KeyBinding::new(KeyCode::F(1)), Command::ToggleGroupMute(0));
        m.add_binding(KeyBinding::new(KeyCode::F(2)), Command::ToggleGroupMute(1));
        m.add_binding(KeyBinding::new(KeyCode::F(3)), Command::ToggleGroupMute(2));
        m.add_binding(KeyBinding::new(KeyCode::F(4)), Command::ToggleGroupMute(3));
        let pad_keys: [char; 16] = ['7', '8', '9', '0', 'u', 'i', 'o', 'p', 'j', 'k', 'l', ';', 'm', ',', '.', '/'];
        let ghost before_pads = m.commands();
        let mut pad: usize = 0;
        while pad < 16
            invariant
                pad <= 16,
                pad_keys@ == seq!['7', '8', '9', '0', 'u', 'i', 'o', 'p', 'j', 'k', 'l', ';', 'm', ',', '.', '/'],
                forall|b: KeyBinding| #[trigger] m.commands().contains_key(b) == (before_pads.contains_key(b) || (
                    b.modifiers.bits == 0 && exists|i: int| 0 <= i < pad && b.code == KeyCode::Char(pad_keys@[i]))),
                forall|b: KeyBinding| #[trigger] m.commands().contains_key(b) ==> m.commands()[b] == if b.modifiers.bits
                    == 0 && exists|i: int| 0 <= i < pad && b.code == KeyCode::Char(pad_keys@[i]) {
                    Command::TriggerPad((choose|i: int| 0 <= i < pad && b.code == KeyCode::Char(pad_keys@[i])) as usize)
                } else {
                    before_pads[b]
                },
            decreases 16 - pad,
        {
            m.add_binding(KeyBinding::new(KeyCode::Char(pad_keys[pad])), Command::TriggerPad(pad));
            pad += 1;
        }
        m.add_binding(KeyBinding::new(KeyCode::Esc), Command::Quit);
        m
    }

    /// Unbinds `key`, returning the command it had.
    pub fn remove_binding(&mut self, key: &KeyBinding) -> (r: Option<Command>)
        ensures
            final(self).commands() == old(self).commands().remove(*key),
            match r {
                Some(c) => old(self).commands().contains_key(*key) && old(self).commands()[*key] == c,
                None => !old(self).commands().contains_key(*key),
            },
    {
        let r = self.bindings.remove(&key.number());
        assert forall|b: KeyBinding| #[trigger] binding_number(b) == binding_number(*key) implies b == *key by {
            lemma_binding_number_injective(b, *key);
        }
        assert(self.commands() =~= old(self).commands().remove(*key));
        r
    }
}

impl Default for InputMapper {
    /// The default table, as `default_command` gives it.
    fn default() -> (r: Self)
        ensures
            forall|b: KeyBinding| #[trigger] r.commands().contains_key(b) == default_command(b).is_some(),
            forall|b: KeyBinding| #[trigger] r.commands().contains_key(b) ==> Some(r.commands()[b]) == default_command(b),
    {
        Self::from_default_bindings()
    }
}

} // verus!
