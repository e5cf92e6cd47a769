//! The sample bank: audio bytes and display names by group and pad, the
//! rules that place a sample file on a pad, and the checks a sample passes
//! before it is stored.

use std::collections::HashMap;
use vstd::prelude::*;
use vstd::string::*;
use crate::config::text_is;
use crate::error::AppError;

verus! {

broadcast use vstd::std_specs::hash::group_hash_axioms;

/// Groups of the bank; valid group indices are `0..BANK_GROUPS`.
pub const BANK_GROUPS: usize = 4;

/// Pads per group; valid pad indices are `0..BANK_PADS`.
pub const BANK_PADS: usize = 16;

/// `(group, pad)` names a pad of the bank.
pub open spec fn valid_pad(group: int, pad: int) -> bool {
    0 <= group < BANK_GROUPS && 0 <= pad < BANK_PADS
}

/// The key under which the sample of `(group, pad)` is stored.
pub open spec fn sample_slot(group: int, pad: int) -> usize {
    (group * BANK_PADS + pad) as usize
}

/// The character of decimal digit `d`.
pub open spec fn digit_char(d: int) -> char {
    ('0' as int + d) as char
}

/// The decimal digits of `n`, most significant first.
pub open spec fn decimal(n: nat) -> Seq<char>
    decreases n,
{
    if n < 10 {
        seq![digit_char(n as int)]
    } else {
        decimal(n / 10).push(digit_char((n % 10) as int))
    }
}

/// The display name of `group`.
pub open spec fn group_name(group: nat) -> Seq<char> {
    if group == 0 {
        "DRUMS"@
    } else if group == 1 {
        "BASS"@
    } else if group == 2 {
        "LEAD"@
    } else if group == 3 {
        "VOCAL"@
    } else {
        "GROUP"@ + decimal(group)
    }
}

/// The names given to the pads of `group` that hold no sample.
pub open spec fn placeholder_names(group: int) -> Seq<&'static str> {
    if group == 0 {
        seq![
            "Kick", "Snare", "HiHat", "OpenHat", "Crash", "Ride", "Tom1", "Tom2",
            "Perc1", "Perc2", "Perc3", "Perc4", "FX1", "FX2", "FX3", "FX4",
        ]
    } else if group == 1 {
        seq![
            "Bass1", "Bass2", "Sub1", "Sub2", "Pluck1", "Pluck2", "Saw1", "Saw2",
            "Sine1", "Sine2", "FM1", "FM2", "Noise1", "Noise2", "Sweep1", "Sweep2",
        ]
    } else if group == 2 {
        seq![
            "Lead1", "Lead2", "Arp1", "Arp2", "Pad1", "Pad2", "Strings1", "Strings2",
            "Brass1", "Brass2", "Choir1", "Choir2", "Organ1", "Organ2", "Piano1", "Piano2",
        ]
    } else {
        seq![
            "Vocal1", "Vocal2", "Chop1", "Chop2", "Voice1", "Voice2", "Speak1", "Speak2",
            "Breath1", "Breath2", "Scratch1", "Scratch2", "Reverse1", "Reverse2", "Echo1", "Echo2",
        ]
    }
}

/// The text of capture group 1 in the first match of regular expression
/// `pattern` in `text`, as the regex crate finds it (leftmost-first); none
/// when the pattern does not compile, does not match, or matches without
/// that group.
pub uninterp spec fn regex_capture(pattern: Seq<char>, text: Seq<char>) -> Option<Seq<char>>;

/// Relies on regex::Regex::new, Regex::captures, Captures::get and
/// Match::as_str: the text of capture group 1 of the first match, a
/// function of the pattern and the text alone.
#[verifier::external_body]
fn capture_group(pattern: &str, text: &str) -> (r: Option<String>)
    ensures
        match r {
            Some(s) => regex_capture(pattern@, text@) == Some(s@),
            None => regex_capture(pattern@, text@).is_none(),
        },
{
    let re = match regex::Regex::new(pattern) {
        Ok(re) => re,
        Err(_) => return None,
    };
    let caps = re.captures(text)?;
    let found = caps.get(1)?;
    Some(found.as_str().to_string())
}

/// The lowercase form of `s`, character by character.
pub uninterp spec fn lower_of(s: Seq<char>) -> Seq<char>;

/// Relies on str::to_lowercase: the lowercase form of the text, which
/// depends on its characters alone.
#[verifier::external_body]
fn lowercase(s: &str) -> (r: String)
    ensures
        r@ == lower_of(s@),
{
    s.to_lowercase()
}

/// `ext`, in lowercase, is the extension of an audio file the bank loads.
pub open spec fn audio_extension(ext: Seq<char>) -> bool {
    ext == "wav"@ || ext == "mp3"@ || ext == "flac"@ || ext == "ogg"@
}

/// A file with extension `ext`, in any case, is an audio file the bank
/// loads: WAV, MP3, FLAC or Ogg.
pub fn is_audio_extension(ext: &str) -> (r: bool)
    ensures
        r == audio_extension(lower_of(ext@)),
{
    let lower = lowercase(ext);
    is_lowercase_audio_extension(lower.as_str())
}

/// `ext`, already in lowercase, is the extension of an audio file the bank
/// loads: `wav`, `mp3`, `flac` or `ogg`.
pub fn is_lowercase_audio_extension(ext: &str) -> (r: bool)
    ensures
        r == audio_extension(ext@),
{
    text_is(ext, "wav") || text_is(ext, "mp3") || text_is(ext, "flac") || text_is(ext, "ogg")
}

/// The patterns that find a pad number in a file name, most specific
/// first: `pad01`, `p01_kick`, `12`, `01_kick`, `kick_01`, `kick_01_loop`.
pub open spec fn filename_patterns() -> Seq<&'static str> {
    seq![
        r"^pad(\d{1,2})",
        r"^p(\d{1,2})[_\-]",
        r"^(\d{1,2})$",
        r"^(\d{1,2})[_\-]",
        r"[_\-\.](\d{1,2})$",
        r"[_\-\.](\d{1,2})[_\-\.]",
    ]
}

/// `t` is made of ASCII decimal digits.
pub open spec fn all_digits(t: Seq<char>) -> bool {
    forall|i: int| 0 <= i < t.len() ==> '0' <= #[trigger] t[i] <= '9'
}

/// The number that the ASCII decimal digits `t` write.
pub open spec fn decimal_value(t: Seq<char>) -> nat
    decreases t.len(),
{
    if t.len() == 0 {
        0
    } else {
        decimal_value(t.drop_last()) * 10 + (t.last() as int - '0' as int) as nat
    }
}

/// The pad that a number in a file name stands for: 1 to 16 count from one,
/// and 0 stands for the first pad. Anything else stands for none.
pub open spec fn pad_number(t: Seq<char>) -> Option<usize> {
    if t.len() == 0 || !all_digits(t) {
        None
    } else if 1 <= decimal_value(t) <= 16 {
        Some((decimal_value(t) - 1) as usize)
    } else if decimal_value(t) == 0 {
        Some(0)
    } else {
        None
    }
}

/// The pad named by file name `name`, trying the patterns from the `i`th
/// on: the first pattern whose capture stands for a pad decides.
pub open spec fn pad_from_patterns(name: Seq<char>, i: int) -> Option<usize>
    decreases 6 - i,
{
    if i < 0 || i >= 6 {
        None
    } else {
        match regex_capture(filename_patterns()[i]@, name) {
            Some(t) if pad_number(t).is_some() => pad_number(t),
            _ => pad_from_patterns(name, i + 1),
        }
    }
}

/// The bytes of `tag` stand in `d` at `at`.
pub open spec fn has_tag(d: Seq<u8>, at: int, tag: Seq<u8>) -> bool {
    at + tag.len() <= d.len() && d.subrange(at, at + tag.len()) == tag
}

/// `d` begins like a WAV, MP3, FLAC or Ogg file.
pub open spec fn audio_header_ok(d: Seq<u8>) -> bool {
    ||| has_tag(d, 0, seq![0x52u8, 0x49, 0x46, 0x46]) && has_tag(d, 8, seq![0x57u8, 0x41, 0x56, 0x45])
    ||| has_tag(d, 0, seq![0x49u8, 0x44, 0x33])
    ||| d.len() > 2 && d[0] == 0xFFu8 && d[1] & 0xE0u8 == 0xE0u8
    ||| has_tag(d, 0, seq![0x66u8, 0x4C, 0x61, 0x43])
    ||| has_tag(d, 0, seq![0x4Fu8, 0x67, 0x67, 0x53])
}

/// The smallest size of a sample file, in bytes.
pub const MIN_SAMPLE_LEN: usize = 12;

/// The four bytes of `v`, least significant first.
pub open spec fn le32(v: int) -> Seq<u8> {
    seq![(v % 256) as u8, (v / 256 % 256) as u8, (v / 65536 % 256) as u8, (v / 16777216 % 256) as u8]
}

/// The two bytes of `v`, least significant first.
pub open spec fn le16(v: int) -> Seq<u8> {
    seq![(v % 256) as u8, (v / 256 % 256) as u8]
}

/// The 44-byte header of a mono 16-bit PCM WAV file at `rate` samples per
/// second whose data chunk holds `data_len` bytes.
pub open spec fn wav_header(data_len: int, rate: int) -> Seq<u8> {
    seq![0x52u8, 0x49, 0x46, 0x46] + le32(data_len + 36) + seq![0x57u8, 0x41, 0x56, 0x45] + seq![
        0x66u8,
        0x6D,
        0x74,
        0x20,
    ] + le32(16) + le16(1) + le16(1) + le32(rate) + le32(rate * 2) + le16(2) + le16(16) + seq![
        0x64u8,
        0x61,
        0x74,
        0x61,
    ] + le32(data_len)
}

/// Where a sample file is, and the pad and name it is given.
pub struct SampleMapping {
    pub group: usize,
    pub pad: usize,
    pub file: String,
    pub name: Option<String>,
}

/// The sample files to load, each with its pad.
pub struct SampleConfig {
    pub mappings: Vec<SampleMapping>,
}

/// Directory that relative sample paths start from.
pub open spec fn samples_dir() -> Seq<char> {
    "samples/"@
}

impl SampleMapping {
    /// The mapping gives the sample display name `n`.
    pub open spec fn named(&self, n: Seq<char>) -> bool {
        match self.name {
            Some(s) => s@ == n,
            None => false,
        }
    }

    /// The mapping names a pad of the bank.
    pub fn is_valid(&self) -> (r: bool)
        ensures
            r == valid_pad(self.group as int, self.pad as int),
    {
        self.group < BANK_GROUPS && self.pad < BANK_PADS
    }

    /// The path of the file: an absolute path as it is, any other under the
    /// samples directory.
    pub fn full_path(&self) -> (r: String)
        ensures
            r@ == if self.file@.len() > 0 && self.file@[0] == '/' {
                self.file@
            } else {
                samples_dir() + self.file@
            },
    {
        let file = self.file.as_str();
        if file.unicode_len() > 0 && file.get_char(0) == '/' {
            String::from_str(file)
        } else {
            let mut path = String::from_str("samples/");
            path.append(file);
            path
        }
    }
}

impl SampleConfig {
    /// The example configuration: kick, snare and hi-hat on the first three
    /// drum pads, and a bass on the first bass pad.
    pub fn example() -> (r: SampleConfig)
        ensures
            r.mappings@.len() == 4,
            r.mappings@.map_values(|m: SampleMapping| (m.group, m.pad)) == seq![(0usize, 0usize), (0, 1), (0, 2), (1, 0)],
            r.mappings@[0].file@ == "drums/kick.wav"@,
            r.mappings@[1].file@ == "drums/snare.wav"@,
            r.mappings@[2].file@ == "drums/hihat.wav"@,
            r.mappings@[3].file@ == "bass/bass01.wav"@,
            r.mappings@[0].named("Kick"@),
            r.mappings@[1].named("Snare"@),
            r.mappings@[2].named("Hi-Hat"@),
            r.mappings@[3].named("Bass 1"@),
    {
        let mut mappings: Vec<SampleMapping> = Vec::new();
        mappings.push(
            SampleMapping {
                group: 0,
                pad: 0,
                file: String::from_str("drums/kick.wav"),
                name: Some(String::from_str("Kick")),
            },
        );
        mappings.push(
            SampleMapping {
                group: 0,
                pad: 1,
                file: String::from_str("drums/snare.wav"),
                name: Some(String::from_str("Snare")),
            },
        );
        mappings.push(
            SampleMapping {
                group: 0,
                pad: 2,
                file: String::from_str("drums/hihat.wav"),
                name: Some(String::from_str("Hi-Hat")),
            },
        );
        mappings.push(
            SampleMapping {
                group: 1,
                pad: 0,
                file: String::from_str("bass/bass01.wav"),
                name: Some(String::from_str("Bass 1")),
            },
        );
        let r = SampleConfig { mappings };
        assert(r.mappings@.map_values(|m: SampleMapping| (m.group, m.pad)) =~= seq![(0usize, 0usize), (0, 1), (0, 2), (1, 0)]);
        r
    }
}

/// Appends the four bytes of `v`, least significant first.
fn push_le32(out: &mut Vec<u8>, v: u32)
    ensures
        final(out)@ == old(out)@ + le32(v as int),
{
    out.push((v % 256) as u8);
    out.push((v / 256 % 256) as u8);
    out.push((v / 65536 % 256) as u8);
    out.push((v / 16777216 % 256) as u8);
    assert(final(out)@ =~= old(out)@ + le32(v as int));
}

/// Appends the two bytes of `v`, least significant first.
fn push_le16(out: &mut Vec<u8>, v: u16)
    ensures
        final(out)@ == old(out)@ + le16(v as int),
{
    out.push((v % 256) as u8);
    out.push((v / 256 % 256) as u8);
    assert(final(out)@ =~= old(out)@ + le16(v as int));
}

/// Appends four bytes.
fn push_tag(out: &mut Vec<u8>, a: u8, b: u8, c: u8, d: u8)
    ensures
        final(out)@ == old(out)@ + seq![a, b, c, d],
{
    out.push(a);
    out.push(b);
    out.push(c);
    out.push(d);
    assert(final(out)@ =~= old(out)@ + seq![a, b, c, d]);
}

/// A mono 16-bit PCM WAV file at `sample_rate` samples per second whose
/// data chunk holds the bytes of `pcm`.
pub fn wav_from_pcm(pcm: &[u8], sample_rate: u32) -> (r: Vec<u8>)
    requires
        pcm@.len() + 36 <= u32::MAX,
        sample_rate * 2 <= u32::MAX,
    ensures
        r@ == wav_header(pcm@.len() as int, sample_rate as int) + pcm@,
{
    let mut wav: Vec<u8> = Vec::new();
    let len = pcm.len() as u32;
    push_tag(&mut wav, 0x52, 0x49, 0x46, 0x46);
    push_le32(&mut wav, len + 36);
    push_tag(&mut wav, 0x57, 0x41, 0x56, 0x45);
    push_tag(&mut wav, 0x66, 0x6D, 0x74, 0x20);
    push_le32(&mut wav, 16);
    push_le16(&mut wav, 1);
    push_le16(&mut wav, 1);
    push_le32(&mut wav, sample_rate);
    push_le32(&mut wav, sample_rate * 2);
    push_le16(&mut wav, 2);
    push_le16(&mut wav, 16);
    push_tag(&mut wav, 0x64, 0x61, 0x74, 0x61);
    push_le32(&mut wav, len);
    let ghost header = wav@;
    assert(header =~= wav_header(pcm@.len() as int, sample_rate as int));
    let mut i: usize = 0;
    while i < pcm.len()
        invariant
            i <= pcm@.len(),
            wav@ == header + pcm@.subrange(0, i as int),
        decreases pcm@.len() - i,
    {
        wav.push(pcm[i]);
        assert(pcm@.subrange(0, i + 1) =~= pcm@.subrange(0, i as int).push(pcm@[i as int]));
        i += 1;
    }
    assert(pcm@.subrange(0, pcm@.len() as int) =~= pcm@);
    wav
}

/// Audio bytes and display names by `(group, pad)`.
pub struct SampleBank {
    samples: HashMap<usize, Vec<u8>>,
    sample_names: HashMap<usize, String>,
}

impl SampleBank {
    /// Every stored sample and name sits under the key of a valid pad.
    pub closed spec fn wf(&self) -> bool {
        &&& forall|k: usize| #[trigger] self.samples@.contains_key(k) ==> k < BANK_GROUPS * BANK_PADS
        &&& forall|k: usize| #[trigger] self.sample_names@.contains_key(k) ==> k < BANK_GROUPS * BANK_PADS
    }

    /// The stored samples, by key.
    pub closed spec fn samples(&self) -> Map<usize, Seq<u8>> {
        self.samples@.map_values(|v: Vec<u8>| v@)
    }

    /// The stored names, by key.
    pub closed spec fn names(&self) -> Map<usize, Seq<char>> {
        self.sample_names@.map_values(|s: String| s@)
    }

    /// The sample of `(group, pad)`, if one is stored.
    pub open spec fn sample_at(&self, group: int, pad: int) -> Option<Seq<u8>> {
        if valid_pad(group, pad) && self.samples().contains_key(sample_slot(group, pad)) {
            Some(self.samples()[sample_slot(group, pad)])
        } else {
            None
        }
    }

    /// The display name of `(group, pad)`, if one is stored.
    pub open spec fn name_at(&self, group: int, pad: int) -> Option<Seq<char>> {
        if valid_pad(group, pad) && self.names().contains_key(sample_slot(group, pad)) {
            Some(self.names()[sample_slot(group, pad)])
        } else {
            None
        }
    }

    /// A bank with no sample and no name.
    pub fn new() -> (r: Self)
        ensures
            r.wf(),
            r.samples() == Map::<usize, Seq<u8>>::empty(),
            r.names() == Map::<usize, Seq<char>>::empty(),
    {
        let r = SampleBank { samples: HashMap::new(), sample_names: HashMap::new() };
        assert(r.samples() =~= Map::<usize, Seq<u8>>::empty());
        assert(r.names() =~= Map::<usize, Seq<char>>::empty());
        r
    }

    /// How many samples are stored.
    pub fn sample_count(&self) -> (r: usize)
        ensures
            r == self.samples().len(),
    {
        assert(self.samples().dom() =~= self.samples@.dom());
        self.samples.len()
    }

    /// How many names are stored.
    pub fn name_count(&self) -> (r: usize)
        ensures
            r == self.names().len(),
    {
        assert(self.names().dom() =~= self.sample_names@.dom());
        self.sample_names.len()
    }

    /// The sample of `(group, pad)`, if one is stored.
    pub fn get_sample(&self, group: usize, pad: usize) -> (r: Option<&[u8]>)
        ensures
            match r {
                Some(s) => self.sample_at(group as int, pad as int) == Some(s@),
                None => self.sample_at(group as int, pad as int).is_none(),
            },
    {
        if group < BANK_GROUPS && pad < BANK_PADS {
            match self.samples.get(&(group * BANK_PADS + pad)) {
                Some(v) => Some(v.as_slice()),
                None => None,
            }
        } else {
            None
        }
    }

    /// The display name of `(group, pad)`, if one is stored.
    pub fn get_sample_name(&self, group: usize, pad: usize) -> (r: Option<&str>)
        ensures
            match r {
                Some(s) => self.name_at(group as int, pad as int) == Some(s@),
                None => self.name_at(group as int, pad as int).is_none(),
            },
    {
        if group < BANK_GROUPS && pad < BANK_PADS {
            match self.sample_names.get(&(group * BANK_PADS + pad)) {
                Some(s) => Some(s.as_str()),
                None => None,
            }
        } else {
            None
        }
    }

    /// Some pad of some group holds a sample.
    pub fn has_any_sample(&self) -> (r: bool)
        ensures
            r == exists|group: int, pad: int| #[trigger] self.sample_at(group, pad).is_some(),
    {
        let mut group: usize = 0;
        while group < BANK_GROUPS
            invariant
                group <= BANK_GROUPS,
                forall|g: int, p: int| 0 <= g < group ==> !(#[trigger] self.sample_at(g, p).is_some()),
            decreases BANK_GROUPS - group,
        {
            let mut pad: usize = 0;
            while pad < BANK_PADS
                invariant
                    group < BANK_GROUPS,
                    pad <= BANK_PADS,
                    forall|g: int, p: int| 0 <= g < group ==> !(#[trigger] self.sample_at(g, p).is_some()),
                    forall|p: int| 0 <= p < pad ==> !(#[trigger] self.sample_at(group as int, p).is_some()),
                decreases BANK_PADS - pad,
            {
                if self.has_sample(group, pad) {
                    return true;
                }
                pad += 1;
            }
            group += 1;
        }
        false
    }

    /// A sample is stored for `(group, pad)`.
    pub fn has_sample(&self, group: usize, pad: usize) -> (r: bool)
        ensures
            r == self.sample_at(group as int, pad as int).is_some(),
    {
        group < BANK_GROUPS && pad < BANK_PADS && self.samples.contains_key(&(group * BANK_PADS + pad))
    }

    /// Names pad `(group, pad)` `name`; an invalid pad changes nothing.
    pub fn set_sample_name(&mut self, group: usize, pad: usize, name: String)
        requires
            old(self).wf(),
        ensures
            final(self).wf(),
            final(self).samples() == old(self).samples(),
            valid_pad(group as int, pad as int) ==> final(self).names() == old(self).names().insert(
                sample_slot(group as int, pad as int),
                name@,
            ),
            !valid_pad(group as int, pad as int) ==> final(self).names() == old(self).names(),
    {
        if group < BANK_GROUPS && pad < BANK_PADS {
            let key = group * BANK_PADS + pad;
            let ghost text = name@;
            self.sample_names.insert(key, name);
            assert(self.names() =~= old(self).names().insert(key, text));
        }
    }

    /// Forgets the sample and the name of `(group, pad)`.
    pub fn remove_sample(&mut self, group: usize, pad: usize)
        requires
            old(self).wf(),
        ensures
            final(self).wf(),
            valid_pad(group as int, pad as int) ==> {
                &&& final(self).samples() == old(self).samples().remove(sample_slot(group as int, pad as int))
                &&& final(self).names() == old(self).names().remove(sample_slot(group as int, pad as int))
            },
            !valid_pad(group as int, pad as int) ==> *final(self) == *old(self),
    {
        if group < BANK_GROUPS && pad < BANK_PADS {
            let key = group * BANK_PADS + pad;
            self.samples.remove(&key);
            self.sample_names.remove(&key);
            assert(self.samples() =~= old(self).samples().remove(key));
            assert(self.names() =~= old(self).names().remove(key));
        }
    }

    /// The display name of `group`: DRUMS, BASS, LEAD, VOCAL, or GROUP
    /// followed by the number for any other group.
    pub fn get_group_name(&self, group: usize) -> (r: String)
        ensures
            r@ == group_name(group as nat),
    {
        if group == 0 {
            String::from_str("DRUMS")
        } else if group == 1 {
            String::from_str("BASS")
        } else if group == 2 {
            String::from_str("LEAD")
        } else if group == 3 {
            String::from_str("VOCAL")
        } else {
            let mut text = String::from_str("GROUP");
            append_decimal(&mut text, group);
            text
        }
    }

    /// The pad that file name `filename` names by one of the patterns of
    /// `filename_patterns`, tried in order.
    pub fn extract_pad_from_filename(&self, filename: &str) -> (r: Option<usize>)
        ensures
            r == pad_from_patterns(filename@, 0),
    {
        let mut i: usize = 0;
        while i < 6
            invariant
                i <= 6,
                pad_from_patterns(filename@, 0) == pad_from_patterns(filename@, i as int),
            decreases 6 - i,
        {
            match capture_group(filename_pattern(i), filename) {
                Some(text) => {
                    let pad = pad_from_number_text(text.as_str());
                    if pad.is_some() {
                        return pad;
                    }
                },
                None => {},
            }
            i += 1;
        }
        None
    }

    /// The first pad of `group`, from `from` on, that holds no sample.
    pub open spec fn first_free_pad(&self, group: int, from: int) -> Option<usize>
        decreases BANK_PADS - from,
    {
        if from < 0 || from >= BANK_PADS {
            None
        } else if self.sample_at(group, from).is_none() {
            Some(from as usize)
        } else {
            self.first_free_pad(group, from + 1)
        }
    }

    /// The pad that a sample file named `name` (lowercase, without extension)
    /// goes to in `group`: the pad its name gives, if that pad is free; none if
    /// that pad is taken; the first free pad when the name gives none.
    pub open spec fn target_pad(&self, group: int, name: Seq<char>) -> Option<usize> {
        match pad_from_patterns(name, 0) {
            Some(p) => if p < BANK_PADS && self.sample_at(group, p as int).is_none() {
                Some(p)
            } else {
                None
            },
            None => self.first_free_pad(group, 0),
        }
    }

    /// The pad that a sample file named `stem` (its name without extension,
    /// in any case) goes to in `group`, if any.
    pub fn pad_for_file(&self, group: usize, stem: &str) -> (r: Option<usize>)
        ensures
            r == self.target_pad(group as int, lower_of(stem@)),
    {
        let name = lowercase(stem);
        self.pad_for_name(group, name.as_str())
    }

    /// The pad that a sample file named `name` (lowercase, without extension)
    /// goes to in `group`, if any.
    pub fn pad_for_name(&self, group: usize, name: &str) -> (r: Option<usize>)
        ensures
            r == self.target_pad(group as int, name@),
    {
        match self.extract_pad_from_filename(name) {
            Some(p) => {
                if p < BANK_PADS && !self.has_sample(group, p) {
                    Some(p)
                } else {
                    None
                }
            },
            None => {
                let mut pad: usize = 0;
                while pad < BANK_PADS
                    invariant
                        pad <= BANK_PADS,
                        pad_from_patterns(name@, 0).is_none(),
                        self.first_free_pad(group as int, 0) == self.first_free_pad(group as int, pad as int),
                    decreases BANK_PADS - pad,
                {
                    if !self.has_sample(group, pad) {
                        assert(self.first_free_pad(group as int, pad as int) == Some(pad));
                        return Some(pad);
                    }
                    pad += 1;
                }
                None
            },
        }
    }

    /// Stores `data` as the sample of `(group, pad)` under display name
    /// `name`, once it passes the checks: a valid pad, at least
    /// `MIN_SAMPLE_LEN` bytes, and the header of a known audio format. A sample
    /// that fails leaves the bank as it was.
    pub fn load_sample_data(&mut self, group: usize, pad: usize, data: Vec<u8>, name: String) -> (r: Result<(), AppError>)
        requires
            old(self).wf(),
        ensures
            final(self).wf(),
            r.is_ok() == (valid_pad(group as int, pad as int) && data@.len() >= MIN_SAMPLE_LEN && audio_header_ok(data@)),
            r.is_ok() ==> {
                &&& final(self).samples() == old(self).samples().insert(sample_slot(group as int, pad as int), data@)
                &&& final(self).names() == old(self).names().insert(sample_slot(group as int, pad as int), name@)
            },
            r.is_err() ==> *final(self) == *old(self),
            match r {
                Err(AppError::Sample(msg)) => if !valid_pad(group as int, pad as int) {
                    msg@ == "Invalid group or pad"@
                } else if data@.len() < MIN_SAMPLE_LEN {
                    msg@ == "Invalid audio file: too small"@
                } else {
                    msg@ == "Unsupported audio format. Please use WAV, MP3, FLAC, or OGG files."@
                },
                Err(_) => false,
                Ok(_) => true,
            },
    {
        if group >= BANK_GROUPS || pad >= BANK_PADS {
            return Err(AppError::Sample(String::from_str("Invalid group or pad")));
        }
        if data.len() < MIN_SAMPLE_LEN {
            return Err(AppError::Sample(String::from_str("Invalid audio file: too small")));
        }
        if !is_supported_audio(data.as_slice()) {
            return Err(
                AppError::Sample(String::from_str("Unsupported audio format. Please use WAV, MP3, FLAC, or OGG files.")),
            );
        }
        let key = group * BANK_PADS + pad;
        let ghost bytes = data@;
        let ghost text = name@;
        self.samples.insert(key, data);
        self.sample_names.insert(key, name);
        assert(self.samples() =~= old(self).samples().insert(key, bytes));
        assert(self.names() =~= old(self).names().insert(key, text));
        Ok(())
    }

    /// Names every pad of every group that holds no sample after its
    /// placeholder; pads with a sample keep their names.
    pub fn create_placeholder_names(&mut self)
        requires
            old(self).wf(),
        ensures
            final(self).wf(),
            final(self).samples() == old(self).samples(),
            forall|group: int, pad: int|
                #[trigger] final(self).name_at(group, pad) == if valid_pad(group, pad) && old(self).sample_at(
                    group,
                    pad,
                ).is_none() {
                    Some(placeholder_names(group)[pad]@)
                } else {
                    old(self).name_at(group, pad)
                },
    {
        let mut key: usize = 0;
        while key < BANK_GROUPS * BANK_PADS
            invariant
                self.wf(),
                key <= BANK_GROUPS * BANK_PADS,
                self.samples == old(self).samples,
                forall|k: usize| #[trigger]
                    self.names().contains_key(k) == (old(self).names().contains_key(k) || (k < key
                        && !old(self).samples().contains_key(k))),
                forall|k: usize|
                    #[trigger] self.names().contains_key(k) ==> self.names()[k] == if k < key
                        && !old(self).samples().contains_key(k) {
                        placeholder_names(k as int / BANK_PADS as int)[k as int % BANK_PADS as int]@
                    } else {
                        old(self).names()[k]
                    },
            decreases BANK_GROUPS * BANK_PADS - key,
        {
            let ghost before = self.names();
            if !self.samples.contains_key(&key) {
                let name = placeholder_name(key / BANK_PADS, key % BANK_PADS);
                self.sample_names.insert(key, String::from_str(name));
                assert(self.names() =~= before.insert(key, name@));
            }
            key += 1;
        }
        assert forall|group: int, pad: int|
            #[trigger] self.name_at(group, pad) == if valid_pad(group, pad) && old(self).sample_at(
                group,
                pad,
            ).is_none() {
                Some(placeholder_names(group)[pad]@)
            } else {
                old(self).name_at(group, pad)
            } by {
            if valid_pad(group, pad) {
                let k = sample_slot(group, pad);
                assert(k / 16 == group && k % 16 == pad) by (nonlinear_arith)
                    requires
                        k == group * 16 + pad,
                        0 <= pad < 16,
                        0 <= group,
                ;
            }
        }
    }
}

/// The number that a file-name capture stands for, as a pad: 1 to 16 count
/// from one, 0 is the first pad, and any other text stands for none.
pub fn pad_from_number_text(text: &str) -> (r: Option<usize>)
    ensures
        r == pad_number(text@),
{
    assert(text@.subrange(0, text@.len() as int) =~= text@);
    match read_decimal(text, 0, 100) {
        Some(value) => {
            if 1 <= value && value <= 16 {
                Some(value - 1)
            } else if value == 0 {
                Some(0)
            } else {
                None
            }
        },
        None => None,
    }
}

/// The number that the characters of `text` from `from` on write in
/// decimal, held at `cap`; none unless they are one or more ASCII digits.
pub(crate) fn read_decimal(text: &str, from: usize, cap: usize) -> (r: Option<usize>)
    requires
        cap <= 1000,
        from <= text@.len(),
    ensures
        r == if text@.len() > from && all_digits(text@.subrange(from as int, text@.len() as int)) {
            let v = decimal_value(text@.subrange(from as int, text@.len() as int));
            Some(if v < cap {
                v as usize
            } else {
                cap
            })
        } else {
            None::<usize>
        },
{
    let n = text.unicode_len();
    if n <= from {
        return None;
    }
    // `value` is the number read so far, held at `cap` once it reaches it.
    let mut value: usize = 0;
    let mut i: usize = from;
    while i < n
        invariant
            n == text@.len(),
            cap <= 1000,
            from <= i <= n,
            all_digits(text@.subrange(from as int, i as int)),
            value == if decimal_value(text@.subrange(from as int, i as int)) < cap {
                decimal_value(text@.subrange(from as int, i as int))
            } else {
                cap as nat
            },
        decreases n - i,
    {
        let c = text.get_char(i);
        if c < '0' || c > '9' {
            assert(text@.subrange(from as int, n as int)[i - from] == c);
            return None;
        }
        let d = (c as u32 - '0' as u32) as usize;
        let ghost prefix = text@.subrange(from as int, i as int);
        let ghost next = text@.subrange(from as int, i + 1);
        assert(next.drop_last() =~= prefix);
        assert(all_digits(next));
        if value < cap {
            let v = value * 10 + d;
            value = if v < cap {
                v
            } else {
                cap
            };
        }
        i += 1;
    }
    Some(value)
}

/// The `i`th pattern of `filename_patterns`.
fn filename_pattern(i: usize) -> (r: &'static str)
    requires
        i < 6,
    ensures
        r@ == filename_patterns()[i as int]@,
{
    let patterns: [&'static str; 6] = [
        r"^pad(\d{1,2})",
        r"^p(\d{1,2})[_\-]",
        r"^(\d{1,2})$",
        r"^(\d{1,2})[_\-]",
        r"[_\-\.](\d{1,2})$",
        r"[_\-\.](\d{1,2})[_\-\.]",
    ];
    assert(patterns@ =~= filename_patterns());
    patterns[i]
}

/// The bytes of `tag` stand in `d` at `at`.
fn tag_at(d: &[u8], at: usize, tag: &[u8]) -> (r: bool)
    ensures
        r == has_tag(d@, at as int, tag@),
{
    if d.len() < tag.len() || at > d.len() - tag.len() {
        return false;
    }
    let limit = d.len();
    let mut i: usize = 0;
    while i < tag.len()
        invariant
            limit == d@.len(),
            at + tag@.len() <= limit,
            i <= tag@.len(),
            forall|j: int| 0 <= j < i ==> d@[at + j] == tag@[j],
        decreases tag@.len() - i,
    {
        if d[at + i] != tag[i] {
            assert(d@.subrange(at as int, at + tag@.len())[i as int] != tag@[i as int]);
            return false;
        }
        i += 1;
    }
    assert(d@.subrange(at as int, at + tag@.len()) =~= tag@);
    true
}

/// `data` begins like a WAV (`RIFF` then `WAVE` at byte 8), MP3 (`ID3`, or
/// a frame sync), FLAC (`fLaC`) or Ogg (`OggS`) file.
pub fn is_supported_audio(data: &[u8]) -> (r: bool)
    ensures
        r == audio_header_ok(data@),
{
    let riff: [u8; 4] = [0x52, 0x49, 0x46, 0x46];
    let wave: [u8; 4] = [0x57, 0x41, 0x56, 0x45];
    let id3: [u8; 3] = [0x49, 0x44, 0x33];
    let flac: [u8; 4] = [0x66, 0x4C, 0x61, 0x43];
    let ogg: [u8; 4] = [0x4F, 0x67, 0x67, 0x53];
    assert(riff@ =~= seq![0x52u8, 0x49, 0x46, 0x46]);
    assert(wave@ =~= seq![0x57u8, 0x41, 0x56, 0x45]);
    assert(id3@ =~= seq![0x49u8, 0x44, 0x33]);
    assert(flac@ =~= seq![0x66u8, 0x4C, 0x61, 0x43]);
    assert(ogg@ =~= seq![0x4Fu8, 0x67, 0x67, 0x53]);
    let is_wav = tag_at(data, 0, riff.as_slice()) && tag_at(data, 8, wave.as_slice());
    let is_mp3 = tag_at(data, 0, id3.as_slice()) || (data.len() > 2 && data[0] == 0xFF && data[1] & 0xE0 == 0xE0);
    let is_flac = tag_at(data, 0, flac.as_slice());
    let is_ogg = tag_at(data, 0, ogg.as_slice());
    is_wav || is_mp3 || is_flac || is_ogg
}

/// The placeholder name of `pad` in `group`.
fn placeholder_name(group: usize, pad: usize) -> (r: &'static str)
    requires
        group < BANK_GROUPS,
        pad < BANK_PADS,
    ensures
        r@ == placeholder_names(group as int)[pad as int]@,
{
    let names: [&'static str; BANK_PADS] = if group == 0 {
        [
            "Kick", "Snare", "HiHat", "OpenHat", "Crash", "Ride", "Tom1", "Tom2",
            "Perc1", "Perc2", "Perc3", "Perc4", "FX1", "FX2", "FX3", "FX4",
        ]
    } else if group == 1 {
        [
            "Bass1", "Bass2", "Sub1", "Sub2", "Pluck1", "Pluck2", "Saw1", "Saw2",
            "Sine1", "Sine2", "FM1", "FM2", "Noise1", "Noise2", "Sweep1", "Sweep2",
        ]
    } else if group == 2 {
        [
            "Lead1", "Lead2", "Arp1", "Arp2", "Pad1", "Pad2", "Strings1", "Strings2",
            "Brass1", "Brass2", "Choir1", "Choir2", "Organ1", "Organ2", "Piano1", "Piano2",
        ]
    } else {
        [
            "Vocal1", "Vocal2", "Chop1", "Chop2", "Voice1", "Voice2", "Speak1", "Speak2",
            "Breath1", "Breath2", "Scratch1", "Scratch2", "Reverse1", "Reverse2", "Echo1", "Echo2",
        ]
    };
    assert(names@ =~= placeholder_names(group as int));
    names[pad]
}

/// The one-character text of decimal digit `d`.
fn digit_text(d: usize) -> (r: &'static str)
    requires
        d < 10,
    ensures
        r@ == seq![digit_char(d as int)],
{
    proof {
        reveal_strlit("0");
        reveal_strlit("1");
        reveal_strlit("2");
        reveal_strlit("3");
        reveal_strlit("4");
        reveal_strlit("5");
        reveal_strlit("6");
        reveal_strlit("7");
        reveal_strlit("8");
        reveal_strlit("9");
    }
    let r = if d == 0 {
        "0"
    } else if d == 1 {
        "1"
    } else if d == 2 {
        "2"
    } else if d == 3 {
        "3"
    } else if d == 4 {
        "4"
    } else if d == 5 {
        "5"
    } else if d == 6 {
        "6"
    } else if d == 7 {
        "7"
    } else if d == 8 {
        "8"
    } else {
        "9"
    };
    assert(r@ =~= seq![digit_char(d as int)]);
    r
}

/// Appends the decimal digits of `n` to `text`.
pub(crate) fn append_decimal(text: &mut String, n: usize)
    ensures
        final(text)@ == old(text)@ + decimal(n as nat),
    decreases n,
{
    if n >= 10 {
        append_decimal(text, n / 10);
    }
    text.append(digit_text(n % 10));
    assert(final(text)@ =~= old(text)@ + decimal(n as nat));
}

} // verus!
