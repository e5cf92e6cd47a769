use koii_sequencer::error::AppError;
use koii_sequencer::sample::{is_audio_extension, is_lowercase_audio_extension, is_supported_audio, pad_from_number_text, wav_from_pcm, SampleBank, SampleConfig, SampleMapping};

fn wav_bytes() -> Vec<u8> {
    wav_from_pcm(&[0, 0, 1, 0], 44100)
}

#[test]
fn test_sample_bank_creation() {
    let bank = SampleBank::new();
    assert_eq!(bank.sample_count(), 0);
    assert_eq!(bank.name_count(), 0);
}

#[test]
fn sample_test_group_names() {
    let bank = SampleBank::new();
    assert_eq!(bank.get_group_name(0), "DRUMS");
    assert_eq!(bank.get_group_name(1), "BASS");
    assert_eq!(bank.get_group_name(2), "LEAD");
    assert_eq!(bank.get_group_name(3), "VOCAL");
    assert_eq!(bank.get_group_name(99), "GROUP99");
}

#[test]
fn test_sample_management() {
    let mut bank = SampleBank::new();

    assert!(!bank.has_sample(0, 0));
    assert!(bank.get_sample(0, 0).is_none());
    assert!(bank.get_sample_name(0, 0).is_none());

    bank.remove_sample(0, 0);
    assert!(!bank.has_sample(0, 0));
}

#[test]
fn test_extract_pad_from_filename() {
    let bank = SampleBank::new();

    assert_eq!(bank.extract_pad_from_filename("kick_01"), Some(0));
    assert_eq!(bank.extract_pad_from_filename("snare-12"), Some(11));
    assert_eq!(bank.extract_pad_from_filename("hihat.15"), Some(14));

    assert_eq!(bank.extract_pad_from_filename("pad00"), Some(0));
    assert_eq!(bank.extract_pad_from_filename("pad15"), Some(14));

    assert_eq!(bank.extract_pad_from_filename("p01_kick"), Some(0));
    assert_eq!(bank.extract_pad_from_filename("12"), Some(11));
    assert_eq!(bank.extract_pad_from_filename("00"), Some(0));

    assert_eq!(bank.extract_pad_from_filename("kick"), None);
    assert_eq!(bank.extract_pad_from_filename("17"), None);
    assert_eq!(bank.extract_pad_from_filename("pad99"), None);
}

#[test]
fn test_create_placeholder_names() {
    let mut bank = SampleBank::new();
    bank.create_placeholder_names();

    assert_eq!(bank.get_sample_name(0, 0), Some("Kick"));
    assert_eq!(bank.get_sample_name(0, 1), Some("Snare"));
    assert_eq!(bank.get_sample_name(1, 0), Some("Bass1"));
    assert_eq!(bank.get_sample_name(2, 0), Some("Lead1"));
    assert_eq!(bank.get_sample_name(3, 0), Some("Vocal1"));
}

#[test]
fn placeholder_names_spare_loaded_pads() {
    let mut bank = SampleBank::new();
    assert!(bank.load_sample_data(0, 0, wav_bytes(), "boom".to_string()).is_ok());
    bank.create_placeholder_names();
    assert_eq!(bank.get_sample_name(0, 0), Some("boom"));
    assert_eq!(bank.get_sample_name(3, 15), Some("Echo2"));
    assert_eq!(bank.name_count(), 64);
}

#[test]
fn wav_framing_has_header_and_data() {
    let pcm: Vec<u8> = (0..100u8).collect();
    let wav = wav_from_pcm(&pcm, 44100);
    assert_eq!(wav.len(), 144);
    assert!(wav.starts_with(b"RIFF"));
    assert_eq!(&wav[4..8], &136u32.to_le_bytes());
    assert_eq!(&wav[8..12], b"WAVE");
    assert_eq!(&wav[12..16], b"fmt ");
    assert_eq!(&wav[24..28], &44100u32.to_le_bytes());
    assert_eq!(&wav[28..32], &88200u32.to_le_bytes());
    assert_eq!(&wav[36..40], b"data");
    assert_eq!(&wav[40..44], &100u32.to_le_bytes());
    assert_eq!(&wav[44..], &pcm[..]);
}

#[test]
fn audio_headers_are_recognised() {
    assert!(is_supported_audio(&wav_bytes()));
    assert!(is_supported_audio(b"ID3\x03\x00\x00\x00\x00\x00\x00\x00\x00"));
    assert!(is_supported_audio(&[0xFF, 0xFB, 0x90, 0, 0, 0, 0, 0, 0, 0, 0, 0]));
    assert!(is_supported_audio(b"fLaC\x00\x00\x00\x22\x00\x00\x00\x00"));
    assert!(is_supported_audio(b"OggS\x00\x02\x00\x00\x00\x00\x00\x00"));
    assert!(!is_supported_audio(b"RIFF\x00\x00\x00\x00AVI "));
    assert!(!is_supported_audio(b"hello, world"));
}

#[test]
fn sample_loading_checks_data() {
    let mut bank = SampleBank::new();
    match bank.load_sample_data(0, 0, vec![1, 2, 3], "x".to_string()) {
        Err(AppError::Sample(msg)) => assert_eq!(msg, "Invalid audio file: too small"),
        _ => panic!("short data must be refused"),
    }
    match bank.load_sample_data(0, 0, b"hello, world".to_vec(), "x".to_string()) {
        Err(AppError::Sample(msg)) => assert!(msg.starts_with("Unsupported audio format")),
        _ => panic!("unknown format must be refused"),
    }
    match bank.load_sample_data(4, 0, wav_bytes(), "x".to_string()) {
        Err(AppError::Sample(msg)) => assert_eq!(msg, "Invalid group or pad"),
        _ => panic!("invalid pad must be refused"),
    }
    assert_eq!(bank.sample_count(), 0);

    let data = wav_bytes();
    assert!(bank.load_sample_data(1, 3, data.clone(), "kick".to_string()).is_ok());
    assert_eq!(bank.get_sample(1, 3), Some(&data[..]));
    assert_eq!(bank.get_sample_name(1, 3), Some("kick"));
    assert!(bank.has_sample(1, 3));
    assert!(bank.has_any_sample());

    bank.remove_sample(1, 3);
    assert!(!bank.has_sample(1, 3));
    assert!(bank.get_sample_name(1, 3).is_none());
    assert!(!bank.has_any_sample());
}

#[test]
fn pad_numbers_count_from_one_or_zero() {
    assert_eq!(pad_from_number_text("0"), Some(0));
    assert_eq!(pad_from_number_text("1"), Some(0));
    assert_eq!(pad_from_number_text("16"), Some(15));
    assert_eq!(pad_from_number_text("17"), None);
    assert_eq!(pad_from_number_text("007"), Some(6));
    assert_eq!(pad_from_number_text("123456789012345678901234567890"), None);
    assert_eq!(pad_from_number_text(""), None);
    assert_eq!(pad_from_number_text("1a"), None);
}

#[test]
fn files_go_to_named_or_first_free_pad() {
    let mut bank = SampleBank::new();
    assert_eq!(bank.pad_for_file(0, "snare_03"), Some(2));
    assert_eq!(bank.pad_for_file(0, "crash"), Some(0));
    assert!(bank.load_sample_data(0, 0, wav_bytes(), "a".to_string()).is_ok());
    assert!(bank.load_sample_data(0, 1, wav_bytes(), "b".to_string()).is_ok());
    assert_eq!(bank.pad_for_file(0, "crash"), Some(2));
    assert_eq!(bank.pad_for_file(0, "kick_01"), None);
    assert_eq!(bank.pad_for_file(1, "kick_01"), Some(0));
}

#[test]
fn mapping_paths_and_validity() {
    let mapping = SampleMapping { group: 0, pad: 3, file: "drums/kick.wav".to_string(), name: None };
    assert!(mapping.is_valid());
    assert_eq!(mapping.full_path(), "samples/drums/kick.wav");
    let absolute = SampleMapping { group: 4, pad: 0, file: "/tmp/a.wav".to_string(), name: None };
    assert!(!absolute.is_valid());
    assert_eq!(absolute.full_path(), "/tmp/a.wav");
}

#[test]
fn example_config_lists_four_mappings() {
    let config = SampleConfig::example();
    assert_eq!(config.mappings.len(), 4);
    assert_eq!(config.mappings[0].file, "drums/kick.wav");
    assert_eq!(config.mappings[0].name, Some("Kick".to_string()));
    assert_eq!((config.mappings[3].group, config.mappings[3].pad), (1, 0));
}

#[test]
fn file_names_are_read_in_lowercase() {
    let bank = SampleBank::new();
    assert_eq!(bank.pad_for_file(0, "PAD07"), Some(6));
    assert_eq!(bank.pad_for_name(0, "PAD07"), Some(0));
    assert_eq!(bank.pad_for_file(2, "Lead-05"), Some(4));
}

#[test]
fn audio_extensions_in_any_case() {
    assert!(is_audio_extension("wav"));
    assert!(is_audio_extension("WAV"));
    assert!(is_audio_extension("Flac"));
    assert!(is_audio_extension("ogg"));
    assert!(is_audio_extension("mp3"));
    assert!(!is_audio_extension("txt"));
    assert!(!is_audio_extension("wave"));
}

#[test]
fn lowercase_extensions_only_match_lowercase() {
    assert!(is_lowercase_audio_extension("flac"));
    assert!(!is_lowercase_audio_extension("FLAC"));
    assert!(!is_lowercase_audio_extension(""));
}
