use big_fat::{
    check_stream_format, end_iteration, file_extension, file_name, is_audio_file, open_failure_line,
    opened_summary, output_file_path, push_decimal, result_label, LateInit, PollInfo, Settings,
    SettingsError, CHUNK_SIZE,
};

#[test]
fn late_init_starts_empty() {
    let cell: LateInit<u32> = LateInit::new();
    assert!(!cell.is_initialized());
}

#[test]
fn late_init_gives_back_what_init_stored() {
    let mut cell: LateInit<String> = LateInit::new();
    cell.init("in dir".to_string());
    assert!(cell.is_initialized());
    assert_eq!(cell.deref(), "in dir");
}

#[test]
fn poll_info_counts() {
    let mut info = PollInfo::new(3);
    assert_eq!(info.readers_left(), 3);
    assert_eq!(info.iterations_done(), 0);
    assert!(!info.is_done());
    info.reader_done();
    info.iteration_done();
    info.iteration_done();
    assert_eq!(info.readers_left(), 2);
    assert_eq!(info.iterations_done(), 2);
    info.done();
    assert!(info.is_done());
    assert_eq!(info.readers_left(), 2);
}

#[test]
fn poll_info_reader_count_wraps_below_zero() {
    let mut info = PollInfo::new(0);
    info.reader_done();
    assert_eq!(info.readers_left(), usize::MAX);
}

#[test]
fn poll_info_status_line() {
    let mut info = PollInfo::new(12);
    info.iteration_done();
    assert_eq!(info.status_line(), "12 readers left\t\t1 iterations done");
}

#[test]
fn end_iteration_drops_finished_readers_in_order() {
    let mut info = PollInfo::new(4);
    let readers = vec!["a", "b", "c", "d"];
    let kept = end_iteration(&mut info, readers, &vec![false, true, false, true]);
    assert_eq!(kept, vec!["a", "c"]);
    assert_eq!(info.readers_left(), 2);
    assert_eq!(info.iterations_done(), 1);
    let kept = end_iteration(&mut info, kept, &vec![true, true]);
    assert!(kept.is_empty());
    assert_eq!(info.readers_left(), 0);
    assert_eq!(info.iterations_done(), 2);
}

#[test]
fn end_iteration_with_no_finished_reader() {
    let mut info = PollInfo::new(2);
    let kept = end_iteration(&mut info, vec![1u8, 2u8], &vec![false, false]);
    assert_eq!(kept, vec![1u8, 2u8]);
    assert_eq!(info.readers_left(), 2);
}

#[test]
fn file_name_is_the_last_component() {
    assert_eq!(file_name("/music/set/song.wav"), "song.wav");
    assert_eq!(file_name("song.flac"), "song.flac");
    assert_eq!(file_name("/music/set/"), "set");
    assert_eq!(file_name("/"), "");
    assert_eq!(file_name("a/.."), "");
}

#[test]
fn file_extension_follows_the_last_dot() {
    assert_eq!(file_extension("/music/song.wav"), "wav");
    assert_eq!(file_extension("archive.tar.gz"), "gz");
    assert_eq!(file_extension("/music/.hidden"), "");
    assert_eq!(file_extension("/music/.hidden.ogg"), "ogg");
    assert_eq!(file_extension("/music/README"), "");
    assert_eq!(file_extension("/"), "");
}

#[test]
fn audio_files_by_extension() {
    assert!(is_audio_file("/music/a.wav"));
    assert!(is_audio_file("/music/a.flac"));
    assert!(is_audio_file("/music/a.mp3"));
    assert!(is_audio_file("/music/a.ogg"));
    assert!(!is_audio_file("/music/a.WAV"));
    assert!(!is_audio_file("/music/a.txt"));
    assert!(!is_audio_file("/music/wav"));
    assert!(!is_audio_file("/music/.wav"));
}

#[test]
fn output_file_gets_wav_extension() {
    assert_eq!(output_file_path("mix"), "mix.wav");
    assert_eq!(output_file_path("out/mix.mp3"), "out/mix.wav");
    assert_eq!(output_file_path("mix.wav"), "mix.wav");
}

#[test]
fn output_file_without_file_name_is_left_as_given() {
    assert_eq!(output_file_path("/"), "/");
    assert_eq!(output_file_path("out/.."), "out/..");
}

#[test]
fn settings_from_default_values() {
    let s = Settings::from_args("music", "mix", "2", "44100", false).unwrap();
    assert_eq!(s.in_dir, "music");
    assert_eq!(s.out_file, "mix.wav");
    assert_eq!(s.channels, 2);
    assert_eq!(s.sample_rate, 44100);
    assert!(!s.recurse);
}

#[test]
fn settings_accept_a_plus_sign() {
    let s = Settings::from_args("music", "mix", "+1", "+48000", true).unwrap();
    assert_eq!(s.channels, 1);
    assert_eq!(s.sample_rate, 48000);
    assert!(s.recurse);
}

#[test]
fn settings_reject_bad_channel_counts() {
    for bad in ["", "+", "-1", "two", " 2", "70000"] {
        let r = Settings::from_args("music", "mix", bad, "44100", false);
        assert_eq!(r.err(), Some(SettingsError::Channels));
    }
}

#[test]
fn settings_reject_bad_sample_rates() {
    for bad in ["", "4.41e4", "-44100", "4294967296"] {
        let r = Settings::from_args("music", "mix", "2", bad, false);
        assert_eq!(r.err(), Some(SettingsError::SampleRate));
    }
}

#[test]
fn settings_report_the_channel_count_first() {
    let r = Settings::from_args("music", "mix", "x", "y", false);
    assert_eq!(r.err(), Some(SettingsError::Channels));
}

#[test]
fn stream_format_accepted() {
    assert_eq!(check_stream_format(2, 44100, 2, 44100), Ok(()));
}

#[test]
fn stream_format_wrong_channels() {
    assert_eq!(
        check_stream_format(1, 22050, 2, 44100),
        Err("must have 2 channels (instead of 1)".to_string())
    );
}

#[test]
fn stream_format_wrong_sample_rate() {
    assert_eq!(
        check_stream_format(2, 22050, 2, 44100),
        Err("must have sample rate of 44100 (instead of 22050)".to_string())
    );
}

#[test]
fn report_lines() {
    assert_eq!(opened_summary(3, 5), "opened 3 out of 5 readers");
    assert_eq!(
        open_failure_line("/music/bad.mp3", "error constructing decoder: unrecognized format"),
        "error opening bad.mp3: error constructing decoder: unrecognized format"
    );
    assert_eq!(result_label("out/mix.wav"), "audio result (mix.wav)");
}

#[test]
fn decimal_rendering() {
    for n in [0u64, 7, 10, 12345, u64::MAX] {
        let mut s = String::from("n=");
        push_decimal(&mut s, n);
        assert_eq!(s, format!("n={}", n));
    }
}

#[test]
fn chunk_size_is_next_power_of_two_of_100000() {
    assert_eq!(CHUNK_SIZE, 100000usize.next_power_of_two());
}
