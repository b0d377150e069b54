use quickbridge::media::{format_bytes, AudioHandling, AudioStream, SeekSupport, StreamSelection, VideoStream};
use quickbridge::player::{
    open_script, playback_status_from_fields, read_playback_status, PlaybackSnapshot,
    PlaybackStatus, PlayerStatusError, QuickTimePlayer, StatusReply,
};
use quickbridge::probe::{parse_stream_line, parse_stream_lines, stream_line_for, ProbeRunner};
use quickbridge::source::{
    classify_seek_support_parts, filename_from_url, parse_content_disposition_filename,
    parse_content_range_size, should_try_range_request, trim_quotes,
};
use quickbridge::terminal::{
    active_frame, active_frame_count, validate_terminal, StepLabels, StepLine, StepState,
};
use quickbridge::text::format_playback_time;
use quickbridge::timecode::Timecode;

/// A status reply read the way the front-end reads it: the playhead text is
/// a number of seconds, truncated to whole seconds.
fn parse_playback_status(output: &str) -> Result<PlaybackStatus, PlayerStatusError> {
    match read_playback_status(output) {
        StatusReply::AppClosed => Ok(PlaybackStatus::AppClosed),
        StatusReply::NoDocument => Ok(PlaybackStatus::NoDocument),
        StatusReply::Unexpected => Err(PlayerStatusError::UnexpectedStatus),
        StatusReply::Fields { playing, current_time } => {
            let seconds = current_time
                .parse::<f64>()
                .ok()
                .filter(|value| value.is_finite() && *value >= 0.0)
                .map(|value| Timecode::from_seconds(value.floor() as u64));
            playback_status_from_fields(&playing, seconds)
        }
    }
}

#[test]
fn parses_playback_status_snapshots() {
    assert_eq!(
        parse_playback_status("true|12.9").unwrap(),
        PlaybackStatus::Snapshot(PlaybackSnapshot {
            current_time: Timecode::from_seconds(12),
            playing: true,
        })
    );
    assert_eq!(
        parse_playback_status("false|3.1").unwrap(),
        PlaybackStatus::Snapshot(PlaybackSnapshot {
            current_time: Timecode::from_seconds(3),
            playing: false,
        })
    );
}

#[test]
fn parses_closed_statuses() {
    assert_eq!(parse_playback_status("app-closed").unwrap(), PlaybackStatus::AppClosed);
    assert_eq!(parse_playback_status("no-document").unwrap(), PlaybackStatus::NoDocument);
}

#[test]
fn rejects_invalid_playback_status() {
    assert!(parse_playback_status("bad").is_err());
    assert!(parse_playback_status("maybe|1.0").is_err());
}

#[test]
fn status_replies_are_split_at_the_first_bar() {
    assert_eq!(read_playback_status("  \n"), StatusReply::NoDocument);
    assert_eq!(
        read_playback_status(" true|1|2 "),
        StatusReply::Fields { playing: String::from("true"), current_time: String::from("1|2") }
    );
    assert_eq!(
        playback_status_from_fields("true", None),
        Err(PlayerStatusError::InvalidPlayhead)
    );
    assert_eq!(
        playback_status_from_fields("maybe", Some(Timecode::zero())),
        Err(PlayerStatusError::InvalidPlaybackFlag)
    );
    assert_eq!(
        PlayerStatusError::UnexpectedStatus.message(),
        "QuickTime returned an unexpected playback status"
    );
}

#[test]
fn open_command_passes_the_url_as_an_argument() {
    let command = QuickTimePlayer::new().render_open_command("https://x.test/a b");
    assert!(command.starts_with("osascript -e"));
    assert!(command.ends_with("-- 'https://x.test/a b'"));
    assert!(!open_script().is_empty());
}

#[test]
fn parses_stream_lines_from_ffprobe_summary() {
    let parsed =
        parse_stream_line("    Stream #0:2(jpn): Audio: eac3, 48000 Hz, stereo, fltp, 224 kb/s")
            .unwrap();
    assert_eq!(parsed.0, 2);
    assert_eq!(parsed.1, "Stream #0:2(jpn): Audio: eac3, 48000 Hz, stereo, fltp, 224 kb/s");
    assert!(parse_stream_line("Input #0, matroska").is_none());
}

#[test]
fn summary_lines_are_found_by_stream_number() {
    let entries = parse_stream_lines(
        "Input #0, matroska,webm, from 'video.mkv':\n  Stream #0:0: Video: h264 (High), yuv420p, 1920x1080 (default)\n  Stream #0:1(eng): Audio: dts, 48000 Hz, 5.1, fltp, 1536 kb/s (default)\n",
    );
    assert_eq!(entries.len(), 2);
    assert_eq!(
        stream_line_for(&entries, 1).unwrap(),
        "Stream #0:1(eng): Audio: dts, 48000 Hz, 5.1, fltp, 1536 kb/s (default)"
    );
    assert!(stream_line_for(&entries, 4).is_none());
    let runner = ProbeRunner::new(None);
    assert_eq!(
        runner.render_probe_commands("https://example.com/video.mkv"),
        vec![String::from(
            "ffprobe -v error -show_streams -show_format -of json https://example.com/video.mkv"
        )]
    );
}

#[test]
fn probe_marks_dts_audio_for_transcode() {
    let selection = StreamSelection::new(
        VideoStream::new(0, "Stream #0:0: Video: h264", true),
        Some(AudioStream::new(1, Some(String::from("dts")), "Stream #0:1: Audio: dts", true)),
    );

    assert_eq!(selection.audio_handling(), Some(&AudioHandling::TranscodeAlac));
    assert!(selection.audio_notice().unwrap().contains("convert it to ALAC"));
}

#[test]
fn keeps_eac3_audio_as_copy() {
    let selection = StreamSelection::new(
        VideoStream::new(0, "Stream #0:0: Video: h264", true),
        Some(AudioStream::new(1, Some(String::from("eac3")), "Stream #0:1: Audio: eac3", true)),
    );

    assert_eq!(selection.audio_handling(), Some(&AudioHandling::Copy));
    assert_eq!(selection.audio_notice(), None);
}

#[test]
fn extracts_filename_from_path_query() {
    let filename = filename_from_url("https://example.com/raw?path=/folder/Kaiju.No.8.S03E01.mkv");
    assert_eq!(filename, "Kaiju.No.8.S03E01.mkv");
}

#[test]
fn filename_falls_back_to_the_last_path_segment() {
    assert_eq!(filename_from_url("https://example.com/media/video.mkv"), "video.mkv");
    assert_eq!(filename_from_url("https://example.com/media/"), "media");
    assert_eq!(filename_from_url("https://example.com"), "Unknown");
    assert_eq!(filename_from_url("not a url"), "Unknown");
}

#[test]
fn extracts_filename_from_content_disposition() {
    let filename = parse_content_disposition_filename("attachment; filename=\"video.mkv\"").unwrap();
    assert_eq!(filename, "video.mkv");
    assert!(parse_content_disposition_filename("inline").is_none());
    assert_eq!(trim_quotes("  \"a.mkv\" "), "a.mkv");
}

#[test]
fn parses_content_range_total_size() {
    assert_eq!(parse_content_range_size("bytes 0-0/12345"), Some(12345));
    assert_eq!(parse_content_range_size("bytes 0-0/*"), None);
}

#[test]
fn formats_bytes_human_readably() {
    assert_eq!(format_bytes(512), "512 B");
    assert_eq!(format_bytes(1_073_741_824), "1.00 GiB");
}

#[test]
fn accepts_explicit_byte_ranges() {
    assert_eq!(classify_seek_support_parts(200, Some("bytes"), false), Some(SeekSupport::Enabled));
}

#[test]
fn accepts_partial_content_responses() {
    assert_eq!(classify_seek_support_parts(206, None, true), Some(SeekSupport::Enabled));
}

#[test]
fn disables_seeking_when_ranges_are_missing() {
    assert_eq!(
        classify_seek_support_parts(200, None, false),
        Some(SeekSupport::Disabled {
            warning: String::from(
                "This source doesn't appear to support jumping to a different time.",
            ),
        })
    );
}

#[test]
fn seek_support_decides_whether_to_probe_with_a_range() {
    assert!(should_try_range_request(&None));
    assert!(!should_try_range_request(&Some(SeekSupport::Enabled)));
}

#[test]
fn formats_playback_time_line() {
    let line = format_playback_time(Timecode::from_seconds(312), Some(Timecode::from_seconds(900)));
    assert_eq!(line, "00:05:12 / 00:15:00");
}

#[test]
fn validates_interactive_terminal_requirements() {
    assert!(validate_terminal(true, true).is_ok());
    assert!(validate_terminal(false, true).is_err());
    assert!(validate_terminal(true, false).is_err());
}

#[test]
fn stage_symbols_are_stable() {
    assert_eq!(active_frame_count(), 10);
    let step = StepLine {
        labels: StepLabels::new("Source details", "Reading source details", "Read source details"),
        state: StepState::Done,
        detail_lines: Vec::new(),
    };
    assert_eq!(step.state, StepState::Done);
    assert_eq!(step.labels.for_state(StepState::Warn), "Read source details");
    assert_eq!(active_frame(0), "⠋");
}
