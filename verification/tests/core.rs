use quickbridge::command::{help_text, parse_command, resolve_target, Command, CommandParseError};
use quickbridge::media::{
    format_bytes, AudioHandling, AudioStream, FfprobeDisposition, FfprobeOutput, FfprobeSideData,
    FfprobeStream, FfprobeTags, MediaInfo, SeekSupport, SourceInspection, SourceMetadata,
    StreamSelection, TrackSelectionError, VideoPackaging, VideoPackagingError, VideoStream,
};
use quickbridge::session::{Moment, SessionState, SessionStateError};
use quickbridge::timecode::{Timecode, TimecodeParseError};

#[test]
fn command_parses_operational_commands() {
    assert_eq!(parse_command("help").unwrap(), Some(Command::Help));
    assert_eq!(parse_command("reopen").unwrap(), Some(Command::Reopen));
    assert_eq!(parse_command("status").unwrap(), Some(Command::Status));
    assert_eq!(parse_command("details").unwrap(), Some(Command::Status));
    assert_eq!(parse_command("quit").unwrap(), Some(Command::Quit));
}

#[test]
fn command_parses_absolute_and_relative_jumps() {
    assert_eq!(
        parse_command("01:30").unwrap(),
        Some(Command::JumpAbsolute(Timecode::from_seconds(90)))
    );
    assert_eq!(parse_command("+30").unwrap(), Some(Command::JumpRelative(30)));
    assert_eq!(parse_command("-00:10").unwrap(), Some(Command::JumpRelative(-10)));
}

#[test]
fn command_resolves_relative_targets_from_estimated_position() {
    let estimated = Timecode::from_seconds(75);
    let target = resolve_target(estimated, &Command::JumpRelative(-30)).unwrap();
    assert_eq!(target, Timecode::from_seconds(45));
}

#[test]
fn prompt_parses_operational_commands() {
    assert_eq!(parse_command("help").unwrap(), Some(Command::Help));
    assert_eq!(parse_command("reopen").unwrap(), Some(Command::Reopen));
    assert_eq!(parse_command("status").unwrap(), Some(Command::Status));
    assert_eq!(parse_command("quit").unwrap(), Some(Command::Quit));
}

#[test]
fn prompt_parses_absolute_and_relative_jumps() {
    assert_eq!(
        parse_command("01:30").unwrap(),
        Some(Command::JumpAbsolute(Timecode::from_seconds(90)))
    );
    assert_eq!(parse_command("+30").unwrap(), Some(Command::JumpRelative(30)));
    assert_eq!(parse_command("-00:10").unwrap(), Some(Command::JumpRelative(-10)));
}

#[test]
fn prompt_resolves_relative_targets_from_estimated_position() {
    let estimated = Timecode::from_seconds(75);
    let target = resolve_target(estimated, &Command::JumpRelative(-30)).unwrap();
    assert_eq!(target, Timecode::from_seconds(45));
}

#[test]
fn command_edge_cases() {
    assert_eq!(parse_command("   ").unwrap(), None);
    assert_eq!(parse_command("?").unwrap(), Some(Command::Help));
    assert_eq!(
        parse_command("1:99"),
        Err(CommandParseError::InvalidTimecode(TimecodeParseError::SecondsOutOfRange))
    );
    assert_eq!(
        resolve_target(Timecode::from_seconds(5), &Command::Help),
        Err(CommandParseError::NotATimestampCommand)
    );
    assert_eq!(
        resolve_target(Timecode::from_seconds(5), &Command::JumpRelative(-30)).unwrap(),
        Timecode::from_seconds(0)
    );
    assert!(help_text().contains("quit"));
}

#[test]
fn parses_supported_formats() {
    assert_eq!(Timecode::parse("90").unwrap().as_seconds(), 90);
    assert_eq!(Timecode::parse("01:30").unwrap().as_seconds(), 90);
    assert_eq!(Timecode::parse("01:02:03").unwrap().as_seconds(), 3723);
}

#[test]
fn rejects_invalid_formats() {
    assert!(Timecode::parse("").is_err());
    assert!(Timecode::parse("1:99").is_err());
    assert!(Timecode::parse("1:2:99").is_err());
    assert!(Timecode::parse("aa").is_err());
}

#[test]
fn timecode_error_variants() {
    assert_eq!(Timecode::parse("  "), Err(TimecodeParseError::Empty));
    assert_eq!(Timecode::parse("1:2:3:4"), Err(TimecodeParseError::WrongFormat));
    assert_eq!(Timecode::parse("1::2"), Err(TimecodeParseError::EmptyComponent));
    assert_eq!(Timecode::parse("1:a"), Err(TimecodeParseError::InvalidCharacters));
    assert_eq!(Timecode::parse("99999999999999999999999"), Err(TimecodeParseError::InvalidNumber));
    assert_eq!(Timecode::parse("1:60"), Err(TimecodeParseError::SecondsOutOfRange));
    assert_eq!(Timecode::parse("1:60:00"), Err(TimecodeParseError::MinutesOrSecondsOutOfRange));
    assert_eq!(Timecode::parse(" 5 ").unwrap().as_seconds(), 5);
}

#[test]
fn formats_as_hms() {
    assert_eq!(Timecode::from_seconds(0).to_string(), "00:00:00");
    assert_eq!(Timecode::from_seconds(3723).to_string(), "01:02:03");
}

#[test]
fn timecode_round_trips_through_its_text() {
    for seconds in [0u64, 59, 60, 3599, 3600, 86399, 359999, u64::MAX] {
        let text = Timecode::from_seconds(seconds).to_string();
        assert_eq!(Timecode::parse(&text).unwrap().as_seconds(), seconds);
    }
}

#[test]
fn applies_deltas_safely() {
    let start = Timecode::from_seconds(90);
    assert_eq!(start.apply_delta(30).as_seconds(), 120);
    assert_eq!(start.apply_delta(-30).as_seconds(), 60);
    assert_eq!(start.apply_delta(-200).as_seconds(), 0);
    assert_eq!(Timecode::from_seconds(u64::MAX).apply_delta(5).as_seconds(), u64::MAX);
    assert_eq!(start.apply_delta(i64::MIN).as_seconds(), 0);
}

fn video(index: usize, line: &str, default: bool) -> VideoStream {
    VideoStream::new(index, line, default)
}

#[test]
fn builds_default_selection_from_media_info() {
    let media = MediaInfo::new(
        vec![video(0, "Stream #0:0: Video: h264", true)],
        vec![AudioStream::new(1, Some(String::from("aac")), "Stream #0:1: Audio: aac", true)],
        Some(Timecode::from_seconds(60)),
    );

    let selection = media.default_selection().unwrap();
    assert_eq!(selection.video_stream_index(), 0);
    assert_eq!(selection.audio_stream_index(), Some(1));
}

#[test]
fn selection_request_requires_a_video_track() {
    let media = MediaInfo::new(Vec::new(), Vec::new(), None);
    assert_eq!(media.selection_request().unwrap_err(), TrackSelectionError::NoVideoTrack);
}

#[test]
fn media_marks_dts_audio_for_transcode() {
    let selection = StreamSelection::new(
        video(0, "Stream #0:0: Video: h264", true),
        Some(AudioStream::new(1, Some(String::from("dts")), "Stream #0:1: Audio: dts", true)),
    );

    assert_eq!(selection.audio_handling(), Some(&AudioHandling::TranscodeAlac));
}

#[test]
fn source_inspection_reports_seek_state() {
    let inspection = SourceInspection::new(
        SourceMetadata::new("video.mkv", Some(1024)),
        SeekSupport::Disabled { warning: String::from("No ranges") },
    );

    assert_eq!(inspection.metadata().filename(), "video.mkv");
    assert_eq!(inspection.metadata().display_size(), "1.00 KiB");
    assert_eq!(inspection.seek_warning(), Some("No ranges"));
}

#[test]
fn formats_binary_sizes_with_two_decimals() {
    assert_eq!(format_bytes(0), "0 B");
    assert_eq!(format_bytes(1023), "1023 B");
    assert_eq!(format_bytes(1536), "1.50 KiB");
    assert_eq!(format_bytes(1_073_741_824), "1.00 GiB");
    assert_eq!(format_bytes(1_099_511_627_776 * 3), "3.00 TiB");
    assert_eq!(format_bytes(1_377_078_272), "1.28 GiB");
    assert_eq!(SourceMetadata::new("x", None).display_size(), "Unknown");
}

#[test]
fn selection_errors_and_messages() {
    let media = MediaInfo::new(
        vec![video(0, "v0", false), video(1, "v1", true)],
        vec![AudioStream::new(2, None, "a0", false)],
        None,
    );
    let request = media.selection_request().unwrap();
    assert_eq!(request.default_video_index(), 1);
    assert_eq!(request.default_audio_index(), Some(0));
    assert_eq!(
        request.build_selection(5, Some(0)).unwrap_err(),
        TrackSelectionError::VideoIndexOutOfRange { index: 5 }
    );
    assert_eq!(
        request.build_selection(0, Some(3)).unwrap_err(),
        TrackSelectionError::AudioIndexOutOfRange { index: 3 }
    );
    assert_eq!(
        request.build_selection(0, None).unwrap_err(),
        TrackSelectionError::AudioSelectionRequired
    );
    assert_eq!(
        TrackSelectionError::VideoIndexOutOfRange { index: 5 }.message(),
        "video selection index 5 is out of range"
    );
    let selection = request.build_selection(0, Some(0)).unwrap();
    assert_eq!(selection.render_output_file(), "v0\na0");
    assert_eq!(
        selection.audio_notice(),
        None
    );
}

#[test]
fn audio_notice_names_the_codec() {
    let selection = StreamSelection::new(
        video(0, "v", true),
        Some(AudioStream::new(3, Some(String::from("truehd")), "a", true)),
    );
    assert_eq!(
        selection.audio_notice().unwrap(),
        "Audio track #3 uses truehd. quickbridge will convert it to ALAC so QuickTime Player can play it."
    );
    assert_eq!(selection.selected_audio_summary(), Some(String::from("a")));
}

fn stream(index: usize, kind: &str, codec: &str) -> FfprobeStream {
    FfprobeStream {
        index,
        codec_type: Some(kind.to_string()),
        codec_name: Some(codec.to_string()),
        profile: None,
        level: None,
        codec_tag_string: None,
        width: None,
        height: None,
        pix_fmt: None,
        color_range: None,
        color_space: None,
        color_primaries: None,
        color_transfer: None,
        r_frame_rate: None,
        field_order: None,
        sample_fmt: None,
        sample_rate: None,
        channels: None,
        channel_layout: None,
        bit_rate: None,
        disposition: None,
        tags: None,
        side_data_list: Vec::new(),
    }
}

#[test]
fn media_renders_input_and_output_streams_with_ffprobe_style() {
    let mut v = stream(0, "video", "h264");
    v.profile = Some(String::from("High"));
    v.pix_fmt = Some(String::from("yuv420p"));
    v.width = Some(1920);
    v.height = Some(1080);
    v.disposition = Some(FfprobeDisposition { default: Some(1), attached_pic: None });
    let mut a = stream(1, "audio", "dts");
    a.sample_rate = Some(String::from("48000"));
    a.channel_layout = Some(String::from("5.1"));
    a.sample_fmt = Some(String::from("fltp"));
    a.bit_rate = Some(String::from("1536000"));
    a.tags = Some(FfprobeTags { language: Some(String::from("eng")), title: None });
    a.disposition = Some(FfprobeDisposition { default: Some(1), attached_pic: None });
    let s = stream(2, "subtitle", "subrip");
    let media = MediaInfo::from_ffprobe_output(FfprobeOutput {
        streams: vec![a, s, v],
        duration: Some(Timecode::from_seconds(1460)),
    });

    assert!(media
        .render_input_file()
        .contains("Stream #0:1(eng): Audio: dts, 48000 Hz, 5.1, fltp, 1536 kb/s (default)"));
    assert_eq!(media.duration().unwrap().to_string(), "00:24:20");
    let selection = media.default_selection().unwrap();
    assert!(selection
        .render_output_file()
        .contains("Stream #0:0: Video: h264 (High), yuv420p, 1920x1080 (default)"));
    assert_eq!(
        media.render_input_file(),
        "  Video\n    Stream #0:0: Video: h264 (High), yuv420p, 1920x1080 (default)\n\n  Audio\n    Stream #0:1(eng): Audio: dts, 48000 Hz, 5.1, fltp, 1536 kb/s (default)"
    );
}

#[test]
fn parses_video_capabilities_and_excludes_attached_art() {
    let mut art = stream(3, "video", "mjpeg");
    art.disposition = Some(FfprobeDisposition { default: None, attached_pic: Some(1) });
    let mut dv = stream(2, "video", "hevc");
    dv.side_data_list = vec![FfprobeSideData {
        side_data_type: Some(String::from("DOVI configuration record")),
        dv_profile: Some(5),
        dv_level: Some(6),
        bl_present_flag: Some(1),
        el_present_flag: Some(0),
        dv_bl_signal_compatibility_id: Some(0),
    }];
    let a2 = stream(5, "audio", "aac");
    let a1 = stream(4, "audio", "eac3");
    let media = MediaInfo::from_ffprobe_output(FfprobeOutput {
        streams: vec![art, a2, dv, a1],
        duration: None,
    });
    assert_eq!(media.videos().len(), 1);
    let dovi = media.videos()[0].dolby_vision().unwrap();
    assert_eq!((dovi.profile(), dovi.level()), (5, 6));
    assert!(dovi.base_layer_present());
    assert!(!dovi.enhancement_layer_present());
    assert_eq!(media.audios()[0].stream_index, 4);
    assert_eq!(media.audios()[1].stream_index, 5);
    assert_eq!(
        media.videos()[0].apple_packaging(),
        Ok(VideoPackaging::new("dvh1", Some("hevc_metadata"), true))
    );
    assert_eq!(MediaInfo::new(Vec::new(), Vec::new(), None).render_input_file(), "  No supported tracks found");
}

#[test]
fn classifies_apple_video_packaging_by_codec() {
    let mut v = video(0, "v", true);
    assert_eq!(v.apple_packaging(), Ok(VideoPackaging::new("avc1", None, false)));
    v.codec_name = Some(String::from("av1"));
    assert_eq!(v.apple_packaging(), Ok(VideoPackaging::new("av01", None, false)));
    v.codec_name = Some(String::from("vc1"));
    assert_eq!(v.apple_packaging(), Ok(VideoPackaging::new("vc-1", None, false)));
    v.codec_name = Some(String::from("mpeg2video"));
    assert_eq!(
        v.apple_packaging(),
        Err(VideoPackagingError::UnsupportedCodec { stream_index: 0, codec: String::from("mpeg2video") })
    );
    v.codec_name = None;
    assert_eq!(v.apple_packaging(), Err(VideoPackagingError::MissingCodec { stream_index: 0 }));
}

#[test]
fn exposes_audio_metadata_and_atmos() {
    let mut a = stream(1, "audio", "truehd");
    a.profile = Some(String::from("Dolby TrueHD + Dolby Atmos"));
    a.channels = Some(8);
    a.tags = Some(FfprobeTags { language: Some(String::from("eng")), title: Some(String::from("Original theatrical mix")) });
    a.disposition = Some(FfprobeDisposition { default: Some(1), attached_pic: None });
    let media = MediaInfo::from_ffprobe_output(FfprobeOutput { streams: vec![a], duration: None });
    let audio = &media.audios()[0];
    assert_eq!(audio.codec_name.as_deref(), Some("truehd"));
    assert_eq!(audio.language(), Some("eng"));
    assert_eq!(audio.channels(), Some(8));
    assert!(audio.is_atmos());
    assert!(audio.is_default());
    assert_eq!(audio.display_line(), "Stream #0:1(eng): Audio: truehd, 7.1 (default)");
}

#[test]
fn fallback_lines_capitalize_the_kind() {
    let s = stream(2, "subtitle", "subrip");
    assert_eq!(quickbridge::media::display_stream_line(&s), "Stream #0:2: Subtitle: subrip");
    assert_eq!(quickbridge::media::capitalize(""), "");
}

#[test]
fn session_tracks_estimated_position() {
    let started = Moment::from_nanos(1_000);
    let state = SessionState::new(1, Timecode::from_seconds(120), started);
    let estimated = state.estimated_position(started.plus_secs(8));
    assert_eq!(estimated, Timecode::from_seconds(128));
}

#[test]
fn session_stages_and_commits_switches() {
    let started = Moment::from_nanos(1_000);
    let mut state = SessionState::new(1, Timecode::from_seconds(30), started);
    state.stage_switch(2, Timecode::from_seconds(90));
    state.commit_switch(started.plus_secs(2)).unwrap();
    assert_eq!(state.active_session_id(), 2);
    assert_eq!(state.committed_offset(), Timecode::from_seconds(90));
}

#[test]
fn session_aborted_stage_keeps_previous_state() {
    let started = Moment::from_nanos(1_000);
    let mut state = SessionState::new(1, Timecode::from_seconds(30), started);
    state.stage_switch(2, Timecode::from_seconds(90));
    state.abort_stage();
    assert_eq!(state.active_session_id(), 1);
    assert_eq!(state.committed_offset(), Timecode::from_seconds(30));
}

#[test]
fn estimated_position_uses_new_baseline_after_commit() {
    let started = Moment::from_nanos(1_000);
    let mut state = SessionState::new(1, Timecode::from_seconds(30), started);
    state.stage_switch(2, Timecode::from_seconds(90));
    let switched_at = started.plus_secs(2);
    state.commit_switch(switched_at).unwrap();
    let estimated = state.estimated_position(switched_at.plus_secs(7));
    assert_eq!(estimated, Timecode::from_seconds(97));
}

#[test]
fn commit_without_stage_is_refused() {
    let started = Moment::from_nanos(0);
    let mut state = SessionState::new(1, Timecode::from_seconds(30), started);
    assert_eq!(state.commit_switch(started), Err(SessionStateError::MissingStagedSession));
    state.staged_session_id = Some(4);
    assert_eq!(state.commit_switch(started), Err(SessionStateError::MissingStagedOffset));
    assert_eq!(state.staged_session_id, None);
    assert_eq!(state.active_session_id(), 1);
    assert_eq!(
        SessionStateError::MissingStagedOffset.message(),
        "cannot commit a session switch without a staged offset"
    );
    assert_eq!(state.estimated_position(Moment::from_nanos(2_500_000_000)), Timecode::from_seconds(32));
}

fn dovi_side_data(profile: u8, compatibility: u8) -> FfprobeSideData {
    FfprobeSideData {
        side_data_type: Some(String::from("DOVI configuration record")),
        dv_profile: Some(profile),
        dv_level: Some(6),
        bl_present_flag: Some(1),
        el_present_flag: Some(0),
        dv_bl_signal_compatibility_id: Some(compatibility),
    }
}

fn only_video(stream: FfprobeStream) -> VideoStream {
    let media = MediaInfo::from_ffprobe_output(FfprobeOutput { streams: vec![stream], duration: None });
    media.videos().first().unwrap().clone()
}

#[test]
fn classifies_apple_video_packaging() {
    let mut dv_h264 = stream(0, "video", "h264");
    dv_h264.side_data_list = vec![dovi_side_data(9, 1)];
    let mut hevc_bt709 = stream(0, "video", "hevc");
    hevc_bt709.color_primaries = Some(String::from("bt709"));
    hevc_bt709.color_transfer = Some(String::from("bt709"));
    let mut hdr10 = stream(0, "video", "hevc");
    hdr10.color_primaries = Some(String::from("bt2020"));
    hdr10.color_transfer = Some(String::from("smpte2084"));
    let mut dv_p5 = stream(0, "video", "hevc");
    dv_p5.side_data_list = vec![dovi_side_data(5, 0)];
    let mut dv_p8 = stream(0, "video", "hevc");
    dv_p8.side_data_list = vec![dovi_side_data(8, 4)];
    let cases = [
        (stream(0, "video", "h264"), Ok(VideoPackaging::new("avc1", None, false))),
        (dv_h264, Ok(VideoPackaging::new("dva1", None, true))),
        (hevc_bt709, Ok(VideoPackaging::new("hvc1", Some("hevc_metadata"), false))),
        (hdr10, Ok(VideoPackaging::new("hvc1", Some("hevc_metadata"), false))),
        (dv_p5, Ok(VideoPackaging::new("dvh1", Some("hevc_metadata"), true))),
        (dv_p8, Ok(VideoPackaging::new("dvh1", Some("hevc_metadata"), true))),
        (stream(0, "video", "av1"), Ok(VideoPackaging::new("av01", None, false))),
        (stream(0, "video", "vc1"), Ok(VideoPackaging::new("vc-1", None, false))),
    ];
    for (input, expected) in cases {
        assert_eq!(only_video(input).apple_packaging(), expected);
    }

    let rejected = [
        ("hevc", 7u8, 0u8, VideoPackagingError::UnsupportedDolbyVisionProfile { stream_index: 0, profile: 7 }),
        ("h264", 5u8, 0u8, VideoPackagingError::UnsupportedDolbyVisionProfile { stream_index: 0, profile: 5 }),
    ];
    for (codec, profile, compatibility, expected) in rejected {
        let mut input = stream(0, "video", codec);
        input.side_data_list = vec![dovi_side_data(profile, compatibility)];
        assert_eq!(only_video(input).apple_packaging(), Err(expected));
    }
}

#[test]
fn exposes_structured_audio_metadata_without_parsing_display_text() {
    let mut a = stream(1, "audio", "truehd");
    a.profile = Some(String::from("Dolby TrueHD + Dolby Atmos"));
    a.channels = Some(8);
    a.channel_layout = Some(String::from("7.1"));
    a.tags = Some(FfprobeTags { language: Some(String::from("eng")), title: Some(String::from("Original theatrical mix")) });
    a.disposition = Some(FfprobeDisposition { default: Some(1), attached_pic: None });
    let media = MediaInfo::from_ffprobe_output(FfprobeOutput { streams: vec![a], duration: None });

    let audio = &media.audios()[0];
    assert_eq!(audio.codec_name.as_deref(), Some("truehd"));
    assert_eq!(audio.profile(), Some("Dolby TrueHD + Dolby Atmos"));
    assert_eq!(audio.language(), Some("eng"));
    assert_eq!(audio.title(), Some("Original theatrical mix"));
    assert_eq!(audio.channel_layout(), Some("7.1"));
    assert_eq!(audio.channels(), Some(8));
    assert!(audio.is_atmos());
    assert!(audio.is_default());
}

#[test]
fn renders_input_and_output_streams_with_ffprobe_style() {
    let mut v = stream(0, "video", "h264");
    v.profile = Some(String::from("High"));
    v.pix_fmt = Some(String::from("yuv420p"));
    v.width = Some(1920);
    v.height = Some(1080);
    v.disposition = Some(FfprobeDisposition { default: Some(1), attached_pic: None });
    let mut a = stream(1, "audio", "dts");
    a.sample_rate = Some(String::from("48000"));
    a.channel_layout = Some(String::from("5.1"));
    a.sample_fmt = Some(String::from("fltp"));
    a.bit_rate = Some(String::from("1536000"));
    a.tags = Some(FfprobeTags { language: Some(String::from("eng")), title: None });
    a.disposition = Some(FfprobeDisposition { default: Some(1), attached_pic: None });
    let sub = stream(2, "subtitle", "subrip");
    // ffprobe reports the duration as 1460.4 seconds; the front-end keeps whole seconds.
    let media = MediaInfo::from_ffprobe_output(FfprobeOutput {
        streams: vec![v, a, sub],
        duration: Some(Timecode::from_seconds(1460)),
    });

    assert!(media
        .render_input_file()
        .contains("Stream #0:1(eng): Audio: dts, 48000 Hz, 5.1, fltp, 1536 kb/s (default)"));
    assert_eq!(media.duration().unwrap().to_string(), "00:24:20");

    let selection = media.default_selection().unwrap();
    assert!(selection
        .render_output_file()
        .contains("Stream #0:0: Video: h264 (High), yuv420p, 1920x1080 (default)"));
}

#[test]
fn relative_jumps_keep_their_direction_beyond_i64() {
    assert_eq!(
        parse_command("+18446744073709551615").unwrap(),
        Some(Command::JumpRelative(i64::MAX))
    );
    assert_eq!(
        parse_command("-18446744073709551615").unwrap(),
        Some(Command::JumpRelative(i64::MIN))
    );
    assert_eq!(
        parse_command("+9223372036854775807").unwrap(),
        Some(Command::JumpRelative(i64::MAX))
    );
    assert_eq!(
        parse_command("-9223372036854775807").unwrap(),
        Some(Command::JumpRelative(-i64::MAX))
    );
    assert_eq!(
        parse_command("-9223372036854775808").unwrap(),
        Some(Command::JumpRelative(i64::MIN))
    );
}
