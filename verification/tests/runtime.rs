use quickbridge::diagnostics::{render_command, render_request, shell_escape};
use quickbridge::ffmpeg::{
    build_args, playlist_init_file, playlist_media_entries, unavailable_message, FfmpegRunner,
};
use quickbridge::media::{AudioHandling, AudioStream, StreamSelection, VideoStream};
use quickbridge::paths::join_path;
use quickbridge::playback::{
    render_stream_url, PlaybackState, PlayerReading, PlayerState, StreamTelemetry,
};
use quickbridge::server::{
    buffer_ahead, buffered_until, content_type, extinf_duration_text, find_segment,
    is_segment_request, parse_segment_index, parse_segment_map, parse_target_duration,
    playlist_lines, resolve_request_path, PlaybackTracker, PlaylistLine, SegmentObservation,
};
use quickbridge::session::{Moment, SessionManager, SessionPaths, SessionStateError};
use quickbridge::timecode::Timecode;

/// Seconds of an `#EXTINF:` line, rounded up, as the front-end reads them.
fn extinf_seconds(line: &str) -> Option<u64> {
    let text = extinf_duration_text(line)?;
    let value: f64 = text.trim().parse().ok()?;
    if value.is_finite() && value >= 0.0 {
        Some(value.ceil() as u64)
    } else {
        None
    }
}

fn to_playlist_lines(playlist: &str) -> Vec<PlaylistLine> {
    playlist_lines(playlist)
        .into_iter()
        .map(|line| match extinf_seconds(&line) {
            Some(seconds) => PlaylistLine::Extinf(seconds),
            None => PlaylistLine::Text(line),
        })
        .collect()
}

#[test]
fn resolves_supported_asset_paths() {
    let root = "/tmp/quickbridge/session-0001";
    assert_eq!(
        resolve_request_path(root, "/stream.m3u8").unwrap(),
        join_path(root, "stream.m3u8")
    );
    assert_eq!(
        resolve_request_path(root, "/segment_00001.m4s").unwrap(),
        join_path(root, "segment_00001.m4s")
    );
    assert_eq!(
        resolve_request_path(root, "/stream.m3u8").unwrap(),
        "/tmp/quickbridge/session-0001/stream.m3u8"
    );
}

#[test]
fn rejects_unsafe_or_unknown_paths() {
    let root = "/tmp/quickbridge/session-0001";
    assert!(resolve_request_path(root, "/../../etc/passwd").is_none());
    assert!(resolve_request_path(root, "/nested/segment.m4s").is_none());
    assert!(resolve_request_path(root, "/segment.exe").is_none());
}

#[test]
fn parses_extinf_segment_map() {
    let lines = to_playlist_lines(
        "#EXTM3U\n#EXT-X-TARGETDURATION:2\n#EXTINF:2.0,\nsegment_00000.m4s\n#EXTINF:1.2,\nsegment_00001.m4s\n",
    );
    let target = parse_target_duration("#EXTM3U\n#EXT-X-TARGETDURATION:2\n#EXTINF:2.0,\nsegment_00000.m4s\n");
    let segments = parse_segment_map(&lines, target);
    assert_eq!(
        find_segment(&segments, "segment_00000.m4s").unwrap().start,
        Timecode::from_seconds(0)
    );
    assert_eq!(
        find_segment(&segments, "segment_00001.m4s").unwrap().start,
        Timecode::from_seconds(2)
    );
    assert_eq!(
        parse_target_duration("#EXTM3U\n#EXT-X-TARGETDURATION:2\n").unwrap(),
        2
    );
    assert_eq!(extinf_seconds("#EXTINF:1.2,").unwrap(), 2);
    assert_eq!(parse_segment_index("segment_0001_00042.m4s").unwrap(), 42);
}

#[test]
fn segment_map_without_target_duration_accumulates() {
    let lines = to_playlist_lines("#EXTINF:2,\na.m4s\n#EXTINF:3,\nb.m4s\nc.m4s\n");
    let segments = parse_segment_map(&lines, None);
    assert_eq!(segments.len(), 3);
    assert_eq!(
        find_segment(&segments, "b.m4s").unwrap(),
        SegmentObservation { start: Timecode::from_seconds(2), duration_seconds: 3 }
    );
    assert_eq!(
        find_segment(&segments, "c.m4s").unwrap(),
        SegmentObservation { start: Timecode::from_seconds(5), duration_seconds: 0 }
    );
    assert!(find_segment(&segments, "missing.m4s").is_none());
}

#[test]
fn buffered_until_sums_listed_durations() {
    let lines = to_playlist_lines("#EXTM3U\n#EXTINF:2.0,\ns0.m4s\n#EXTINF:1.5,\ns1.m4s\n");
    assert_eq!(buffered_until(&lines), Timecode::from_seconds(4));
    assert_eq!(
        buffer_ahead(Timecode::from_seconds(4), Timecode::from_seconds(1)),
        Timecode::from_seconds(3)
    );
    assert_eq!(
        buffer_ahead(Timecode::from_seconds(1), Timecode::from_seconds(4)),
        Timecode::from_seconds(0)
    );
}

#[test]
fn segment_requests_and_content_types() {
    assert!(is_segment_request("/segment_00001.m4s"));
    assert!(!is_segment_request("/stream.m3u8"));
    assert_eq!(content_type("stream.m3u8"), "application/vnd.apple.mpegurl");
    assert_eq!(content_type("segment_00001.m4s"), "video/iso.segment");
    assert!(parse_segment_index("segment_x.m4s").is_none());
    assert!(parse_target_duration("#EXTM3U\n").is_none());
}

#[test]
fn tracker_remembers_the_last_request() {
    let mut tracker = PlaybackTracker::new();
    assert!(tracker.last_segment.is_none());
    let seen = SegmentObservation { start: Timecode::from_seconds(4), duration_seconds: 2 };
    tracker.observe(seen, Moment::from_nanos(7));
    assert_eq!(tracker.last_segment, Some(seen));
    assert_eq!(tracker.observed_at, Some(Moment::from_nanos(7)));
    tracker.reset();
    assert!(tracker.last_segment.is_none());
    assert!(tracker.observed_at.is_none());
}

fn session_one() -> SessionPaths {
    SessionPaths {
        id: 1,
        dir: String::from("/tmp/quickbridge/session-0001"),
        playlist_path: String::from("/tmp/quickbridge/session-0001/stream.m3u8"),
        segment_pattern: String::from("/tmp/quickbridge/session-0001/segment_0001_%05d.m4s"),
        init_filename: String::from("init_0001.mp4"),
    }
}

fn has_pair(args: &[String], a: &str, b: &str) -> bool {
    args.windows(2).any(|w| w[0] == a && w[1] == b)
}

#[test]
fn builds_args_with_selected_streams_and_transcode() {
    let session = session_one();
    let selection = StreamSelection::new(
        VideoStream::new(2, "Stream #0:2: Video: h264", true),
        Some(AudioStream::new(5, Some(String::from("dts")), "Stream #0:5: Audio: dts", true)),
    );
    let args = build_args(
        "https://example.com/video.mkv",
        Timecode::from_seconds(30),
        &session,
        &selection,
    );
    assert!(has_pair(&args, "-map", "0:2"));
    assert!(has_pair(&args, "-map", "0:5"));
    assert!(has_pair(&args, "-c:v", "copy"));
    assert!(has_pair(&args, "-c:a", "alac"));
    assert!(args.iter().any(|arg| arg == "-copyinkf"));
    assert!(args.iter().any(|arg| arg == "-re"));
    assert!(has_pair(&args, "-hls_fmp4_init_filename", "init_0001.mp4"));
    assert!(has_pair(&args, "-hls_time", "1"));
    assert!(has_pair(&args, "-hls_list_size", "6"));
    assert!(has_pair(
        &args,
        "-hls_flags",
        "delete_segments+omit_endlist+split_by_time+temp_file"
    ));
    assert_eq!(selection.audio_handling(), Some(&AudioHandling::TranscodeAlac));
    assert_eq!(args.last().unwrap(), "/tmp/quickbridge/session-0001/stream.m3u8");
}

#[test]
fn builds_args_that_copy_compatible_audio() {
    let session = session_one();
    let selection = StreamSelection::new(
        VideoStream::new(0, "Stream #0:0: Video: h264", true),
        Some(AudioStream::new(1, Some(String::from("aac")), "Stream #0:1: Audio: aac", true)),
    );
    let args = build_args("https://example.com/v.mkv", Timecode::zero(), &session, &selection);
    assert!(has_pair(&args, "-c:a", "copy"));
    assert!(!has_pair(&args, "-c:a", "alac"));
}

#[test]
fn ffmpeg_runner_renders_its_command() {
    let runner = FfmpegRunner::new(None, false);
    assert_eq!(runner.binary, "ffmpeg");
    let custom = FfmpegRunner::new(Some(String::from("/opt/ffmpeg")), true);
    assert_eq!(custom.binary, "/opt/ffmpeg");
    assert!(unavailable_message("ffmpeg", "ffmpeg").contains("Install ffmpeg"));
}

#[test]
fn parses_playlist_asset_references() {
    let playlist =
        "#EXTM3U\n#EXT-X-MAP:URI=\"init_0001.mp4\"\n#EXTINF:1.0,\nsegment_0001_00001.m4s\n";
    assert_eq!(playlist_init_file(playlist).unwrap(), "init_0001.mp4");
    assert_eq!(
        playlist_media_entries(playlist),
        vec![String::from("segment_0001_00001.m4s")]
    );
    assert!(playlist_init_file("#EXTM3U\n").is_none());
}

#[test]
fn shell_escape_quotes_only_when_needed() {
    assert_eq!(shell_escape("plain-arg_1.0"), "plain-arg_1.0");
    assert_eq!(shell_escape("two words"), "'two words'");
    assert_eq!(shell_escape(""), "");
    assert_eq!(shell_escape("it's"), "'it'\\''s'");
    assert_eq!(
        render_command("ffprobe", &vec![String::from("-v"), String::from("a b")]),
        "ffprobe -v 'a b'"
    );
    assert_eq!(
        render_request("GET", "https://example.com", Some("Range: bytes=0-0")),
        "Request: GET https://example.com (Range: bytes=0-0)"
    );
}

#[test]
fn sessions_are_numbered_and_laid_out() {
    let mut manager = SessionManager::with_root("/tmp/quickbridge", false);
    let first = manager.next_session();
    assert_eq!(first.id, 1);
    assert_eq!(first.dir, "/tmp/quickbridge/session-0001");
    assert_eq!(first.playlist_path, "/tmp/quickbridge/session-0001/stream.m3u8");
    assert_eq!(
        first.segment_pattern,
        "/tmp/quickbridge/session-0001/segment_0001_%05d.m4s"
    );
    assert_eq!(first.init_filename, "init_0001.mp4");
    assert_eq!(first.segment_filename(42), "segment_0001_00042.m4s");
    let second = manager.next_session();
    assert_eq!(second.dir, "/tmp/quickbridge/session-0002");
    assert!(!manager.keeps_files());
}

fn started(simulated: bool) -> (PlaybackState, SessionManager) {
    let mut manager = SessionManager::with_root("/tmp/quickbridge", false);
    let session = manager.next_session();
    let state = PlaybackState::start(
        simulated,
        1234,
        session,
        Timecode::from_seconds(30),
        Moment::from_nanos(0),
    );
    (state, manager)
}

#[test]
fn startup_points_the_player_at_the_first_session() {
    let (state, _) = started(true);
    assert_eq!(state.stream_url, "http://127.0.0.1:1234/stream.m3u8?session=1");
    assert_eq!(state.served_dir.as_deref(), Some("/tmp/quickbridge/session-0001"));
    assert_eq!(state.last_player_state, PlayerState::Playing);
    let (now_time, player) = state.simulated_reading(Moment::from_nanos(5_000_000_000));
    assert_eq!(now_time, Timecode::from_seconds(35));
    assert_eq!(player, PlayerState::Playing);
    assert_eq!(render_stream_url(8080, 12), "http://127.0.0.1:8080/stream.m3u8?session=12");
}

#[test]
fn staging_failure_rolls_back_to_the_active_session() {
    let (mut state, mut manager) = started(false);
    let before = state.clone();
    let pending = state.begin_jump(manager.next_session(), Timecode::from_seconds(120));
    assert_eq!(pending.stream_url, "http://127.0.0.1:1234/stream.m3u8?session=2");
    let dropped = state.staging_failed(pending);
    assert_eq!(dropped.dir, "/tmp/quickbridge/session-0002");
    assert_eq!(state, before);
}

#[test]
fn reload_failure_restores_the_previous_session() {
    let (mut state, mut manager) = started(false);
    let before = state.clone();
    let pending = state.begin_jump(manager.next_session(), Timecode::from_seconds(120));
    state.staging_ready(&pending);
    assert_eq!(state.served_dir.as_deref(), Some("/tmp/quickbridge/session-0002"));
    let dropped = state.reload_failed(pending);
    assert_eq!(dropped.id, 2);
    assert_eq!(state, before);
}

#[test]
fn successful_jump_switches_session_and_url() {
    let (mut state, mut manager) = started(false);
    let pending = state.begin_jump(manager.next_session(), Timecode::from_seconds(90));
    state.staging_ready(&pending);
    let previous = state.reload_succeeded(pending, Moment::from_nanos(10_000_000_000)).unwrap();
    assert_eq!(previous.id, 1);
    assert_eq!(state.active_session.id, 2);
    assert_eq!(state.stream_url, "http://127.0.0.1:1234/stream.m3u8?session=2");
    assert_eq!(state.session_state.active_session_id(), 2);
    assert_eq!(state.last_known_time, Timecode::from_seconds(90));
    assert_eq!(
        state.session_state.estimated_position(Moment::from_nanos(17_000_000_000)),
        Timecode::from_seconds(97)
    );
}

#[test]
fn reload_without_a_staged_switch_is_refused() {
    let (mut state, mut manager) = started(false);
    let pending = state.begin_jump(manager.next_session(), Timecode::from_seconds(90));
    state.session_state.abort_stage();
    assert_eq!(
        state.reload_succeeded(pending, Moment::from_nanos(1)),
        Err(SessionStateError::MissingStagedSession)
    );
}

#[test]
fn live_readings_are_offset_by_the_session_start() {
    let (mut state, _) = started(false);
    let (time, player) = state.live_reading(PlayerReading::Snapshot {
        position: Timecode::from_seconds(12),
        playing: false,
    });
    assert_eq!(time, Timecode::from_seconds(42));
    assert_eq!(player, PlayerState::Paused);
    let (time, player) = state.live_reading(PlayerReading::AppClosed);
    assert_eq!(time, Timecode::from_seconds(30));
    assert_eq!(player, PlayerState::AppClosed);
    let snapshot = state.record_snapshot(
        Timecode::from_seconds(42),
        PlayerState::Paused,
        StreamTelemetry::new(1, 2, Timecode::from_seconds(6)),
    );
    assert_eq!(snapshot.session_id, 1);
    assert_eq!(snapshot.start_time, Timecode::from_seconds(30));
    assert_eq!(state.last_known_time, Timecode::from_seconds(42));
    let (time, player) = state.live_reading(PlayerReading::NoDocument);
    assert_eq!(time, Timecode::from_seconds(42));
    assert_eq!(player, PlayerState::WindowClosed);
}

#[test]
fn segment_file_names_read_back_as_their_index() {
    let paths = session_one();
    for index in [0u64, 7, 42, 99_999, 100_000, u64::MAX] {
        assert_eq!(parse_segment_index(&paths.segment_filename(index)), Some(index));
    }
    let mut wide = session_one();
    wide.id = 123_456;
    assert_eq!(parse_segment_index(&wide.segment_filename(3)), Some(3));
}
