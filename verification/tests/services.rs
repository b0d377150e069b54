use quickbridge::media::{SeekSupport, SourceInspection, SourceMetadata, StreamSelection, VideoStream, AudioStream};
use quickbridge::playback::PlayerState;
use quickbridge::prepare::{
    check_source_url, command_step_started, render_probe_detail_lines, server_started,
    source_url_started, time_jumps_outcome, time_jumps_started, tracks_started,
};
use quickbridge::probe::ProbeRunner;
use quickbridge::progress::{JumpStep, LaunchStep, PrepareStep, ProgressEvent};
use quickbridge::scripted::{
    jump_step_label, live_prompt_state_key, live_status_line, live_warning_line, script_step,
    selected_media_lines, PlainJumpReporter, PlainStageReporter, ScriptError, ScriptStep,
};
use quickbridge::server::{SegmentEntry, SegmentObservation};
use quickbridge::serving::{
    cache_control, plan_asset, requested_segment_name, AssetPlan, FileTime, PlaylistVersion,
    ServedSession,
};
use quickbridge::session::Moment;
use quickbridge::simulation::SimulationScenario;
use quickbridge::telemetry::{storage_total, TelemetryTracker};
use quickbridge::terminal::RenderMode;
use quickbridge::timecode::Timecode;
use quickbridge::ui::PrepareFailure;

fn files(entries: &[(&str, u64)]) -> Vec<(String, u64)> {
    entries.iter().map(|(p, s)| (p.to_string(), *s)).collect()
}

#[test]
fn telemetry_counts_growth_and_replacement() {
    let mut tracker = TelemetryTracker::new();
    tracker.record_scan(&files(&[("a", 100), ("b", 50)]));
    assert_eq!(tracker.cumulative_bytes_written, 150);
    assert_eq!(tracker.rate(Moment::from_nanos(1_000_000_000)), 0);
    tracker.record_scan(&files(&[("a", 160), ("b", 20), ("c", 10)]));
    assert_eq!(tracker.cumulative_bytes_written, 150 + 60 + 20 + 10);
    assert_eq!(tracker.rate(Moment::from_nanos(3_000_000_000)), 45);
    assert_eq!(tracker.rate(Moment::from_nanos(3_000_000_000)), 0);
    tracker.record_scan(&files(&[("a", 161)]));
    assert_eq!(tracker.rate(Moment::from_nanos(3_000_000_002)), 500_000_000);
    assert_eq!(storage_total(&files(&[("a", 5), ("b", u64::MAX)])), u64::MAX);
    assert_eq!(storage_total(&files(&[("a", 5), ("b", 7)])), 12);
}

#[test]
fn rates_round_half_away_from_zero() {
    let mut tracker = TelemetryTracker::new();
    tracker.rate(Moment::from_nanos(0));
    tracker.record_scan(&files(&[("a", 3)]));
    assert_eq!(tracker.rate(Moment::from_nanos(2_000_000_000)), 2);
    tracker.record_scan(&files(&[("a", 4)]));
    assert_eq!(tracker.rate(Moment::from_nanos(4_000_000_000)), 1);
}

fn entry(name: &str, start: u64) -> SegmentEntry {
    SegmentEntry {
        name: name.to_string(),
        observation: SegmentObservation { start: Timecode::from_seconds(start), duration_seconds: 2 },
    }
}

#[test]
fn served_session_caches_one_playlist_version() {
    let mut served = ServedSession::new();
    served.set_active_dir(String::from("/tmp/s1"));
    let v1 = PlaylistVersion { modified: Some(FileTime { secs: 1, nanos: 0 }), len: 40 };
    let v2 = PlaylistVersion { modified: Some(FileTime { secs: 2, nanos: 0 }), len: 80 };
    assert_eq!(served.cached_segment(v1, "s1.m4s"), None);
    let found = served.store_playlist(v1, vec![entry("s0.m4s", 0), entry("s1.m4s", 2)], "s1.m4s");
    assert_eq!(found.unwrap().start, Timecode::from_seconds(2));
    assert_eq!(served.cached_segment(v1, "s1.m4s"), Some(found));
    assert_eq!(served.cached_segment(v1, "s9.m4s"), Some(None));
    assert_eq!(served.cached_segment(v2, "s1.m4s"), None);
    served.observe(found.unwrap(), Moment::from_nanos(9));
    assert_eq!(served.tracker.last_segment, found);
    served.set_active_dir(String::from("/tmp/s2"));
    assert!(served.cache.is_none());
    assert!(served.tracker.last_segment.is_none());
    served.clear();
    assert!(served.dir.is_none());
}

#[test]
fn asset_requests_are_planned() {
    assert_eq!(plan_asset(None, "/stream.m3u8"), AssetPlan::NotReady);
    assert_eq!(plan_asset(Some("/tmp/s"), "/../x.m4s"), AssetPlan::NotFound);
    let playlist = plan_asset(Some("/tmp/s"), "/stream.m3u8");
    assert_eq!(playlist, AssetPlan::Playlist(String::from("/tmp/s/stream.m3u8")));
    assert_eq!(cache_control(&playlist), Some("no-cache"));
    let segment = plan_asset(Some("/tmp/s"), "/segment_00001.m4s");
    assert_eq!(
        segment,
        AssetPlan::Media { path: String::from("/tmp/s/segment_00001.m4s"), segment: true }
    );
    assert_eq!(cache_control(&segment), Some("public, max-age=31536000, immutable"));
    assert_eq!(
        plan_asset(Some("/tmp/s"), "/init_0001.mp4"),
        AssetPlan::Media { path: String::from("/tmp/s/init_0001.mp4"), segment: false }
    );
    assert_eq!(cache_control(&AssetPlan::NotFound), None);
    assert_eq!(requested_segment_name("/a.m4s").as_deref(), Some("a.m4s"));
    assert_eq!(requested_segment_name("a.m4s"), None);
}

fn details(event: &ProgressEvent<PrepareStep>) -> Vec<String> {
    match event {
        ProgressEvent::Started { details, .. } | ProgressEvent::Warned { details, .. } => details.clone(),
        ProgressEvent::Finished { .. } => Vec::new(),
    }
}

#[test]
fn preparation_events_carry_their_details() {
    let started = source_url_started("https://example.com/v.mkv");
    assert_eq!(started.step(), PrepareStep::SourceUrl);
    assert_eq!(
        details(&started),
        vec![
            String::from("Input: https://example.com/v.mkv"),
            String::from("Rule: a valid source URL is required"),
        ]
    );
    assert_eq!(check_source_url("https://example.com/v.mkv").unwrap(), "https://example.com/v.mkv");
    assert_eq!(check_source_url("https://EXAMPLE.com").unwrap(), "https://example.com/");
    assert_eq!(check_source_url("not a url"), Err(PrepareFailure::InvalidSourceUrl));
    assert_eq!(
        details(&time_jumps_started("https://example.com/")),
        vec![
            String::from("Request: HEAD https://example.com/"),
            String::from("Request: GET https://example.com/ (Range: bytes=0-0)"),
        ]
    );
    let enabled = SourceInspection::new(SourceMetadata::new("v", None), SeekSupport::Enabled);
    assert_eq!(
        time_jumps_outcome(&enabled),
        ProgressEvent::Finished { step: PrepareStep::TimeJumps }
    );
    let disabled = SourceInspection::new(
        SourceMetadata::new("v", None),
        SeekSupport::Disabled { warning: String::from("No ranges") },
    );
    assert_eq!(details(&time_jumps_outcome(&disabled)), vec![String::from("No ranges")]);
    let probe = ProbeRunner::new(None);
    assert_eq!(
        render_probe_detail_lines(None, &probe, "u"),
        vec![String::from("Command: ffprobe -v error -show_streams -show_format -of json u")]
    );
    assert_eq!(
        details(&tracks_started(Some(SimulationScenario::HappyPath), &probe, "u")),
        vec![String::from("Command: simulate ffprobe --json u")]
    );
    match server_started(8080) {
        ProgressEvent::Started { step, details } => {
            assert_eq!(step, LaunchStep::LocalStreamServer);
            assert_eq!(details, vec![String::from("Bind: http://127.0.0.1:8080")]);
        }
        _ => unreachable!(),
    }
    match command_step_started(LaunchStep::Player, "osascript -e x") {
        ProgressEvent::Started { details, .. } => {
            assert_eq!(details, vec![String::from("Command: osascript -e x")])
        }
        _ => unreachable!(),
    }
}

#[test]
fn plain_reporters_print_each_step_once() {
    let mut reporter = PlainStageReporter::new("Inspect source", true);
    assert_eq!(
        reporter.prepare_lines(ProgressEvent::Started {
            step: PrepareStep::SourceUrl,
            details: Vec::new()
        }),
        vec![String::from("Inspect source")]
    );
    assert_eq!(
        reporter.prepare_lines(ProgressEvent::Finished { step: PrepareStep::SourceUrl }),
        vec![String::from("✓ Checked source URL")]
    );
    assert_eq!(
        reporter.prepare_lines(ProgressEvent::Warned {
            step: PrepareStep::TimeJumps,
            details: vec![String::from("No ranges")]
        }),
        vec![String::from("! Time jumps aren't available"), String::from("      No ranges")]
    );
    let mut launch = PlainStageReporter::new("Start session", false);
    assert_eq!(
        launch.launch_lines(ProgressEvent::Finished { step: LaunchStep::Relay }),
        vec![String::from("Start session"), String::from("✓ Started ffmpeg relay")]
    );
    let mut jumps = PlainJumpReporter::new();
    let start = ProgressEvent::Started { step: JumpStep::PrepareNextStream, details: Vec::new() };
    assert_eq!(jumps.jump_lines(start.clone()), vec![String::from("• Getting ready to jump")]);
    assert!(jumps.jump_lines(start).is_empty());
    assert!(jumps.jump_lines(ProgressEvent::Finished { step: JumpStep::PrepareNextStream }).is_empty());
    assert_eq!(jump_step_label(JumpStep::CleanupPreviousSession), "Cleaning up the last session");
}

#[test]
fn scripted_commands_are_decided() {
    let now = Timecode::from_seconds(10);
    assert_eq!(
        script_step("+00:10", &SeekSupport::Enabled, now),
        Ok(ScriptStep::Jump(Timecode::from_seconds(20)))
    );
    assert_eq!(
        script_step("00:00:10", &SeekSupport::Disabled { warning: String::from("No") }, now),
        Ok(ScriptStep::Unavailable(String::from(
            "Jumping to a different time isn't available: No"
        )))
    );
    assert_eq!(script_step("quit", &SeekSupport::Enabled, now), Ok(ScriptStep::Quit));
    assert_eq!(script_step("status", &SeekSupport::Enabled, now), Ok(ScriptStep::Status));
    assert_eq!(script_step("   ", &SeekSupport::Enabled, now), Err(ScriptError::Empty));
    assert!(matches!(script_step("1:2:3:4", &SeekSupport::Enabled, now), Err(ScriptError::Parse(_))));
    match script_step("help", &SeekSupport::Enabled, now) {
        Ok(ScriptStep::Help(text)) => assert!(text.starts_with("Enter a time or command")),
        other => panic!("unexpected {other:?}"),
    }
}

#[test]
fn plain_front_end_lines() {
    let selection = StreamSelection::new(
        VideoStream::new(0, "v", true),
        Some(AudioStream::new(1, Some(String::from("aac")), "Stream #0:1: Audio: aac", true)),
    );
    assert_eq!(
        selected_media_lines("video.mkv", &selection, "1.00 KiB"),
        vec![
            String::from("Selected media"),
            String::from("video.mkv"),
            String::from("Stream #0:1: Audio: aac"),
            String::from("1.00 KiB"),
        ]
    );
    assert_eq!(
        live_status_line(Timecode::from_seconds(5), None, PlayerState::Paused),
        "00:00:05 (Paused)"
    );
    assert_eq!(
        live_warning_line(PlayerState::AppClosed, RenderMode::Plain).as_deref(),
        Some("[WARN] QuickTime Player is closed. Type `reopen` to open the stream again.")
    );
    assert!(live_warning_line(PlayerState::Playing, RenderMode::Plain).is_none());
    assert_eq!(live_prompt_state_key(PlayerState::WindowClosed), "window-closed");
}
