use quickbridge::interaction::{
    after_prepare, begin_running_submit, finish_jump_attempt, finish_reopen, finish_status,
    launcher_action, needs_track_menu, paste_confirms, recovery_action, running_key_action,
    startup_context, track_key_action, Key, KeyPress, LauncherAction, PrepareNext, PrepareOutcome,
    RecoveryAction, RunningKeyAction, RunningStep, TrackKeyAction,
};
use quickbridge::labels::{
    activity_scroll, card_scroll, command_input_line, compact_audio_label, compact_video_label,
    health_lines, jump_label, launch_label, launcher_editor_line, live_warning_line,
    player_card_lines, prepare_label, track_cards_height, truncate_label, visual_line_height,
    workspace_footer,
};
use quickbridge::media::{
    AudioStream, DolbyVisionConfig, MediaInfo, SeekSupport, SourceInspection, SourceMetadata,
    StreamSelection, VideoStream,
};
use quickbridge::playback::{
    PlaybackMode, PlaybackSnapshot, PlaybackState, PlayerReading, PlayerState, RunOutcome,
    StreamTelemetry,
};
use quickbridge::progress::{JumpStep, LaunchStep, PrepareStep};
use quickbridge::session::{Moment, SessionManager};
use quickbridge::timecode::Timecode;
use quickbridge::ui::{
    AppState, PrepareFailure, ProgressStatus, RunningState, Screen, SelectionFocus, StartupContext,
    TrackSelectionState,
};

fn key(key: Key) -> KeyPress {
    KeyPress { key, control: false, plain: true }
}

fn ctrl(c: char) -> KeyPress {
    KeyPress { key: Key::Char(c), control: true, plain: false }
}

fn running_with(seek: SeekSupport) -> AppState {
    let running = RunningState::new(
        String::from("https://example.com/video.mkv"),
        PlaybackMode::Live,
        StreamSelection::new(VideoStream::new(0, "video", true), None),
        SourceInspection::new(SourceMetadata::new("video.mkv", Some(42)), seek),
        MediaInfo::new(Vec::new(), Vec::new(), Some(Timecode::from_seconds(120))),
        PlaybackSnapshot::new(
            7,
            String::from("http://127.0.0.1:1234/stream.m3u8?session=7"),
            Timecode::zero(),
            Timecode::from_seconds(12),
            PlayerState::Playing,
            StreamTelemetry::new(1, 2, Timecode::from_seconds(6)),
        ),
        StartupContext { requested_start_at: Timecode::zero(), actual_start_at: Timecode::zero() },
    );
    let mut state = AppState::new(None);
    state.screen = Screen::Running(Box::new(running));
    state
}

fn running(state: &AppState) -> &RunningState {
    match &state.screen {
        Screen::Running(r) => r,
        _ => unreachable!(),
    }
}

#[test]
fn keys_map_to_launcher_actions() {
    assert_eq!(launcher_action(ctrl('c')), LauncherAction::Interrupt);
    assert_eq!(launcher_action(key(Key::Backspace)), LauncherAction::DeleteBefore);
    assert_eq!(launcher_action(key(Key::Left)), LauncherAction::MoveCursor(false));
    assert_eq!(launcher_action(key(Key::End)), LauncherAction::MoveToEdge(true));
    assert_eq!(launcher_action(key(Key::F1)), LauncherAction::ToggleHelp);
    assert_eq!(launcher_action(key(Key::Enter)), LauncherAction::Submit);
    assert_eq!(launcher_action(key(Key::Char('x'))), LauncherAction::Type('x'));
    assert_eq!(launcher_action(ctrl('x')), LauncherAction::Ignore);
    assert_eq!(launcher_action(key(Key::Up)), LauncherAction::Ignore);
}

#[test]
fn recovery_keys_depend_on_editing() {
    assert_eq!(recovery_action(key(Key::Char('r')), false), RecoveryAction::Retry);
    assert_eq!(recovery_action(key(Key::Char('q')), false), RecoveryAction::Quit);
    assert_eq!(recovery_action(key(Key::Char('e')), false), RecoveryAction::StartEditing);
    assert_eq!(recovery_action(key(Key::Char('r')), true), RecoveryAction::Type('r'));
    assert_eq!(recovery_action(key(Key::Enter), true), RecoveryAction::SubmitEdit);
    assert_eq!(recovery_action(key(Key::Esc), true), RecoveryAction::CancelEdit);
    assert_eq!(recovery_action(key(Key::Enter), false), RecoveryAction::Ignore);
    assert_eq!(recovery_action(ctrl('c'), true), RecoveryAction::Interrupt);
}

#[test]
fn track_and_running_keys() {
    assert_eq!(track_key_action(key(Key::Up)), TrackKeyAction::Move(-1));
    assert_eq!(track_key_action(key(Key::BackTab)), TrackKeyAction::SwitchFocus(false));
    assert_eq!(track_key_action(key(Key::Tab)), TrackKeyAction::SwitchFocus(true));
    assert_eq!(track_key_action(key(Key::Enter)), TrackKeyAction::Confirm);
    assert_eq!(running_key_action(key(Key::PageUp)), RunningKeyAction::ScrollActivity(true));
    assert_eq!(running_key_action(key(Key::Esc)), RunningKeyAction::CloseOverlay);
    assert_eq!(running_key_action(ctrl('c')), RunningKeyAction::Interrupt);
    assert_eq!(running_key_action(key(Key::Char('7'))), RunningKeyAction::Type('7'));
    assert!(paste_confirms("a\nb"));
    assert!(!paste_confirms("https://x"));
}

#[test]
fn startup_falls_back_to_the_beginning_without_ranges() {
    let seekable = startup_context(Some(Timecode::from_seconds(90)), true);
    assert_eq!(seekable.actual_start_at, Timecode::from_seconds(90));
    let fixed = startup_context(Some(Timecode::from_seconds(90)), false);
    assert_eq!(fixed.requested_start_at, Timecode::from_seconds(90));
    assert_eq!(fixed.actual_start_at, Timecode::zero());
    assert_eq!(startup_context(None, true).requested_start_at, Timecode::zero());
}

#[test]
fn one_video_and_one_audio_skip_the_menu() {
    let single = MediaInfo::new(
        vec![VideoStream::new(0, "v", true)],
        vec![AudioStream::new(1, Some(String::from("aac")), "a", true)],
        None,
    )
    .selection_request()
    .unwrap();
    assert!(!needs_track_menu(&single));
    let double = MediaInfo::new(
        vec![VideoStream::new(0, "v", true)],
        vec![
            AudioStream::new(1, Some(String::from("aac")), "a", true),
            AudioStream::new(2, Some(String::from("aac")), "b", false),
        ],
        None,
    )
    .selection_request()
    .unwrap();
    assert!(needs_track_menu(&double));
}

#[test]
fn failed_preparations_show_the_error_screen() {
    let url = String::from("bad");
    let mut state = AppState::new(None);
    let next = after_prepare(
        &mut state,
        &url,
        PrepareOutcome::Failed(PrepareFailure::InvalidSourceUrl, String::from("invalid")),
    );
    assert_eq!(next, PrepareNext::Recover);
    match &state.screen {
        Screen::SourceError(e) => {
            assert_eq!(e.summary, "Enter a full URL that starts with http:// or https://.");
            assert_eq!(e.diagnostic, "invalid");
        }
        _ => unreachable!(),
    }
    let mut other = AppState::new(None);
    assert_eq!(
        after_prepare(&mut other, &url, PrepareOutcome::Failed(PrepareFailure::Other, String::new())),
        PrepareNext::Fatal
    );
    assert_eq!(
        after_prepare(&mut other, &url, PrepareOutcome::Interrupted),
        PrepareNext::Stop(RunOutcome::Interrupted)
    );
    assert_eq!(after_prepare(&mut other, &url, PrepareOutcome::Ready), PrepareNext::ChooseTracks);
}

#[test]
fn submitting_a_jump_starts_the_jump_steps() {
    let mut state = running_with(SeekSupport::Enabled);
    state.append_input("+30");
    assert_eq!(begin_running_submit(&mut state), RunningStep::Jump(Timecode::from_seconds(42)));
    let r = running(&state);
    assert!(r.input.is_empty());
    assert!(r.jump_progress.is_some());
    assert_eq!(r.history.last().unwrap().text, "+30");

    finish_jump_attempt(
        &mut state,
        Timecode::from_seconds(42),
        Err(String::from("relay failed")),
    );
    let r = running(&state);
    assert!(r.jump_progress.is_none());
    assert_eq!(
        r.history.last().unwrap().text,
        "Unable to jump to that time: relay failed. Try another time."
    );
}

#[test]
fn jumps_report_their_target_when_they_succeed() {
    let mut state = running_with(SeekSupport::Enabled);
    state.append_input("01:30");
    assert_eq!(begin_running_submit(&mut state), RunningStep::Jump(Timecode::from_seconds(90)));
    let mut snapshot = running(&state).snapshot.clone();
    snapshot.current_time = Timecode::from_seconds(90);
    finish_jump_attempt(&mut state, Timecode::from_seconds(90), Ok(snapshot));
    let r = running(&state);
    assert_eq!(r.snapshot.current_time, Timecode::from_seconds(90));
    assert_eq!(r.history.last().unwrap().text, "Jumped to 00:01:30.");
}

#[test]
fn jumps_without_ranges_are_refused() {
    let mut state = running_with(SeekSupport::Disabled { warning: String::from("No ranges") });
    state.append_input("90");
    assert_eq!(begin_running_submit(&mut state), RunningStep::Continue);
    let r = running(&state);
    assert_eq!(
        r.history.last().unwrap().text,
        "Jumping to a different time isn't available: No ranges"
    );
    assert!(r.jump_progress.is_none());
}

#[test]
fn unreadable_input_adds_a_warning() {
    let mut state = running_with(SeekSupport::Enabled);
    let before = running(&state).history.len();
    state.append_input("1:99");
    assert_eq!(begin_running_submit(&mut state), RunningStep::Continue);
    let r = running(&state);
    assert_eq!(r.history.len(), before + 1);
    assert_eq!(
        r.history.last().unwrap().text,
        "Enter a valid time or command. seconds must be less than 60 in `MM:SS`"
    );
}

#[test]
fn help_status_reopen_and_quit_submissions() {
    let mut state = running_with(SeekSupport::Enabled);
    let before = running(&state).history.len();
    state.append_input("help");
    assert_eq!(begin_running_submit(&mut state), RunningStep::Continue);
    assert!(running(&state).help_open);
    assert_eq!(running(&state).history.len(), before);

    state.append_input("status");
    assert_eq!(begin_running_submit(&mut state), RunningStep::RefreshStatus);
    let snapshot = running(&state).snapshot.clone();
    finish_status(&mut state, snapshot);
    assert!(running(&state).details.is_some());
    assert!(!running(&state).help_open);

    state.append_input("reopen");
    assert_eq!(begin_running_submit(&mut state), RunningStep::Reopen);
    finish_reopen(&mut state, Err(String::from("no player")));
    assert_eq!(
        running(&state).player_action_error.as_deref(),
        Some("Unable to reopen QuickTime Player: no player. Enter `reopen` to try again.")
    );
    let snapshot = running(&state).snapshot.clone();
    finish_reopen(&mut state, Ok(snapshot));
    assert!(running(&state).player_action_error.is_none());
    assert_eq!(
        running(&state).history.last().unwrap().text,
        "Reopened the stream in QuickTime Player."
    );

    state.append_input("q");
    assert_eq!(begin_running_submit(&mut state), RunningStep::Quit);
    state.append_input("   ");
    assert_eq!(begin_running_submit(&mut state), RunningStep::Continue);
}

#[test]
fn compact_labels_describe_tracks() {
    let plain = VideoStream::new(0, "Stream #0:0: Video: h264", true);
    assert_eq!(compact_video_label(&plain), "H.264 • Unknown resolution • SDR • default");
    let mut hdr = VideoStream::new(1, "hevc", true);
    hdr.codec_name = Some(String::from("hevc"));
    hdr.width = Some(3840);
    hdr.height = Some(2160);
    hdr.color_transfer = Some(String::from("smpte2084"));
    assert_eq!(compact_video_label(&hdr), "HEVC • 3840×2160 • HDR10 • default");
    hdr.is_default = false;
    hdr.dolby_vision = Some(DolbyVisionConfig {
        profile: 5,
        level: 6,
        base_layer_present: true,
        enhancement_layer_present: false,
        base_layer_signal_compatibility_id: 0,
    });
    assert_eq!(compact_video_label(&hdr), "HEVC • 3840×2160 • Dolby Vision P5");
    let mut vp9 = VideoStream::new(2, "vp9", false);
    vp9.codec_name = Some(String::from("vp9"));
    assert_eq!(compact_video_label(&vp9), "VP9 • Unknown resolution • SDR");

    let aac = AudioStream::new(1, Some(String::from("aac")), "Stream #0:1: Audio: aac", true);
    assert_eq!(compact_audio_label(&aac, 80), "Unknown language • AAC • default");
    let mut truehd = AudioStream::new(2, Some(String::from("truehd")), "t", true);
    truehd.profile = Some(String::from("Dolby TrueHD + Dolby Atmos"));
    truehd.channel_layout = Some(String::from("7.1"));
    assert_eq!(compact_audio_label(&truehd, 80), "Unknown language • TrueHD → ALAC • 7.1 • Atmos • default");
    let mut eac3 = AudioStream::new(3, Some(String::from("eac3")), "e", false);
    eac3.language = Some(String::from("English"));
    eac3.channels = Some(6);
    assert_eq!(compact_audio_label(&eac3, 80), "English • E-AC-3 • 6 ch");
    assert_eq!(compact_audio_label(&eac3, 10), "English •…");
}

#[test]
fn truncation_keeps_width() {
    assert_eq!(truncate_label("abcdef", 10), "abcdef");
    assert_eq!(truncate_label("abcdef", 4), "abc…");
    assert_eq!(truncate_label("abcdef", 1), "…");
    assert_eq!(truncate_label("abcdef", 0), "…");
}

#[test]
fn step_labels_and_footers() {
    assert_eq!(prepare_label(PrepareStep::TimeJumps, ProgressStatus::Warn), "Time jumps aren't available");
    assert_eq!(prepare_label(PrepareStep::SourceUrl, ProgressStatus::Done), "Checked source URL");
    assert_eq!(launch_label(LaunchStep::Relay, ProgressStatus::Active), "Starting ffmpeg relay");
    assert_eq!(jump_label(JumpStep::RefreshPlayer, ProgressStatus::Pending), "Refreshing QuickTime Player");
    let launcher = AppState::new(None);
    assert_eq!(workspace_footer(&launcher), "Enter inspect source  •  F1 help  •  Ctrl+C quit");
    let running_state = running_with(SeekSupport::Enabled);
    assert_eq!(
        workspace_footer(&running_state),
        "Enter run  •  PgUp/PgDn activity  •  Esc clear/close  •  Ctrl+C quit"
    );
}

#[test]
fn dashboard_lines() {
    let mut state = running_with(SeekSupport::Enabled);
    let r = running(&state);
    assert_eq!(
        player_card_lines(r, 80),
        vec![
            String::from("00:00:12 / 00:02:00"),
            String::from("Buffer 00:00:06    Relay 1 B/s    Storage 2 B"),
        ]
    );
    assert_eq!(player_card_lines(r, 40).len(), 3);
    assert_eq!(
        health_lines(r, 100),
        vec![
            String::from("Player  ▶ Playing    Time    00:00:12 / 00:02:00"),
            String::from("Buffer  00:00:06    Relay   1 B/s    Storage 2 B"),
        ]
    );
    assert!(live_warning_line(r).is_none());
    state.set_player_action_error(Some(String::from("boom")));
    assert_eq!(live_warning_line(running(&state)).as_deref(), Some("[WARN] boom"));
}

#[test]
fn input_lines_scroll_to_the_caret() {
    let mut state = running_with(SeekSupport::Enabled);
    let (prefix, text, placeholder) = command_input_line(running(&state), 40);
    assert_eq!(prefix, "> ");
    assert_eq!(text, "Enter a time or command. Type help for options");
    assert!(placeholder);
    state.append_input("abcdefgh");
    let (prefix, text, placeholder) = command_input_line(running(&state), 6);
    assert_eq!(prefix, "< ");
    assert_eq!(text, "fgh▏");
    assert!(!placeholder);

    let mut launcher = AppState::new(None);
    launcher.append_input("https://example.com/movie.mkv");
    if let Screen::Launcher(l) = &launcher.screen {
        let (prefix, text, _) = launcher_editor_line(l, 80);
        assert_eq!(prefix, "> ");
        assert_eq!(text, "https://example.com/movie.mkv▏");
    } else {
        unreachable!();
    }
}

#[test]
fn card_heights_and_scrolling() {
    let request = MediaInfo::new(
        vec![VideoStream::new(0, "v0", true), VideoStream::new(1, "v1", false)],
        vec![AudioStream::new(2, Some(String::from("aac")), "a0", true)],
        None,
    )
    .selection_request()
    .unwrap();
    let selection =
        TrackSelectionState { request, focus: SelectionFocus::Video, video_index: 0, audio_index: Some(0) };
    assert_eq!(track_cards_height(&selection, 20), 7);
    assert_eq!(track_cards_height(&selection, 5), 5);
    assert_eq!(activity_scroll(30, 11, 0), 20);
    assert_eq!(activity_scroll(30, 11, 5), 15);
    assert_eq!(activity_scroll(5, 11, 3), 0);
    assert_eq!(card_scroll(7, 5), 4);
    assert_eq!(card_scroll(2, 5), 0);
    assert_eq!(visual_line_height(0, 10), 1);
    assert_eq!(visual_line_height(21, 10), 3);
    assert_eq!(visual_line_height(20, 10), 2);
}

#[test]
fn snapshots_read_the_clock_when_simulated() {
    let mut manager = SessionManager::with_root("/tmp/quickbridge", false);
    let mut state = PlaybackState::start(
        true,
        1234,
        manager.next_session(),
        Timecode::from_seconds(30),
        Moment::from_nanos(0),
    );
    let snapshot = state.snapshot(
        PlayerReading::Failed,
        Moment::from_nanos(5_000_000_000),
        StreamTelemetry::new(0, 0, Timecode::zero()),
    );
    assert_eq!(snapshot.current_time, Timecode::from_seconds(35));
    assert_eq!(snapshot.player_state, PlayerState::Playing);
    assert_eq!(state.last_known_time, Timecode::from_seconds(35));

    let mut live = PlaybackState::start(
        false,
        1234,
        manager.next_session(),
        Timecode::from_seconds(30),
        Moment::from_nanos(0),
    );
    let snapshot = live.snapshot(
        PlayerReading::Failed,
        Moment::from_nanos(5_000_000_000),
        StreamTelemetry::new(0, 0, Timecode::zero()),
    );
    assert_eq!(snapshot.current_time, Timecode::from_seconds(30));
    assert_eq!(snapshot.player_state, PlayerState::Unavailable);
}
