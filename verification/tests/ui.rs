use quickbridge::media::{
    AudioStream, MediaInfo, SeekSupport, SourceInspection, SourceMetadata, StreamSelection,
    VideoStream,
};
use quickbridge::playback::{PlaybackMode, PlaybackSnapshot, PlayerState, StreamTelemetry};
use quickbridge::progress::JumpStep;
use quickbridge::terminal::TerminalInfo;
use quickbridge::timecode::Timecode;
use quickbridge::ui::{
    is_recoverable_prepare_error, shift_index, submit_source_input, AppState, PrepareFailure,
    RunningState, Screen, SelectionFocus, SourceErrorState, SourcePromptResult, StartupContext,
    TrackSelectionState,
};

fn running_state() -> AppState {
    let running = RunningState::new(
        String::from("https://example.com/video.mkv"),
        PlaybackMode::Live,
        StreamSelection::new(VideoStream::new(0, "video", true), None),
        SourceInspection::new(SourceMetadata::new("video.mkv", Some(42)), SeekSupport::Enabled),
        MediaInfo::new(Vec::new(), Vec::new(), Some(Timecode::from_seconds(120))),
        PlaybackSnapshot::new(
            7,
            String::from("http://127.0.0.1:1234/stream.m3u8?session=7"),
            Timecode::zero(),
            Timecode::from_seconds(12),
            PlayerState::Playing,
            StreamTelemetry::new(1, 2, Timecode::from_seconds(6)),
        ),
        StartupContext { requested_start_at: Timecode::zero(), actual_start_at: Timecode::zero() },
    );
    let mut state = AppState::new(None);
    state.screen = Screen::Running(Box::new(running));
    state
}

#[test]
fn switching_track_focus_preserves_both_selections() {
    let request = MediaInfo::new(
        vec![VideoStream::new(0, "video 0", true), VideoStream::new(1, "video 1", false)],
        vec![
            AudioStream::new(2, Some(String::from("aac")), "audio 0", true),
            AudioStream::new(3, Some(String::from("aac")), "audio 1", false),
        ],
        None,
    )
    .selection_request()
    .unwrap();
    let mut state = AppState::new(None);
    state.screen = Screen::TrackSelection(TrackSelectionState {
        request,
        focus: SelectionFocus::Video,
        video_index: 1,
        audio_index: Some(1),
    });

    state.switch_track_focus(true);

    let Screen::TrackSelection(selection) = &state.screen else {
        unreachable!();
    };
    assert_eq!(selection.focus, SelectionFocus::Audio);
    assert_eq!(selection.video_index, 1);
    assert_eq!(selection.audio_index, Some(1));
}

#[test]
fn enter_on_video_advances_to_audio_before_confirming() {
    let request = MediaInfo::new(
        vec![VideoStream::new(0, "video 0", true), VideoStream::new(1, "video 1", false)],
        vec![AudioStream::new(2, Some(String::from("aac")), "audio 0", true)],
        None,
    )
    .selection_request()
    .unwrap();
    let mut state = AppState::new(None);
    state.screen = Screen::TrackSelection(TrackSelectionState {
        request,
        focus: SelectionFocus::Video,
        video_index: 1,
        audio_index: Some(0),
    });

    assert!(state.advance_or_confirm_track_selection().unwrap().is_none());
    let Screen::TrackSelection(selection) = &state.screen else {
        unreachable!();
    };
    assert_eq!(selection.focus, SelectionFocus::Audio);

    let confirmed = state
        .advance_or_confirm_track_selection()
        .unwrap()
        .expect("audio confirmation should start playback");
    let output = confirmed.render_output_file();
    assert!(output.contains("video 1"));
    assert!(output.contains("audio 0"));
}

#[test]
fn running_activity_retains_only_the_latest_two_hundred_entries() {
    let mut state = running_state();
    for index in 0..1_000 {
        state.push_history_info(&format!("activity {index}"));
    }

    let Screen::Running(running) = &state.screen else {
        unreachable!();
    };
    assert_eq!(running.history.len(), 200);
    assert_eq!(running.history.first().unwrap().text, "activity 800");
    assert_eq!(running.history.last().unwrap().text, "activity 999");
}

#[test]
fn status_details_toggle_without_growing_activity() {
    let mut state = running_state();
    let initial_len = match &state.screen {
        Screen::Running(running) => running.history.len(),
        _ => unreachable!(),
    };

    state.toggle_status_details();
    let Screen::Running(running) = &state.screen else {
        unreachable!();
    };
    let details = running.details.as_deref().unwrap();
    assert!(details.contains("Source             | https://example.com/video.mkv"));
    assert!(details.contains("Session ID         | 7"));
    assert!(details.contains("Tracks"));
    assert!(details.contains("QuickTime Player   | Playing"));
    assert_eq!(running.history.len(), initial_len);

    state.toggle_status_details();
    let Screen::Running(running) = &state.screen else {
        unreachable!();
    };
    assert!(running.details.is_none());
    assert_eq!(running.history.len(), initial_len);
}

#[test]
fn prepare_error_states_use_typed_actionable_summaries() {
    let cases = [
        (
            PrepareFailure::InvalidSourceUrl,
            "invalid source URL: bad",
            "Enter a full URL that starts with http:// or https://.",
        ),
        (
            PrepareFailure::FfprobeUnavailable,
            "ffprobe is unavailable: custom-ffprobe",
            "Install ffprobe, then try again.",
        ),
        (
            PrepareFailure::FfprobeFailed,
            "unable to inspect the source with ffprobe: denied",
            "Unable to inspect this source. Check the URL and access, then try again.",
        ),
    ];
    for (failure, diagnostic, summary) in cases {
        assert!(is_recoverable_prepare_error(failure));
        let state =
            SourceErrorState::from_runtime(String::from("source"), failure, String::from(diagnostic));
        assert_eq!(state.summary, summary);
        assert!(!state.diagnostic.is_empty());
        assert_eq!(state.input, "source");
        assert!(!state.editing);
    }
    assert!(!is_recoverable_prepare_error(PrepareFailure::Other));

    let no_video = SourceErrorState::no_video(String::from("source"));
    assert!(no_video.summary.contains("supported video track"));
}

#[test]
fn enter_submits_a_direct_launcher_url() {
    let mut state = AppState::new(None);
    state.append_input("https://example.com/demo.mkv");

    assert_eq!(
        submit_source_input(&mut state),
        SourcePromptResult::Ready(String::from("https://example.com/demo.mkv"))
    );
}

#[test]
fn empty_launcher_input_keeps_prompting() {
    let mut state = AppState::new(None);
    state.append_input("   ");
    assert_eq!(submit_source_input(&mut state), SourcePromptResult::Continue);
}

#[test]
fn launcher_editor_inserts_and_deletes_at_the_caret() {
    let mut state = AppState::new(None);
    state.append_input("https://example.com/mvie.mkv");
    for _ in 0..7 {
        state.move_input_cursor(false);
    }
    state.push_input('o');

    let Screen::Launcher(launcher) = &state.screen else {
        unreachable!();
    };
    assert_eq!(launcher.input, "https://example.com/movie.mkv");
    assert_eq!(launcher.cursor, "https://example.com/mo".len());

    state.pop_input();
    let Screen::Launcher(launcher) = &state.screen else {
        unreachable!();
    };
    assert_eq!(launcher.input, "https://example.com/mvie.mkv");
    assert_eq!(launcher.cursor, "https://example.com/m".len());
}

#[test]
fn running_composer_and_help_restore_cleanly() {
    let mut state = running_state();
    state.append_input("status");
    let Screen::Running(running) = &state.screen else {
        unreachable!();
    };
    assert_eq!(running.input, "status");

    state.close_running_overlay();
    state.show_help();
    let Screen::Running(running) = &state.screen else {
        unreachable!();
    };
    assert!(running.help_open);

    state.close_running_overlay();
    let Screen::Running(running) = &state.screen else {
        unreachable!();
    };
    assert!(running.input.is_empty());
    assert!(!running.help_open);
}

#[test]
fn idle_screens_do_not_request_periodic_redraws() {
    let mut launcher = AppState::new(None);
    assert!(!launcher.tick());

    let mut running = running_state();
    assert!(!running.tick());
    running.start_jump();
    running
        .jump_progress_mut()
        .unwrap()
        .start(JumpStep::PrepareNextStream, Vec::new());
    assert!(running.tick());
}

#[test]
fn taking_running_input_clears_the_composer() {
    let mut state = running_state();
    state.append_input("+30");
    assert_eq!(state.take_input(), "+30");
    let Screen::Running(running) = &state.screen else {
        unreachable!();
    };
    assert!(running.input.is_empty());
    assert_eq!(running.input_cursor, 0);
}

#[test]
fn selection_index_stays_in_range() {
    assert_eq!(shift_index(0, 3, -1), 0);
    assert_eq!(shift_index(2, 3, 1), 2);
    assert_eq!(shift_index(1, 3, 1), 2);
    assert_eq!(shift_index(0, 0, 1), 0);
}

#[test]
fn disables_tui_for_dumb_terminals() {
    let info = TerminalInfo::from_env(true, true, Some(String::from("dumb")), None, None);

    assert!(info.is_dumb_terminal());
    assert!(!info.supports_interactive_ui());
}

#[test]
fn disables_alt_screen_in_zellij() {
    let info = TerminalInfo::from_env(
        true,
        true,
        Some(String::from("xterm-256color")),
        Some(String::from("iTerm.app")),
        Some(String::from("workspace")),
    );

    assert_eq!(info.term_program(), Some("iTerm.app"));
    assert!(info.is_zellij());
    assert!(!info.should_use_alt_screen(false));
}

#[test]
fn allows_alt_screen_for_normal_terminals() {
    let info = TerminalInfo::from_env(
        true,
        true,
        Some(String::from("xterm-256color")),
        Some(String::from("iTerm.app")),
        None,
    );

    assert!(info.supports_interactive_ui());
    assert!(info.should_use_alt_screen(false));
    assert!(!info.should_use_alt_screen(true));
}

#[test]
fn ticking_advances_the_jump_spinner_by_one_frame() {
    let mut running = running_state();
    running.start_jump();
    running
        .jump_progress_mut()
        .unwrap()
        .start(JumpStep::PrepareNextStream, Vec::new());
    for expected in [1usize, 2, 3, 4, 5, 6, 7, 8, 9, 0] {
        assert!(running.tick());
        let Screen::Running(run) = &running.screen else {
            unreachable!();
        };
        assert_eq!(run.jump_progress.as_ref().unwrap().frame_index, expected);
    }
    assert_eq!(running.version, "quickbridge 0.1.0");
}

#[test]
fn restart_notice_only_when_the_asked_start_was_dropped() {
    let dropped = StartupContext {
        requested_start_at: Timecode::from_seconds(90),
        actual_start_at: Timecode::zero(),
    };
    assert_eq!(
        quickbridge::ui::restart_notice(&dropped),
        Some("Started from the beginning because this source doesn't support jumping to a different time.")
    );
    let kept = StartupContext {
        requested_start_at: Timecode::from_seconds(90),
        actual_start_at: Timecode::from_seconds(90),
    };
    assert_eq!(quickbridge::ui::restart_notice(&kept), None);
    let from_start = StartupContext { requested_start_at: Timecode::zero(), actual_start_at: Timecode::zero() };
    assert_eq!(quickbridge::ui::restart_notice(&from_start), None);
}
