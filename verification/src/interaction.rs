//! The decisions of the interactive front-end: what a key press asks for on
//! each screen, and what submitting the running session's composer does
//! before and after the work it hands to the playback.

use vstd::prelude::*;
use crate::command::{
    parse_command, parse_command_spec, resolve_target, resolve_target_spec, Command,
    CommandParseError,
};
use crate::media::{TrackSelectionRequest, SeekSupport};
use crate::playback::{PlaybackSnapshot, RunOutcome};
use crate::strings::{opt_view, append_chars, append_str, chars_of, has_char, string_chars, string_of, trim};
use crate::timecode::{hms_spec, timecode_error_message, Timecode};
use crate::progress::JumpStep;
use crate::strings::trim_spec;
use crate::ui::{
    clamped_scroll, history_view, jump_warning_spec, max_activity_entries, running_status_spec, text_entries,
    AppState, HistoryTone, PrepareFailure, ProgressModel, ProgressStatus, RunningState, Screen,
    SourceErrorState, StartupContext,
};

verus! {

/// The keys the front-end tells apart.
#[derive(Clone, Copy, Debug, PartialEq, Eq, Structural)]
pub enum Key {
    Char(char),
    Backspace,
    Enter,
    Esc,
    Left,
    Right,
    Up,
    Down,
    Home,
    End,
    Tab,
    BackTab,
    PageUp,
    PageDown,
    F1,
    Other,
}

/// A key press: the key, whether Control is held, and whether it comes
/// without Control, Alt or Super.
#[derive(Clone, Copy, Debug, PartialEq, Eq, Structural)]
pub struct KeyPress {
    pub key: Key,
    pub control: bool,
    pub plain: bool,
}

/// Control-C.
pub open spec fn is_interrupt(k: KeyPress) -> bool {
    k.key == Key::Char('c') && k.control
}

fn interrupt(k: KeyPress) -> (r: bool)
    ensures
        r == is_interrupt(k),
{
    match k.key {
        Key::Char(c) => c == 'c' && k.control,
        _ => false,
    }
}

/// What a key asks of the launcher.
#[derive(Clone, Copy, Debug, PartialEq, Eq, Structural)]
pub enum LauncherAction {
    Interrupt,
    DeleteBefore,
    MoveCursor(bool),
    MoveToEdge(bool),
    ToggleHelp,
    CloseHelp,
    Submit,
    Type(char),
    Ignore,
}

pub open spec fn launcher_action_spec(k: KeyPress) -> LauncherAction {
    if is_interrupt(k) {
        LauncherAction::Interrupt
    } else {
        match k.key {
            Key::Backspace => LauncherAction::DeleteBefore,
            Key::Left => LauncherAction::MoveCursor(false),
            Key::Right => LauncherAction::MoveCursor(true),
            Key::Home => LauncherAction::MoveToEdge(false),
            Key::End => LauncherAction::MoveToEdge(true),
            Key::F1 => LauncherAction::ToggleHelp,
            Key::Esc => LauncherAction::CloseHelp,
            Key::Enter => LauncherAction::Submit,
            Key::Char(c) => if k.plain {
                LauncherAction::Type(c)
            } else {
                LauncherAction::Ignore
            },
            _ => LauncherAction::Ignore,
        }
    }
}

/// What a key asks of the launcher: Control-C interrupts, the editing keys
/// edit, F1 toggles help, Esc closes it, Enter submits, and an unmodified
/// character is typed.
pub fn launcher_action(k: KeyPress) -> (r: LauncherAction)
    ensures
        r == launcher_action_spec(k),
{
    if interrupt(k) {
        return LauncherAction::Interrupt;
    }
    match k.key {
        Key::Backspace => LauncherAction::DeleteBefore,
        Key::Left => LauncherAction::MoveCursor(false),
        Key::Right => LauncherAction::MoveCursor(true),
        Key::Home => LauncherAction::MoveToEdge(false),
        Key::End => LauncherAction::MoveToEdge(true),
        Key::F1 => LauncherAction::ToggleHelp,
        Key::Esc => LauncherAction::CloseHelp,
        Key::Enter => LauncherAction::Submit,
        Key::Char(c) => if k.plain {
            LauncherAction::Type(c)
        } else {
            LauncherAction::Ignore
        },
        _ => LauncherAction::Ignore,
    }
}

/// What a key asks of the screen shown after a source failed.
#[derive(Clone, Copy, Debug, PartialEq, Eq, Structural)]
pub enum RecoveryAction {
    Interrupt,
    Retry,
    Quit,
    StartEditing,
    DeleteLast,
    SubmitEdit,
    CancelEdit,
    Type(char),
    Ignore,
}

pub open spec fn recovery_action_spec(k: KeyPress, editing: bool) -> RecoveryAction {
    if is_interrupt(k) {
        RecoveryAction::Interrupt
    } else if editing {
        match k.key {
            Key::Backspace => RecoveryAction::DeleteLast,
            Key::Enter => RecoveryAction::SubmitEdit,
            Key::Esc => RecoveryAction::CancelEdit,
            Key::Char(c) => if k.plain {
                RecoveryAction::Type(c)
            } else {
                RecoveryAction::Ignore
            },
            _ => RecoveryAction::Ignore,
        }
    } else {
        match k.key {
            Key::Char(c) => if c == 'r' {
                RecoveryAction::Retry
            } else if c == 'q' {
                RecoveryAction::Quit
            } else if c == 'e' {
                RecoveryAction::StartEditing
            } else {
                RecoveryAction::Ignore
            },
            _ => RecoveryAction::Ignore,
        }
    }
}

/// What a key asks of the error screen: outside editing `r` retries, `q`
/// quits and `e` edits the URL; while editing the keys edit it, Enter
/// submits and Esc cancels.
pub fn recovery_action(k: KeyPress, editing: bool) -> (r: RecoveryAction)
    ensures
        r == recovery_action_spec(k, editing),
{
    if interrupt(k) {
        return RecoveryAction::Interrupt;
    }
    if editing {
        match k.key {
            Key::Backspace => RecoveryAction::DeleteLast,
            Key::Enter => RecoveryAction::SubmitEdit,
            Key::Esc => RecoveryAction::CancelEdit,
            Key::Char(c) => if k.plain {
                RecoveryAction::Type(c)
            } else {
                RecoveryAction::Ignore
            },
            _ => RecoveryAction::Ignore,
        }
    } else {
        match k.key {
            Key::Char(c) => if c == 'r' {
                RecoveryAction::Retry
            } else if c == 'q' {
                RecoveryAction::Quit
            } else if c == 'e' {
                RecoveryAction::StartEditing
            } else {
                RecoveryAction::Ignore
            },
            _ => RecoveryAction::Ignore,
        }
    }
}

/// What a key asks of the track menus.
#[derive(Clone, Copy, Debug, PartialEq, Eq, Structural)]
pub enum TrackKeyAction {
    Interrupt,
    Move(isize),
    SwitchFocus(bool),
    Confirm,
    Ignore,
}

pub open spec fn track_key_action_spec(k: KeyPress) -> TrackKeyAction {
    if is_interrupt(k) {
        TrackKeyAction::Interrupt
    } else {
        match k.key {
            Key::Up => TrackKeyAction::Move(-1isize),
            Key::Down => TrackKeyAction::Move(1isize),
            Key::Left => TrackKeyAction::SwitchFocus(false),
            Key::BackTab => TrackKeyAction::SwitchFocus(false),
            Key::Right => TrackKeyAction::SwitchFocus(true),
            Key::Tab => TrackKeyAction::SwitchFocus(true),
            Key::Enter => TrackKeyAction::Confirm,
            _ => TrackKeyAction::Ignore,
        }
    }
}

/// What a key asks of the track menus: arrows move and switch the list,
/// Tab and Shift-Tab switch it too, Enter advances or confirms.
pub fn track_key_action(k: KeyPress) -> (r: TrackKeyAction)
    ensures
        r == track_key_action_spec(k),
{
    if interrupt(k) {
        return TrackKeyAction::Interrupt;
    }
    match k.key {
        Key::Up => TrackKeyAction::Move(-1),
        Key::Down => TrackKeyAction::Move(1),
        Key::Left => TrackKeyAction::SwitchFocus(false),
        Key::BackTab => TrackKeyAction::SwitchFocus(false),
        Key::Right => TrackKeyAction::SwitchFocus(true),
        Key::Tab => TrackKeyAction::SwitchFocus(true),
        Key::Enter => TrackKeyAction::Confirm,
        _ => TrackKeyAction::Ignore,
    }
}

/// Whether pasted text confirms the track menus: it holds a line break.
pub fn paste_confirms(text: &str) -> (r: bool)
    ensures
        r == text@.contains('\n'),
{
    has_char(chars_of(text).as_slice(), '\n')
}

/// Whether the user has to choose tracks: not when there is one video track
/// and at most one audio track.
pub fn needs_track_menu(request: &TrackSelectionRequest) -> (r: bool)
    ensures
        r == !(request.videos@.len() == 1 && request.audios@.len() <= 1),
{
    !(request.videos.len() == 1 && request.audios.len() <= 1)
}

/// The start the user asked for, and the one playback uses: the beginning
/// when the source cannot jump.
pub fn startup_context(at: Option<Timecode>, seeking_enabled: bool) -> (r: StartupContext)
    ensures
        r.requested_start_at == (match at {
            Some(t) => t,
            None => Timecode { seconds: 0 },
        }),
        r.actual_start_at == (if seeking_enabled {
            r.requested_start_at
        } else {
            Timecode { seconds: 0 }
        }),
{
    let requested = match at {
        Some(t) => t,
        None => Timecode::zero(),
    };
    let actual = if seeking_enabled {
        requested
    } else {
        Timecode::zero()
    };
    StartupContext { requested_start_at: requested, actual_start_at: actual }
}

/// How preparing a source ended.
#[derive(Clone, Debug, PartialEq, Eq)]
pub enum PrepareOutcome {
    /// The source was inspected and has a video track.
    Ready,
    /// The source was inspected and has no video track.
    NoVideo,
    /// Preparing failed with this failure and diagnostic text.
    Failed(PrepareFailure, String),
    Interrupted,
}

/// What follows a preparation.
#[derive(Clone, Copy, Debug, PartialEq, Eq, Structural)]
pub enum PrepareNext {
    /// Go on to the track menus.
    ChooseTracks,
    /// The error screen is shown; wait for the user.
    Recover,
    /// Stop the program with this outcome.
    Stop(RunOutcome),
    /// The failure cannot be recovered from; report it.
    Fatal,
}

/// Decides what follows a preparation of `source_url`, showing the error
/// screen when the user can fix the source.
pub fn after_prepare(state: &mut AppState, source_url: &String, outcome: PrepareOutcome) -> (r:
    PrepareNext)
    ensures
        r == match outcome {
            PrepareOutcome::Ready => PrepareNext::ChooseTracks,
            PrepareOutcome::NoVideo => PrepareNext::Recover,
            PrepareOutcome::Failed(f, _) => if f is Other {
                PrepareNext::Fatal
            } else {
                PrepareNext::Recover
            },
            PrepareOutcome::Interrupted => PrepareNext::Stop(RunOutcome::Interrupted),
        },
        r == PrepareNext::Recover ==> (final(state).screen matches Screen::SourceError(e)
            && e.attempted_url == *source_url && e.input@ == source_url@ && !e.editing),
        r != PrepareNext::Recover ==> *final(state) == *old(state),
        outcome matches PrepareOutcome::Failed(f, d) ==> (!(f is Other) ==> (final(state).screen matches Screen::SourceError(e) && e.diagnostic == d)),
{
    match outcome {
        PrepareOutcome::Ready => PrepareNext::ChooseTracks,
        PrepareOutcome::NoVideo => {
            state.show_source_error(SourceErrorState::no_video(source_url.clone()));
            PrepareNext::Recover
        },
        PrepareOutcome::Failed(failure, diagnostic) => {
            if crate::ui::is_recoverable_prepare_error(failure) {
                state.show_source_error(
                    SourceErrorState::from_runtime(source_url.clone(), failure, diagnostic),
                );
                PrepareNext::Recover
            } else {
                PrepareNext::Fatal
            }
        },
        PrepareOutcome::Interrupted => PrepareNext::Stop(RunOutcome::Interrupted),
    }
}

/// What a key asks of the running session.
#[derive(Clone, Copy, Debug, PartialEq, Eq, Structural)]
pub enum RunningKeyAction {
    Interrupt,
    ScrollActivity(bool),
    CloseOverlay,
    DeleteBefore,
    MoveCursor(bool),
    MoveToEdge(bool),
    Submit,
    Type(char),
    Ignore,
}

pub open spec fn running_key_action_spec(k: KeyPress) -> RunningKeyAction {
    if k.key == Key::PageUp {
        RunningKeyAction::ScrollActivity(true)
    } else if k.key == Key::PageDown {
        RunningKeyAction::ScrollActivity(false)
    } else if is_interrupt(k) {
        RunningKeyAction::Interrupt
    } else {
        match k.key {
            Key::Esc => RunningKeyAction::CloseOverlay,
            Key::Backspace => RunningKeyAction::DeleteBefore,
            Key::Left => RunningKeyAction::MoveCursor(false),
            Key::Right => RunningKeyAction::MoveCursor(true),
            Key::Home => RunningKeyAction::MoveToEdge(false),
            Key::End => RunningKeyAction::MoveToEdge(true),
            Key::Enter => RunningKeyAction::Submit,
            Key::Char(c) => if k.plain {
                RunningKeyAction::Type(c)
            } else {
                RunningKeyAction::Ignore
            },
            _ => RunningKeyAction::Ignore,
        }
    }
}

/// What a key asks of the running session: Page Up and Page Down scroll
/// the activity, Esc clears the composer and closes overlays, the editing
/// keys edit, Enter submits.
pub fn running_key_action(k: KeyPress) -> (r: RunningKeyAction)
    ensures
        r == running_key_action_spec(k),
{
    match k.key {
        Key::PageUp => {
            return RunningKeyAction::ScrollActivity(true);
        },
        Key::PageDown => {
            return RunningKeyAction::ScrollActivity(false);
        },
        _ => {},
    }
    if interrupt(k) {
        return RunningKeyAction::Interrupt;
    }
    match k.key {
        Key::Esc => RunningKeyAction::CloseOverlay,
        Key::Backspace => RunningKeyAction::DeleteBefore,
        Key::Left => RunningKeyAction::MoveCursor(false),
        Key::Right => RunningKeyAction::MoveCursor(true),
        Key::Home => RunningKeyAction::MoveToEdge(false),
        Key::End => RunningKeyAction::MoveToEdge(true),
        Key::Enter => RunningKeyAction::Submit,
        Key::Char(c) => if k.plain {
            RunningKeyAction::Type(c)
        } else {
            RunningKeyAction::Ignore
        },
        _ => RunningKeyAction::Ignore,
    }
}

/// What the running session hands to the playback after a submission.
#[derive(Clone, Copy, Debug, PartialEq, Eq, Structural)]
pub enum RunningStep {
    /// Nothing to do; keep reading keys.
    Continue,
    /// Leave the session.
    Quit,
    /// Open the stream in the player again.
    Reopen,
    /// Take a fresh snapshot and toggle the status report.
    RefreshStatus,
    /// Switch playback to this time; the jump steps are shown.
    Jump(Timecode),
}

/// The text of a command error.
pub open spec fn command_error_text(e: CommandParseError) -> Seq<char> {
    match e {
        CommandParseError::InvalidTimecode(t) => timecode_error_message(t),
        CommandParseError::NotATimestampCommand => "enter a timestamp, such as 01:30"@,
    }
}

/// The latest lines of an activity that may have grown past its limit.
pub open spec fn capped(
    h: Seq<(Seq<char>, Seq<char>, HistoryTone)>,
) -> Seq<(Seq<char>, Seq<char>, HistoryTone)> {
    if h.len() > max_activity_entries() {
        h.subrange(h.len() - max_activity_entries(), h.len() as int)
    } else {
        h
    }
}

/// The activity keeps at most its limit of lines, and they are the latest
/// ones, in order.
pub proof fn lemma_capped_keeps_latest(h: Seq<(Seq<char>, Seq<char>, HistoryTone)>)
    ensures
        capped(h).len() <= max_activity_entries(),
        capped(h).len() == if h.len() > max_activity_entries() {
            max_activity_entries()
        } else {
            h.len()
        },
        forall|i: int|
            0 <= i < capped(h).len() ==> #[trigger] capped(h)[i] == h[h.len() - capped(h).len() + i],
{
}

/// Whether a command jumps.
pub open spec fn is_jump(c: Command) -> bool {
    c is JumpAbsolute || c is JumpRelative
}

/// What submitting `line` hands to the playback: help and unreadable lines
/// stay in the session, jumps go ahead only when the source can jump.
pub open spec fn submit_step(line: Seq<char>, seek: SeekSupport, now: Timecode) -> RunningStep {
    match parse_command_spec(line) {
        Ok(Some(c)) => match c {
            Command::Help => RunningStep::Continue,
            Command::Reopen => RunningStep::Reopen,
            Command::Status => RunningStep::RefreshStatus,
            Command::Quit => RunningStep::Quit,
            _ => if jump_warning_spec(seek) is Some {
                RunningStep::Continue
            } else {
                match resolve_target_spec(now, c) {
                    Ok(t) => RunningStep::Jump(t),
                    Err(_) => RunningStep::Continue,
                }
            },
        },
        _ => RunningStep::Continue,
    }
}

/// The activity after submitting `line`: an unreadable line adds a warning;
/// a command other than help and status is recorded, and a jump the source
/// cannot make adds its warning.
pub open spec fn submit_history(
    h: Seq<(Seq<char>, Seq<char>, HistoryTone)>,
    line: Seq<char>,
    seek: SeekSupport,
) -> Seq<(Seq<char>, Seq<char>, HistoryTone)> {
    match parse_command_spec(line) {
        Err(e) => capped(
            h + text_entries(
                "!"@,
                "Enter a valid time or command. "@ + command_error_text(e),
                HistoryTone::Warning,
            ),
        ),
        Ok(None) => h,
        Ok(Some(c)) => if c is Help || c is Status {
            h
        } else {
            let h1 = capped(h + text_entries("›"@, trim_spec(line), HistoryTone::Command));
            if is_jump(c) {
                match jump_warning_spec(seek) {
                    Some(w) => capped(h1 + text_entries("!"@, w, HistoryTone::Warning)),
                    None => h1,
                }
            } else {
                h1
            }
        },
    }
}

/// How long the activity is after the first line that submitting `line`
/// adds, or `None` when it adds none; the scroll position is kept within it.
pub open spec fn submit_first_len(h: Seq<(Seq<char>, Seq<char>, HistoryTone)>, line: Seq<char>) -> Option<
    nat,
> {
    match parse_command_spec(line) {
        Err(e) => Some(
            capped(
                h + text_entries(
                    "!"@,
                    "Enter a valid time or command. "@ + command_error_text(e),
                    HistoryTone::Warning,
                ),
            ).len(),
        ),
        Ok(None) => None,
        Ok(Some(c)) => if c is Help || c is Status {
            None
        } else {
            Some(capped(h + text_entries("›"@, trim_spec(line), HistoryTone::Command)).len())
        },
    }
}

/// The jump steps as they are first shown.
pub open spec fn fresh_jump_progress(p: ProgressModel<JumpStep>) -> bool {
    &&& p.title@ == "Jump to a different time"@
    &&& p.frame_index == 0
    &&& p.lines@.len() == 4
    &&& forall|i: int| 0 <= i < 4 ==> (#[trigger] p.lines@[i]).status == ProgressStatus::Pending
}

/// The scroll position of the running session, or zero.
spec fn before_scroll(s: Screen) -> usize {
    match s {
        Screen::Running(r) => r.activity_scroll,
        _ => 0,
    }
}

proof fn lemma_clamp_twice(s: usize, n1: nat, n2: nat)
    requires
        n1 <= n2,
    ensures
        clamped_scroll(clamped_scroll(s, n1) as usize, n2) == clamped_scroll(s, n1),
{
}

/// Submits the running session's composer: takes its line, records and
/// checks the command, and says what the playback has to do.
pub fn begin_running_submit(state: &mut AppState) -> (r: RunningStep)
    ensures
        old(state).screen matches Screen::Running(r0) ==> ({
            let parsed = parse_command_spec(r0.input@);
            &&& r == submit_step(r0.input@, r0.inspection.seek_support, r0.snapshot.current_time)
            &&& final(state).screen matches Screen::Running(r1)
            &&& r1.input@.len() == 0
            &&& r1.input_cursor == 0
            &&& history_view(r1.history@) == submit_history(
                history_view(r0.history@),
                r0.input@,
                r0.inspection.seek_support,
            )
            &&& r1.activity_scroll == match submit_first_len(
                history_view(r0.history@),
                r0.input@,
            ) {
                Some(n) => clamped_scroll(r0.activity_scroll, n),
                None => r0.activity_scroll as int,
            }
            &&& *r1 == (RunningState {
                input: r1.input,
                input_cursor: 0,
                history: r1.history,
                activity_scroll: r1.activity_scroll,
                help_open: r1.help_open,
                details: r1.details,
                jump_progress: r1.jump_progress,
                ..*r0
            })
            &&& if parsed == Ok::<Option<Command>, CommandParseError>(Some(Command::Help)) {
                r1.help_open && r1.details is None
            } else {
                r1.help_open == r0.help_open && r1.details == r0.details
            }
            &&& if r is Jump {
                r1.jump_progress matches Some(p) && fresh_jump_progress(p)
            } else {
                r1.jump_progress == r0.jump_progress
            }
        }),
{
    let ghost before = state.screen;
    let line = state.take_input();
    let t = trim(line.as_str());
    if t.len() == 0 {
        return RunningStep::Continue;
    }
    let command = match parse_command(line.as_str()) {
        Ok(Some(c)) => c,
        Ok(None) => {
            return RunningStep::Continue;
        },
        Err(e) => {
            let mut msg: Vec<char> = Vec::new();
            append_str(&mut msg, "Enter a valid time or command. ");
            append_str(&mut msg, e.message());
            state.push_history_warning(string_of(msg.as_slice()).as_str());
            return RunningStep::Continue;
        },
    };
    match command {
        Command::Help => {},
        Command::Status => {},
        _ => {
            state.record_command(string_of(t.as_slice()).as_str());
        },
    }
    match command {
        Command::Help => {
            state.show_help();
            RunningStep::Continue
        },
        Command::Reopen => RunningStep::Reopen,
        Command::Status => RunningStep::RefreshStatus,
        Command::Quit => RunningStep::Quit,
        _ => {
            if let Some(warning) = state.jump_unavailable_warning() {
                let ghost mid = state.screen;
                state.push_history_warning(warning.as_str());
                let ghost after = state.screen;
                proof {
                    if let Screen::Running(rm) = mid {
                        if let Screen::Running(rf) = after {
                            assert(history_view(rm.history@).len() == rm.history@.len());
                            assert(history_view(rf.history@).len() == rf.history@.len());
                            assert(rm.history@.len() <= max_activity_entries());
                            assert(rm.history@.len() <= rf.history@.len());
                            lemma_clamp_twice(
                                before_scroll(before),
                                rm.history@.len(),
                                rf.history@.len(),
                            );
                        }
                    }
                }
                return RunningStep::Continue;
            }
            let now = state.current_time();
            match resolve_target(now, &command) {
                Ok(target) => {
                    state.start_jump();
                    RunningStep::Jump(target)
                },
                Err(_) => RunningStep::Continue,
            }
        },
    }
}

/// The message shown when the player could not reopen the stream.
pub open spec fn reopen_error_text(error: Seq<char>) -> Seq<char> {
    "Unable to reopen QuickTime Player: "@ + error + ". Enter `reopen` to try again."@
}

/// Shows how reopening the stream went: with the snapshot taken after it,
/// or with the player's error text.
pub fn finish_reopen(state: &mut AppState, outcome: Result<PlaybackSnapshot, String>)
    ensures
        old(state).screen matches Screen::Running(r0) ==> (final(state).screen matches Screen::Running(
            r1,
        ) && match outcome {
            Ok(snapshot) => *r1 == (RunningState {
                snapshot,
                player_action_error: None,
                history: r1.history,
                activity_scroll: r1.activity_scroll,
                ..*r0
            }) && r1.activity_scroll == clamped_scroll(r0.activity_scroll, r1.history@.len())
                && history_view(r1.history@) == capped(
                history_view(r0.history@) + text_entries(
                    "·"@,
                    "Reopened the stream in QuickTime Player."@,
                    HistoryTone::Info,
                ),
            ),
            Err(error) => *r1 == (RunningState {
                player_action_error: r1.player_action_error,
                ..*r0
            }) && (r1.player_action_error matches Some(m) && m@ == reopen_error_text(error@)),
        }),
        !(old(state).screen is Running) && !(old(state).screen is Launcher) ==> final(state).screen
            == old(state).screen,
        outcome is Err ==> (!(old(state).screen is Running) ==> final(state).screen == old(state).screen),
{
    match outcome {
        Ok(snapshot) => {
            state.update_snapshot(snapshot);
            state.set_player_action_error(None);
            state.push_history_info("Reopened the stream in QuickTime Player.");
        },
        Err(error) => {
            let mut msg: Vec<char> = Vec::new();
            append_str(&mut msg, "Unable to reopen QuickTime Player: ");
            append_chars(&mut msg, string_chars(&error).as_slice());
            append_str(&mut msg, ". Enter `reopen` to try again.");
            state.set_player_action_error(Some(string_of(msg.as_slice())));
        },
    }
}

/// Shows a fresh snapshot and shows or hides the status report.
pub fn finish_status(state: &mut AppState, snapshot: PlaybackSnapshot)
    ensures
        old(state).screen matches Screen::Running(r0) ==> (final(state).screen matches Screen::Running(
            r1,
        ) && ({
            let shown = running_status_spec(RunningState { snapshot, ..*r0 });
            &&& r1.snapshot == snapshot
            &&& r1.history == r0.history
            &&& if opt_view(r0.details) == Some(shown) {
                r1.details is None && r1.help_open == r0.help_open
            } else {
                opt_view(r1.details) == Some(shown) && !r1.help_open
            }
        })),
        !(old(state).screen is Running) ==> final(state).screen == old(state).screen,
{
    let ghost s0 = state.screen;
    state.update_snapshot(snapshot);
    let ghost s1 = state.screen;
    state.toggle_status_details();
    proof {
        if let Screen::Running(r0) = s0 {
            if let Screen::Running(m) = s1 {
                assert(*m == (RunningState { snapshot, ..*r0 }));
                assert(running_status_spec(*m) == running_status_spec(RunningState { snapshot, ..*r0 }));
            }
        }
    }
}

/// The line recorded after a jump to `target`.
pub open spec fn jumped_text(target: Timecode) -> Seq<char> {
    "Jumped to "@ + hms_spec(target@) + "."@
}

/// The line recorded when a jump failed with `error`.
pub open spec fn jump_failed_text(error: Seq<char>) -> Seq<char> {
    "Unable to jump to that time: "@ + error + ". Try another time."@
}

/// Hides the jump steps and records how the jump to `target` went: with
/// the snapshot taken after it, or with the playback's error text.
pub fn finish_jump_attempt(state: &mut AppState, target: Timecode, outcome: Result<PlaybackSnapshot, String>)
    ensures
        old(state).screen matches Screen::Running(r0) ==> (final(state).screen matches Screen::Running(
            r1,
        ) && *r1 == (RunningState {
            jump_progress: None,
            snapshot: r1.snapshot,
            history: r1.history,
            activity_scroll: r1.activity_scroll,
            ..*r0
        }) && r1.activity_scroll == clamped_scroll(r0.activity_scroll, r1.history@.len()) && match outcome {
            Ok(snapshot) => r1.snapshot == snapshot && history_view(r1.history@) == capped(
                history_view(r0.history@) + text_entries("·"@, jumped_text(target), HistoryTone::Info),
            ),
            Err(error) => r1.snapshot == r0.snapshot && history_view(r1.history@) == capped(
                history_view(r0.history@) + text_entries(
                    "!"@,
                    jump_failed_text(error@),
                    HistoryTone::Warning,
                ),
            ),
        }),
        !(old(state).screen is Running) && !(old(state).screen is Launcher) ==> final(state).screen
            == old(state).screen,
{
    state.finish_jump();
    match outcome {
        Ok(snapshot) => {
            state.update_snapshot(snapshot);
            let mut msg: Vec<char> = Vec::new();
            append_str(&mut msg, "Jumped to ");
            append_chars(&mut msg, string_chars(&target.to_string()).as_slice());
            append_str(&mut msg, ".");
            state.push_history_info(string_of(msg.as_slice()).as_str());
        },
        Err(error) => {
            let mut msg: Vec<char> = Vec::new();
            append_str(&mut msg, "Unable to jump to that time: ");
            append_chars(&mut msg, string_chars(&error).as_slice());
            append_str(&mut msg, ". Try another time.");
            state.push_history_warning(string_of(msg.as_slice()).as_str());
        },
    }
}

} // verus!
