//! The non-interactive front-end: the lines its plain reporters print for
//! each progress event, the selected media it lists, and what each scripted
//! command asks of the playback.

use vstd::prelude::*;
use crate::command::{
    help_text, help_text_spec, parse_command, parse_command_spec, resolve_target,
    resolve_target_spec, Command, CommandParseError,
};
use crate::media::{SeekSupport, StreamSelection};
use crate::playback::PlayerState;
use crate::progress::{JumpStep, LaunchStep, PrepareStep, ProgressEvent};
use crate::strings::{append_chars, append_str, string_chars, string_of};
use crate::terminal::RenderMode;
use crate::text::{format_playback_time, playback_time_spec};
use crate::timecode::Timecode;
use crate::url::string_views;

verus! {

/// What a finished (or, with `warned`, a warned) inspection step prints.
pub fn prepare_step_label(step: PrepareStep, warned: bool) -> (r: &'static str)
    ensures
        r@ == match step {
            PrepareStep::SourceUrl => "Checked source URL"@,
            PrepareStep::TimeJumps => if warned {
                "Time jumps aren't available"@
            } else {
                "Time jumps are available"@
            },
            PrepareStep::SourceDetails => "Read source details"@,
            PrepareStep::Tracks => "Found video and audio tracks"@,
        },
{
    match step {
        PrepareStep::SourceUrl => "Checked source URL",
        PrepareStep::TimeJumps => if warned {
            "Time jumps aren't available"
        } else {
            "Time jumps are available"
        },
        PrepareStep::SourceDetails => "Read source details",
        PrepareStep::Tracks => "Found video and audio tracks",
    }
}

/// What a start-up step prints once it ends.
pub fn launch_step_label(step: LaunchStep) -> (r: &'static str)
    ensures
        r@ == match step {
            LaunchStep::LocalStreamServer => "Started local stream server"@,
            LaunchStep::Relay => "Started ffmpeg relay"@,
            LaunchStep::Player => "Opened QuickTime Player"@,
        },
{
    match step {
        LaunchStep::LocalStreamServer => "Started local stream server",
        LaunchStep::Relay => "Started ffmpeg relay",
        LaunchStep::Player => "Opened QuickTime Player",
    }
}

/// What a jump step prints as it starts.
pub fn jump_step_label(step: JumpStep) -> (r: &'static str)
    ensures
        r@ == match step {
            JumpStep::PrepareNextStream => "Getting ready to jump"@,
            JumpStep::WaitForStream => "Waiting for the stream"@,
            JumpStep::RefreshPlayer => "Refreshing QuickTime Player"@,
            JumpStep::CleanupPreviousSession => "Cleaning up the last session"@,
        },
{
    match step {
        JumpStep::PrepareNextStream => "Getting ready to jump",
        JumpStep::WaitForStream => "Waiting for the stream",
        JumpStep::RefreshPlayer => "Refreshing QuickTime Player",
        JumpStep::CleanupPreviousSession => "Cleaning up the last session",
    }
}

/// A reporter that prints each stage's title once, then a line per step
/// that ends.
#[derive(Clone, Copy, Debug, PartialEq, Eq)]
pub struct PlainStageReporter {
    pub title: &'static str,
    pub verbose: bool,
    pub title_printed: bool,
}

/// The title, when it is not printed yet.
pub open spec fn title_lines(r: PlainStageReporter) -> Seq<Seq<char>> {
    if r.title_printed {
        Seq::empty()
    } else {
        seq![r.title@]
    }
}

/// Each detail indented under a warned step.
pub open spec fn detail_lines(details: Seq<Seq<char>>) -> Seq<Seq<char>> {
    Seq::new(details.len(), |i: int| "      "@ + details[i])
}

/// The lines an inspection event prints after the title.
pub open spec fn prepare_event_lines(e: ProgressEvent<PrepareStep>, verbose: bool) -> Seq<Seq<char>> {
    match e {
        ProgressEvent::Started { .. } => Seq::empty(),
        ProgressEvent::Finished { step } => seq!["✓ "@ + prepare_label_text(step, false)],
        ProgressEvent::Warned { step, details } => seq!["! "@ + prepare_label_text(step, true)] + if verbose {
            detail_lines(string_views(details@))
        } else {
            Seq::empty()
        },
    }
}

/// The label of an ended inspection step.
pub open spec fn prepare_label_text(step: PrepareStep, warned: bool) -> Seq<char> {
    match step {
        PrepareStep::SourceUrl => "Checked source URL"@,
        PrepareStep::TimeJumps => if warned {
            "Time jumps aren't available"@
        } else {
            "Time jumps are available"@
        },
        PrepareStep::SourceDetails => "Read source details"@,
        PrepareStep::Tracks => "Found video and audio tracks"@,
    }
}

/// The label of an ended start-up step.
pub open spec fn launch_label_text(step: LaunchStep) -> Seq<char> {
    match step {
        LaunchStep::LocalStreamServer => "Started local stream server"@,
        LaunchStep::Relay => "Started ffmpeg relay"@,
        LaunchStep::Player => "Opened QuickTime Player"@,
    }
}

/// The lines a start-up event prints after the title.
pub open spec fn launch_event_lines(e: ProgressEvent<LaunchStep>) -> Seq<Seq<char>> {
    match e {
        ProgressEvent::Started { .. } => Seq::empty(),
        ProgressEvent::Finished { step } => seq!["✓ "@ + launch_label_text(step)],
        ProgressEvent::Warned { step, .. } => seq!["! "@ + launch_label_text(step)],
    }
}

fn push_text(out: &mut Vec<String>, prefix: &str, text: &str)
    ensures
        string_views(final(out)@) == string_views(old(out)@).push(prefix@ + text@),
{
    let mut line: Vec<char> = Vec::new();
    append_str(&mut line, prefix);
    append_str(&mut line, text);
    let ghost before = string_views(out@);
    out.push(string_of(line.as_slice()));
    assert(string_views(out@) =~= before.push(prefix@ + text@));
}

impl PlainStageReporter {
    pub fn new(title: &'static str, verbose: bool) -> (r: Self)
        ensures
            r == (PlainStageReporter { title, verbose, title_printed: false }),
    {
        PlainStageReporter { title, verbose, title_printed: false }
    }

    fn title_once(&mut self, out: &mut Vec<String>)
        requires
            old(out)@.len() == 0,
        ensures
            string_views(final(out)@) == title_lines(*old(self)),
            *final(self) == (PlainStageReporter { title_printed: true, ..*old(self) }),
    {
        if !self.title_printed {
            out.push(self.title.to_owned());
            self.title_printed = true;
        }
        assert(string_views(out@) =~= title_lines(*old(self)));
    }

    /// The lines an inspection event prints: the title the first time, then
    /// the ended step, and a warning's details when verbose.
    pub fn prepare_lines(&mut self, event: ProgressEvent<PrepareStep>) -> (r: Vec<String>)
        ensures
            string_views(r@) == title_lines(*old(self)) + prepare_event_lines(event, old(self).verbose),
            *final(self) == (PlainStageReporter { title_printed: true, ..*old(self) }),
    {
        let mut out: Vec<String> = Vec::new();
        self.title_once(&mut out);
        let ghost head = string_views(out@);
        match event {
            ProgressEvent::Started { .. } => {},
            ProgressEvent::Finished { step } => push_text(&mut out, "✓ ", prepare_step_label(step, false)),
            ProgressEvent::Warned { step, details } => {
                push_text(&mut out, "! ", prepare_step_label(step, true));
                if self.verbose {
                    let ghost mid = string_views(out@);
                    let mut i: usize = 0;
                    while i < details.len()
                        invariant
                            i <= details@.len(),
                            string_views(out@) =~= mid + detail_lines(string_views(details@)).subrange(
                                0,
                                i as int,
                            ),
                        decreases details@.len() - i,
                    {
                        push_text(&mut out, "      ", details[i].as_str());
                        i = i + 1;
                    }
                    assert(detail_lines(string_views(details@)).subrange(0, details@.len() as int)
                        =~= detail_lines(string_views(details@)));
                }
            },
        }
        assert(string_views(out@) =~= head + prepare_event_lines(event, old(self).verbose));
        out
    }

    /// The lines a start-up event prints: the title the first time, then
    /// the ended step.
    pub fn launch_lines(&mut self, event: ProgressEvent<LaunchStep>) -> (r: Vec<String>)
        ensures
            string_views(r@) == title_lines(*old(self)) + launch_event_lines(event),
            *final(self) == (PlainStageReporter { title_printed: true, ..*old(self) }),
    {
        let mut out: Vec<String> = Vec::new();
        self.title_once(&mut out);
        let ghost head = string_views(out@);
        match event {
            ProgressEvent::Started { .. } => {},
            ProgressEvent::Finished { step } => push_text(&mut out, "✓ ", launch_step_label(step)),
            ProgressEvent::Warned { step, .. } => push_text(&mut out, "! ", launch_step_label(step)),
        }
        assert(string_views(out@) =~= head + launch_event_lines(event));
        out
    }
}

/// A reporter that prints each jump step once, as it starts.
#[derive(Clone, Copy, Debug, PartialEq, Eq, Structural)]
pub struct PlainJumpReporter {
    pub last_step: Option<JumpStep>,
}

/// The label of a starting jump step.
pub open spec fn jump_label_text(step: JumpStep) -> Seq<char> {
    match step {
        JumpStep::PrepareNextStream => "Getting ready to jump"@,
        JumpStep::WaitForStream => "Waiting for the stream"@,
        JumpStep::RefreshPlayer => "Refreshing QuickTime Player"@,
        JumpStep::CleanupPreviousSession => "Cleaning up the last session"@,
    }
}

impl PlainJumpReporter {
    pub fn new() -> (r: Self)
        ensures
            r.last_step is None,
    {
        PlainJumpReporter { last_step: None }
    }

    /// The line a jump event prints: a step that starts and was not the last
    /// one printed.
    pub fn jump_lines(&mut self, event: ProgressEvent<JumpStep>) -> (r: Vec<String>)
        ensures
            match event {
                ProgressEvent::Started { step, .. } => if old(self).last_step != Some(step) {
                    string_views(r@) == seq!["• "@ + jump_label_text(step)] && final(self).last_step
                        == Some(step)
                } else {
                    r@.len() == 0 && *final(self) == *old(self)
                },
                _ => r@.len() == 0 && *final(self) == *old(self),
            },
    {
        let mut out: Vec<String> = Vec::new();
        if let ProgressEvent::Started { step, .. } = event {
            let repeated = match self.last_step {
                Some(last) => last == step,
                None => false,
            };
            if !repeated {
                push_text(&mut out, "• ", jump_step_label(step));
                self.last_step = Some(step);
            }
        }
        out
    }
}

/// The selected media as the plain front-end lists it: the heading, the
/// file name, the audio summary when there is audio, and the size.
pub open spec fn selected_media_spec(filename: Seq<char>, selection: StreamSelection, size: Seq<char>) -> Seq<
    Seq<char>,
> {
    seq!["Selected media"@, filename] + match selection.audio {
        Some(a) => seq![a.display_line@],
        None => Seq::empty(),
    } + seq![size]
}

/// The lines listing the selected media.
pub fn selected_media_lines(filename: &str, selection: &StreamSelection, size: &str) -> (r: Vec<String>)
    ensures
        string_views(r@) == selected_media_spec(filename@, *selection, size@),
{
    let mut out: Vec<String> = Vec::new();
    out.push("Selected media".to_owned());
    out.push(filename.to_owned());
    if let Some(summary) = selection.selected_audio_summary() {
        out.push(summary);
    }
    out.push(size.to_owned());
    assert(string_views(out@) =~= selected_media_spec(filename@, *selection, size@));
    out
}

/// What a scripted command asks for.
#[derive(Clone, Debug, PartialEq, Eq)]
pub enum ScriptStep {
    /// Print this help text.
    Help(String),
    Reopen,
    /// Take a snapshot and print the status report.
    Status,
    Quit,
    /// Switch playback to this time.
    Jump(Timecode),
    /// Print this line: the source cannot jump.
    Unavailable(String),
}

/// Why a scripted command cannot run.
#[derive(Clone, Copy, Debug, PartialEq, Eq, Structural)]
pub enum ScriptError {
    /// The line is not a command.
    Parse(CommandParseError),
    /// The line is empty.
    Empty,
}

/// What the scripted `line` asks for, with the playback at `now`.
pub open spec fn script_step_ok(line: Seq<char>, seek: SeekSupport, now: Timecode, r: Result<ScriptStep, ScriptError>) -> bool {
    match parse_command_spec(line) {
        Err(e) => r == Err::<ScriptStep, ScriptError>(ScriptError::Parse(e)),
        Ok(None) => r == Err::<ScriptStep, ScriptError>(ScriptError::Empty),
        Ok(Some(c)) => match c {
            Command::Help => r matches Ok(ScriptStep::Help(t)) && t@ == help_text_spec(),
            Command::Reopen => r == Ok::<ScriptStep, ScriptError>(ScriptStep::Reopen),
            Command::Status => r == Ok::<ScriptStep, ScriptError>(ScriptStep::Status),
            Command::Quit => r == Ok::<ScriptStep, ScriptError>(ScriptStep::Quit),
            _ => match seek {
                SeekSupport::Disabled { warning } => r matches Ok(ScriptStep::Unavailable(m)) && m@
                    == "Jumping to a different time isn't available: "@ + warning@,
                SeekSupport::Enabled => match resolve_target_spec(now, c) {
                    Ok(t) => r == Ok::<ScriptStep, ScriptError>(ScriptStep::Jump(t)),
                    Err(e) => r == Err::<ScriptStep, ScriptError>(ScriptError::Parse(e)),
                },
            },
        },
    }
}

/// What the scripted `line` asks for: help, reopen, status, quit, or a jump
/// from `now` when the source can jump.
pub fn script_step(line: &str, seek_support: &SeekSupport, now: Timecode) -> (r: Result<
    ScriptStep,
    ScriptError,
>)
    ensures
        script_step_ok(line@, *seek_support, now, r),
{
    let command = match parse_command(line) {
        Ok(Some(c)) => c,
        Ok(None) => {
            return Err(ScriptError::Empty);
        },
        Err(e) => {
            return Err(ScriptError::Parse(e));
        },
    };
    match command {
        Command::Help => Ok(ScriptStep::Help(help_text())),
        Command::Reopen => Ok(ScriptStep::Reopen),
        Command::Status => Ok(ScriptStep::Status),
        Command::Quit => Ok(ScriptStep::Quit),
        _ => match seek_support {
            SeekSupport::Disabled { warning } => {
                let mut m: Vec<char> = Vec::new();
                append_str(&mut m, "Jumping to a different time isn't available: ");
                append_chars(&mut m, string_chars(warning).as_slice());
                Ok(ScriptStep::Unavailable(string_of(m.as_slice())))
            },
            SeekSupport::Enabled => match resolve_target(now, &command) {
                Ok(t) => Ok(ScriptStep::Jump(t)),
                Err(e) => Err(ScriptError::Parse(e)),
            },
        },
    }
}

/// The playback line of the line-based prompt: the time, marked when paused.
pub fn live_status_line(position: Timecode, total: Option<Timecode>, state: PlayerState) -> (r: String)
    ensures
        r@ == if state == PlayerState::Paused {
            playback_time_spec(position, total) + " (Paused)"@
        } else {
            playback_time_spec(position, total)
        },
{
    let time = format_playback_time(position, total);
    match state {
        PlayerState::Paused => {
            let mut out = string_chars(&time);
            append_str(&mut out, " (Paused)");
            string_of(out.as_slice())
        },
        _ => time,
    }
}

/// The warning of the line-based prompt for a player state, if any.
pub open spec fn live_warning_text(state: PlayerState) -> Option<Seq<char>> {
    match state {
        PlayerState::WindowClosed => Some(
            "QuickTime Player window is closed. Type `reopen` to open the stream again."@,
        ),
        PlayerState::AppClosed => Some("QuickTime Player is closed. Type `reopen` to open the stream again."@),
        PlayerState::Unavailable => Some("QuickTime Player status isn't available right now."@),
        _ => None,
    }
}

/// The warning line of the line-based prompt for a player state, if any.
pub fn live_warning_line(state: PlayerState, mode: RenderMode) -> (r: Option<String>)
    ensures
        match live_warning_text(state) {
            Some(t) => r matches Some(s) && s@ == match mode {
                RenderMode::Ansi => "\x1b[1;38;5;136m[WARN]\x1b[0m "@ + t,
                RenderMode::Plain => "[WARN] "@ + t,
            },
            None => r is None,
        },
{
    let text = match state {
        PlayerState::WindowClosed => "QuickTime Player window is closed. Type `reopen` to open the stream again.",
        PlayerState::AppClosed => "QuickTime Player is closed. Type `reopen` to open the stream again.",
        PlayerState::Unavailable => "QuickTime Player status isn't available right now.",
        _ => {
            return None;
        },
    };
    Some(crate::terminal::format_warning(text, mode))
}

/// The key under which the line-based prompt redraws: one per player state.
pub fn live_prompt_state_key(state: PlayerState) -> (r: &'static str)
    ensures
        r@ == match state {
            PlayerState::Playing => "playing"@,
            PlayerState::Paused => "paused"@,
            PlayerState::WindowClosed => "window-closed"@,
            PlayerState::AppClosed => "app-closed"@,
            PlayerState::Unavailable => "unavailable"@,
        },
{
    match state {
        PlayerState::Playing => "playing",
        PlayerState::Paused => "paused",
        PlayerState::WindowClosed => "window-closed",
        PlayerState::AppClosed => "app-closed",
        PlayerState::Unavailable => "unavailable",
    }
}

} // verus!
