//! Commands typed at the playback prompt.

use crate::strings::{chars_eq_str, slice_chars, string_of, trim, trim_spec};
use crate::timecode::{apply_delta_spec, parse_timecode_spec, Timecode, TimecodeParseError};
use vstd::prelude::*;

verus! {

/// Commands supported by the interactive command composer.
#[derive(Clone, Copy, Debug, Eq, PartialEq, Structural)]
pub enum Command {
    JumpAbsolute(Timecode),
    JumpRelative(i64),
    Help,
    Reopen,
    Status,
    Quit,
}

/// Errors returned when parsing user-entered commands.
#[derive(Clone, Copy, Debug, Eq, PartialEq, Structural)]
pub enum CommandParseError {
    InvalidTimecode(TimecodeParseError),
    NotATimestampCommand,
}

/// A timestamp text read as a jump, or the timestamp error.
pub open spec fn timecode_or_error(s: Seq<char>) -> Result<u64, CommandParseError> {
    match parse_timecode_spec(s) {
        Ok(n) => Ok(n),
        Err(e) => Err(CommandParseError::InvalidTimecode(e)),
    }
}

/// The delta of `+n` seconds: `n`, saturated at `i64::MAX`.
pub open spec fn forward_delta(n: int) -> i64 {
    if n > i64::MAX {
        i64::MAX
    } else {
        n as i64
    }
}

/// The delta of `-n` seconds: `-n`, saturated at `i64::MIN`.
pub open spec fn backward_delta(n: int) -> i64 {
    if n > i64::MAX {
        i64::MIN
    } else {
        (-n) as i64
    }
}

/// What a prompt line means.
pub open spec fn parse_command_spec(s: Seq<char>) -> Result<Option<Command>, CommandParseError> {
    let t = trim_spec(s);
    if t.len() == 0 {
        Ok(None)
    } else if t == "help"@ || t == "h"@ || t == "?"@ {
        Ok(Some(Command::Help))
    } else if t == "reopen"@ || t == "open"@ || t == "r"@ {
        Ok(Some(Command::Reopen))
    } else if t == "status"@ || t == "details"@ || t == "s"@ {
        Ok(Some(Command::Status))
    } else if t == "quit"@ || t == "q"@ || t == "exit"@ {
        Ok(Some(Command::Quit))
    } else if t[0] == '+' {
        match timecode_or_error(t.drop_first()) {
            Ok(n) => Ok(Some(Command::JumpRelative(forward_delta(n as int)))),
            Err(e) => Err(e),
        }
    } else if t[0] == '-' {
        match timecode_or_error(t.drop_first()) {
            Ok(n) => Ok(Some(Command::JumpRelative(backward_delta(n as int)))),
            Err(e) => Err(e),
        }
    } else {
        match timecode_or_error(t) {
            Ok(n) => Ok(Some(Command::JumpAbsolute(Timecode { seconds: n }))),
            Err(e) => Err(e),
        }
    }
}

/// Each command word, and each of its aliases, reads as that command and
/// never as a timestamp: `help`, `h`, `?`; `reopen`, `open`, `r`; `status`,
/// `details`, `s`; `quit`, `q`, `exit`. A blank line is no command.
pub proof fn lemma_command_words(line: Seq<char>)
    ensures
        trim_spec(line).len() == 0 ==> parse_command_spec(line) == Ok::<
            Option<Command>,
            CommandParseError,
        >(None),
        (trim_spec(line) == "help"@ || trim_spec(line) == "h"@ || trim_spec(line) == "?"@)
            ==> parse_command_spec(line) == Ok::<Option<Command>, CommandParseError>(
            Some(Command::Help),
        ),
        (trim_spec(line) == "reopen"@ || trim_spec(line) == "open"@ || trim_spec(line) == "r"@)
            ==> parse_command_spec(line) == Ok::<Option<Command>, CommandParseError>(
            Some(Command::Reopen),
        ),
        (trim_spec(line) == "status"@ || trim_spec(line) == "details"@ || trim_spec(line) == "s"@)
            ==> parse_command_spec(line) == Ok::<Option<Command>, CommandParseError>(
            Some(Command::Status),
        ),
        (trim_spec(line) == "quit"@ || trim_spec(line) == "q"@ || trim_spec(line) == "exit"@)
            ==> parse_command_spec(line) == Ok::<Option<Command>, CommandParseError>(
            Some(Command::Quit),
        ),
{
    reveal_strlit("help");
    reveal_strlit("h");
    reveal_strlit("?");
    reveal_strlit("reopen");
    reveal_strlit("open");
    reveal_strlit("r");
    reveal_strlit("status");
    reveal_strlit("details");
    reveal_strlit("s");
    reveal_strlit("quit");
    reveal_strlit("q");
    reveal_strlit("exit");
}

/// A relative jump goes the way its sign says: `+` never moves back and
/// `-` never moves forward, and the delta is exactly the number of seconds
/// typed whenever that fits in an `i64`.
pub proof fn lemma_relative_jump_direction(line: Seq<char>)
    ensures
        parse_command_spec(line) matches Ok(Some(Command::JumpRelative(d))) ==> ({
            let t = trim_spec(line);
            &&& t.len() > 0
            &&& (t[0] == '+' || t[0] == '-')
            &&& timecode_or_error(t.drop_first()) matches Ok(n)
            &&& t[0] == '+' ==> d >= 0 && (n <= i64::MAX ==> d == n)
            &&& t[0] == '-' ==> d <= 0 && (n <= i64::MAX ==> d == -n)
        }),
{
}

/// The target timestamp of a jump command.
pub open spec fn resolve_target_spec(estimated: Timecode, command: Command) -> Result<
    Timecode,
    CommandParseError,
> {
    match command {
        Command::JumpAbsolute(target) => Ok(target),
        Command::JumpRelative(delta) => Ok(
            Timecode { seconds: apply_delta_spec(estimated@, delta as int) as u64 },
        ),
        _ => Err(CommandParseError::NotATimestampCommand),
    }
}

/// The help text of the command composer.
pub open spec fn help_text_spec() -> Seq<char> {
    "Enter a time or command\n\
     HH:MM:SS  Jump to a time\n\
     MM:SS     Jump to a time\n\
     SS        Jump to a time\n\
     +MM:SS    Jump forward from the current time\n\
     -MM:SS    Jump back from the current time\n\
     reopen    Reopen the stream in QuickTime Player\n\
     status    Show stream and playback details\n\
     details   Show stream and playback details\n\
     help      Show commands\n\
     quit      Close QuickTime Player and Quickbridge"@
}

fn one_of(t: &[char], a: &str, b: &str, c: &str) -> (r: bool)
    ensures
        r == (t@ == a@ || t@ == b@ || t@ == c@),
{
    chars_eq_str(t, a) || chars_eq_str(t, b) || chars_eq_str(t, c)
}

fn parse_jump_time(t: &[char]) -> (r: Result<u64, CommandParseError>)
    ensures
        r == timecode_or_error(t@),
{
    let s = string_of(t);
    match Timecode::parse(s.as_str()) {
        Ok(tc) => Ok(tc.as_seconds()),
        Err(e) => Err(CommandParseError::InvalidTimecode(e)),
    }
}

/// Parse a command line entered by the user.
pub fn parse_command(line: &str) -> (r: Result<Option<Command>, CommandParseError>)
    ensures
        r == parse_command_spec(line@),
{
    let t = trim(line);
    if t.len() == 0 {
        return Ok(None);
    }
    if one_of(t.as_slice(), "help", "h", "?") {
        return Ok(Some(Command::Help));
    }
    if one_of(t.as_slice(), "reopen", "open", "r") {
        return Ok(Some(Command::Reopen));
    }
    if one_of(t.as_slice(), "status", "details", "s") {
        return Ok(Some(Command::Status));
    }
    if one_of(t.as_slice(), "quit", "q", "exit") {
        return Ok(Some(Command::Quit));
    }
    if t[0] == '+' {
        let rest = slice_chars(t.as_slice(), 1, t.len());
        assert(rest@ =~= t@.drop_first());
        let n = parse_jump_time(rest.as_slice())?;
        let delta: i64 = if n > i64::MAX as u64 {
            i64::MAX
        } else {
            n as i64
        };
        return Ok(Some(Command::JumpRelative(delta)));
    }
    if t[0] == '-' {
        let rest = slice_chars(t.as_slice(), 1, t.len());
        assert(rest@ =~= t@.drop_first());
        let n = parse_jump_time(rest.as_slice())?;
        let delta: i64 = if n > i64::MAX as u64 {
            i64::MIN
        } else {
            -(n as i64)
        };
        return Ok(Some(Command::JumpRelative(delta)));
    }
    let n = parse_jump_time(t.as_slice())?;
    Ok(Some(Command::JumpAbsolute(Timecode::from_seconds(n))))
}

/// Render help text for the command composer.
pub fn help_text() -> (s: String)
    ensures
        s@ == help_text_spec(),
{
    String::from_str(
        "Enter a time or command\n\
         HH:MM:SS  Jump to a time\n\
         MM:SS     Jump to a time\n\
         SS        Jump to a time\n\
         +MM:SS    Jump forward from the current time\n\
         -MM:SS    Jump back from the current time\n\
         reopen    Reopen the stream in QuickTime Player\n\
         status    Show stream and playback details\n\
         details   Show stream and playback details\n\
         help      Show commands\n\
         quit      Close QuickTime Player and Quickbridge",
    )
}

/// Resolve a parsed command into a concrete timestamp target.
pub fn resolve_target(estimated_position: Timecode, command: &Command) -> (r: Result<
    Timecode,
    CommandParseError,
>)
    ensures
        r == resolve_target_spec(estimated_position, *command),
{
    match command {
        Command::JumpAbsolute(target) => Ok(*target),
        Command::JumpRelative(delta) => Ok(estimated_position.apply_delta(*delta)),
        _ => Err(CommandParseError::NotATimestampCommand),
    }
}

impl CommandParseError {
    /// The message shown to the user for this error.
    pub fn message(&self) -> (s: &'static str)
        ensures
            s@ == match *self {
                CommandParseError::InvalidTimecode(e) => crate::timecode::timecode_error_message(e),
                CommandParseError::NotATimestampCommand => "enter a timestamp, such as 01:30"@,
            },
    {
        match self {
            CommandParseError::InvalidTimecode(e) => e.message(),
            CommandParseError::NotATimestampCommand => "enter a timestamp, such as 01:30",
        }
    }
}

} // verus!
