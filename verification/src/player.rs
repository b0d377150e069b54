//! QuickTime Player: the AppleScript that drives it, and what its status
//! replies mean.

use vstd::prelude::*;
use crate::diagnostics::{command_line_spec, render_command};
use crate::strings::{chars_eq_str, chars_of, string_of, trim, trim_spec};
use crate::timecode::Timecode;

verus! {

/// Where QuickTime's playhead is and whether it plays.
#[derive(Clone, Copy, Debug, PartialEq, Eq, Structural)]
pub struct PlaybackSnapshot {
    pub current_time: Timecode,
    pub playing: bool,
}

impl PlaybackSnapshot {
    pub fn current_time(&self) -> (r: Timecode)
        ensures
            r == self.current_time,
    {
        self.current_time
    }

    pub fn playing(&self) -> (r: bool)
        ensures
            r == self.playing,
    {
        self.playing
    }
}

/// What QuickTime reports about its playback.
#[derive(Clone, Copy, Debug, PartialEq, Eq, Structural)]
pub enum PlaybackStatus {
    AppClosed,
    NoDocument,
    Snapshot(PlaybackSnapshot),
}

/// Why a status reply could not be understood.
#[derive(Clone, Copy, Debug, PartialEq, Eq, Structural)]
pub enum PlayerStatusError {
    UnexpectedStatus,
    InvalidPlayhead,
    InvalidPlaybackFlag,
}

impl PlayerStatusError {
    pub fn message(&self) -> (r: &'static str)
        ensures
            r@ == match *self {
                PlayerStatusError::UnexpectedStatus => "QuickTime returned an unexpected playback status"@,
                PlayerStatusError::InvalidPlayhead => "QuickTime returned an invalid playhead"@,
                PlayerStatusError::InvalidPlaybackFlag => "QuickTime returned an invalid playback flag"@,
            },
    {
        match self {
            PlayerStatusError::UnexpectedStatus => "QuickTime returned an unexpected playback status",
            PlayerStatusError::InvalidPlayhead => "QuickTime returned an invalid playhead",
            PlayerStatusError::InvalidPlaybackFlag => "QuickTime returned an invalid playback flag",
        }
    }
}

/// The shape of a status reply: closed, without document, the playing flag
/// and playhead texts around the first `|`, or anything else.
#[derive(Clone, Debug, PartialEq, Eq)]
pub enum StatusReply {
    AppClosed,
    NoDocument,
    Fields { playing: String, current_time: String },
    Unexpected,
}

/// The position of the first `c` in `s` at `i` or later, or -1.
pub open spec fn find_char(s: Seq<char>, c: char, i: int) -> int
    decreases s.len() - i,
{
    if i < 0 || i >= s.len() {
        -1
    } else if s[i] == c {
        i
    } else {
        find_char(s, c, i + 1)
    }
}

/// The shape of the trimmed reply `t`.
pub open spec fn reply_shape(t: Seq<char>, r: StatusReply) -> bool {
    if t == "app-closed"@ {
        r == StatusReply::AppClosed
    } else if t == "no-document"@ || t.len() == 0 {
        r == StatusReply::NoDocument
    } else {
        let bar = find_char(t, '|', 0);
        if bar < 0 {
            r == StatusReply::Unexpected
        } else {
            r matches StatusReply::Fields { playing, current_time } && playing@ == t.subrange(0, bar)
                && current_time@ == t.subrange(bar + 1, t.len() as int)
        }
    }
}

/// Reads the shape of a status reply.
pub fn read_playback_status(output: &str) -> (r: StatusReply)
    ensures
        reply_shape(trim_spec(output@), r),
{
    let t = trim(output);
    if chars_eq_str(t.as_slice(), "app-closed") {
        return StatusReply::AppClosed;
    }
    if chars_eq_str(t.as_slice(), "no-document") || t.len() == 0 {
        return StatusReply::NoDocument;
    }
    let mut i: usize = 0;
    while i < t.len()
        invariant
            i <= t@.len(),
            t@ == trim_spec(output@),
            t@ != "app-closed"@,
            t@ != "no-document"@,
            t@.len() > 0,
            find_char(t@, '|', 0) == find_char(t@, '|', i as int),
        decreases t@.len() - i,
    {
        if t[i] == '|' {
            assert(find_char(t@, '|', i as int) == i as int);
            let playing = crate::strings::slice_chars(t.as_slice(), 0, i);
            let current = crate::strings::slice_chars(t.as_slice(), i + 1, t.len());
            return StatusReply::Fields {
                playing: string_of(playing.as_slice()),
                current_time: string_of(current.as_slice()),
            };
        }
        i = i + 1;
    }
    StatusReply::Unexpected
}

/// The status from the playing flag text and the playhead read from the
/// reply (`None` when it is not a valid time): the playhead is checked
/// first, then the flag must be `true` or `false`.
pub fn playback_status_from_fields(playing: &str, current_time: Option<Timecode>) -> (r: Result<
    PlaybackStatus,
    PlayerStatusError,
>)
    ensures
        r == match current_time {
            None => Err(PlayerStatusError::InvalidPlayhead),
            Some(t) => if playing@ == "true"@ {
                Ok(PlaybackStatus::Snapshot(PlaybackSnapshot { current_time: t, playing: true }))
            } else if playing@ == "false"@ {
                Ok(PlaybackStatus::Snapshot(PlaybackSnapshot { current_time: t, playing: false }))
            } else {
                Err(PlayerStatusError::InvalidPlaybackFlag)
            },
        },
{
    let t = match current_time {
        Some(t) => t,
        None => return Err(PlayerStatusError::InvalidPlayhead),
    };
    if crate::strings::str_eq(playing, "true") {
        Ok(PlaybackStatus::Snapshot(PlaybackSnapshot { current_time: t, playing: true }))
    } else if crate::strings::str_eq(playing, "false") {
        Ok(PlaybackStatus::Snapshot(PlaybackSnapshot { current_time: t, playing: false }))
    } else {
        Err(PlayerStatusError::InvalidPlaybackFlag)
    }
}

/// The arguments of `osascript` for the script lines and its arguments.
pub open spec fn osascript_args(lines: Seq<Seq<char>>, args: Seq<Seq<char>>) -> Seq<Seq<char>>
    decreases lines.len(),
{
    if lines.len() == 0 {
        if args.len() == 0 {
            Seq::empty()
        } else {
            seq!["--"@] + args
        }
    } else {
        seq!["-e"@, lines[0]] + osascript_args(lines.drop_first(), args)
    }
}

/// The texts of static strings.
pub open spec fn str_views(v: Seq<&str>) -> Seq<Seq<char>> {
    Seq::new(v.len(), |i: int| v[i]@)
}

/// The argument list of `osascript` running `lines` with `args`.
pub fn osascript_arguments(lines: &[&str], args: &[&str]) -> (r: Vec<String>)
    ensures
        crate::url::string_views(r@) == osascript_args(str_views(lines@), str_views(args@)),
{
    let mut out: Vec<String> = Vec::new();
    let mut i: usize = 0;
    let ghost all = osascript_args(str_views(lines@), str_views(args@));
    assert(str_views(lines@).subrange(0, lines@.len() as int) =~= str_views(lines@));
    assert(crate::url::string_views(out@) =~= Seq::<Seq<char>>::empty());
    assert(crate::url::string_views(out@) + all =~= all);
    while i < lines.len()
        invariant
            i <= lines@.len(),
            crate::url::string_views(out@) + osascript_args(
                str_views(lines@).subrange(i as int, lines@.len() as int),
                str_views(args@),
            ) == all,
            all == osascript_args(str_views(lines@), str_views(args@)),
        decreases lines@.len() - i,
    {
        let ghost rest = str_views(lines@).subrange(i as int, lines@.len() as int);
        assert(rest.drop_first() =~= str_views(lines@).subrange(i + 1, lines@.len() as int));
        let ghost before = out@;
        out.push("-e".to_owned());
        out.push(lines[i].to_owned());
        assert(crate::url::string_views(out@) =~= crate::url::string_views(before)
            + seq!["-e"@, lines@[i as int]@]);
        i = i + 1;
    }
    let ghost before = out@;
    assert(str_views(lines@).subrange(lines@.len() as int, lines@.len() as int) =~= Seq::<Seq<char>>::empty());
    if args.len() > 0 {
        out.push("--".to_owned());
        let mut k: usize = 0;
        while k < args.len()
            invariant
                k <= args@.len(),
                crate::url::string_views(out@) == crate::url::string_views(before)
                    + seq!["--"@] + str_views(args@).subrange(0, k as int),
            decreases args@.len() - k,
        {
            let ghost b2 = out@;
            out.push(args[k].to_owned());
            assert(crate::url::string_views(out@) =~= crate::url::string_views(b2).push(args@[k as int]@));
            assert(str_views(args@).subrange(0, k + 1) =~= str_views(args@).subrange(0, k as int).push(args@[k as int]@));
            k = k + 1;
        }
        assert(str_views(args@).subrange(0, args@.len() as int) =~= str_views(args@));
    }
    assert(crate::url::string_views(out@) =~= all);
    out
}

/// The command line of `osascript` running `lines` with `args`.
pub fn render_osascript_command(lines: &[&str], args: &[&str]) -> (r: String)
    ensures
        r@ == command_line_spec(
            "osascript"@,
            osascript_args(str_views(lines@), str_views(args@)),
        ),
{
    let rendered = osascript_arguments(lines, args);
    assert(Seq::new(rendered@.len(), |i: int| rendered@[i]@) =~= crate::url::string_views(rendered@));
    render_command("osascript", &rendered)
}

/// The lines of the script that opens a URL in QuickTime Player.
pub open spec fn open_script_lines() -> Seq<Seq<char>> {
    seq![
        "on run argv"@,
        "set targetUrl to item 1 of argv"@,
        "tell application \"QuickTime Player\" to activate"@,
        "do shell script \"open -a \" & quoted form of \"QuickTime Player\" & \" \" & quoted form of targetUrl"@,
        "end run"@,
    ]
}

/// The script that opens the stream URL in QuickTime Player.
pub fn open_script() -> (r: Vec<&'static str>)
    ensures
        str_views(r@) == open_script_lines(),
{
    let mut v: Vec<&'static str> = Vec::new();
    v.push("on run argv");
    v.push("set targetUrl to item 1 of argv");
    v.push("tell application \"QuickTime Player\" to activate");
    v.push(
        "do shell script \"open -a \" & quoted form of \"QuickTime Player\" & \" \" & quoted form of targetUrl",
    );
    v.push("end run");
    assert(str_views(v@) =~= open_script_lines());
    v
}

/// The lines of the script that closes the open document and opens a URL.
pub open spec fn reload_script_lines() -> Seq<Seq<char>> {
    seq![
        "on run argv"@,
        "set targetUrl to item 1 of argv"@,
        "tell application \"QuickTime Player\" to activate"@,
        "tell application \"QuickTime Player\" to if (count of documents) > 0 then close front document saving no"@,
        "do shell script \"open -a \" & quoted form of \"QuickTime Player\" & \" \" & quoted form of targetUrl"@,
        "end run"@,
    ]
}

/// The script that closes the open document and opens the stream URL.
pub fn reload_script() -> (r: Vec<&'static str>)
    ensures
        str_views(r@) == reload_script_lines(),
{
    let mut v: Vec<&'static str> = Vec::new();
    v.push("on run argv");
    v.push("set targetUrl to item 1 of argv");
    v.push("tell application \"QuickTime Player\" to activate");
    v.push(
        "tell application \"QuickTime Player\" to if (count of documents) > 0 then close front document saving no",
    );
    v.push(
        "do shell script \"open -a \" & quoted form of \"QuickTime Player\" & \" \" & quoted form of targetUrl",
    );
    v.push("end run");
    assert(str_views(v@) =~= reload_script_lines());
    v
}

/// The lines of the script that quits QuickTime Player when it runs.
pub open spec fn quit_script_lines() -> Seq<Seq<char>> {
    seq![
        "if application \"QuickTime Player\" is running then"@,
        "tell application \"QuickTime Player\" to quit saving no"@,
        "end if"@,
    ]
}

/// The script that quits QuickTime Player when it runs.
pub fn quit_script() -> (r: Vec<&'static str>)
    ensures
        str_views(r@) == quit_script_lines(),
{
    let mut v: Vec<&'static str> = Vec::new();
    v.push("if application \"QuickTime Player\" is running then");
    v.push("tell application \"QuickTime Player\" to quit saving no");
    v.push("end if");
    assert(str_views(v@) =~= quit_script_lines());
    v
}

/// The lines of the script that reports the playing flag and the playhead.
pub open spec fn status_script_lines() -> Seq<Seq<char>> {
    seq![
        "if application id \"com.apple.QuickTimePlayerX\" is not running then return \"app-closed\""@,
        "tell application id \"com.apple.QuickTimePlayerX\""@,
        "try"@,
        "if (count of documents) is 0 then return \"no-document\""@,
        "set movieDocument to document 1"@,
        "return ((playing of movieDocument as string) & \"|\" & (current time of movieDocument as string))"@,
        "on error"@,
        "return \"no-document\""@,
        "end try"@,
        "end tell"@,
    ]
}

/// The script that reports the playing flag and the playhead.
pub fn status_script() -> (r: Vec<&'static str>)
    ensures
        str_views(r@) == status_script_lines(),
{
    let mut v: Vec<&'static str> = Vec::new();
    v.push(
        "if application id \"com.apple.QuickTimePlayerX\" is not running then return \"app-closed\"",
    );
    v.push("tell application id \"com.apple.QuickTimePlayerX\"");
    v.push("try");
    v.push("if (count of documents) is 0 then return \"no-document\"");
    v.push("set movieDocument to document 1");
    v.push(
        "return ((playing of movieDocument as string) & \"|\" & (current time of movieDocument as string))",
    );
    v.push("on error");
    v.push("return \"no-document\"");
    v.push("end try");
    v.push("end tell");
    assert(str_views(v@) =~= status_script_lines());
    v
}

/// QuickTime Player, driven through AppleScript.
#[derive(Clone, Copy, Debug, Default, PartialEq, Eq)]
pub struct QuickTimePlayer;

impl QuickTimePlayer {
    pub fn new() -> (r: Self) {
        QuickTimePlayer
    }

    /// The command line that opens `url` in QuickTime Player.
    pub fn render_open_command(&self, url: &str) -> (r: String)
        ensures
            r@ == command_line_spec("osascript"@, osascript_args(open_script_lines(), seq![url@])),
    {
        let lines = open_script();
        let mut args: Vec<&str> = Vec::new();
        args.push(url);
        assert(str_views(args@) =~= seq![url@]);
        render_osascript_command(lines.as_slice(), args.as_slice())
    }
}

} // verus!
