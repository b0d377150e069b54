//! The short texts the full-screen front-end shows: compact track labels,
//! step labels, footers and hints, the player line, and the visible part of
//! an input line.

use vstd::prelude::*;
use crate::editor::{is_boundary, locate};
use crate::media::{AudioStream, VideoStream, mentions_atmos};
use crate::playback::PlayerState;
use crate::progress::{JumpStep, LaunchStep, PrepareStep};
use crate::strings::{
    append_chars, append_decimal, append_str, chars_eq_str, chars_of, decimal, join, join_spec,
    has_prefix, slice_chars, starts_with, string_chars, string_of, trim, trim_spec, vec_views,
};
use crate::text::{
    format_bytes, format_bytes_per_second, format_playback_time, playback_time_spec,
    short_bytes_spec,
};
use crate::timecode::hms_spec;
use crate::ui::{
    AppState, LauncherState, ProgressStatus, RunningState, Screen, SelectionFocus,
    TrackSelectionState,
};

verus! {

/// ASCII uppercase of one character.
pub open spec fn ascii_upper(c: char) -> char {
    if 'a' <= c && c <= 'z' {
        ((c as int) - 32) as char
    } else {
        c
    }
}

/// ASCII uppercase of a text, as `str::to_ascii_uppercase`.
pub open spec fn ascii_upper_seq(s: Seq<char>) -> Seq<char> {
    Seq::new(s.len(), |i: int| ascii_upper(s[i]))
}

/// The characters with ASCII letters raised.
pub fn to_ascii_upper(s: &[char]) -> (r: Vec<char>)
    ensures
        r@ == ascii_upper_seq(s@),
{
    let mut r: Vec<char> = Vec::new();
    let mut i: usize = 0;
    while i < s.len()
        invariant
            i <= s@.len(),
            r@ =~= ascii_upper_seq(s@.subrange(0, i as int)),
        decreases s@.len() - i,
    {
        let c = s[i];
        let u = if 'a' <= c && c <= 'z' {
            ((c as u32) - 32) as u8 as char
        } else {
            c
        };
        assert(u == ascii_upper(c)) by {
            if 'a' <= c && c <= 'z' {
                assert(((c as u32) - 32) < 256);
            }
        }
        r.push(u);
        i = i + 1;
    }
    assert(s@.subrange(0, s@.len() as int) =~= s@);
    r
}

/// Whether an optional text is the literal.
pub open spec fn text_is(o: Option<String>, lit: Seq<char>) -> bool {
    o matches Some(s) && s@ == lit
}

fn opt_is(o: &Option<String>, lit: &str) -> (r: bool)
    ensures
        r == text_is(*o, lit@),
{
    match o {
        Some(s) => chars_eq_str(string_chars(s).as_slice(), lit),
        None => false,
    }
}

/// The codec of a video track as the track menus name it.
pub open spec fn video_codec_text(c: Option<String>) -> Seq<char> {
    match c {
        Some(s) => if s@ == "h264"@ {
            "H.264"@
        } else if s@ == "hevc"@ {
            "HEVC"@
        } else {
            ascii_upper_seq(s@)
        },
        None => "Unknown codec"@,
    }
}

/// The dynamic range of a video track: its Dolby Vision profile, else what
/// its transfer function tells.
pub open spec fn dynamic_range_text(v: VideoStream) -> Seq<char> {
    match v.dolby_vision {
        Some(c) => "Dolby Vision P"@ + decimal(c.profile as nat),
        None => if text_is(v.color_transfer, "smpte2084"@) {
            "HDR10"@
        } else if text_is(v.color_transfer, "arib-std-b67"@) {
            "HLG"@
        } else {
            "SDR"@
        },
    }
}

/// The size of a video track, when both sides are known.
pub open spec fn resolution_text(v: VideoStream) -> Seq<char> {
    match (v.width, v.height) {
        (Some(w), Some(h)) => decimal(w as nat) + "×"@ + decimal(h as nat),
        _ => "Unknown resolution"@,
    }
}

/// The compact label of a video track.
pub open spec fn video_label_spec(v: VideoStream) -> Seq<char> {
    video_codec_text(v.codec_name) + " • "@ + resolution_text(v) + " • "@ + dynamic_range_text(v) + if v.is_default {
        " • default"@
    } else {
        Seq::empty()
    }
}

fn video_codec_chars(c: &Option<String>) -> (r: Vec<char>)
    ensures
        r@ == video_codec_text(*c),
{
    proof {
        reveal_strlit("h264");
        reveal_strlit("hevc");
    }
    if opt_is(c, "h264") {
        chars_of("H.264")
    } else if opt_is(c, "hevc") {
        chars_of("HEVC")
    } else {
        match c {
            Some(s) => to_ascii_upper(string_chars(s).as_slice()),
            None => chars_of("Unknown codec"),
        }
    }
}

fn resolution_chars(stream: &VideoStream) -> (r: Vec<char>)
    ensures
        r@ == resolution_text(*stream),
{
    let mut out: Vec<char> = Vec::new();
    match (stream.width, stream.height) {
        (Some(w), Some(h)) => {
            append_decimal(&mut out, w as u64);
            append_str(&mut out, "×");
            append_decimal(&mut out, h as u64);
        },
        _ => append_str(&mut out, "Unknown resolution"),
    }
    out
}

fn dynamic_range_chars(stream: &VideoStream) -> (r: Vec<char>)
    ensures
        r@ == dynamic_range_text(*stream),
{
    let mut out: Vec<char> = Vec::new();
    match stream.dolby_vision {
        Some(c) => {
            append_str(&mut out, "Dolby Vision P");
            append_decimal(&mut out, c.profile as u64);
        },
        None => {
            if opt_is(&stream.color_transfer, "smpte2084") {
                append_str(&mut out, "HDR10");
            } else if opt_is(&stream.color_transfer, "arib-std-b67") {
                append_str(&mut out, "HLG");
            } else {
                append_str(&mut out, "SDR");
            }
        },
    }
    out
}

/// The compact label of a video track: codec, size, dynamic range, and
/// whether it is the default.
pub fn compact_video_label(stream: &VideoStream) -> (r: String)
    ensures
        r@ == video_label_spec(*stream),
{
    let mut out = video_codec_chars(&stream.codec_name);
    append_str(&mut out, " • ");
    append_chars(&mut out, resolution_chars(stream).as_slice());
    append_str(&mut out, " • ");
    append_chars(&mut out, dynamic_range_chars(stream).as_slice());
    if stream.is_default {
        append_str(&mut out, " • default");
    }
    assert(out@ =~= video_label_spec(*stream));
    string_of(out.as_slice())
}

/// `label` cut to `width` characters, the last one replaced by an ellipsis
/// when it is cut.
pub open spec fn truncate_spec(label: Seq<char>, width: nat) -> Seq<char> {
    if label.len() <= width {
        label
    } else if width <= 1 {
        seq!['…']
    } else {
        label.subrange(0, width - 1).push('…')
    }
}

fn truncate_chars(label: &[char], width: usize) -> (r: Vec<char>)
    ensures
        r@ == truncate_spec(label@, width as nat),
{
    if label.len() <= width {
        return crate::strings::slice_chars(label, 0, label.len());
    }
    if width <= 1 {
        let mut v: Vec<char> = Vec::new();
        v.push('…');
        return v;
    }
    let mut v = crate::strings::slice_chars(label, 0, width - 1);
    v.push('…');
    v
}

/// `label` cut to `width` characters with a trailing ellipsis.
pub fn truncate_label(label: &str, width: usize) -> (r: String)
    ensures
        r@ == truncate_spec(label@, width as nat),
{
    string_of(truncate_chars(chars_of(label).as_slice(), width).as_slice())
}

/// Who an audio track is for: its title when it has text, else its
/// language, else unknown.
pub open spec fn audio_identity(a: AudioStream) -> Seq<char> {
    match a.title {
        Some(t) if trim_spec(t@).len() > 0 => t@,
        _ => match a.language {
            Some(l) if l@.len() > 0 => l@,
            _ => "Unknown language"@,
        },
    }
}

/// The codec of an audio track as the menus name it.
pub open spec fn audio_codec_text(c: Option<String>) -> Seq<char> {
    match c {
        Some(s) => if s@ == "truehd"@ {
            "TrueHD"@
        } else if s@ == "eac3"@ {
            "E-AC-3"@
        } else if s@ == "ac3"@ {
            "AC-3"@
        } else if s@ == "aac"@ {
            "AAC"@
        } else if s@ == "dts"@ {
            "DTS"@
        } else {
            s@
        },
        None => "Unknown codec"@,
    }
}

/// The codec text, with the conversion to ALAC for TrueHD and DTS.
pub open spec fn audio_handling_text(c: Option<String>) -> Seq<char> {
    if text_is(c, "truehd"@) || text_is(c, "dts"@) {
        audio_codec_text(c) + " → ALAC"@
    } else {
        audio_codec_text(c)
    }
}

/// The channels of an audio track: its layout, else its channel count.
pub open spec fn audio_channels_text(a: AudioStream) -> Option<Seq<char>> {
    match a.channel_layout {
        Some(l) => Some(l@),
        None => match a.channels {
            Some(n) => Some(decimal(n as nat) + " ch"@),
            None => None,
        },
    }
}

/// The parts of an audio label, in order.
pub open spec fn audio_label_parts(a: AudioStream) -> Seq<Seq<char>> {
    seq![audio_identity(a), audio_handling_text(a.codec_name)] + match audio_channels_text(a) {
        Some(c) => seq![c],
        None => Seq::empty(),
    } + if mentions_atmos(a.profile) || mentions_atmos(a.title) {
        seq!["Atmos"@]
    } else {
        Seq::empty()
    } + if a.is_default {
        seq!["default"@]
    } else {
        Seq::empty()
    }
}

/// The compact label of an audio track, cut to `width` characters.
pub open spec fn audio_label_spec(a: AudioStream, width: nat) -> Seq<char> {
    truncate_spec(join_spec(audio_label_parts(a), " • "@), width)
}

fn push_part(parts: &mut Vec<Vec<char>>, part: Vec<char>)
    ensures
        vec_views(final(parts)@) == vec_views(old(parts)@).push(part@),
{
    let ghost before = vec_views(parts@);
    parts.push(part);
    assert(vec_views(parts@) =~= before.push(part@));
}

/// The compact label of an audio track: who it is for, its codec and
/// conversion, channels, Atmos and default, cut to `width` characters.
pub fn compact_audio_label(stream: &AudioStream, width: usize) -> (r: String)
    ensures
        r@ == audio_label_spec(*stream, width as nat),
{
    let mut parts: Vec<Vec<char>> = Vec::new();
    let identity = match &stream.title {
        Some(t) if trim(t.as_str()).len() > 0 => string_chars(t),
        _ => match &stream.language {
            Some(l) if l.as_str().unicode_len() > 0 => string_chars(l),
            _ => chars_of("Unknown language"),
        },
    };
    push_part(&mut parts, identity);
    let mut codec: Vec<char> = Vec::new();
    if opt_is(&stream.codec_name, "truehd") {
        append_str(&mut codec, "TrueHD");
    } else if opt_is(&stream.codec_name, "eac3") {
        append_str(&mut codec, "E-AC-3");
    } else if opt_is(&stream.codec_name, "ac3") {
        append_str(&mut codec, "AC-3");
    } else if opt_is(&stream.codec_name, "aac") {
        append_str(&mut codec, "AAC");
    } else if opt_is(&stream.codec_name, "dts") {
        append_str(&mut codec, "DTS");
    } else {
        match &stream.codec_name {
            Some(c) => append_chars(&mut codec, string_chars(c).as_slice()),
            None => append_str(&mut codec, "Unknown codec"),
        }
    }
    if opt_is(&stream.codec_name, "truehd") || opt_is(&stream.codec_name, "dts") {
        append_str(&mut codec, " → ALAC");
    }
    push_part(&mut parts, codec);
    match &stream.channel_layout {
        Some(l) => push_part(&mut parts, string_chars(l)),
        None => match stream.channels {
            Some(n) => {
                let mut c: Vec<char> = Vec::new();
                append_decimal(&mut c, n as u64);
                append_str(&mut c, " ch");
                push_part(&mut parts, c);
            },
            None => {},
        },
    }
    if stream.is_atmos() {
        push_part(&mut parts, chars_of("Atmos"));
    }
    if stream.is_default {
        push_part(&mut parts, chars_of("default"));
    }
    assert(vec_views(parts@) =~= audio_label_parts(*stream));
    let joined = join(&parts, " • ");
    string_of(truncate_chars(joined.as_slice(), width).as_slice())
}

/// The label of an inspection step in each state.
pub fn prepare_label(step: PrepareStep, status: ProgressStatus) -> (r: &'static str)
    ensures
        r@ == match step {
            PrepareStep::SourceUrl => match status {
                ProgressStatus::Pending => "Source URL"@,
                ProgressStatus::Active => "Checking source URL"@,
                _ => "Checked source URL"@,
            },
            PrepareStep::TimeJumps => match status {
                ProgressStatus::Pending => "Time jumps"@,
                ProgressStatus::Active => "Checking whether time jumps are available"@,
                ProgressStatus::Done => "Time jumps are available"@,
                ProgressStatus::Warn => "Time jumps aren't available"@,
            },
            PrepareStep::SourceDetails => match status {
                ProgressStatus::Active => "Reading source details"@,
                _ => "Read source details"@,
            },
            PrepareStep::Tracks => match status {
                ProgressStatus::Active => "Finding video and audio tracks"@,
                _ => "Found video and audio tracks"@,
            },
        },
{
    match step {
        PrepareStep::SourceUrl => match status {
            ProgressStatus::Pending => "Source URL",
            ProgressStatus::Active => "Checking source URL",
            _ => "Checked source URL",
        },
        PrepareStep::TimeJumps => match status {
            ProgressStatus::Pending => "Time jumps",
            ProgressStatus::Active => "Checking whether time jumps are available",
            ProgressStatus::Done => "Time jumps are available",
            ProgressStatus::Warn => "Time jumps aren't available",
        },
        PrepareStep::SourceDetails => match status {
            ProgressStatus::Active => "Reading source details",
            _ => "Read source details",
        },
        PrepareStep::Tracks => match status {
            ProgressStatus::Active => "Finding video and audio tracks",
            _ => "Found video and audio tracks",
        },
    }
}

/// The label of a start-up step in each state.
pub fn launch_label(step: LaunchStep, status: ProgressStatus) -> (r: &'static str)
    ensures
        r@ == match step {
            LaunchStep::LocalStreamServer => match status {
                ProgressStatus::Pending => "Local stream server"@,
                ProgressStatus::Active => "Starting local stream server"@,
                _ => "Started local stream server"@,
            },
            LaunchStep::Relay => match status {
                ProgressStatus::Pending => "ffmpeg relay"@,
                ProgressStatus::Active => "Starting ffmpeg relay"@,
                _ => "Started ffmpeg relay"@,
            },
            LaunchStep::Player => match status {
                ProgressStatus::Pending => "QuickTime Player"@,
                ProgressStatus::Active => "Opening QuickTime Player"@,
                _ => "Opened QuickTime Player"@,
            },
        },
{
    match step {
        LaunchStep::LocalStreamServer => match status {
            ProgressStatus::Pending => "Local stream server",
            ProgressStatus::Active => "Starting local stream server",
            _ => "Started local stream server",
        },
        LaunchStep::Relay => match status {
            ProgressStatus::Pending => "ffmpeg relay",
            ProgressStatus::Active => "Starting ffmpeg relay",
            _ => "Started ffmpeg relay",
        },
        LaunchStep::Player => match status {
            ProgressStatus::Pending => "QuickTime Player",
            ProgressStatus::Active => "Opening QuickTime Player",
            _ => "Opened QuickTime Player",
        },
    }
}

/// The label of a jump step, the same in every state.
pub fn jump_label(step: JumpStep, status: ProgressStatus) -> (r: &'static str)
    ensures
        r@ == match step {
            JumpStep::PrepareNextStream => "Preparing the next stream"@,
            JumpStep::WaitForStream => "Waiting for the stream"@,
            JumpStep::RefreshPlayer => "Refreshing QuickTime Player"@,
            JumpStep::CleanupPreviousSession => "Cleaning up the last session"@,
        },
{
    match step {
        JumpStep::PrepareNextStream => "Preparing the next stream",
        JumpStep::WaitForStream => "Waiting for the stream",
        JumpStep::RefreshPlayer => "Refreshing QuickTime Player",
        JumpStep::CleanupPreviousSession => "Cleaning up the last session",
    }
}

/// The warning under the activity of a running session: the last player
/// error, else what the player state asks of the user.
pub open spec fn live_warning_spec(r: RunningState) -> Option<Seq<char>> {
    match r.player_action_error {
        Some(e) => Some("[WARN] "@ + e@),
        None => match r.snapshot.player_state {
            PlayerState::WindowClosed => Some(
                "[WARN] QuickTime Player window is closed — type `reopen`."@,
            ),
            PlayerState::AppClosed => Some("[WARN] QuickTime Player is closed — type `reopen`."@),
            PlayerState::Unavailable => Some(
                "[WARN] QuickTime Player status isn't available right now."@,
            ),
            _ => None,
        },
    }
}

/// The warning under the activity of a running session, if any.
pub fn live_warning_line(running: &RunningState) -> (r: Option<String>)
    ensures
        crate::strings::opt_view(r) == live_warning_spec(*running),
{
    if let Some(error) = &running.player_action_error {
        let mut out: Vec<char> = Vec::new();
        append_str(&mut out, "[WARN] ");
        append_chars(&mut out, string_chars(error).as_slice());
        return Some(string_of(out.as_slice()));
    }
    match running.snapshot.player_state {
        PlayerState::WindowClosed => Some(
            "[WARN] QuickTime Player window is closed — type `reopen`.".to_owned(),
        ),
        PlayerState::AppClosed => Some("[WARN] QuickTime Player is closed — type `reopen`.".to_owned()),
        PlayerState::Unavailable => Some(
            "[WARN] QuickTime Player status isn't available right now.".to_owned(),
        ),
        _ => None,
    }
}

/// The symbol and the name of a player state on the dashboard.
pub fn player_state_label(state: PlayerState) -> (r: (&'static str, &'static str))
    ensures
        (r.0@, r.1@) == match state {
            PlayerState::Playing => ("▶"@, "Playing"@),
            PlayerState::Paused => ("Ⅱ"@, "Paused"@),
            PlayerState::WindowClosed => ("!"@, "Window closed"@),
            PlayerState::AppClosed => ("!"@, "App closed"@),
            PlayerState::Unavailable => ("?"@, "Unavailable"@),
        },
{
    match state {
        PlayerState::Playing => ("▶", "Playing"),
        PlayerState::Paused => ("Ⅱ", "Paused"),
        PlayerState::WindowClosed => ("!", "Window closed"),
        PlayerState::AppClosed => ("!", "App closed"),
        PlayerState::Unavailable => ("?", "Unavailable"),
    }
}

/// The key hint of the track menus.
pub fn track_selection_hint(selection: &TrackSelectionState) -> (r: &'static str)
    ensures
        r@ == if selection.focus == SelectionFocus::Video && selection.request.audios@.len() > 0 {
            "↑↓ choose  •  Enter audio"@
        } else {
            "↑↓ choose  •  Enter play  •  Tab switch"@
        },
{
    match selection.focus {
        SelectionFocus::Video => if selection.request.audios.len() > 0 {
            "↑↓ choose  •  Enter audio"
        } else {
            "↑↓ choose  •  Enter play  •  Tab switch"
        },
        _ => "↑↓ choose  •  Enter play  •  Tab switch",
    }
}

/// The key hint at the foot of the workspace.
pub open spec fn footer_spec(s: Screen) -> Seq<char> {
    match s {
        Screen::Launcher(_) => "Enter inspect source  •  F1 help  •  Ctrl+C quit"@,
        Screen::Inspecting { .. } => "Ctrl+C cancel"@,
        Screen::TrackSelection(t) => if t.focus == SelectionFocus::Video && t.request.audios@.len()
            > 0 {
            "↑↓ choose  •  Enter audio"@
        } else {
            "↑↓ choose  •  Enter play  •  Tab switch"@
        },
        Screen::Starting { .. } => "Ctrl+C cancel"@,
        Screen::Running(_) => "Enter run  •  PgUp/PgDn activity  •  Esc clear/close  •  Ctrl+C quit"@,
        Screen::SourceError(e) => if e.editing {
            "Enter try again  •  Esc cancel"@
        } else {
            "R try again  •  E edit URL  •  Q quit"@
        },
    }
}

/// The key hint at the foot of the workspace for the screen shown.
pub fn workspace_footer(state: &AppState) -> (r: &'static str)
    ensures
        r@ == footer_spec(state.screen),
{
    match &state.screen {
        Screen::Launcher(_) => "Enter inspect source  •  F1 help  •  Ctrl+C quit",
        Screen::Inspecting { .. } => "Ctrl+C cancel",
        Screen::TrackSelection(selection) => track_selection_hint(selection),
        Screen::Starting { .. } => "Ctrl+C cancel",
        Screen::Running(_) => "Enter run  •  PgUp/PgDn activity  •  Esc clear/close  •  Ctrl+C quit",
        Screen::SourceError(error) => if error.editing {
            "Enter try again  •  Esc cancel"
        } else {
            "R try again  •  E edit URL  •  Q quit"
        },
    }
}

/// The input as shown in `available` columns: the caret `▏` inserted before
/// character `k`, scrolled so the caret stays in view; the flag says
/// whether text is hidden on the left.
pub open spec fn input_window_spec(input: Seq<char>, k: int, available: int) -> (bool, Seq<char>) {
    let displayed = input.take(k) + seq!['▏'] + input.skip(k);
    let start = if k > available - 1 {
        k - (available - 1)
    } else {
        0
    };
    let end = if start + available < displayed.len() {
        start + available
    } else {
        displayed.len() as int
    };
    (start > 0, displayed.subrange(start, end))
}

/// The visible part of `input` with the caret at byte `cursor`.
pub fn input_window(input: &str, cursor: usize, available: usize) -> (r: (bool, String))
    requires
        available >= 1,
    ensures
        forall|k: int| #[trigger]
            is_boundary(input@, cursor as int, k) ==> (r.0, r.1@) == input_window_spec(
                input@,
                k,
                available as int,
            ),
{
    let chars = chars_of(input);
    let k = locate(chars.as_slice(), cursor);
    let mut displayed = crate::strings::slice_chars(chars.as_slice(), 0, k);
    displayed.push('▏');
    let rest = crate::strings::slice_chars(chars.as_slice(), k, chars.len());
    append_chars(&mut displayed, rest.as_slice());
    assert(displayed@ =~= chars@.take(k as int) + seq!['▏'] + chars@.skip(k as int));
    let start: usize = if k > available - 1 {
        k - (available - 1)
    } else {
        0
    };
    let end: usize = if start as u128 + (available as u128) < displayed.len() as u128 {
        start + available
    } else {
        displayed.len()
    };
    let visible = crate::strings::slice_chars(displayed.as_slice(), start, end);
    (start > 0, string_of(visible.as_slice()))
}

/// The launcher's input line: its prefix, its text, and whether the text is
/// the placeholder.
pub open spec fn launcher_line_ok(l: LauncherState, width: u16, r: (&str, String, bool)) -> bool {
    if l.input@.len() == 0 {
        r.0@ == "> "@ && r.1@ == "▏https://example.com/movie.mkv"@ && r.2
    } else {
        let available = if width >= 6 {
            width - 5
        } else {
            1
        };
        !r.2 && forall|k: int| #[trigger]
            is_boundary(l.input@, l.cursor as int, k) ==> {
                let (hidden, visible) = input_window_spec(l.input@, k, available);
                &&& r.0@ == (if hidden {
                    "< "@
                } else {
                    "> "@
                })
                &&& r.1@ == visible
            }
    }
}

/// The launcher's input line in `width` columns.
pub fn launcher_editor_line(launcher: &LauncherState, width: u16) -> (r: (&'static str, String, bool))
    ensures
        launcher_line_ok(*launcher, width, r),
{
    if launcher.input.as_str().unicode_len() == 0 {
        return ("> ", "▏https://example.com/movie.mkv".to_owned(), true);
    }
    let available: usize = if width >= 6 {
        (width - 5) as usize
    } else {
        1
    };
    let (hidden, visible) = input_window(launcher.input.as_str(), launcher.cursor, available);
    (
        if hidden {
            "< "
        } else {
            "> "
        },
        visible,
        false,
    )
}

/// The composer line of a running session in `width` columns: its prefix,
/// its text, and whether the text is the placeholder.
pub open spec fn command_line_ok(r0: RunningState, width: usize, r: (&str, String, bool)) -> bool {
    if r0.input@.len() == 0 {
        r.0@ == "> "@ && r.1@ == "Enter a time or command. Type help for options"@ && r.2
    } else {
        let available = if width >= 3 {
            width - 2
        } else {
            1
        };
        !r.2 && forall|k: int| #[trigger]
            is_boundary(r0.input@, r0.input_cursor as int, k) ==> {
                let (hidden, visible) = input_window_spec(r0.input@, k, available);
                &&& r.0@ == (if hidden {
                    "< "@
                } else {
                    "> "@
                })
                &&& r.1@ == visible
            }
    }
}

/// The composer line of a running session in `width` columns.
pub fn command_input_line(running: &RunningState, width: usize) -> (r: (&'static str, String, bool))
    ensures
        command_line_ok(*running, width, r),
{
    if running.input.as_str().unicode_len() == 0 {
        return ("> ", "Enter a time or command. Type help for options".to_owned(), true);
    }
    let available: usize = if width >= 3 {
        width - 2
    } else {
        1
    };
    let (hidden, visible) = input_window(running.input.as_str(), running.input_cursor, available);
    (
        if hidden {
            "< "
        } else {
            "> "
        },
        visible,
        false,
    )
}

/// The lines of the player card: the playback time, then buffer, relay and
/// storage on one line when there is room (50 columns), on two otherwise.
pub open spec fn player_card_spec(r0: RunningState, width: usize) -> Seq<Seq<char>> {
    let t = r0.snapshot.telemetry;
    let time = playback_time_spec(r0.snapshot.current_time, r0.media_info.duration);
    let buffer = "Buffer "@ + hms_spec(t.buffer_ahead@);
    let relay = "Relay "@ + short_bytes_spec(t.relay_write_bytes_per_second as nat) + "/s"@;
    let storage = "Storage "@ + short_bytes_spec(t.storage_bytes as nat);
    if width >= 50 {
        seq![time, buffer + "    "@ + relay + "    "@ + storage]
    } else {
        seq![time, buffer, relay + "    "@ + storage]
    }
}

/// The lines of the player card of a running session.
pub fn player_card_lines(running: &RunningState, width: usize) -> (r: Vec<String>)
    ensures
        crate::url::string_views(r@) == player_card_spec(*running, width),
{
    let t = running.snapshot.telemetry;
    let time = format_playback_time(running.snapshot.current_time, running.media_info.duration);
    let mut buffer: Vec<char> = Vec::new();
    append_str(&mut buffer, "Buffer ");
    append_chars(&mut buffer, string_chars(&t.buffer_ahead.to_string()).as_slice());
    let mut relay: Vec<char> = Vec::new();
    append_str(&mut relay, "Relay ");
    append_chars(&mut relay, string_chars(&format_bytes_per_second(t.relay_write_bytes_per_second)).as_slice());
    let mut storage: Vec<char> = Vec::new();
    append_str(&mut storage, "Storage ");
    append_chars(&mut storage, string_chars(&format_bytes(t.storage_bytes)).as_slice());
    let mut out: Vec<String> = Vec::new();
    out.push(time);
    assert(buffer@ == "Buffer "@ + hms_spec(t.buffer_ahead@));
    assert(relay@ == "Relay "@ + short_bytes_spec(t.relay_write_bytes_per_second as nat) + "/s"@);
    assert(storage@ == "Storage "@ + short_bytes_spec(t.storage_bytes as nat));
    assert(out@[0]@ == playback_time_spec(running.snapshot.current_time, running.media_info.duration));
    if width >= 50 {
        let mut all = buffer;
        append_str(&mut all, "    ");
        append_chars(&mut all, relay.as_slice());
        append_str(&mut all, "    ");
        append_chars(&mut all, storage.as_slice());
        out.push(string_of(all.as_slice()));
    } else {
        out.push(string_of(buffer.as_slice()));
        let mut rest = relay;
        append_str(&mut rest, "    ");
        append_chars(&mut rest, storage.as_slice());
        out.push(string_of(rest.as_slice()));
    }
    assert(crate::url::string_views(out@) =~= player_card_spec(*running, width));
    out
}

/// The health fields of the compact dashboard.
pub open spec fn health_fields(r0: RunningState) -> Seq<Seq<char>> {
    let t = r0.snapshot.telemetry;
    let badge = player_badge_spec(r0.snapshot.player_state);
    seq![
        "Player  "@ + badge.0 + " "@ + badge.1,
        "Time    "@ + playback_time_spec(r0.snapshot.current_time, r0.media_info.duration),
        "Buffer  "@ + hms_spec(t.buffer_ahead@),
        "Relay   "@ + short_bytes_spec(t.relay_write_bytes_per_second as nat) + "/s"@,
        "Storage "@ + short_bytes_spec(t.storage_bytes as nat),
    ]
}

/// The symbol and name of a player state.
pub open spec fn player_badge_spec(state: PlayerState) -> (Seq<char>, Seq<char>) {
    match state {
        PlayerState::Playing => ("▶"@, "Playing"@),
        PlayerState::Paused => ("Ⅱ"@, "Paused"@),
        PlayerState::WindowClosed => ("!"@, "Window closed"@),
        PlayerState::AppClosed => ("!"@, "App closed"@),
        PlayerState::Unavailable => ("?"@, "Unavailable"@),
    }
}

/// The health lines of the compact dashboard: two lines from 80 columns,
/// one field a line below that.
pub open spec fn health_spec(r0: RunningState, width: usize) -> Seq<Seq<char>> {
    let f = health_fields(r0);
    if width >= 80 {
        seq![f[0] + "    "@ + f[1], f[2] + "    "@ + f[3] + "    "@ + f[4]]
    } else {
        f
    }
}

/// The health lines of the compact dashboard of a running session.
pub fn health_lines(running: &RunningState, width: usize) -> (r: Vec<String>)
    ensures
        crate::url::string_views(r@) == health_spec(*running, width),
{
    let t = running.snapshot.telemetry;
    let (symbol, player) = player_state_label(running.snapshot.player_state);
    let mut f0: Vec<char> = Vec::new();
    append_str(&mut f0, "Player  ");
    append_str(&mut f0, symbol);
    append_str(&mut f0, " ");
    append_str(&mut f0, player);
    let mut f1: Vec<char> = Vec::new();
    append_str(&mut f1, "Time    ");
    append_chars(
        &mut f1,
        string_chars(&format_playback_time(running.snapshot.current_time, running.media_info.duration)).as_slice(),
    );
    let mut f2: Vec<char> = Vec::new();
    append_str(&mut f2, "Buffer  ");
    append_chars(&mut f2, string_chars(&t.buffer_ahead.to_string()).as_slice());
    let mut f3: Vec<char> = Vec::new();
    append_str(&mut f3, "Relay   ");
    append_chars(&mut f3, string_chars(&format_bytes_per_second(t.relay_write_bytes_per_second)).as_slice());
    let mut f4: Vec<char> = Vec::new();
    append_str(&mut f4, "Storage ");
    append_chars(&mut f4, string_chars(&format_bytes(t.storage_bytes)).as_slice());
    assert(f0@ == "Player  "@ + player_badge_spec(running.snapshot.player_state).0 + " "@
        + player_badge_spec(running.snapshot.player_state).1);
    assert(f2@ == "Buffer  "@ + hms_spec(t.buffer_ahead@));
    assert(f3@ == "Relay   "@ + short_bytes_spec(t.relay_write_bytes_per_second as nat) + "/s"@);
    assert(f4@ == "Storage "@ + short_bytes_spec(t.storage_bytes as nat));
    let ghost fields = seq![f0@, f1@, f2@, f3@, f4@];
    assert(fields =~= health_fields(*running));
    let mut out: Vec<String> = Vec::new();
    if width >= 80 {
        let mut a = f0;
        append_str(&mut a, "    ");
        append_chars(&mut a, f1.as_slice());
        let mut b = f2;
        append_str(&mut b, "    ");
        append_chars(&mut b, f3.as_slice());
        append_str(&mut b, "    ");
        append_chars(&mut b, f4.as_slice());
        out.push(string_of(a.as_slice()));
        out.push(string_of(b.as_slice()));
    } else {
        out.push(string_of(f0.as_slice()));
        out.push(string_of(f1.as_slice()));
        out.push(string_of(f2.as_slice()));
        out.push(string_of(f3.as_slice()));
        out.push(string_of(f4.as_slice()));
    }
    assert(crate::url::string_views(out@) =~= health_spec(*running, width));
    out
}

/// `a + b` on `u16`, saturating.
pub open spec fn sat_add_u16(a: u16, b: u16) -> u16 {
    if a + b > u16::MAX {
        u16::MAX
    } else {
        (a + b) as u16
    }
}

/// `a - b` on `u16`, saturating at zero.
pub open spec fn sat_sub_u16(a: u16, b: u16) -> u16 {
    if a >= b {
        (a - b) as u16
    } else {
        0
    }
}

pub open spec fn min_u16(a: u16, b: u16) -> u16 {
    if a <= b {
        a
    } else {
        b
    }
}

pub open spec fn max_u16(a: u16, b: u16) -> u16 {
    if a >= b {
        a
    } else {
        b
    }
}

/// The rows the track cards take out of `available`: one card for the
/// audio tracks when there is at most one video track, else a video card and
/// an audio card of at least three rows each with a row between them.
pub open spec fn track_cards_height_spec(videos: usize, audios: usize, available: u16) -> u16 {
    let audio_rows = (if audios > 1 {
        audios
    } else {
        1
    }) as u16;
    if videos <= 1 {
        min_u16(sat_add_u16(audio_rows, 1), available)
    } else {
        let video = max_u16(min_u16(sat_add_u16(videos as u16, 1), sat_sub_u16(available, 4)), 3);
        let audio = max_u16(
            min_u16(sat_add_u16(audio_rows, 1), sat_sub_u16(sat_sub_u16(available, video), 1)),
            3,
        );
        min_u16(sat_add_u16(sat_add_u16(video, 1), audio), available)
    }
}

fn sat_add16(a: u16, b: u16) -> (r: u16)
    ensures
        r == sat_add_u16(a, b),
{
    if a as u32 + b as u32 > 65535 {
        65535
    } else {
        a + b
    }
}

fn sat_sub16(a: u16, b: u16) -> (r: u16)
    ensures
        r == sat_sub_u16(a, b),
{
    if a >= b {
        a - b
    } else {
        0
    }
}

fn min16(a: u16, b: u16) -> (r: u16)
    ensures
        r == min_u16(a, b),
{
    if a <= b {
        a
    } else {
        b
    }
}

fn max16(a: u16, b: u16) -> (r: u16)
    ensures
        r == max_u16(a, b),
{
    if a >= b {
        a
    } else {
        b
    }
}

/// The rows the track cards take out of `available`.
pub fn track_cards_height(selection: &TrackSelectionState, available: u16) -> (r: u16)
    ensures
        r == track_cards_height_spec(
            selection.request.videos@.len() as usize,
            selection.request.audios@.len() as usize,
            available,
        ),
{
    let videos = selection.request.videos.len();
    let audios = selection.request.audios.len();
    let audio_rows: u16 = (if audios > 1 {
        audios
    } else {
        1
    }) as u16;
    if videos <= 1 {
        return min16(sat_add16(audio_rows, 1), available);
    }
    let video = max16(min16(sat_add16(videos as u16, 1), sat_sub16(available, 4)), 3);
    let audio = max16(min16(sat_add16(audio_rows, 1), sat_sub16(sat_sub16(available, video), 1)), 3);
    min16(sat_add16(sat_add16(video, 1), audio), available)
}

/// The rows a card shows its lines in: all but its title, at least one.
pub open spec fn viewport_rows(height: u16) -> nat {
    if height >= 2 {
        (height - 1) as nat
    } else {
        1
    }
}

/// The first line the activity card shows: `from_bottom` lines above the
/// bottom, stopping at the top.
pub open spec fn activity_scroll_spec(lines: nat, height: u16, from_bottom: nat) -> nat {
    let max_scroll = if lines >= viewport_rows(height) {
        (lines - viewport_rows(height)) as nat
    } else {
        0
    };
    if from_bottom >= max_scroll {
        0
    } else {
        (max_scroll - from_bottom) as nat
    }
}

/// The first line the activity card shows.
pub fn activity_scroll(lines: usize, height: u16, from_bottom: usize) -> (r: usize)
    ensures
        r == activity_scroll_spec(lines as nat, height, from_bottom as nat),
{
    let viewport: usize = if height >= 2 {
        (height - 1) as usize
    } else {
        1
    };
    let max_scroll: usize = if lines >= viewport {
        lines - viewport
    } else {
        0
    };
    if from_bottom >= max_scroll {
        0
    } else {
        max_scroll - from_bottom
    }
}

/// The first line a track card shows: enough to keep the focused line in
/// view.
pub fn card_scroll(focused_line: usize, height: u16) -> (r: usize)
    ensures
        r == (if focused_line + 1 >= viewport_rows(height) {
            (focused_line + 1 - viewport_rows(height)) as nat
        } else {
            0
        }),
{
    let viewport: usize = if height >= 2 {
        (height - 1) as usize
    } else {
        1
    };
    if focused_line >= viewport - 1 {
        focused_line - (viewport - 1)
    } else {
        0
    }
}

/// The rows a line of `chars` characters wraps to in `width` columns
/// (an empty line takes one row): the characters over the width, rounded up.
pub fn visual_line_height(chars: usize, width: usize) -> (r: usize)
    requires
        width >= 1,
    ensures
        ({
            let content = if chars > 1 {
                chars as int
            } else {
                1
            };
            r == content / (width as int) + if content % (width as int) == 0 {
                0int
            } else {
                1int
            }
        }),
{
    let content: usize = if chars > 1 {
        chars
    } else {
        1
    };
    if width == 1 {
        assert(content % 1 == 0 && content / 1 == content) by (nonlinear_arith);
        return content;
    }
    let q = content / width;
    let m = content % width;
    if m == 0 {
        q
    } else {
        assert(q < content) by (nonlinear_arith)
            requires
                width >= 2,
                q == content / width,
                content >= 1,
        ;
        q + 1
    }
}

/// The workspace's version line: `quickbridge v` and the version, without
/// the program name when the version text starts with it.
pub open spec fn version_line_spec(version: Seq<char>) -> Seq<char> {
    let name = "quickbridge "@;
    if has_prefix(version, name) {
        "quickbridge v"@ + version.subrange(name.len() as int, version.len() as int)
    } else {
        "quickbridge v"@ + version
    }
}

/// The version line at the top of the workspace.
pub fn workspace_version_line(state: &AppState) -> (r: String)
    ensures
        r@ == version_line_spec(state.version@),
{
    let version = string_chars(&state.version);
    let name = chars_of("quickbridge ");
    let mut out: Vec<char> = Vec::new();
    append_str(&mut out, "quickbridge v");
    if starts_with(version.as_slice(), name.as_slice()) {
        let rest = slice_chars(version.as_slice(), name.len(), version.len());
        append_chars(&mut out, rest.as_slice());
    } else {
        append_chars(&mut out, version.as_slice());
    }
    string_of(out.as_slice())
}

/// The source shown in the workspace: what the launcher holds, else the
/// source URL, else a hint.
pub open spec fn workspace_source_spec(state: AppState) -> Seq<char> {
    if state.screen matches Screen::Launcher(l) && l.input@.len() > 0 {
        state.screen->Launcher_0.input@
    } else if state.source_url@.len() > 0 {
        state.source_url@
    } else {
        "Enter a direct media URL below"@
    }
}

/// The source line of the workspace.
pub fn workspace_source(state: &AppState) -> (r: String)
    ensures
        r@ == workspace_source_spec(*state),
{
    if let Screen::Launcher(launcher) = &state.screen {
        if launcher.input.as_str().unicode_len() > 0 {
            return launcher.input.clone();
        }
    }
    if state.source_url.as_str().unicode_len() > 0 {
        state.source_url.clone()
    } else {
        "Enter a direct media URL below".to_owned()
    }
}

} // verus!
