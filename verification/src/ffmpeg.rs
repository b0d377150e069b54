//! The ffmpeg relay: its command line, and what its playlist says is ready.

use vstd::prelude::*;
use crate::diagnostics::{command_line_spec, render_command};
use crate::media::{AudioHandling, StreamSelection};
use crate::server::{names_segment, playlist_lines, playlist_lines_spec};
use crate::session::SessionPaths;
use crate::strings::{
    append_decimal, append_str, chars_of, decimal, has_prefix, slice_chars, starts_with,
    digits_value, string_chars, string_of,
};
use crate::timecode::{lemma_decimal_digits, lemma_split_nonempty, split_chars, split_spec, Timecode};
use crate::url::string_views;

verus! {

/// Appends one argument.
fn push_arg(args: &mut Vec<String>, arg: String)
    ensures
        string_views(final(args)@) == string_views(old(args)@).push(arg@),
{
    let ghost before = args@;
    args.push(arg);
    assert(string_views(args@) =~= string_views(before).push(arg@));
}

/// `0:` and the stream index, as `-map` takes it.
pub open spec fn map_arg(index: usize) -> Seq<char> {
    "0:"@ + decimal(index as nat)
}

/// The arguments of the relay for `selection` of `source_url` from
/// `start_at`, writing the HLS output of `session`.
pub open spec fn ffmpeg_args_spec(
    source_url: Seq<char>,
    start_at: Timecode,
    session: SessionPaths,
    selection: StreamSelection,
) -> Seq<Seq<char>> {
    seq!["-y"@, "-re"@] + (if start_at@ > 0 {
        seq!["-ss"@, decimal(start_at@)]
    } else {
        Seq::empty()
    }) + seq!["-i"@, source_url, "-map"@, map_arg(selection.video.stream_index)] + match selection.audio {
        Some(a) => seq!["-map"@, map_arg(a.stream_index)],
        None => Seq::empty(),
    } + seq!["-sn"@, "-dn"@, "-c:v"@, "copy"@, "-copyinkf"@] + match selection.audio_handling {
        Some(AudioHandling::Copy) => seq!["-c:a"@, "copy"@],
        Some(AudioHandling::TranscodeAlac) => seq!["-c:a"@, "alac"@],
        None => Seq::empty(),
    } + seq![
        "-f"@,
        "hls"@,
        "-hls_segment_type"@,
        "fmp4"@,
        "-hls_fmp4_init_filename"@,
        session.init_filename@,
        "-hls_time"@,
        decimal(1),
        "-hls_list_size"@,
        decimal(6),
        "-hls_flags"@,
        "delete_segments+omit_endlist+split_by_time+temp_file"@,
        "-hls_segment_filename"@,
        session.segment_pattern@,
        session.playlist_path@,
    ]
}

/// The relay starts at the chosen time: after `-y -re`, a start after zero
/// puts `-ss` and the start's seconds in decimal right before `-i` and the
/// source; a start at zero puts `-i` right there, with no `-ss` before it.
pub proof fn lemma_relay_seeks_to_start(
    source_url: Seq<char>,
    start_at: Timecode,
    session: SessionPaths,
    selection: StreamSelection,
)
    ensures
        ({
            let args = ffmpeg_args_spec(source_url, start_at, session, selection);
            &&& args[0] == "-y"@
            &&& args[1] == "-re"@
            &&& start_at.seconds > 0 ==> {
                &&& args[2] == "-ss"@
                &&& args[3] == decimal(start_at.seconds as nat)
                &&& digits_value(args[3]) == start_at.seconds
                &&& args[4] == "-i"@
                &&& args[5] == source_url
            }
            &&& start_at.seconds == 0 ==> args[2] == "-i"@ && args[3] == source_url
        }),
{
    lemma_decimal_digits(start_at.seconds as nat);
}

/// The text of a number.
fn number_text(n: u64) -> (r: String)
    ensures
        r@ == decimal(n as nat),
{
    let mut v: Vec<char> = Vec::new();
    append_decimal(&mut v, n);
    string_of(v.as_slice())
}

/// `0:index`.
fn map_text(index: usize) -> (r: String)
    ensures
        r@ == map_arg(index),
{
    let mut v: Vec<char> = Vec::new();
    append_str(&mut v, "0:");
    append_decimal(&mut v, index as u64);
    string_of(v.as_slice())
}

/// The arguments of the relay.
pub fn build_args(source_url: &str, start_at: Timecode, session: &SessionPaths, selection: &StreamSelection) -> (r:
    Vec<String>)
    ensures
        string_views(r@) == ffmpeg_args_spec(source_url@, start_at, *session, *selection),
{
    let mut args: Vec<String> = Vec::new();
    push_arg(&mut args, "-y".to_owned());
    push_arg(&mut args, "-re".to_owned());
    let ghost a1 = string_views(args@);
    if start_at.seconds > 0 {
        push_arg(&mut args, "-ss".to_owned());
        push_arg(&mut args, number_text(start_at.seconds));
    }
    let ghost a2 = string_views(args@);
    push_arg(&mut args, "-i".to_owned());
    push_arg(&mut args, source_url.to_owned());
    push_arg(&mut args, "-map".to_owned());
    push_arg(&mut args, map_text(selection.video.stream_index));
    let ghost a3 = string_views(args@);
    if let Some(a) = &selection.audio {
        push_arg(&mut args, "-map".to_owned());
        push_arg(&mut args, map_text(a.stream_index));
    }
    let ghost a4 = string_views(args@);
    push_arg(&mut args, "-sn".to_owned());
    push_arg(&mut args, "-dn".to_owned());
    push_arg(&mut args, "-c:v".to_owned());
    push_arg(&mut args, "copy".to_owned());
    push_arg(&mut args, "-copyinkf".to_owned());
    let ghost a5 = string_views(args@);
    match selection.audio_handling {
        Some(AudioHandling::Copy) => {
            push_arg(&mut args, "-c:a".to_owned());
            push_arg(&mut args, "copy".to_owned());
        },
        Some(AudioHandling::TranscodeAlac) => {
            push_arg(&mut args, "-c:a".to_owned());
            push_arg(&mut args, "alac".to_owned());
        },
        None => {},
    }
    let ghost a6 = string_views(args@);
    push_arg(&mut args, "-f".to_owned());
    push_arg(&mut args, "hls".to_owned());
    push_arg(&mut args, "-hls_segment_type".to_owned());
    push_arg(&mut args, "fmp4".to_owned());
    push_arg(&mut args, "-hls_fmp4_init_filename".to_owned());
    push_arg(&mut args, session.init_filename.clone());
    push_arg(&mut args, "-hls_time".to_owned());
    push_arg(&mut args, number_text(1));
    push_arg(&mut args, "-hls_list_size".to_owned());
    push_arg(&mut args, number_text(6));
    push_arg(&mut args, "-hls_flags".to_owned());
    push_arg(&mut args, "delete_segments+omit_endlist+split_by_time+temp_file".to_owned());
    push_arg(&mut args, "-hls_segment_filename".to_owned());
    push_arg(&mut args, session.segment_pattern.clone());
    push_arg(&mut args, session.playlist_path.clone());
    assert(string_views(args@) =~= ffmpeg_args_spec(source_url@, start_at, *session, *selection));
    args
}

/// The ffmpeg executable and whether it prints its own diagnostics.
#[derive(Clone, Debug, PartialEq, Eq)]
pub struct FfmpegRunner {
    pub binary: String,
    pub verbose: bool,
}

impl FfmpegRunner {
    /// The runner for the configured executable, `ffmpeg` by default.
    pub fn new(binary_override: Option<String>, verbose: bool) -> (r: Self)
        ensures
            r.binary@ == match binary_override {
                Some(b) => b@,
                None => "ffmpeg"@,
            },
            r.verbose == verbose,
    {
        let binary = match binary_override {
            Some(b) => b,
            None => "ffmpeg".to_owned(),
        };
        FfmpegRunner { binary, verbose }
    }

    pub fn with_binary(binary: &str, verbose: bool) -> (r: Self)
        ensures
            r.binary@ == binary@,
            r.verbose == verbose,
    {
        FfmpegRunner { binary: binary.to_owned(), verbose }
    }

    /// The relay command line, for display.
    pub fn render_spawn_command(
        &self,
        source_url: &str,
        start_at: Timecode,
        session: &SessionPaths,
        selection: &StreamSelection,
    ) -> (r: String)
        ensures
            r@ == command_line_spec(
                self.binary@,
                ffmpeg_args_spec(source_url@, start_at, *session, *selection),
            ),
    {
        let args = build_args(source_url, start_at, session, selection);
        assert(Seq::new(args@.len(), |i: int| args@[i]@) =~= string_views(args@));
        render_command(self.binary.as_str(), &args)
    }
}

/// The message shown when an executable cannot be used.
pub open spec fn unavailable_spec(binary: Seq<char>, tool: Seq<char>) -> Seq<char> {
    "Unable to use `"@ + binary + "`. Install "@ + tool
        + " and make sure the executable is available on PATH"@
}

/// The message shown when `binary` (for `tool`) cannot be used.
pub fn unavailable_message(binary: &str, tool: &str) -> (r: String)
    ensures
        r@ == unavailable_spec(binary@, tool@),
{
    let mut v: Vec<char> = Vec::new();
    append_str(&mut v, "Unable to use `");
    append_str(&mut v, binary);
    append_str(&mut v, "`. Install ");
    append_str(&mut v, tool);
    append_str(&mut v, " and make sure the executable is available on PATH");
    string_of(v.as_slice())
}

/// The init file a playlist line names (`#EXT-X-MAP:URI="..."`), if it is that tag.
pub open spec fn init_file_line(line: Seq<char>) -> Option<Seq<char>> {
    let tag = "#EXT-X-MAP:URI=\""@;
    if has_prefix(line, tag) {
        Some(split_spec(line.subrange(tag.len() as int, line.len() as int), '"')[0])
    } else {
        None
    }
}

/// The first init file named at line `i` or later.
pub open spec fn first_init_file(lines: Seq<Seq<char>>, i: int) -> Option<Seq<char>>
    decreases lines.len() - i,
{
    if i < 0 || i >= lines.len() {
        None
    } else {
        match init_file_line(lines[i]) {
            Some(f) => Some(f),
            None => first_init_file(lines, i + 1),
        }
    }
}

/// The init file the playlist names.
pub fn playlist_init_file(playlist: &str) -> (r: Option<String>)
    ensures
        match r {
            Some(f) => first_init_file(playlist_lines_spec(playlist@), 0) == Some(f@),
            None => first_init_file(playlist_lines_spec(playlist@), 0) is None,
        },
{
    let lines = playlist_lines(playlist);
    let ghost ls = playlist_lines_spec(playlist@);
    let tag = chars_of("#EXT-X-MAP:URI=\"");
    let mut i: usize = 0;
    while i < lines.len()
        invariant
            i <= lines@.len(),
            ls == playlist_lines_spec(playlist@),
            lines@.len() == ls.len(),
            forall|j: int| 0 <= j < lines@.len() ==> #[trigger] lines@[j]@ == ls[j],
            tag@ == "#EXT-X-MAP:URI=\""@,
            first_init_file(ls, 0) == first_init_file(ls, i as int),
        decreases lines@.len() - i,
    {
        let line = string_chars(&lines[i]);
        assert(line@ == ls[i as int]);
        if starts_with(line.as_slice(), tag.as_slice()) {
            let rest = slice_chars(line.as_slice(), tag.len(), line.len());
            let pieces = split_chars(rest.as_slice(), '"');
            proof {
                lemma_split_nonempty(rest@, '"');
            }
            return Some(string_of(pieces[0].as_slice()));
        }
        i = i + 1;
    }
    None
}

/// The media entries of the playlist lines from position `i` on.
pub open spec fn media_entries_from(lines: Seq<Seq<char>>, i: int) -> Seq<Seq<char>>
    decreases lines.len() - i,
{
    if i < 0 || i >= lines.len() {
        Seq::empty()
    } else if names_segment(lines[i]) {
        seq![lines[i]] + media_entries_from(lines, i + 1)
    } else {
        media_entries_from(lines, i + 1)
    }
}

/// The media entries of the playlist: its non-empty lines that are not tags.
pub fn playlist_media_entries(playlist: &str) -> (r: Vec<String>)
    ensures
        string_views(r@) == media_entries_from(playlist_lines_spec(playlist@), 0),
{
    let lines = playlist_lines(playlist);
    let ghost ls = playlist_lines_spec(playlist@);
    let mut out: Vec<String> = Vec::new();
    let mut i: usize = 0;
    while i < lines.len()
        invariant
            i <= lines@.len(),
            ls == playlist_lines_spec(playlist@),
            lines@.len() == ls.len(),
            forall|j: int| 0 <= j < lines@.len() ==> #[trigger] lines@[j]@ == ls[j],
            string_views(out@) + media_entries_from(ls, i as int) == media_entries_from(ls, 0),
        decreases lines@.len() - i,
    {
        let line = string_chars(&lines[i]);
        assert(line@ == ls[i as int]);
        if line.len() > 0 && line[0] != '#' {
            let ghost before = out@;
            out.push(lines[i].clone());
            assert(string_views(out@) =~= string_views(before).push(ls[i as int]));
            assert(string_views(out@) + media_entries_from(ls, i + 1) =~= string_views(before) + (
            seq![ls[i as int]] + media_entries_from(ls, i + 1)));
        }
        i = i + 1;
    }
    assert(string_views(out@) + Seq::<Seq<char>>::empty() =~= string_views(out@));
    out
}

} // verus!
