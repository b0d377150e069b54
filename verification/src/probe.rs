//! ffprobe: its command line, and the stream lines of its summary output.

use vstd::prelude::*;
use crate::diagnostics::{command_line_spec, render_command};
use crate::strings::{
    all_digits, chars_of, digits_value, has_prefix, is_digit, is_digit_spec, parse_u64,
    parse_u64_spec, slice_chars, starts_with, string_of, trim_start_spec, lines_of, lines_spec,
    vec_views,
};
use crate::url::string_views;

verus! {

/// The arguments of the JSON probe of `source_url`.
pub open spec fn json_probe_args(source_url: Seq<char>) -> Seq<Seq<char>> {
    seq!["-v"@, "error"@, "-show_streams"@, "-show_format"@, "-of"@, "json"@, source_url]
}

/// The ffprobe executable.
#[derive(Clone, Debug, PartialEq, Eq)]
pub struct ProbeRunner {
    pub binary: String,
}

impl ProbeRunner {
    /// The runner for the configured executable, `ffprobe` by default.
    pub fn new(binary_override: Option<String>) -> (r: Self)
        ensures
            r.binary@ == match binary_override {
                Some(b) => b@,
                None => "ffprobe"@,
            },
    {
        let binary = match binary_override {
            Some(b) => b,
            None => "ffprobe".to_owned(),
        };
        ProbeRunner { binary }
    }

    pub fn with_binary(binary: &str) -> (r: Self)
        ensures
            r.binary@ == binary@,
    {
        ProbeRunner { binary: binary.to_owned() }
    }

    /// The arguments of the JSON probe.
    pub fn json_args(&self, source_url: &str) -> (r: Vec<String>)
        ensures
            string_views(r@) == json_probe_args(source_url@),
    {
        let mut v: Vec<String> = Vec::new();
        v.push("-v".to_owned());
        v.push("error".to_owned());
        v.push("-show_streams".to_owned());
        v.push("-show_format".to_owned());
        v.push("-of".to_owned());
        v.push("json".to_owned());
        v.push(source_url.to_owned());
        assert(string_views(v@) =~= json_probe_args(source_url@));
        v
    }

    /// The probe command line, for display.
    pub fn render_probe_commands(&self, source_url: &str) -> (r: Vec<String>)
        ensures
            string_views(r@) == seq![command_line_spec(self.binary@, json_probe_args(source_url@))],
    {
        let args = self.json_args(source_url);
        assert(Seq::new(args@.len(), |i: int| args@[i]@) =~= string_views(args@));
        let line = render_command(self.binary.as_str(), &args);
        let mut out: Vec<String> = Vec::new();
        out.push(line);
        assert(string_views(out@) =~= seq![command_line_spec(self.binary@, json_probe_args(source_url@))]);
        out
    }
}

/// The length of the run of digits at the start of `s`.
pub open spec fn digit_run(s: Seq<char>, i: int) -> int
    decreases s.len() - i,
{
    if i < 0 || i >= s.len() || !is_digit_spec(s[i]) {
        i
    } else {
        digit_run(s, i + 1)
    }
}

/// The position of the first `c` at `i` or later, or -1.
pub open spec fn first_of(s: Seq<char>, c: char, i: int) -> int
    decreases s.len() - i,
{
    if i < 0 || i >= s.len() {
        -1
    } else if s[i] == c {
        i
    } else {
        first_of(s, c, i + 1)
    }
}

/// A stream line of ffprobe's summary: after leading whitespace, `Stream #`,
/// then past the first `:` the stream number; gives the number and the
/// line without its leading whitespace.
pub open spec fn stream_line_spec(line: Seq<char>) -> Option<(usize, Seq<char>)> {
    let t = trim_start_spec(line);
    let tag = "Stream #"@;
    if !has_prefix(t, tag) {
        None
    } else {
        let rest = t.subrange(tag.len() as int, t.len() as int);
        let colon = first_of(rest, ':', 0);
        if colon < 0 {
            None
        } else {
            let after = rest.subrange(colon + 1, rest.len() as int);
            let digits = after.subrange(0, digit_run(after, 0));
            if digits.len() > 0 && digits_value(digits) <= usize::MAX {
                Some((digits_value(digits) as usize, t))
            } else {
                None
            }
        }
    }
}

proof fn lemma_digit_run_range(s: Seq<char>, i: int)
    requires
        0 <= i <= s.len(),
    ensures
        i <= digit_run(s, i) <= s.len(),
        all_digits(s.subrange(i, digit_run(s, i))),
    decreases s.len() - i,
{
    if i < s.len() && is_digit_spec(s[i]) {
        lemma_digit_run_range(s, i + 1);
        let j = digit_run(s, i + 1);
        assert forall|k: int| 0 <= k < j - i implies is_digit_spec(#[trigger] s.subrange(i, j)[k]) by {
            if k > 0 {
                assert(s.subrange(i, j)[k] == s.subrange(i + 1, j)[k - 1]);
            }
        }
    }
}

/// Reads a stream line of ffprobe's summary.
pub fn parse_stream_line(line: &str) -> (r: Option<(usize, String)>)
    ensures
        match r {
            Some((i, t)) => stream_line_spec(line@) == Some((i, t@)),
            None => stream_line_spec(line@) is None,
        },
{
    proof {
        reveal_strlit("Stream #");
    }
    let chars = chars_of(line);
    let mut s: usize = 0;
    assert(chars@.subrange(0, chars@.len() as int) =~= chars@);
    while s < chars.len() && crate::strings::is_whitespace(chars[s])
        invariant
            s <= chars@.len(),
            chars@ == line@,
            trim_start_spec(line@) == trim_start_spec(chars@.subrange(s as int, chars@.len() as int)),
        decreases chars@.len() - s,
    {
        assert(chars@.subrange(s as int, chars@.len() as int).drop_first() =~= chars@.subrange(
            s + 1,
            chars@.len() as int,
        ));
        s = s + 1;
    }
    let t = slice_chars(chars.as_slice(), s, chars.len());
    assert(t@ == trim_start_spec(line@));
    let tag = chars_of("Stream #");
    if !starts_with(t.as_slice(), tag.as_slice()) {
        return None;
    }
    let rest = slice_chars(t.as_slice(), 8, t.len());
    let mut c: usize = 0;
    while c < rest.len() && rest[c] != ':'
        invariant
            c <= rest@.len(),
            first_of(rest@, ':', 0) == first_of(rest@, ':', c as int),
        decreases rest@.len() - c,
    {
        c = c + 1;
    }
    if c >= rest.len() {
        return None;
    }
    let after = slice_chars(rest.as_slice(), c + 1, rest.len());
    let mut d: usize = 0;
    while d < after.len() && is_digit(after[d])
        invariant
            d <= after@.len(),
            digit_run(after@, 0) == digit_run(after@, d as int),
        decreases after@.len() - d,
    {
        d = d + 1;
    }
    proof {
        lemma_digit_run_range(after@, 0);
    }
    let digits = slice_chars(after.as_slice(), 0, d);
    if d == 0 {
        return None;
    }
    assert(digits@.len() > 0 && digits@[0] != '+');
    let value = match parse_u64(digits.as_slice()) {
        Some(v) => v,
        None => return None,
    };
    if value as u128 > usize::MAX as u128 {
        return None;
    }
    Some((value as usize, string_of(t.as_slice())))
}

/// The stream lines among `lines`, in order.
pub open spec fn stream_entries(lines: Seq<Seq<char>>) -> Seq<(usize, Seq<char>)>
    decreases lines.len(),
{
    if lines.len() == 0 {
        Seq::empty()
    } else {
        match stream_line_spec(lines.last()) {
            Some(e) => stream_entries(lines.drop_last()).push(e),
            None => stream_entries(lines.drop_last()),
        }
    }
}

/// The numbers and texts of stream entries.
pub open spec fn entry_texts(v: Seq<(usize, String)>) -> Seq<(usize, Seq<char>)> {
    Seq::new(v.len(), |i: int| (v[i].0, v[i].1@))
}

/// The stream lines of ffprobe's summary output, in order; a later line
/// for the same stream number replaces an earlier one when looked up.
pub fn parse_stream_lines(summary: &str) -> (r: Vec<(usize, String)>)
    ensures
        entry_texts(r@) == stream_entries(lines_spec(summary@)),
{
    let lines = lines_of(summary);
    let ghost ls = lines_spec(summary@);
    let mut out: Vec<(usize, String)> = Vec::new();
    let mut i: usize = 0;
    assert(ls.subrange(0, 0) =~= Seq::<Seq<char>>::empty());
    while i < lines.len()
        invariant
            i <= lines@.len(),
            vec_views(lines@) == ls,
            ls == lines_spec(summary@),
            entry_texts(out@) == stream_entries(ls.subrange(0, i as int)),
        decreases lines@.len() - i,
    {
        let text = string_of(lines[i].as_slice());
        assert(text@ == ls[i as int]);
        assert(ls.subrange(0, i + 1).drop_last() =~= ls.subrange(0, i as int));
        if let Some(entry) = parse_stream_line(text.as_str()) {
            let ghost before = out@;
            out.push(entry);
            assert(entry_texts(out@) =~= entry_texts(before).push((entry.0, entry.1@)));
        }
        i = i + 1;
    }
    assert(ls.subrange(0, ls.len() as int) =~= ls);
    out
}

/// The stream line recorded last for `index`, if any.
pub open spec fn line_for(entries: Seq<(usize, Seq<char>)>, index: usize, n: int) -> Option<Seq<char>>
    decreases n,
{
    if n <= 0 || n > entries.len() {
        None
    } else if entries[n - 1].0 == index {
        Some(entries[n - 1].1)
    } else {
        line_for(entries, index, n - 1)
    }
}

/// The stream line recorded last for `index`.
pub fn stream_line_for(entries: &Vec<(usize, String)>, index: usize) -> (r: Option<String>)
    ensures
        match r {
            Some(t) => line_for(entry_texts(entries@), index, entries@.len() as int) == Some(t@),
            None => line_for(entry_texts(entries@), index, entries@.len() as int) is None,
        },
{
    let mut i: usize = entries.len();
    while i > 0
        invariant
            i <= entries@.len(),
            line_for(entry_texts(entries@), index, entries@.len() as int) == line_for(
                entry_texts(entries@),
                index,
                i as int,
            ),
        decreases i,
    {
        if entries[i - 1].0 == index {
            return Some(entries[i - 1].1.clone());
        }
        i = i - 1;
    }
    None
}

} // verus!
