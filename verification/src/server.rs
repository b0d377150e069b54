//! What the local HLS server serves: request paths, content types, and the
//! segments a playlist lists.

use vstd::prelude::*;
use crate::paths::{extension, extension_spec, file_stem, file_stem_spec, join_path, join_spec};
use crate::session::{padded, segment_filename_spec, Moment};
use crate::strings::{
    chars_eq_str, chars_of, has_char, has_prefix, parse_u64, parse_u64_spec, slice_chars,
    starts_with, str_eq, string_chars, string_of, trim_chars, trim_spec,
};
use crate::timecode::{
    lemma_padded_digits, lemma_split_nonempty, lemma_split_without_sep, split_chars, split_spec,
    Timecode,
};
use crate::paths::{file_name_spec, last_component, last_dot};
use crate::strings::{all_digits, digits_value, is_digit_spec};

verus! {

/// Whether a request may name a file with this extension.
pub open spec fn servable_extension(e: Seq<char>) -> bool {
    e == "m4s"@ || e == "mp4"@ || e == "ts"@ || e == "m3u8"@
}

/// The file a request path resolves to inside `dir`: the playlist, or one
/// plain file name (no slash or backslash) with a stream extension.
pub open spec fn resolve_spec(dir: Seq<char>, request: Seq<char>) -> Option<Seq<char>> {
    if request == "/stream.m3u8"@ {
        Some(join_spec(dir, "stream.m3u8"@))
    } else if request.len() == 0 || request[0] != '/' {
        None
    } else {
        let name = request.drop_first();
        if name.len() == 0 || name.contains('/') || name.contains('\\') {
            None
        } else {
            match extension_spec(name) {
                Some(e) => if servable_extension(e) {
                    Some(join_spec(dir, name))
                } else {
                    None
                },
                None => None,
            }
        }
    }
}

/// Whether the extension equals the literal.
fn ext_is(e: &Option<Vec<char>>, lit: &str) -> (r: bool)
    ensures
        r == (e matches Some(v) && v@ == lit@),
{
    match e {
        Some(v) => chars_eq_str(v.as_slice(), lit),
        None => false,
    }
}

/// The file a request path resolves to inside `active_dir`, if any.
pub fn resolve_request_path(active_dir: &str, request_path: &str) -> (r: Option<String>)
    ensures
        match r {
            Some(p) => resolve_spec(active_dir@, request_path@) == Some(p@),
            None => resolve_spec(active_dir@, request_path@) is None,
        },
{
    if str_eq(request_path, "/stream.m3u8") {
        return Some(join_path(active_dir, "stream.m3u8"));
    }
    let req = chars_of(request_path);
    if req.len() == 0 || req[0] != '/' {
        return None;
    }
    let name = slice_chars(req.as_slice(), 1, req.len());
    assert(name@ =~= request_path@.drop_first());
    if name.len() == 0 || has_char(name.as_slice(), '/') || has_char(name.as_slice(), '\\') {
        return None;
    }
    let ext = extension(name.as_slice());
    if ext_is(&ext, "m4s") || ext_is(&ext, "mp4") || ext_is(&ext, "ts") || ext_is(&ext, "m3u8") {
        let name_text = string_of(name.as_slice());
        Some(join_path(active_dir, name_text.as_str()))
    } else {
        None
    }
}

/// A request never resolves outside the served directory: it resolves to
/// the playlist, or to the directory joined with the one file name the
/// request gives, which holds no separator.
pub proof fn lemma_resolved_paths_stay_in_dir(dir: Seq<char>, request: Seq<char>)
    ensures
        resolve_spec(dir, request) matches Some(p) ==> (p == join_spec(dir, "stream.m3u8"@) || (
        request.len() > 0 && request[0] == '/' && p == join_spec(dir, request.drop_first())
            && request.drop_first().len() > 0 && !request.drop_first().contains('/')
            && !request.drop_first().contains('\\'))),
{
}

/// Whether the request names a media segment (`.m4s` or `.ts`).
pub open spec fn segment_request_spec(request: Seq<char>) -> bool {
    extension_spec(request) == Some("m4s"@) || extension_spec(request) == Some("ts"@)
}

/// Whether the request names a media segment.
pub fn is_segment_request(request_path: &str) -> (r: bool)
    ensures
        r == segment_request_spec(request_path@),
{
    let ext = extension(chars_of(request_path).as_slice());
    ext_is(&ext, "m4s") || ext_is(&ext, "ts")
}

/// The content type served for a file, by extension.
pub open spec fn content_type_spec(path: Seq<char>) -> Seq<char> {
    let e = extension_spec(path);
    if e == Some("m3u8"@) {
        "application/vnd.apple.mpegurl"@
    } else if e == Some("m4s"@) {
        "video/iso.segment"@
    } else if e == Some("mp4"@) {
        "video/mp4"@
    } else if e == Some("ts"@) {
        "video/mp2t"@
    } else {
        "application/octet-stream"@
    }
}

/// The content type served for a file.
pub fn content_type(path: &str) -> (r: &'static str)
    ensures
        r@ == content_type_spec(path@),
{
    let ext = extension(chars_of(path).as_slice());
    if ext_is(&ext, "m3u8") {
        "application/vnd.apple.mpegurl"
    } else if ext_is(&ext, "m4s") {
        "video/iso.segment"
    } else if ext_is(&ext, "mp4") {
        "video/mp4"
    } else if ext_is(&ext, "ts") {
        "video/mp2t"
    } else {
        "application/octet-stream"
    }
}

/// The lines of a playlist: split at line feeds, each trimmed.
pub open spec fn playlist_lines_spec(playlist: Seq<char>) -> Seq<Seq<char>> {
    let parts = split_spec(playlist, '\n');
    Seq::new(parts.len(), |i: int| trim_spec(parts[i]))
}

/// The lines of a playlist, each trimmed.
pub fn playlist_lines(playlist: &str) -> (r: Vec<String>)
    ensures
        r@.len() == playlist_lines_spec(playlist@).len(),
        forall|i: int| 0 <= i < r@.len() ==> #[trigger] r@[i]@ == playlist_lines_spec(playlist@)[i],
{
    let parts = split_chars(chars_of(playlist).as_slice(), '\n');
    let ghost want = playlist_lines_spec(playlist@);
    let mut out: Vec<String> = Vec::new();
    let mut i: usize = 0;
    while i < parts.len()
        invariant
            i <= parts@.len(),
            want == playlist_lines_spec(playlist@),
            parts@.len() == split_spec(playlist@, '\n').len(),
            forall|j: int| 0 <= j < parts@.len() ==> #[trigger] parts@[j]@ == split_spec(playlist@, '\n')[j],
            out@.len() == i,
            forall|j: int| 0 <= j < i ==> #[trigger] out@[j]@ == want[j],
        decreases parts@.len() - i,
    {
        let t = trim_chars(parts[i].as_slice());
        out.push(string_of(t.as_slice()));
        i = i + 1;
    }
    out
}

/// The target duration a playlist line declares, if it is that tag.
pub open spec fn target_duration_line(line: Seq<char>) -> Option<u64> {
    let t = trim_spec(line);
    let tag = "#EXT-X-TARGETDURATION:"@;
    if has_prefix(t, tag) {
        parse_u64_spec(trim_spec(t.subrange(tag.len() as int, t.len() as int)))
    } else {
        None
    }
}

/// The first target duration declared at line `i` or later.
pub open spec fn first_target_duration(lines: Seq<Seq<char>>, i: int) -> Option<u64>
    decreases lines.len() - i,
{
    if i < 0 || i >= lines.len() {
        None
    } else {
        match target_duration_line(lines[i]) {
            Some(v) => Some(v),
            None => first_target_duration(lines, i + 1),
        }
    }
}

/// The target duration a playlist line declares.
fn target_duration_of_line(line: &[char]) -> (r: Option<u64>)
    ensures
        r == target_duration_line(line@),
{
    let t = trim_chars(line);
    let tag = chars_of("#EXT-X-TARGETDURATION:");
    if starts_with(t.as_slice(), tag.as_slice()) {
        let rest = slice_chars(t.as_slice(), tag.len(), t.len());
        parse_u64(trim_chars(rest.as_slice()).as_slice())
    } else {
        None
    }
}

/// The target duration the playlist declares (`#EXT-X-TARGETDURATION:`),
/// taken from the first line that holds one.
pub fn parse_target_duration(playlist: &str) -> (r: Option<u64>)
    ensures
        r == first_target_duration(split_spec(playlist@, '\n'), 0),
{
    let parts = split_chars(chars_of(playlist).as_slice(), '\n');
    let ghost sp = split_spec(playlist@, '\n');
    let mut i: usize = 0;
    while i < parts.len()
        invariant
            i <= parts@.len(),
            sp == split_spec(playlist@, '\n'),
            parts@.len() == sp.len(),
            forall|j: int| 0 <= j < parts@.len() ==> #[trigger] parts@[j]@ == sp[j],
            first_target_duration(sp, 0) == first_target_duration(sp, i as int),
        decreases parts@.len() - i,
    {
        assert(parts@[i as int]@ == sp[i as int]);
        if let Some(v) = target_duration_of_line(parts[i].as_slice()) {
            return Some(v);
        }
        i = i + 1;
    }
    None
}

/// The text after the last `c` in `s`, or all of `s`.
pub open spec fn after_last(s: Seq<char>, c: char, n: int) -> Seq<char>
    decreases n,
{
    if n <= 0 || n > s.len() {
        s
    } else if s[n - 1] == c {
        s.subrange(n, s.len() as int)
    } else {
        after_last(s, c, n - 1)
    }
}

/// The segment number in a segment file name: the digits after the last
/// `_` of the file stem.
pub open spec fn segment_index_spec(name: Seq<char>) -> Option<u64> {
    match file_stem_spec(name) {
        Some(stem) => parse_u64_spec(after_last(stem, '_', stem.len() as int)),
        None => None,
    }
}

proof fn lemma_after_last_digits(s: Seq<char>, c: char, m: int, n: int)
    requires
        0 <= m < n <= s.len(),
        s[m] == c,
        forall|k: int| m < k < s.len() ==> s[k] != c,
    ensures
        after_last(s, c, n) == s.subrange(m + 1, s.len() as int),
    decreases n,
{
    if n > m + 1 {
        lemma_after_last_digits(s, c, m, n - 1);
    }
}

/// A segment file name reads back as the index it was made from.
pub proof fn lemma_segment_index_round_trip(id: u64, index: u64)
    ensures
        segment_index_spec(segment_filename_spec(id, index)) == Some(index),
{
    let p_id = padded(id as nat, 4);
    let p_ix = padded(index as nat, 5);
    lemma_padded_digits(id as nat, 4);
    lemma_padded_digits(index as nat, 5);
    let stem = "segment_"@ + p_id + "_"@ + p_ix;
    let name = segment_filename_spec(id, index);
    reveal_strlit("segment_");
    reveal_strlit("_");
    reveal_strlit(".m4s");
    assert(name =~= stem + ".m4s"@);
    let len = name.len() as int;
    assert forall|k: int| 0 <= k < name.len() implies name[k] != '/' by {
        if 8 <= k < 8 + p_id.len() {
            assert(name[k] == p_id[k - 8]);
            assert(is_digit_spec(p_id[k - 8]));
        } else if 9 + p_id.len() <= k < stem.len() {
            assert(name[k] == p_ix[k - 9 - p_id.len()]);
            assert(is_digit_spec(p_ix[k - 9 - p_id.len()]));
        }
    }
    let e = Seq::<char>::empty();
    lemma_split_nonempty(e, '/');
    lemma_split_without_sep(e, name, '/');
    assert(e + name =~= name);
    assert(split_spec(name, '/') =~= seq![name]);
    assert(name != seq!['.']);
    assert(name.len() > 2);
    assert(last_component(seq![name], 1) == Some(name));
    assert(file_name_spec(name) == Some(name));
    assert(name[len - 1] == 's' && name[len - 2] == '4' && name[len - 3] == 'm' && name[len - 4] == '.');
    assert(last_dot(name, len) == len - 4) by {
        reveal_with_fuel(last_dot, 5);
    }
    assert(name.subrange(0, len - 4) =~= stem);
    assert(file_stem_spec(name) == Some(stem));
    let m: int = 8 + p_id.len() as int;
    assert(stem[m] == '_');
    assert forall|k: int| m < k < stem.len() implies stem[k] != '_' by {
        assert(stem[k] == p_ix[k - m - 1]);
        assert(is_digit_spec(p_ix[k - m - 1]));
    }
    lemma_after_last_digits(stem, '_', m, stem.len() as int);
    assert(stem.subrange(m + 1, stem.len() as int) =~= p_ix);
    assert(is_digit_spec(p_ix[0]));
}

/// The segment number in a segment file name.
pub fn parse_segment_index(name: &str) -> (r: Option<u64>)
    ensures
        r == segment_index_spec(name@),
{
    let stem = match file_stem(chars_of(name).as_slice()) {
        Some(s) => s,
        None => return None,
    };
    let mut i: usize = stem.len();
    while i > 0 && stem[i - 1] != '_'
        invariant
            i <= stem@.len(),
            after_last(stem@, '_', stem@.len() as int) == after_last(stem@, '_', i as int),
        decreases i,
    {
        i = i - 1;
    }
    let tail = if i == 0 {
        slice_chars(stem.as_slice(), 0, stem.len())
    } else {
        slice_chars(stem.as_slice(), i, stem.len())
    };
    assert(stem@.subrange(0, stem@.len() as int) =~= stem@);
    parse_u64(tail.as_slice())
}

/// The value text of an `#EXTINF:` line: what precedes the first comma, trimmed.
pub open spec fn extinf_text_spec(line: Seq<char>) -> Option<Seq<char>> {
    let tag = "#EXTINF:"@;
    if has_prefix(line, tag) {
        let rest = line.subrange(tag.len() as int, line.len() as int);
        Some(trim_spec(split_spec(rest, ',')[0]))
    } else {
        None
    }
}

/// The value text of an `#EXTINF:` line.
pub fn extinf_duration_text(line: &str) -> (r: Option<String>)
    ensures
        match r {
            Some(t) => extinf_text_spec(line@) == Some(t@),
            None => extinf_text_spec(line@) is None,
        },
{
    let chars = chars_of(line);
    let tag = chars_of("#EXTINF:");
    if !starts_with(chars.as_slice(), tag.as_slice()) {
        return None;
    }
    let rest = slice_chars(chars.as_slice(), tag.len(), chars.len());
    let pieces = split_chars(rest.as_slice(), ',');
    proof {
        lemma_split_nonempty(rest@, ',');
    }
    let first = trim_chars(pieces[0].as_slice());
    Some(string_of(first.as_slice()))
}

/// One trimmed playlist line, with `#EXTINF:` durations already rounded up
/// to whole seconds.
#[derive(Clone, Debug, PartialEq, Eq)]
pub enum PlaylistLine {
    Extinf(u64),
    Text(String),
}

/// Where a segment starts in the source and how long it lasts.
#[derive(Clone, Copy, Debug, PartialEq, Eq, Structural)]
pub struct SegmentObservation {
    pub start: Timecode,
    pub duration_seconds: u64,
}

/// A segment the playlist lists, by file name.
#[derive(Clone, Debug, PartialEq, Eq)]
pub struct SegmentEntry {
    pub name: String,
    pub observation: SegmentObservation,
}

/// Whether a playlist line names a segment (not empty, not a tag or comment).
pub open spec fn names_segment(t: Seq<char>) -> bool {
    t.len() > 0 && t[0] != '#'
}

/// `a + b`, saturating at `u64::MAX`.
pub open spec fn sat_add_u64(a: u64, b: u64) -> u64 {
    if a + b > u64::MAX {
        u64::MAX
    } else {
        (a + b) as u64
    }
}

/// `a * b`, saturating at `u64::MAX`.
pub open spec fn sat_mul_u64(a: u64, b: u64) -> u64 {
    if a * b > u64::MAX {
        u64::MAX
    } else {
        (a * b) as u64
    }
}

/// The segments of the playlist lines, with the pending duration and the
/// start of the next segment: a segment lasts the last `#EXTINF:` before it
/// (0 without one) and starts at its number times the target duration when
/// both are known, else where the previous one ended.
pub open spec fn scan_segments(lines: Seq<PlaylistLine>, target: Option<u64>) -> (
    Seq<(Seq<char>, SegmentObservation)>,
    Option<u64>,
    u64,
)
    decreases lines.len(),
{
    if lines.len() == 0 {
        (Seq::empty(), None, 0)
    } else {
        let (entries, pending, next_start) = scan_segments(lines.drop_last(), target);
        match lines.last() {
            PlaylistLine::Extinf(d) => (entries, Some(d), next_start),
            PlaylistLine::Text(t) => if names_segment(t@) {
                let duration = match pending {
                    Some(d) => d,
                    None => 0,
                };
                let start = match (segment_index_spec(t@), target) {
                    (Some(i), Some(td)) => sat_mul_u64(i, td),
                    _ => next_start,
                };
                (
                    entries.push(
                        (t@, SegmentObservation { start: Timecode { seconds: start }, duration_seconds: duration }),
                    ),
                    None,
                    sat_add_u64(start, duration),
                )
            } else {
                (entries, pending, next_start)
            },
        }
    }
}

/// With a target duration, every segment the playlist lists whose name
/// carries an index starts at that index times the target duration
/// (saturating), whatever segments come before it in the playlist; and
/// every entry is a line that names a segment.
pub proof fn lemma_segment_starts_follow_index(lines: Seq<PlaylistLine>, td: u64)
    ensures
        ({
            let entries = scan_segments(lines, Some(td)).0;
            forall|k: int|
                0 <= k < entries.len() ==> {
                    &&& names_segment(#[trigger] entries[k].0)
                    &&& segment_index_spec(entries[k].0) matches Some(i) ==> entries[k].1.start.seconds
                        == (if i * td > u64::MAX {
                        u64::MAX as int
                    } else {
                        i * td
                    })
                }
        }),
    decreases lines.len(),
{
    if lines.len() > 0 {
        lemma_segment_starts_follow_index(lines.drop_last(), td);
    }
}

/// The texts and observations of segment entries.
pub open spec fn entry_views(v: Seq<SegmentEntry>) -> Seq<(Seq<char>, SegmentObservation)> {
    Seq::new(v.len(), |i: int| (v[i].name@, v[i].observation))
}

/// Whether a line names a segment.
fn line_names_segment(t: &String) -> (r: bool)
    ensures
        r == names_segment(t@),
{
    let c = string_chars(t);
    c.len() > 0 && c[0] != '#'
}

/// The segments the playlist lines list, in order; a later entry for the
/// same name replaces an earlier one when looked up.
pub fn parse_segment_map(lines: &Vec<PlaylistLine>, target_duration: Option<u64>) -> (r: Vec<
    SegmentEntry,
>)
    ensures
        entry_views(r@) == scan_segments(lines@, target_duration).0,
{
    let mut entries: Vec<SegmentEntry> = Vec::new();
    let mut pending: Option<u64> = None;
    let mut next_start: u64 = 0;
    let mut i: usize = 0;
    assert(lines@.subrange(0, 0) =~= Seq::<PlaylistLine>::empty());
    while i < lines.len()
        invariant
            i <= lines@.len(),
            (entry_views(entries@), pending, next_start) == scan_segments(
                lines@.subrange(0, i as int),
                target_duration,
            ),
        decreases lines@.len() - i,
    {
        let ghost prev = lines@.subrange(0, i as int);
        assert(lines@.subrange(0, i + 1).drop_last() =~= prev);
        match &lines[i] {
            PlaylistLine::Extinf(d) => {
                pending = Some(*d);
            },
            PlaylistLine::Text(t) => {
                if line_names_segment(t) {
                    let duration = match pending {
                        Some(d) => d,
                        None => 0,
                    };
                    let start = match (parse_segment_index(t.as_str()), target_duration) {
                        (Some(index), Some(td)) => crate::timecode::saturating_mul(index, td),
                        _ => next_start,
                    };
                    let ghost before = entries@;
                    entries.push(
                        SegmentEntry {
                            name: t.clone(),
                            observation: SegmentObservation {
                                start: Timecode::from_seconds(start),
                                duration_seconds: duration,
                            },
                        },
                    );
                    assert(entry_views(entries@) =~= entry_views(before).push(
                        (t@, SegmentObservation { start: Timecode { seconds: start }, duration_seconds: duration }),
                    ));
                    pending = None;
                    next_start = start.saturating_add(duration);
                }
            },
        }
        i = i + 1;
    }
    assert(lines@.subrange(0, lines@.len() as int) =~= lines@);
    entries
}

/// The observation recorded last for `name` at position below `n`.
pub open spec fn lookup_spec(entries: Seq<(Seq<char>, SegmentObservation)>, name: Seq<char>, n: int) -> Option<
    SegmentObservation,
>
    decreases n,
{
    if n <= 0 || n > entries.len() {
        None
    } else if entries[n - 1].0 == name {
        Some(entries[n - 1].1)
    } else {
        lookup_spec(entries, name, n - 1)
    }
}

/// The entries as a map from name to observation, each later entry
/// replacing an earlier one of the same name, as inserting them in order
/// into a map does.
pub open spec fn entries_map(entries: Seq<(Seq<char>, SegmentObservation)>) -> Map<
    Seq<char>,
    SegmentObservation,
>
    decreases entries.len(),
{
    if entries.len() == 0 {
        Map::empty()
    } else {
        entries_map(entries.drop_last()).insert(entries.last().0, entries.last().1)
    }
}

/// What a map gives for `key`.
pub open spec fn map_get(m: Map<Seq<char>, SegmentObservation>, key: Seq<char>) -> Option<
    SegmentObservation,
> {
    if m.dom().contains(key) {
        Some(m[key])
    } else {
        None
    }
}

proof fn lemma_lookup_prefix(entries: Seq<(Seq<char>, SegmentObservation)>, name: Seq<char>, k: int)
    requires
        0 <= k <= entries.len(),
    ensures
        lookup_spec(entries, name, k) == lookup_spec(entries.subrange(0, k), name, k),
    decreases k,
{
    if k > 0 {
        lemma_lookup_prefix(entries, name, k - 1);
        lemma_lookup_prefix(entries.subrange(0, k), name, k - 1);
        assert(entries.subrange(0, k).subrange(0, k - 1) =~= entries.subrange(0, k - 1));
    }
}

/// Looking a name up in the entries gives what the map of the entries
/// holds for it: the observation of the last entry with that name.
pub proof fn lemma_lookup_is_map_lookup(entries: Seq<(Seq<char>, SegmentObservation)>, name: Seq<char>)
    ensures
        lookup_spec(entries, name, entries.len() as int) == map_get(entries_map(entries), name),
    decreases entries.len(),
{
    if entries.len() > 0 {
        let p = entries.drop_last();
        lemma_lookup_is_map_lookup(p, name);
        lemma_lookup_prefix(entries, name, entries.len() - 1);
        assert(entries.subrange(0, entries.len() - 1) =~= p);
    }
}

/// The segment recorded for `name`: the last entry with that name.
pub fn find_segment(entries: &Vec<SegmentEntry>, name: &str) -> (r: Option<SegmentObservation>)
    ensures
        r == lookup_spec(entry_views(entries@), name@, entries@.len() as int),
        r == map_get(entries_map(entry_views(entries@)), name@),
{
    proof {
        lemma_lookup_is_map_lookup(entry_views(entries@), name@);
    }
    let mut i: usize = entries.len();
    while i > 0
        invariant
            i <= entries@.len(),
            lookup_spec(entry_views(entries@), name@, entries@.len() as int) == map_get(
                entries_map(entry_views(entries@)),
                name@,
            ),
            lookup_spec(entry_views(entries@), name@, entries@.len() as int) == lookup_spec(
                entry_views(entries@),
                name@,
                i as int,
            ),
        decreases i,
    {
        if str_eq(entries[i - 1].name.as_str(), name) {
            return Some(entries[i - 1].observation);
        }
        i = i - 1;
    }
    None
}

/// The pending duration, the start of the next segment and the furthest end
/// reached, over the playlist lines: segments follow one another from zero.
pub open spec fn scan_buffered(lines: Seq<PlaylistLine>) -> (Option<u64>, u64, u64)
    decreases lines.len(),
{
    if lines.len() == 0 {
        (None, 0, 0)
    } else {
        let (pending, next_start, last_end) = scan_buffered(lines.drop_last());
        match lines.last() {
            PlaylistLine::Extinf(d) => (Some(d), next_start, last_end),
            PlaylistLine::Text(t) => if names_segment(t@) {
                let duration = match pending {
                    Some(d) => d,
                    None => 0,
                };
                let end = sat_add_u64(next_start, duration);
                (None, end, if end > last_end { end } else { last_end })
            } else {
                (pending, next_start, last_end)
            },
        }
    }
}

/// How far the playlist reaches into the source: the furthest segment end.
pub fn buffered_until(lines: &Vec<PlaylistLine>) -> (r: Timecode)
    ensures
        r.seconds == scan_buffered(lines@).2,
{
    let mut pending: Option<u64> = None;
    let mut next_start: u64 = 0;
    let mut last_end: u64 = 0;
    let mut i: usize = 0;
    assert(lines@.subrange(0, 0) =~= Seq::<PlaylistLine>::empty());
    while i < lines.len()
        invariant
            i <= lines@.len(),
            (pending, next_start, last_end) == scan_buffered(lines@.subrange(0, i as int)),
        decreases lines@.len() - i,
    {
        assert(lines@.subrange(0, i + 1).drop_last() =~= lines@.subrange(0, i as int));
        match &lines[i] {
            PlaylistLine::Extinf(d) => {
                pending = Some(*d);
            },
            PlaylistLine::Text(t) => {
                if line_names_segment(t) {
                    let duration = match pending {
                        Some(d) => d,
                        None => 0,
                    };
                    let end = next_start.saturating_add(duration);
                    if end > last_end {
                        last_end = end;
                    }
                    next_start = end;
                    pending = None;
                }
            },
        }
        i = i + 1;
    }
    assert(lines@.subrange(0, lines@.len() as int) =~= lines@);
    Timecode::from_seconds(last_end)
}

/// How much is buffered past the current position.
pub fn buffer_ahead(buffered: Timecode, current_time: Timecode) -> (r: Timecode)
    ensures
        r.seconds == if buffered.seconds >= current_time.seconds {
            buffered.seconds - current_time.seconds
        } else {
            0
        },
{
    Timecode::from_seconds(buffered.seconds.saturating_sub(current_time.seconds))
}

/// The last segment the player asked for, and when.
#[derive(Clone, Copy, Debug, PartialEq, Eq, Structural)]
pub struct PlaybackTracker {
    pub last_segment: Option<SegmentObservation>,
    pub observed_at: Option<Moment>,
}

impl PlaybackTracker {
    /// A tracker that has seen nothing.
    pub fn new() -> (r: Self)
        ensures
            r.last_segment is None,
            r.observed_at is None,
    {
        PlaybackTracker { last_segment: None, observed_at: None }
    }

    /// Forgets what was seen.
    pub fn reset(&mut self)
        ensures
            final(self).last_segment is None,
            final(self).observed_at is None,
    {
        self.last_segment = None;
        self.observed_at = None;
    }

    /// Records that `segment` was requested at `now`.
    pub fn observe(&mut self, segment: SegmentObservation, now: Moment)
        ensures
            final(self).last_segment == Some(segment),
            final(self).observed_at == Some(now),
    {
        self.last_segment = Some(segment);
        self.observed_at = Some(now);
    }
}

} // verus!
