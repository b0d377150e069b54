//! What the source's HTTP responses tell about it: its file name, its size,
//! and whether it serves byte ranges.

use vstd::prelude::*;
use crate::media::{SeekSupport, SourceInspection, SourceMetadata};
use crate::server::after_last;
use crate::strings::{
    chars_of, has_prefix, parse_u64, parse_u64_spec, slice_chars, starts_with, string_of, trim_chars,
    trim_spec,
};
use crate::terminal::{eq_ignore_ascii_case, eq_ignore_case_spec};
use crate::timecode::{split_chars, split_spec};
use crate::url::{
    pair_views, parsed_path_segments, parsed_query_pairs, string_views, url_path_segments,
    url_query_pairs,
};

verus! {

/// The warning shown when the source serves no byte ranges.
pub open spec fn no_ranges_warning() -> Seq<char> {
    "This source doesn't appear to support jumping to a different time."@
}

/// The warning shown when range support could not be confirmed.
pub open spec fn unconfirmed_warning() -> Seq<char> {
    "Couldn't confirm whether this source supports jumping to a different time."@
}

/// What a response says about seeking: enabled when it accepts byte ranges
/// or answers a range request, disabled for another success, unknown
/// otherwise.
pub open spec fn seek_support_spec(status: u16, accept_ranges: Option<Seq<char>>, has_content_range: bool, r: Option<SeekSupport>) -> bool {
    if (accept_ranges matches Some(v) && eq_ignore_case_spec(v, "bytes"@)) || status == 206
        || has_content_range {
        r == Some(SeekSupport::Enabled)
    } else if 200 <= status <= 299 {
        r matches Some(SeekSupport::Disabled { warning }) && warning@ == no_ranges_warning()
    } else {
        r is None
    }
}

/// Classifies a response by its status, its `Accept-Ranges` header (when it
/// is text) and whether it has a `Content-Range` header.
pub fn classify_seek_support_parts(status: u16, accept_ranges: Option<&str>, has_content_range: bool) -> (r:
    Option<SeekSupport>)
    ensures
        seek_support_spec(
            status,
            match accept_ranges {
                Some(v) => Some(v@),
                None => None,
            },
            has_content_range,
            r,
        ),
{
    if let Some(v) = accept_ranges {
        if eq_ignore_ascii_case(v, "bytes") {
            return Some(SeekSupport::Enabled);
        }
    }
    if status == 206 || has_content_range {
        return Some(SeekSupport::Enabled);
    }
    if 200 <= status && status <= 299 {
        return Some(
            SeekSupport::Disabled {
                warning: "This source doesn't appear to support jumping to a different time.".to_owned(),
            },
        );
    }
    None
}

/// Whether a second, ranged request is worth sending.
pub fn should_try_range_request(support: &Option<SeekSupport>) -> (r: bool)
    ensures
        r == (*support != Some(SeekSupport::Enabled)),
{
    match support {
        Some(SeekSupport::Enabled) => false,
        _ => true,
    }
}

/// The seek support found, or a warning that it could not be confirmed.
pub fn seek_support_or_unconfirmed(support: Option<SeekSupport>) -> (r: SeekSupport)
    ensures
        match support {
            Some(s) => r == s,
            None => r matches SeekSupport::Disabled { warning } && warning@ == unconfirmed_warning(),
        },
{
    match support {
        Some(s) => s,
        None => SeekSupport::Disabled {
            warning: "Couldn't confirm whether this source supports jumping to a different time.".to_owned(),
        },
    }
}

/// The text with every leading and trailing `"` removed.
pub open spec fn strip_quotes_spec(s: Seq<char>) -> Seq<char>
    decreases s.len(),
{
    if s.len() > 0 && s[0] == '"' {
        strip_quotes_spec(s.drop_first())
    } else if s.len() > 0 && s.last() == '"' {
        strip_quotes_spec(s.drop_last())
    } else {
        s
    }
}

/// The value trimmed and stripped of surrounding quotes.
pub fn trim_quotes(value: &str) -> (r: String)
    ensures
        r@ == strip_quotes_spec(trim_spec(value@)),
{
    let t = trim_chars(chars_of(value).as_slice());
    let mut a: usize = 0;
    let mut b: usize = t.len();
    assert(t@.subrange(0, t@.len() as int) =~= t@);
    while a < b && (t[a] == '"' || t[b - 1] == '"')
        invariant
            a <= b <= t@.len(),
            strip_quotes_spec(t@) == strip_quotes_spec(t@.subrange(a as int, b as int)),
        decreases b - a,
    {
        let ghost cur = t@.subrange(a as int, b as int);
        if t[a] == '"' {
            assert(cur.drop_first() =~= t@.subrange(a + 1, b as int));
            a = a + 1;
        } else {
            assert(cur.drop_last() =~= t@.subrange(a as int, b - 1));
            b = b - 1;
        }
    }
    string_of(slice_chars(t.as_slice(), a, b).as_slice())
}

/// The `filename=` parameter of a `Content-Disposition` value: the first
/// `;`-separated part that holds one, trimmed and unquoted.
pub open spec fn disposition_filename_from(parts: Seq<Seq<char>>, i: int) -> Option<Seq<char>>
    decreases parts.len() - i,
{
    if i < 0 || i >= parts.len() {
        None
    } else {
        let p = trim_spec(parts[i]);
        if has_prefix(p, "filename="@) {
            Some(strip_quotes_spec(trim_spec(p.subrange(9, p.len() as int))))
        } else {
            disposition_filename_from(parts, i + 1)
        }
    }
}

/// The file name a `Content-Disposition` value gives.
pub fn parse_content_disposition_filename(value: &str) -> (r: Option<String>)
    ensures
        match r {
            Some(v) => disposition_filename_from(split_spec(value@, ';'), 0) == Some(v@),
            None => disposition_filename_from(split_spec(value@, ';'), 0) is None,
        },
{
    proof {
        reveal_strlit("filename=");
    }
    let parts = split_chars(chars_of(value).as_slice(), ';');
    let ghost sp = split_spec(value@, ';');
    let tag = chars_of("filename=");
    let mut i: usize = 0;
    while i < parts.len()
        invariant
            i <= parts@.len(),
            sp == split_spec(value@, ';'),
            tag@ == "filename="@,
            tag@.len() == 9,
            parts@.len() == sp.len(),
            forall|j: int| 0 <= j < parts@.len() ==> #[trigger] parts@[j]@ == sp[j],
            disposition_filename_from(sp, 0) == disposition_filename_from(sp, i as int),
        decreases parts@.len() - i,
    {
        assert(parts@[i as int]@ == sp[i as int]);
        let p = trim_chars(parts[i].as_slice());
        if starts_with(p.as_slice(), tag.as_slice()) {
            let rest = slice_chars(p.as_slice(), 9, p.len());
            let rest_text = string_of(rest.as_slice());
            return Some(trim_quotes(rest_text.as_str()));
        }
        i = i + 1;
    }
    None
}

/// The total size a `Content-Range` value gives: the number after its last `/`.
pub fn parse_content_range_size(value: &str) -> (r: Option<u64>)
    ensures
        r == parse_u64_spec(after_last(value@, '/', value@.len() as int)),
{
    let v = chars_of(value);
    let mut i: usize = v.len();
    while i > 0 && v[i - 1] != '/'
        invariant
            i <= v@.len(),
            v@ == value@,
            after_last(value@, '/', value@.len() as int) == after_last(value@, '/', i as int),
        decreases i,
    {
        i = i - 1;
    }
    let tail = if i == 0 {
        slice_chars(v.as_slice(), 0, v.len())
    } else {
        slice_chars(v.as_slice(), i, v.len())
    };
    assert(v@.subrange(0, v@.len() as int) =~= v@);
    parse_u64(tail.as_slice())
}

/// The last non-empty piece below position `n`.
pub open spec fn last_named(pieces: Seq<Seq<char>>, n: int) -> Option<Seq<char>>
    decreases n,
{
    if n <= 0 || n > pieces.len() {
        None
    } else if pieces[n - 1].len() > 0 {
        Some(pieces[n - 1])
    } else {
        last_named(pieces, n - 1)
    }
}

/// The value of the first `path` query pair at position `i` or later.
pub open spec fn path_param_from(pairs: Seq<(Seq<char>, Seq<char>)>, i: int) -> Option<Seq<char>>
    decreases pairs.len() - i,
{
    if i < 0 || i >= pairs.len() {
        None
    } else if pairs[i].0 == "path"@ {
        Some(pairs[i].1)
    } else {
        path_param_from(pairs, i + 1)
    }
}

/// The file name of a source URL: the last non-empty segment of its `path`
/// query value, else the last non-empty path segment, else `Unknown`; an
/// unparseable URL is `Unknown`.
pub open spec fn source_filename_spec(url: Seq<char>) -> Seq<char> {
    match url_query_pairs(url) {
        None => "Unknown"@,
        Some(pairs) => {
            let from_query = match path_param_from(pairs, 0) {
                Some(v) => last_named(split_spec(v, '/'), split_spec(v, '/').len() as int),
                None => None,
            };
            match from_query {
                Some(name) => name,
                None => match url_path_segments(url) {
                    Some(segments) => match last_named(segments, segments.len() as int) {
                        Some(name) => name,
                        None => "Unknown"@,
                    },
                    None => "Unknown"@,
                },
            }
        },
    }
}

/// The last non-empty piece of a list of texts.
fn last_named_piece(pieces: &Vec<Vec<char>>) -> (r: Option<Vec<char>>)
    ensures
        match r {
            Some(v) => last_named(crate::strings::vec_views(pieces@), pieces@.len() as int) == Some(v@),
            None => last_named(crate::strings::vec_views(pieces@), pieces@.len() as int) is None,
        },
{
    let ghost views = crate::strings::vec_views(pieces@);
    let mut i: usize = pieces.len();
    while i > 0
        invariant
            i <= pieces@.len(),
            views == crate::strings::vec_views(pieces@),
            last_named(views, pieces@.len() as int) == last_named(views, i as int),
        decreases i,
    {
        if pieces[i - 1].len() > 0 {
            assert(views[i - 1] == pieces@[i - 1]@);
            return Some(slice_chars(pieces[i - 1].as_slice(), 0, pieces[i - 1].len()));
        }
        i = i - 1;
    }
    None
}

/// The value of the first `path` query pair.
fn find_path_param(pairs: &Vec<(String, String)>) -> (r: Option<String>)
    ensures
        match r {
            Some(v) => path_param_from(pair_views(pairs@), 0) == Some(v@),
            None => path_param_from(pair_views(pairs@), 0) is None,
        },
{
    let ghost pv = pair_views(pairs@);
    let mut i: usize = 0;
    while i < pairs.len()
        invariant
            i <= pairs@.len(),
            pv == pair_views(pairs@),
            path_param_from(pv, 0) == path_param_from(pv, i as int),
        decreases pairs@.len() - i,
    {
        if crate::strings::str_eq(pairs[i].0.as_str(), "path") {
            return Some(pairs[i].1.clone());
        }
        i = i + 1;
    }
    None
}

/// The file name of a source URL.
pub fn filename_from_url(url: &str) -> (r: String)
    ensures
        r@ == source_filename_spec(url@),
{
    proof {
        reveal_strlit("path");
    }
    let pairs = match parsed_query_pairs(url) {
        Some(p) => p,
        None => return "Unknown".to_owned(),
    };
    let ghost pv = pair_views(pairs@);
    let path_value = find_path_param(&pairs);
    if let Some(v) = path_value {
        let pieces = split_chars(chars_of(v.as_str()).as_slice(), '/');
        assert(crate::strings::vec_views(pieces@) =~= split_spec(v@, '/'));
        if let Some(name) = last_named_piece(&pieces) {
            return string_of(name.as_slice());
        }
    }
    let ghost want = source_filename_spec(url@);
    match parsed_path_segments(url) {
        Some(segments) => {
            let mut k: usize = segments.len();
            while k > 0
                invariant
                    k <= segments@.len(),
                    want == source_filename_spec(url@),
                    match last_named(string_views(segments@), segments@.len() as int) {
                        Some(n) => want == n,
                        None => want == "Unknown"@,
                    },
                    last_named(string_views(segments@), segments@.len() as int) == last_named(
                        string_views(segments@),
                        k as int,
                    ),
                decreases k,
            {
                if segments[k - 1].as_str().unicode_len() > 0 {
                    assert(string_views(segments@)[k - 1] == segments@[k - 1]@);
                    return segments[k - 1].clone();
                }
                k = k - 1;
            }
            "Unknown".to_owned()
        },
        None => "Unknown".to_owned(),
    }
}

/// Updates the metadata from a response's headers: a non-empty
/// `Content-Disposition` file name wins, otherwise an empty file name is
/// taken from the response URL; an unknown size is taken from
/// `Content-Range`, else from `Content-Length`.
pub fn apply_response_metadata(
    metadata: &mut SourceMetadata,
    content_disposition: Option<&str>,
    response_url: &str,
    content_range: Option<&str>,
    content_length: Option<&str>,
)
    ensures
        ({
            let named = match content_disposition {
                Some(d) => disposition_filename_from(split_spec(d@, ';'), 0),
                None => None,
            };
            match named {
                Some(n) => if n.len() > 0 {
                    final(metadata).filename@ == n
                } else if old(metadata).filename@.len() == 0 {
                    final(metadata).filename@ == source_filename_spec(response_url@)
                } else {
                    final(metadata).filename == old(metadata).filename
                },
                None => if old(metadata).filename@.len() == 0 {
                    final(metadata).filename@ == source_filename_spec(response_url@)
                } else {
                    final(metadata).filename == old(metadata).filename
                },
            }
        }),
        final(metadata).size_bytes == match old(metadata).size_bytes {
            Some(s) => Some(s),
            None => match match content_range {
                Some(v) => parse_u64_spec(after_last(v@, '/', v@.len() as int)),
                None => None,
            } {
                Some(s) => Some(s),
                None => match content_length {
                    Some(v) => parse_u64_spec(v@),
                    None => None,
                },
            },
        },
{
    let named = match content_disposition {
        Some(d) => parse_content_disposition_filename(d),
        None => None,
    };
    let mut replaced = false;
    if let Some(n) = named {
        if n.as_str().unicode_len() > 0 {
            metadata.filename = n;
            replaced = true;
        }
    }
    if !replaced && metadata.filename.as_str().unicode_len() == 0 {
        metadata.filename = filename_from_url(response_url);
    }
    if metadata.size_bytes.is_none() {
        let from_range = match content_range {
            Some(v) => parse_content_range_size(v),
            None => None,
        };
        metadata.size_bytes = match from_range {
            Some(s) => Some(s),
            None => match content_length {
                Some(v) => parse_u64(chars_of(v).as_slice()),
                None => None,
            },
        };
    }
}

/// The inspection result, naming an unnamed source `Unknown`.
pub fn finish_inspection(metadata: SourceMetadata, seek_support: SeekSupport) -> (r: SourceInspection)
    ensures
        r.metadata.filename@ == (if metadata.filename@.len() == 0 {
            "Unknown"@
        } else {
            metadata.filename@
        }),
        r.metadata.size_bytes == metadata.size_bytes,
        r.seek_support == seek_support,
{
    let mut metadata = metadata;
    if metadata.filename.as_str().unicode_len() == 0 {
        metadata.filename = "Unknown".to_owned();
    }
    SourceInspection::new(metadata, seek_support)
}

} // verus!
