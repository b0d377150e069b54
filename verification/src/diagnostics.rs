//! The command and request lines shown as diagnostics.

use vstd::prelude::*;
use crate::strings::{append_chars, append_str, chars_of, is_ascii_alnum_spec, string_chars, string_of};

verus! {

/// Characters a shell word may hold without quoting.
pub open spec fn shell_safe(c: char) -> bool {
    is_ascii_alnum_spec(c) || c == '/' || c == ':' || c == '.' || c == '_' || c == '-'
}

/// The text with each `'` replaced by `'\''`.
pub open spec fn escape_quotes(s: Seq<char>) -> Seq<char>
    decreases s.len(),
{
    if s.len() == 0 {
        s
    } else {
        escape_quotes(s.drop_last()) + if s.last() == '\'' {
            seq!['\'', '\\', '\'', '\'']
        } else {
            seq![s.last()]
        }
    }
}

/// A shell word: unchanged when every character is safe, otherwise single
/// quoted with embedded quotes escaped.
pub open spec fn shell_escape_spec(s: Seq<char>) -> Seq<char> {
    if forall|i: int| 0 <= i < s.len() ==> shell_safe(#[trigger] s[i]) {
        s
    } else {
        seq!['\''] + escape_quotes(s) + seq!['\'']
    }
}

/// Quotes a value for display as a shell word.
pub fn shell_escape(value: &str) -> (r: String)
    ensures
        r@ == shell_escape_spec(value@),
{
    let chars = chars_of(value);
    let mut i: usize = 0;
    let mut safe = true;
    while i < chars.len()
        invariant
            i <= chars@.len(),
            chars@ == value@,
            safe == (forall|j: int| 0 <= j < i ==> shell_safe(#[trigger] chars@[j])),
        decreases chars@.len() - i,
    {
        let c = chars[i];
        let ok = crate::strings::is_ascii_alnum(c) || c == '/' || c == ':' || c == '.' || c == '_'
            || c == '-';
        safe = safe && ok;
        i = i + 1;
    }
    if safe {
        return string_of(chars.as_slice());
    }
    let mut out: Vec<char> = Vec::new();
    out.push('\'');
    let ghost start = out@;
    let mut k: usize = 0;
    assert(chars@.subrange(0, 0) =~= Seq::<char>::empty());
    while k < chars.len()
        invariant
            k <= chars@.len(),
            start == seq!['\''],
            out@ == start + escape_quotes(chars@.subrange(0, k as int)),
        decreases chars@.len() - k,
    {
        assert(chars@.subrange(0, k + 1).drop_last() =~= chars@.subrange(0, k as int));
        if chars[k] == '\'' {
            out.push('\'');
            out.push('\\');
            out.push('\'');
            out.push('\'');
        } else {
            out.push(chars[k]);
        }
        assert(out@ =~= start + escape_quotes(chars@.subrange(0, k + 1)));
        k = k + 1;
    }
    out.push('\'');
    assert(chars@.subrange(0, chars@.len() as int) =~= chars@);
    assert(out@ =~= shell_escape_spec(value@));
    string_of(out.as_slice())
}

/// The words of a command line, each argument quoted as a shell word.
pub open spec fn command_line_spec(program: Seq<char>, args: Seq<Seq<char>>) -> Seq<char>
    decreases args.len(),
{
    if args.len() == 0 {
        program
    } else {
        command_line_spec(program, args.drop_last()) + " "@ + shell_escape_spec(args.last())
    }
}

/// The command line of `program` with `args`, for display.
pub fn render_command(program: &str, args: &Vec<String>) -> (r: String)
    ensures
        r@ == command_line_spec(program@, Seq::new(args@.len(), |i: int| args@[i]@)),
{
    let ghost views = Seq::new(args@.len(), |i: int| args@[i]@);
    let mut out = chars_of(program);
    let mut i: usize = 0;
    assert(views.subrange(0, 0) =~= Seq::<Seq<char>>::empty());
    while i < args.len()
        invariant
            i <= args@.len(),
            views == Seq::new(args@.len(), |i: int| args@[i]@),
            out@ == command_line_spec(program@, views.subrange(0, i as int)),
        decreases args@.len() - i,
    {
        assert(views.subrange(0, i + 1).drop_last() =~= views.subrange(0, i as int));
        append_str(&mut out, " ");
        append_chars(&mut out, string_chars(&shell_escape(args[i].as_str())).as_slice());
        i = i + 1;
    }
    assert(views.subrange(0, args@.len() as int) =~= views);
    string_of(out.as_slice())
}

/// `Request: METHOD URL`, with the extra note in brackets when given.
pub open spec fn request_line_spec(method: Seq<char>, url: Seq<char>, extra: Option<Seq<char>>) -> Seq<char> {
    match extra {
        Some(e) => "Request: "@ + method + " "@ + url + " ("@ + e + ")"@,
        None => "Request: "@ + method + " "@ + url,
    }
}

/// The diagnostic line of an HTTP request.
pub fn render_request(method: &str, url: &str, extra: Option<&str>) -> (r: String)
    ensures
        r@ == request_line_spec(
            method@,
            url@,
            match extra {
                Some(e) => Some(e@),
                None => None,
            },
        ),
{
    let mut out: Vec<char> = Vec::new();
    append_str(&mut out, "Request: ");
    append_str(&mut out, method);
    append_str(&mut out, " ");
    append_str(&mut out, url);
    if let Some(e) = extra {
        append_str(&mut out, " (");
        append_str(&mut out, e);
        append_str(&mut out, ")");
    }
    string_of(out.as_slice())
}

} // verus!
