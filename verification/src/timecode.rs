//! Timestamps in whole seconds, their `HH:MM:SS` text and their parser.

use crate::strings::{
    all_digits, decimal, digit_char, digit_value, digits_value, is_digit, is_digit_spec,
    parse_u64, push_padded, string_of, trim, trim_end_spec, trim_spec, trim_start_spec, zero_pad,
};
use vstd::prelude::*;

verus! {

/// Timestamp value used throughout quickbridge.
#[derive(Clone, Copy, Debug, Default, Eq, Ord, PartialEq, PartialOrd, Structural)]
pub struct Timecode {
    pub seconds: u64,
}

/// Errors returned while parsing timestamps.
#[derive(Clone, Copy, Debug, Eq, PartialEq, Structural)]
pub enum TimecodeParseError {
    Empty,
    WrongFormat,
    EmptyComponent,
    InvalidCharacters,
    /// A component of digits whose value does not fit in a `u64`: once every
    /// character is known to be a digit, that overflow is the one way the
    /// number can fail to parse.
    InvalidNumber,
    SecondsOutOfRange,
    MinutesOrSecondsOutOfRange,
}

impl View for Timecode {
    type V = nat;

    open spec fn view(&self) -> nat {
        self.seconds as nat
    }
}

/// `a * b`, or `u64::MAX` when that does not fit.
pub open spec fn sat_mul(a: nat, b: nat) -> nat {
    if a * b > u64::MAX {
        u64::MAX as nat
    } else {
        a * b
    }
}

/// `a + b`, or `u64::MAX` when that does not fit.
pub open spec fn sat_add(a: nat, b: nat) -> nat {
    if a + b > u64::MAX {
        u64::MAX as nat
    } else {
        a + b
    }
}

/// The pieces of `s` between occurrences of `sep`, as `str::split`.
pub open spec fn split_spec(s: Seq<char>, sep: char) -> Seq<Seq<char>>
    decreases s.len(),
{
    if s.len() == 0 {
        seq![Seq::<char>::empty()]
    } else {
        let prev = split_spec(s.drop_last(), sep);
        if s.last() == sep {
            prev.push(Seq::<char>::empty())
        } else {
            prev.update(prev.len() - 1, prev.last().push(s.last()))
        }
    }
}

/// The value of one `:`-separated component, or why it is refused.
pub open spec fn component_spec(p: Seq<char>) -> Result<u64, TimecodeParseError> {
    if p.len() == 0 {
        Err(TimecodeParseError::EmptyComponent)
    } else if !all_digits(p) {
        Err(TimecodeParseError::InvalidCharacters)
    } else if digits_value(p) > u64::MAX {
        Err(TimecodeParseError::InvalidNumber)
    } else {
        Ok(digits_value(p) as u64)
    }
}

/// The values of all components, or the error of the first refused one.
pub open spec fn components_spec(parts: Seq<Seq<char>>) -> Result<Seq<u64>, TimecodeParseError>
    decreases parts.len(),
{
    if parts.len() == 0 {
        Ok(Seq::<u64>::empty())
    } else {
        match components_spec(parts.drop_last()) {
            Err(e) => Err(e),
            Ok(values) => match component_spec(parts.last()) {
                Err(e) => Err(e),
                Ok(n) => Ok(values.push(n)),
            },
        }
    }
}

/// Total seconds of `SS`, `MM:SS` or `HH:MM:SS` values, or the range error.
pub open spec fn combine_spec(ns: Seq<u64>) -> Result<u64, TimecodeParseError> {
    if ns.len() == 1 {
        Ok(ns[0])
    } else if ns.len() == 2 {
        if ns[1] >= 60 {
            Err(TimecodeParseError::SecondsOutOfRange)
        } else {
            Ok(sat_add(sat_mul(ns[0] as nat, 60), ns[1] as nat) as u64)
        }
    } else {
        if ns[1] >= 60 || ns[2] >= 60 {
            Err(TimecodeParseError::MinutesOrSecondsOutOfRange)
        } else {
            Ok(
                sat_add(
                    sat_add(sat_mul(ns[0] as nat, 3600), sat_mul(ns[1] as nat, 60)),
                    ns[2] as nat,
                ) as u64,
            )
        }
    }
}

/// What a timestamp text means: seconds, or why it is refused.
pub open spec fn parse_timecode_spec(s: Seq<char>) -> Result<u64, TimecodeParseError> {
    let t = trim_spec(s);
    if t.len() == 0 {
        Err(TimecodeParseError::Empty)
    } else {
        let parts = split_spec(t, ':');
        if parts.len() < 1 || parts.len() > 3 {
            Err(TimecodeParseError::WrongFormat)
        } else {
            match components_spec(parts) {
                Err(e) => Err(e),
                Ok(ns) => combine_spec(ns),
            }
        }
    }
}

/// `n` seconds moved by `delta`, clamped to `0..=u64::MAX`.
pub open spec fn apply_delta_spec(n: nat, delta: int) -> nat {
    if n + delta < 0 {
        0
    } else if n + delta > u64::MAX {
        u64::MAX as nat
    } else {
        (n + delta) as nat
    }
}

/// `HH:MM:SS` text of a number of seconds (hours may take more digits).
pub open spec fn hms_spec(n: nat) -> Seq<char> {
    zero_pad(decimal(n / 3600), 2) + seq![':'] + zero_pad(decimal((n % 3600) / 60), 2) + seq![':']
        + zero_pad(decimal(n % 60), 2)
}

/// `a * b` saturating at `u64::MAX`.
pub fn saturating_mul(a: u64, b: u64) -> (r: u64)
    ensures
        r == sat_mul(a as nat, b as nat),
{
    match a.checked_mul(b) {
        Some(v) => v,
        None => u64::MAX,
    }
}

/// `a + b` saturating at `u64::MAX`.
pub fn saturating_add(a: u64, b: u64) -> (r: u64)
    ensures
        r == sat_add(a as nat, b as nat),
{
    a.saturating_add(b)
}

pub(crate) proof fn lemma_split_nonempty(s: Seq<char>, sep: char)
    ensures
        split_spec(s, sep).len() >= 1,
    decreases s.len(),
{
    if s.len() > 0 {
        lemma_split_nonempty(s.drop_last(), sep);
    }
}

/// Splits `s` on `sep`, as `str::split` does.
pub fn split_chars(s: &[char], sep: char) -> (parts: Vec<Vec<char>>)
    ensures
        parts@.len() == split_spec(s@, sep).len(),
        forall|i: int| 0 <= i < parts@.len() ==> #[trigger] parts@[i]@ == split_spec(s@, sep)[i],
{
    let mut parts: Vec<Vec<char>> = Vec::new();
    let mut current: Vec<char> = Vec::new();
    let mut i: usize = 0;
    assert(s@.subrange(0, 0) =~= Seq::<char>::empty());
    while i < s.len()
        invariant
            i <= s@.len(),
            parts@.len() + 1 == split_spec(s@.subrange(0, i as int), sep).len(),
            forall|k: int|
                0 <= k < parts@.len() ==> #[trigger] parts@[k]@ == split_spec(
                    s@.subrange(0, i as int),
                    sep,
                )[k],
            current@ == split_spec(s@.subrange(0, i as int), sep).last(),
        decreases s@.len() - i,
    {
        let c = s[i];
        let ghost prev = split_spec(s@.subrange(0, i as int), sep);
        assert(s@.subrange(0, i + 1).drop_last() =~= s@.subrange(0, i as int));
        proof {
            lemma_split_nonempty(s@.subrange(0, i as int), sep);
        }
        if c == sep {
            parts.push(current);
            current = Vec::new();
            assert(current@ =~= Seq::<char>::empty());
        } else {
            current.push(c);
        }
        i = i + 1;
    }
    parts.push(current);
    assert(s@.subrange(0, s@.len() as int) =~= s@);
    parts
}

proof fn lemma_components_prefix(parts: Seq<Seq<char>>, k: int)
    requires
        0 <= k < parts.len(),
        components_spec(parts.subrange(0, k)) is Err,
    ensures
        components_spec(parts.subrange(0, k + 1)) == components_spec(parts.subrange(0, k)),
{
    assert(parts.subrange(0, k + 1).drop_last() =~= parts.subrange(0, k));
}

proof fn lemma_components_err_extends(parts: Seq<Seq<char>>, k: int)
    requires
        0 <= k <= parts.len(),
        components_spec(parts.subrange(0, k)) is Err,
    ensures
        components_spec(parts) == components_spec(parts.subrange(0, k)),
    decreases parts.len() - k,
{
    if k < parts.len() {
        lemma_components_prefix(parts, k);
        lemma_components_err_extends(parts, k + 1);
    } else {
        assert(parts.subrange(0, k) =~= parts);
    }
}

/// The value of one component, or why it is refused.
fn parse_component(p: &[char]) -> (r: Result<u64, TimecodeParseError>)
    ensures
        r == component_spec(p@),
{
    if p.len() == 0 {
        return Err(TimecodeParseError::EmptyComponent);
    }
    let mut i: usize = 0;
    while i < p.len()
        invariant
            i <= p@.len(),
            forall|k: int| 0 <= k < i ==> is_digit_spec(#[trigger] p@[k]),
        decreases p@.len() - i,
    {
        if !is_digit(p[i]) {
            assert(!is_digit_spec(p@[i as int]));
            return Err(TimecodeParseError::InvalidCharacters);
        }
        i = i + 1;
    }
    assert(all_digits(p@));
    match parse_u64(p) {
        Some(v) => Ok(v),
        None => Err(TimecodeParseError::InvalidNumber),
    }
}

impl Timecode {
    /// The zero timestamp.
    pub fn zero() -> (r: Self)
        ensures
            r@ == 0,
    {
        Timecode { seconds: 0 }
    }

    pub fn from_seconds(seconds: u64) -> (r: Self)
        ensures
            r@ == seconds,
    {
        Timecode { seconds }
    }

    pub fn as_seconds(self) -> (r: u64)
        ensures
            r == self@,
    {
        self.seconds
    }

    /// Parses `SS`, `MM:SS` or `HH:MM:SS`, ignoring surrounding whitespace.
    pub fn parse(input: &str) -> (r: Result<Self, TimecodeParseError>)
        ensures
            match parse_timecode_spec(input@) {
                Ok(n) => r == Ok::<Timecode, TimecodeParseError>(Timecode { seconds: n }),
                Err(e) => r == Err::<Timecode, TimecodeParseError>(e),
            },
    {
        let t = trim(input);
        if t.len() == 0 {
            return Err(TimecodeParseError::Empty);
        }
        let parts = split_chars(t.as_slice(), ':');
        if parts.len() < 1 || parts.len() > 3 {
            return Err(TimecodeParseError::WrongFormat);
        }
        let ghost sparts = split_spec(t@, ':');
        let mut numbers: Vec<u64> = Vec::new();
        let mut k: usize = 0;
        assert(sparts.subrange(0, 0) =~= Seq::<Seq<char>>::empty());
        while k < parts.len()
            invariant
                t@ == trim_spec(input@),
                t@.len() > 0,
                1 <= sparts.len() <= 3,
                sparts == split_spec(t@, ':'),
                parts@.len() == sparts.len(),
                forall|i: int| 0 <= i < parts@.len() ==> #[trigger] parts@[i]@ == sparts[i],
                k <= parts@.len(),
                components_spec(sparts.subrange(0, k as int)) == Ok::<
                    Seq<u64>,
                    TimecodeParseError,
                >(numbers@),
            decreases parts@.len() - k,
        {
            let part = &parts[k];
            assert(part@ == sparts[k as int]);
            assert(sparts.subrange(0, k + 1).drop_last() =~= sparts.subrange(0, k as int));
            match parse_component(part.as_slice()) {
                Ok(n) => {
                    numbers.push(n);
                },
                Err(e) => {
                    proof {
                        assert(sparts.subrange(0, k + 1).last() == sparts[k as int]);
                        assert(components_spec(sparts.subrange(0, k + 1)) == Err::<
                            Seq<u64>,
                            TimecodeParseError,
                        >(e));
                        lemma_components_err_extends(sparts, k + 1);
                    }
                    return Err(e);
                },
            }
            k = k + 1;
        }
        assert(sparts.subrange(0, parts@.len() as int) =~= sparts);
        proof {
            lemma_components_len(sparts);
        }
        let seconds = if numbers.len() == 1 {
            numbers[0]
        } else if numbers.len() == 2 {
            if numbers[1] >= 60 {
                return Err(TimecodeParseError::SecondsOutOfRange);
            }
            saturating_add(saturating_mul(numbers[0], 60), numbers[1])
        } else {
            if numbers[1] >= 60 || numbers[2] >= 60 {
                return Err(TimecodeParseError::MinutesOrSecondsOutOfRange);
            }
            saturating_add(
                saturating_add(saturating_mul(numbers[0], 3600), saturating_mul(numbers[1], 60)),
                numbers[2],
            )
        };
        Ok(Timecode { seconds })
    }

    /// Moves the timestamp by `delta_seconds`, saturating at both ends.
    pub fn apply_delta(self, delta_seconds: i64) -> (r: Self)
        ensures
            r@ == apply_delta_spec(self@, delta_seconds as int),
    {
        if delta_seconds < 0 {
            let magnitude: u64 = (0i128 - delta_seconds as i128) as u64;
            Timecode { seconds: self.seconds.saturating_sub(magnitude) }
        } else {
            Timecode { seconds: self.seconds.saturating_add(delta_seconds as u64) }
        }
    }

    /// The `HH:MM:SS` text of the timestamp.
    pub fn to_string(&self) -> (s: String)
        ensures
            s@ == hms_spec(self@),
    {
        let total = self.seconds;
        let mut v: Vec<char> = Vec::new();
        push_padded(&mut v, total / 3600, 2);
        v.push(':');
        push_padded(&mut v, (total % 3600) / 60, 2);
        v.push(':');
        push_padded(&mut v, total % 60, 2);
        assert(v@ =~= hms_spec(self@));
        string_of(v.as_slice())
    }
}

proof fn lemma_components_len(parts: Seq<Seq<char>>)
    ensures
        components_spec(parts) matches Ok(ns) ==> ns.len() == parts.len(),
    decreases parts.len(),
{
    if parts.len() > 0 {
        lemma_components_len(parts.drop_last());
    }
}

impl TimecodeParseError {
    /// The message shown to the user for this error.
    pub fn message(&self) -> (s: &'static str)
        ensures
            s@ == timecode_error_message(*self),
    {
        match self {
            TimecodeParseError::Empty => "timestamp cannot be empty",
            TimecodeParseError::WrongFormat => "timestamp must use `SS`, `MM:SS`, or `HH:MM:SS`",
            TimecodeParseError::EmptyComponent => "timestamp contains an empty component",
            TimecodeParseError::InvalidCharacters => "timestamp must contain only digits and `:`",
            TimecodeParseError::InvalidNumber => "timestamp contains an invalid number",
            TimecodeParseError::SecondsOutOfRange => "seconds must be less than 60 in `MM:SS`",
            TimecodeParseError::MinutesOrSecondsOutOfRange => {
                "minutes and seconds must be less than 60 in `HH:MM:SS`"
            },
        }
    }
}

/// The message of each timestamp error.
pub open spec fn timecode_error_message(e: TimecodeParseError) -> Seq<char> {
    match e {
        TimecodeParseError::Empty => "timestamp cannot be empty"@,
        TimecodeParseError::WrongFormat => "timestamp must use `SS`, `MM:SS`, or `HH:MM:SS`"@,
        TimecodeParseError::EmptyComponent => "timestamp contains an empty component"@,
        TimecodeParseError::InvalidCharacters => "timestamp must contain only digits and `:`"@,
        TimecodeParseError::InvalidNumber => "timestamp contains an invalid number"@,
        TimecodeParseError::SecondsOutOfRange => "seconds must be less than 60 in `MM:SS`"@,
        TimecodeParseError::MinutesOrSecondsOutOfRange => {
            "minutes and seconds must be less than 60 in `HH:MM:SS`"@
        },
    }
}

} // verus!

verus! {

proof fn lemma_digit_roundtrip(d: nat)
    requires
        d < 10,
    ensures
        is_digit_spec(digit_char(d)),
        digit_value(digit_char(d)) == d,
{
}

pub(crate) proof fn lemma_decimal_digits(n: nat)
    ensures
        decimal(n).len() >= 1,
        all_digits(decimal(n)),
        digits_value(decimal(n)) == n,
    decreases n,
{
    if n < 10 {
        lemma_digit_roundtrip(n);
        assert(decimal(n).drop_last() =~= Seq::<char>::empty());
        assert(digits_value(decimal(n)) == digits_value(Seq::<char>::empty()) * 10 + digit_value(
            digit_char(n),
        ));
    } else {
        lemma_decimal_digits(n / 10);
        lemma_digit_roundtrip(n % 10);
        let d = decimal(n);
        assert(d.drop_last() =~= decimal(n / 10));
        assert(d.last() == digit_char(n % 10));
        assert(digits_value(d) == digits_value(decimal(n / 10)) * 10 + digit_value(digit_char(n % 10)));
        assert(d.len() >= 1);
        assert forall|i: int| 0 <= i < d.len() implies is_digit_spec(#[trigger] d[i]) by {
            if i < d.len() - 1 {
                assert(d[i] == decimal(n / 10)[i]);
            }
        }
    }
}

proof fn lemma_zeros_value(z: Seq<char>)
    requires
        forall|i: int| 0 <= i < z.len() ==> z[i] == '0',
    ensures
        digits_value(z) == 0,
    decreases z.len(),
{
    if z.len() > 0 {
        lemma_zeros_value(z.drop_last());
    }
}

proof fn lemma_zeros_prefix(z: Seq<char>, s: Seq<char>)
    requires
        forall|i: int| 0 <= i < z.len() ==> z[i] == '0',
    ensures
        digits_value(z + s) == digits_value(s),
    decreases s.len(),
{
    if s.len() == 0 {
        assert(z + s =~= z);
        lemma_zeros_value(z);
    } else {
        lemma_zeros_prefix(z, s.drop_last());
        assert((z + s).drop_last() =~= z + s.drop_last());
    }
}

pub(crate) proof fn lemma_padded_digits(n: nat, width: nat)
    ensures
        zero_pad(decimal(n), width).len() >= 1,
        all_digits(zero_pad(decimal(n), width)),
        digits_value(zero_pad(decimal(n), width)) == n,
{
    lemma_decimal_digits(n);
    let s = decimal(n);
    if s.len() < width {
        let z = Seq::new((width - s.len()) as nat, |i: int| '0');
        lemma_zeros_prefix(z, s);
        assert(all_digits(z + s)) by {
            assert forall|i: int| 0 <= i < (z + s).len() implies is_digit_spec(#[trigger] (z + s)[i]) by {
                if i >= z.len() {
                    assert((z + s)[i] == s[i - z.len()]);
                }
            }
        }
    }
}

pub(crate) proof fn lemma_split_without_sep(p: Seq<char>, t: Seq<char>, sep: char)
    requires
        forall|i: int| 0 <= i < t.len() ==> t[i] != sep,
    ensures
        split_spec(p + t, sep) == split_spec(p, sep).update(
            split_spec(p, sep).len() - 1,
            split_spec(p, sep).last() + t,
        ),
    decreases t.len(),
{
    lemma_split_nonempty(p, sep);
    let sp = split_spec(p, sep);
    if t.len() == 0 {
        assert(p + t =~= p);
        assert(sp.last() + t =~= sp.last());
        assert(sp.update(sp.len() - 1, sp.last() + t) =~= sp);
    } else {
        let t0 = t.drop_last();
        lemma_split_without_sep(p, t0, sep);
        assert((p + t).drop_last() =~= p + t0);
        assert((sp.last() + t0).push(t.last()) =~= sp.last() + t);
        assert(split_spec(p + t, sep) =~= sp.update(sp.len() - 1, sp.last() + t));
    }
}

proof fn lemma_split_three(a: Seq<char>, b: Seq<char>, c: Seq<char>)
    requires
        all_digits(a),
        all_digits(b),
        all_digits(c),
    ensures
        split_spec(a + seq![':'] + b + seq![':'] + c, ':') == seq![a, b, c],
{
    let e = Seq::<char>::empty();
    assert(e + a =~= a);
    lemma_split_without_sep(e, a, ':');
    assert(split_spec(a, ':') =~= seq![a]);
    let a1 = a + seq![':'];
    assert(a1.drop_last() =~= a);
    assert(split_spec(a1, ':') =~= seq![a, e]);
    lemma_split_without_sep(a1, b, ':');
    assert(split_spec(a1 + b, ':') =~= seq![a, b]);
    let b1 = a1 + b + seq![':'];
    assert(b1.drop_last() =~= a1 + b);
    assert(split_spec(b1, ':') =~= seq![a, b, e]);
    lemma_split_without_sep(b1, c, ':');
    assert(split_spec(b1 + c, ':') =~= seq![a, b, c]);
}

proof fn lemma_components_three(a: Seq<char>, b: Seq<char>, c: Seq<char>)
    requires
        a.len() >= 1 && all_digits(a) && digits_value(a) <= u64::MAX,
        b.len() >= 1 && all_digits(b) && digits_value(b) <= u64::MAX,
        c.len() >= 1 && all_digits(c) && digits_value(c) <= u64::MAX,
    ensures
        components_spec(seq![a, b, c]) == Ok::<Seq<u64>, TimecodeParseError>(
            seq![digits_value(a) as u64, digits_value(b) as u64, digits_value(c) as u64],
        ),
{
    let parts = seq![a, b, c];
    assert(parts.drop_last() =~= seq![a, b]);
    assert(seq![a, b].drop_last() =~= seq![a]);
    assert(seq![a].drop_last() =~= Seq::<Seq<char>>::empty());
    assert(seq![a].last() == a);
    assert(seq![a, b].last() == b);
    assert(parts.last() == c);
    assert(component_spec(a) == Ok::<u64, TimecodeParseError>(digits_value(a) as u64));
    assert(component_spec(b) == Ok::<u64, TimecodeParseError>(digits_value(b) as u64));
    assert(component_spec(c) == Ok::<u64, TimecodeParseError>(digits_value(c) as u64));
    assert(components_spec(Seq::<Seq<char>>::empty()) == Ok::<Seq<u64>, TimecodeParseError>(
        Seq::<u64>::empty(),
    ));
    assert(components_spec(seq![a]) == Ok::<Seq<u64>, TimecodeParseError>(
        seq![digits_value(a) as u64],
    )) by {
        assert(Seq::<u64>::empty().push(digits_value(a) as u64) =~= seq![digits_value(a) as u64]);
    }
    assert(components_spec(seq![a, b]) == Ok::<Seq<u64>, TimecodeParseError>(
        seq![digits_value(a) as u64, digits_value(b) as u64],
    )) by {
        assert(seq![digits_value(a) as u64].push(digits_value(b) as u64) =~= seq![
            digits_value(a) as u64,
            digits_value(b) as u64,
        ]);
    }
    assert(seq![digits_value(a) as u64, digits_value(b) as u64].push(digits_value(c) as u64)
        =~= seq![digits_value(a) as u64, digits_value(b) as u64, digits_value(c) as u64]);
}

proof fn lemma_hms_arithmetic(n: nat)
    requires
        n <= u64::MAX,
    ensures
        (n % 3600) / 60 < 60,
        n % 60 < 60,
        (n / 3600) * 3600 + ((n % 3600) / 60) * 60 + n % 60 == n,
{
    vstd::arithmetic::div_mod::lemma_fundamental_div_mod(n as int, 3600);
    vstd::arithmetic::div_mod::lemma_fundamental_div_mod((n % 3600) as int, 60);
    vstd::arithmetic::div_mod::lemma_mod_mod(n as int, 60, 60);
    assert(((n / 3600) * 3600) == 3600 * (n / 3600)) by (nonlinear_arith);
    assert((((n % 3600) / 60) * 60) == 60 * ((n % 3600) / 60)) by (nonlinear_arith);
}

/// A timestamp's `HH:MM:SS` text parses back to the same timestamp.
pub proof fn lemma_parse_formatted(t: Timecode)
    ensures
        parse_timecode_spec(hms_spec(t@)) == Ok::<u64, TimecodeParseError>(t.seconds),
{
    let n = t@;
    let h = n / 3600;
    let m = (n % 3600) / 60;
    let s = n % 60;
    lemma_hms_arithmetic(n);
    lemma_padded_digits(h, 2);
    lemma_padded_digits(m, 2);
    lemma_padded_digits(s, 2);
    let a = zero_pad(decimal(h), 2);
    let b = zero_pad(decimal(m), 2);
    let c = zero_pad(decimal(s), 2);
    let text = a + seq![':'] + b + seq![':'] + c;
    assert(hms_spec(n) == text);
    assert(text[0] == a[0]);
    assert(text.last() == c.last());
    assert(is_digit_spec(a[0]));
    assert(is_digit_spec(c[c.len() - 1]));
    assert(trim_start_spec(text) == text);
    assert(trim_end_spec(text) == text);
    lemma_split_three(a, b, c);
    assert(h <= n);
    lemma_components_three(a, b, c);
    assert(h * 3600 <= n);
    assert(m * 60 <= n);
}

} // verus!
