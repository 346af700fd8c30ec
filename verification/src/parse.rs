//! Pure text codecs: the field-level grammar of a transit feed.
//!
//! Every function here is a total function from text to an optional plain
//! value; attributing a failure to a file, a line and a field is the caller's
//! business. The specifications are the reference for what each codec
//! accepts.

use vstd::prelude::*;

verus! {

/// ASCII whitespace, the characters the codecs strip from cell boundaries.
pub open spec fn is_space(c: char) -> bool {
    c == ' ' || c == '\t' || c == '\n' || c == '\r' || c == '\u{b}' || c == '\u{c}'
}

/// Executable test for [`is_space`].
pub fn space(c: char) -> (r: bool)
    ensures
        r == is_space(c),
{
    c == ' ' || c == '\t' || c == '\n' || c == '\r' || c == '\u{b}' || c == '\u{c}'
}

/// The text with leading whitespace removed.
pub open spec fn spec_trim_start(s: Seq<char>) -> Seq<char>
    decreases s.len(),
{
    if s.len() > 0 && is_space(s[0]) {
        spec_trim_start(s.drop_first())
    } else {
        s
    }
}

/// The text with trailing whitespace removed.
pub open spec fn spec_trim_end(s: Seq<char>) -> Seq<char>
    decreases s.len(),
{
    if s.len() > 0 && is_space(s.last()) {
        spec_trim_end(s.drop_last())
    } else {
        s
    }
}

/// The text with surrounding whitespace removed.
pub open spec fn spec_trim(s: Seq<char>) -> Seq<char> {
    spec_trim_end(spec_trim_start(s))
}

proof fn lemma_trim_start_at(s: Seq<char>, i: int)
    requires
        0 <= i <= s.len(),
        forall|k: int| 0 <= k < i ==> is_space(s[k]),
        i == s.len() || !is_space(s[i]),
    ensures
        spec_trim_start(s) == s.subrange(i, s.len() as int),
    decreases i,
{
    if i == 0 {
        if s.len() > 0 && is_space(s[0]) {
            assert(false);
        }
        assert(s.subrange(0, s.len() as int) =~= s);
    } else {
        let t = s.drop_first();
        lemma_trim_start_at(t, i - 1);
        assert(t.subrange(i - 1, t.len() as int) =~= s.subrange(i, s.len() as int));
    }
}

proof fn lemma_trim_end_at(s: Seq<char>, j: int)
    requires
        0 <= j <= s.len(),
        forall|k: int| j <= k < s.len() ==> is_space(s[k]),
        j == 0 || !is_space(s[j - 1]),
    ensures
        spec_trim_end(s) == s.subrange(0, j),
    decreases s.len() - j,
{
    if j == s.len() {
        if s.len() > 0 && is_space(s.last()) {
            assert(false);
        }
        assert(s.subrange(0, s.len() as int) =~= s);
    } else {
        let t = s.drop_last();
        lemma_trim_end_at(t, j);
        assert(t.subrange(0, j) =~= s.subrange(0, j));
    }
}

/// Copy of `s` with surrounding ASCII whitespace removed.
pub fn trim_str(s: &str) -> (r: String)
    ensures
        r@ == spec_trim(s@),
{
    let n = s.unicode_len();
    let mut i: usize = 0;
    while i < n && space(s.get_char(i))
        invariant
            0 <= i <= n,
            n == s@.len(),
            forall|k: int| 0 <= k < i ==> is_space(s@[k]),
        decreases n - i,
    {
        i = i + 1;
    }
    let mut j: usize = n;
    while j > i && space(s.get_char(j - 1))
        invariant
            i <= j <= n,
            n == s@.len(),
            i == n || !is_space(s@[i as int]),
            forall|k: int| 0 <= k < i ==> is_space(s@[k]),
            forall|k: int| j <= k < n ==> is_space(s@[k]),
        decreases j,
    {
        j = j - 1;
    }
    let out = s.substring_char(i, j);
    proof {
        lemma_trim_start_at(s@, i as int);
        let t = s@.subrange(i as int, n as int);
        if j == i {
            lemma_trim_end_at(t, 0);
        } else {
            lemma_trim_end_at(t, j - i);
        }
        assert(t.subrange(0, j - i) =~= s@.subrange(i as int, j as int));
    }
    String::from_str(out)
}

/// Character-wise equality of two strings.
pub fn str_eq(a: &str, b: &str) -> (r: bool)
    ensures
        r == (a@ == b@),
{
    let na = a.unicode_len();
    let nb = b.unicode_len();
    if na != nb {
        return false;
    }
    let mut i: usize = 0;
    while i < na
        invariant
            0 <= i <= na,
            na == a@.len(),
            na == b@.len(),
            forall|k: int| 0 <= k < i ==> a@[k] == b@[k],
        decreases na - i,
    {
        if a.get_char(i) != b.get_char(i) {
            return false;
        }
        i = i + 1;
    }
    proof {
        assert(a@ =~= b@);
    }
    true
}

/// A decimal digit.
pub open spec fn is_digit(c: char) -> bool {
    '0' <= c && c <= '9'
}

/// The value of a decimal digit.
pub open spec fn digit_val(c: char) -> nat {
    (c as nat - '0' as nat) as nat
}

/// Every character of `s` is a decimal digit.
pub open spec fn all_digits(s: Seq<char>) -> bool {
    forall|i: int| 0 <= i < s.len() ==> is_digit(s[i])
}

/// The number a sequence of decimal digits denotes, most significant first.
pub open spec fn uint_value(s: Seq<char>) -> nat
    decreases s.len(),
{
    if s.len() == 0 {
        0
    } else {
        uint_value(s.drop_last()) * 10 + digit_val(s.last())
    }
}

/// The digits of an unsigned number text: an optional leading `+` is allowed
/// and ignored, exactly as Rust's own unsigned parser allows it.
pub open spec fn uint_digits(s: Seq<char>) -> Seq<char> {
    if s.len() > 0 && s[0] == '+' {
        s.drop_first()
    } else {
        s
    }
}

/// `s` is the text of a non-negative integer: an optional `+` sign followed
/// by one or more decimal digits.
pub open spec fn is_uint_text(s: Seq<char>) -> bool {
    uint_digits(s).len() > 0 && all_digits(uint_digits(s))
}

/// What parsing a non-negative integer cell yields: the denoted value when
/// the text is well-formed and the value fits, nothing otherwise.
pub open spec fn spec_parse_u32(s: Seq<char>) -> Option<u32> {
    if is_uint_text(s) && uint_value(uint_digits(s)) <= u32::MAX {
        Some(uint_value(uint_digits(s)) as u32)
    } else {
        None
    }
}

/// Extending a digit string can only increase its value.
proof fn lemma_uint_prefix_le(s: Seq<char>, i: int)
    requires
        0 <= i <= s.len(),
    ensures
        uint_value(s.take(i)) <= uint_value(s),
    decreases s.len() - i,
{
    if i == s.len() {
        assert(s.take(i) =~= s);
    } else {
        assert(s.take(i + 1).drop_last() =~= s.take(i));
        assert(uint_value(s.take(i + 1)) == uint_value(s.take(i)) * 10 + digit_val(s[i]));
        lemma_uint_prefix_le(s, i + 1);
    }
}

/// Parse a non-negative integer exactly as [`spec_parse_u32`] describes.
pub fn parse_u32(s: &str) -> (r: Option<u32>)
    ensures
        r == spec_parse_u32(s@),
{
    let n = s.unicode_len();
    let start: usize = if n > 0 && s.get_char(0) == '+' {
        1
    } else {
        0
    };
    let ghost digits = uint_digits(s@);
    proof {
        assert(digits =~= s@.subrange(start as int, n as int));
    }
    if start == n {
        return None;
    }
    let mut acc: u32 = 0;
    let mut i: usize = start;
    while i < n
        invariant
            start <= i <= n,
            n == s@.len(),
            start == 0 || start == 1,
            digits == uint_digits(s@),
            digits == s@.subrange(start as int, n as int),
            digits.len() > 0,
            forall|k: int| start <= k < i ==> is_digit(s@[k]),
            acc as nat == uint_value(digits.take(i - start)),
        decreases n - i,
    {
        let c = s.get_char(i);
        if !('0' <= c && c <= '9') {
            assert(!is_digit(digits[i - start]));
            return None;
        }
        let d: u32 = (c as u32) - 48;
        proof {
            assert(digits.take(i + 1 - start).drop_last() =~= digits.take(i - start));
            assert(digits.take(i + 1 - start).last() == s@[i as int]);
            assert(uint_value(digits.take(i + 1 - start)) == acc as nat * 10 + d as nat);
        }
        if acc > (u32::MAX - d) / 10 {
            proof {
                let q = ((u32::MAX - d) / 10) as nat;
                assert((u32::MAX - d) as nat == q * 10 + ((u32::MAX - d) as nat % 10)) by {
                    vstd::arithmetic::div_mod::lemma_fundamental_div_mod(
                        (u32::MAX - d) as int,
                        10,
                    );
                };
                assert((u32::MAX - d) as nat % 10 < 10) by {
                    vstd::arithmetic::div_mod::lemma_mod_bound((u32::MAX - d) as int, 10);
                };
                assert(acc as nat * 10 >= (q + 1) * 10) by (nonlinear_arith)
                    requires
                        acc as nat >= q + 1,
                ;
                assert(uint_value(digits.take(i + 1 - start)) > u32::MAX);
                lemma_uint_prefix_le(digits, i + 1 - start);
                assert(uint_value(digits) > u32::MAX);
            }
            return None;
        }
        acc = acc * 10 + d;
        i = i + 1;
    }
    proof {
        assert(digits.take(n - start) =~= digits);
    }
    Some(acc)
}

/// What parsing a non-negative integer cell as a wide value yields.
pub open spec fn spec_parse_u64(s: Seq<char>) -> Option<u64> {
    if is_uint_text(s) && uint_value(uint_digits(s)) <= u64::MAX {
        Some(uint_value(uint_digits(s)) as u64)
    } else {
        None
    }
}

/// Parse the digit run `s[start..]` as a number of at most `limit`.
/// Returns the value when every character is a digit and the value fits,
/// nothing otherwise.
fn parse_mag_u64(s: &str, start: usize, limit: u64) -> (r: Option<u64>)
    requires
        start <= s@.len(),
        limit >= 9,
    ensures
        ({
            let digits = s@.subrange(start as int, s@.len() as int);
            match r {
                Some(v) => all_digits(digits) && uint_value(digits) == v && v <= limit,
                None => !all_digits(digits) || uint_value(digits) > limit,
            }
        }),
{
    let n = s.unicode_len();
    let ghost digits = s@.subrange(start as int, s@.len() as int);
    let mut acc: u64 = 0;
    let mut i: usize = start;
    while i < n
        invariant
            start <= i <= n,
            n == s@.len(),
            digits == s@.subrange(start as int, n as int),
            forall|k: int| start <= k < i ==> is_digit(s@[k]),
            acc as nat == uint_value(digits.take(i - start)),
            acc <= limit,
            limit >= 9,
        decreases n - i,
    {
        let c = s.get_char(i);
        if !('0' <= c && c <= '9') {
            assert(!is_digit(digits[i - start]));
            return None;
        }
        let d: u64 = (c as u64) - 48;
        proof {
            assert(digits.take(i + 1 - start).drop_last() =~= digits.take(i - start));
            assert(digits.take(i + 1 - start).last() == s@[i as int]);
            assert(uint_value(digits.take(i + 1 - start)) == acc as nat * 10 + d as nat);
        }
        if acc > (limit - d) / 10 {
            proof {
                let q = ((limit - d) / 10) as nat;
                assert((limit - d) as nat == q * 10 + ((limit - d) as nat % 10)) by {
                    vstd::arithmetic::div_mod::lemma_fundamental_div_mod((limit - d) as int, 10);
                };
                assert((limit - d) as nat % 10 < 10) by {
                    vstd::arithmetic::div_mod::lemma_mod_bound((limit - d) as int, 10);
                };
                assert(acc as nat * 10 >= (q + 1) * 10) by (nonlinear_arith)
                    requires
                        acc as nat >= q + 1,
                ;
                assert(uint_value(digits.take(i + 1 - start)) > limit);
                lemma_uint_prefix_le(digits, i + 1 - start);
                assert(uint_value(digits) > limit);
            }
            return None;
        }
        acc = acc * 10 + d;
        i = i + 1;
    }
    proof {
        assert(digits.take(n - start) =~= digits);
    }
    Some(acc)
}

/// Parse a non-negative integer exactly as [`spec_parse_u64`] describes.
pub fn parse_u64(s: &str) -> (r: Option<u64>)
    ensures
        r == spec_parse_u64(s@),
{
    let n = s.unicode_len();
    let start: usize = if n > 0 && s.get_char(0) == '+' {
        1
    } else {
        0
    };
    proof {
        assert(uint_digits(s@) =~= s@.subrange(start as int, n as int));
    }
    if start == n {
        return None;
    }
    parse_mag_u64(s, start, u64::MAX)
}

/// The digits of a signed number text: an optional leading `+` or `-`.
pub open spec fn int_digits(s: Seq<char>) -> Seq<char> {
    if s.len() > 0 && (s[0] == '+' || s[0] == '-') {
        s.drop_first()
    } else {
        s
    }
}

/// `s` is the text of an integer: an optional sign followed by one or more
/// decimal digits.
pub open spec fn is_int_text(s: Seq<char>) -> bool {
    int_digits(s).len() > 0 && all_digits(int_digits(s))
}

/// The value a signed number text denotes.
pub open spec fn int_text_value(s: Seq<char>) -> int {
    if s.len() > 0 && s[0] == '-' {
        -(uint_value(int_digits(s)) as int)
    } else {
        uint_value(int_digits(s)) as int
    }
}

/// What parsing a signed integer cell yields: the denoted value when the
/// text is well-formed and the value fits, nothing otherwise.
pub open spec fn spec_parse_i64(s: Seq<char>) -> Option<i64> {
    if is_int_text(s) && i64::MIN <= int_text_value(s) <= i64::MAX {
        Some(int_text_value(s) as i64)
    } else {
        None
    }
}

/// Parse a signed integer exactly as [`spec_parse_i64`] describes.
pub fn parse_i64(s: &str) -> (r: Option<i64>)
    ensures
        r == spec_parse_i64(s@),
{
    let n = s.unicode_len();
    if n == 0 {
        return None;
    }
    let first = s.get_char(0);
    let neg = first == '-';
    let start: usize = if first == '-' || first == '+' {
        1
    } else {
        0
    };
    proof {
        assert(int_digits(s@) =~= s@.subrange(start as int, n as int));
    }
    if start == n {
        return None;
    }
    let limit: u64 = if neg {
        9223372036854775808
    } else {
        9223372036854775807
    };
    match parse_mag_u64(s, start, limit) {
        None => None,
        Some(v) => {
            if neg {
                if v == 9223372036854775808 {
                    Some(i64::MIN)
                } else {
                    Some(-(v as i64))
                }
            } else {
                Some(v as i64)
            }
        },
    }
}

/// The segments of `s` between occurrences of `sep`; always at least one
/// segment, exactly as Rust's `str::split` yields them.
pub open spec fn spec_split(s: Seq<char>, sep: char) -> Seq<Seq<char>>
    decreases s.len(),
{
    if s.len() == 0 {
        seq![Seq::<char>::empty()]
    } else if s.last() == sep {
        spec_split(s.drop_last(), sep).push(Seq::<char>::empty())
    } else {
        let p = spec_split(s.drop_last(), sep);
        p.update(p.len() - 1, p.last().push(s.last()))
    }
}

/// A split always has at least one segment.
pub proof fn lemma_split_len(s: Seq<char>, sep: char)
    ensures
        spec_split(s, sep).len() >= 1,
    decreases s.len(),
{
    if s.len() > 0 {
        lemma_split_len(s.drop_last(), sep);
    }
}

/// Split `s` at every occurrence of `sep`, exactly as [`spec_split`]
/// describes.
pub fn split_str(s: &str, sep: char) -> (r: Vec<String>)
    ensures
        r.deep_view() == spec_split(s@, sep),
{
    let n = s.unicode_len();
    let mut parts: Vec<String> = Vec::new();
    let mut seg_start: usize = 0;
    let mut i: usize = 0;
    proof {
        assert(s@.take(0) =~= Seq::<char>::empty());
        assert(s@.subrange(0, 0) =~= Seq::<char>::empty());
        assert(parts.deep_view() =~~= Seq::<Seq<char>>::empty());
        assert(spec_split(s@.take(0), sep) =~~= parts.deep_view().push(s@.subrange(0, 0)));
    }
    while i < n
        invariant
            0 <= seg_start <= i <= n,
            n == s@.len(),
            spec_split(s@.take(i as int), sep) == parts.deep_view().push(
                s@.subrange(seg_start as int, i as int),
            ),
        decreases n - i,
    {
        let ghost before = s@.take(i as int);
        let ghost cur = s@.subrange(seg_start as int, i as int);
        let c = s.get_char(i);
        proof {
            assert(s@.take(i + 1).drop_last() =~= before);
            lemma_split_len(before, sep);
        }
        if c == sep {
            let seg = String::from_str(s.substring_char(seg_start, i));
            parts.push(seg);
            seg_start = i + 1;
            proof {
                assert(spec_split(s@.take(i + 1), sep) =~~= parts.deep_view().push(
                    s@.subrange(seg_start as int, i + 1),
                ));
            }
        } else {
            proof {
                assert(cur.push(s@[i as int]) =~= s@.subrange(seg_start as int, i + 1));
                assert(spec_split(s@.take(i + 1), sep) =~~= parts.deep_view().push(
                    s@.subrange(seg_start as int, i + 1),
                ));
            }
        }
        i = i + 1;
    }
    let seg = String::from_str(s.substring_char(seg_start, n));
    parts.push(seg);
    proof {
        assert(s@.take(n as int) =~= s@);
        assert(parts.deep_view() =~~= spec_split(s@, sep));
    }
    parts
}

/// Text that never holds the separator splits into itself alone.
pub proof fn lemma_split_single(s: Seq<char>, sep: char)
    requires
        forall|i: int| 0 <= i < s.len() ==> s[i] != sep,
    ensures
        spec_split(s, sep) == seq![s],
    decreases s.len(),
{
    if s.len() == 0 {
        assert(spec_split(s, sep) =~~= seq![s]);
    } else {
        assert(forall|i: int| 0 <= i < s.drop_last().len() ==> s.drop_last()[i] != sep);
        lemma_split_single(s.drop_last(), sep);
        assert(s.drop_last().push(s.last()) =~= s);
        assert(spec_split(s, sep) =~~= seq![s]);
    }
}

/// Appending the separator closes the current segment and opens an empty
/// one.
pub proof fn lemma_split_append_sep(t: Seq<char>, sep: char)
    ensures
        spec_split(t.push(sep), sep) == spec_split(t, sep).push(Seq::<char>::empty()),
{
    assert(t.push(sep).drop_last() =~= t);
}

/// Appending separator-free text extends the final segment.
pub proof fn lemma_split_append_seg(t: Seq<char>, w: Seq<char>, sep: char)
    requires
        forall|i: int| 0 <= i < w.len() ==> w[i] != sep,
    ensures
        ({
            let p = spec_split(t, sep);
            spec_split(t + w, sep) == p.update(p.len() - 1, p.last() + w)
        }),
    decreases w.len(),
{
    let p = spec_split(t, sep);
    lemma_split_len(t, sep);
    if w.len() == 0 {
        assert(t + w =~= t);
        assert(p.last() + w =~= p.last());
        assert(p.update(p.len() - 1, p.last() + w) =~~= p);
    } else {
        assert(forall|i: int| 0 <= i < w.drop_last().len() ==> w.drop_last()[i] == w[i]);
        lemma_split_append_seg(t, w.drop_last(), sep);
        let q = p.update(p.len() - 1, p.last() + w.drop_last());
        assert((t + w).drop_last() =~= t + w.drop_last());
        assert((t + w).last() == w.last());
        assert(w.last() != sep);
        assert(spec_split(t + w, sep) == q.update(q.len() - 1, q.last().push(w.last())));
        assert(q.last().push(w.last()) =~= p.last() + w);
        assert(q.update(q.len() - 1, q.last().push(w.last())) =~~= p.update(
            p.len() - 1,
            p.last() + w,
        ));
    }
}

/// A value with a leading zero digit denotes the same number.
pub proof fn lemma_leading_zero(s: Seq<char>)
    ensures
        uint_value(seq!['0'] + s) == uint_value(s),
    decreases s.len(),
{
    if s.len() == 0 {
        assert(seq!['0'] + s =~= seq!['0']);
        assert(seq!['0'].drop_last() =~= Seq::<char>::empty());
        assert(uint_value(Seq::<char>::empty()) == 0);
        assert(seq!['0'].last() == '0');
        assert(uint_value(seq!['0']) == digit_val('0'));
    } else {
        lemma_leading_zero(s.drop_last());
        assert((seq!['0'] + s).drop_last() =~= seq!['0'] + s.drop_last());
        assert((seq!['0'] + s).last() == s.last());
    }
}

/// Text whose characters stay clear of whitespace at both ends trims to
/// itself.
pub proof fn lemma_trim_noop(s: Seq<char>)
    requires
        s.len() > 0,
        !is_space(s[0]),
        !is_space(s.last()),
    ensures
        spec_trim(s) == s,
{
    assert(spec_trim_start(s) == s);
    assert(spec_trim_end(s) == s);
}

/// What parsing a time-of-day offset yields: surrounding whitespace is
/// ignored, the rest must be three colon-separated non-negative integers.
/// Hours are unbounded; minutes and seconds are not range-checked here.
pub open spec fn spec_parse_time(s: Seq<char>) -> Option<(u32, u32, u32)> {
    let parts = spec_split(spec_trim(s), ':');
    if parts.len() == 3 {
        match (spec_parse_u32(parts[0]), spec_parse_u32(parts[1]), spec_parse_u32(parts[2])) {
            (Some(h), Some(m), Some(sec)) => Some((h, m, sec)),
            _ => None,
        }
    } else {
        None
    }
}

/// Parse a time-of-day offset exactly as [`spec_parse_time`] describes.
pub fn parse_time(s: &str) -> (r: Option<(u32, u32, u32)>)
    ensures
        r == spec_parse_time(s@),
{
    let t = trim_str(s);
    let parts = split_str(t.as_str(), ':');
    if parts.len() != 3 {
        return None;
    }
    let h = parse_u32(parts[0].as_str());
    let m = parse_u32(parts[1].as_str());
    let sec = parse_u32(parts[2].as_str());
    match (h, m, sec) {
        (Some(h), Some(m), Some(sec)) => Some((h, m, sec)),
        _ => None,
    }
}

/// Powers of ten.
pub open spec fn pow10(n: nat) -> nat
    decreases n,
{
    if n == 0 {
        1
    } else {
        10 * pow10((n - 1) as nat)
    }
}

/// A digit string of length `n` denotes a value below `10^n`.
proof fn lemma_uint_upper(s: Seq<char>)
    requires
        all_digits(s),
    ensures
        uint_value(s) < pow10(s.len()),
    decreases s.len(),
{
    if s.len() > 0 {
        assert(all_digits(s.drop_last()));
        lemma_uint_upper(s.drop_last());
    }
}

/// A year of the proleptic Gregorian calendar with an extra February day.
pub open spec fn is_leap_year(y: int) -> bool {
    y % 4 == 0 && (y % 100 != 0 || y % 400 == 0)
}

/// Days in a month of the Gregorian calendar.
pub open spec fn days_in_month(y: int, m: int) -> int {
    if m == 2 {
        if is_leap_year(y) {
            29
        } else {
            28
        }
    } else if m == 4 || m == 6 || m == 9 || m == 11 {
        30
    } else {
        31
    }
}

/// What parsing a calendar-date cell yields: the text must be exactly eight
/// digits, year then month then day, and must name a real calendar date.
pub open spec fn spec_parse_date(s: Seq<char>) -> Option<(u32, u32, u32)> {
    if s.len() == 8 && all_digits(s) {
        let y = uint_value(s.subrange(0, 4));
        let m = uint_value(s.subrange(4, 6));
        let d = uint_value(s.subrange(6, 8));
        if 1 <= m <= 12 && 1 <= d <= days_in_month(y as int, m as int) {
            Some((y as u32, m as u32, d as u32))
        } else {
            None
        }
    } else {
        None
    }
}

/// A parsed date always names a real calendar day, with bounded parts.
pub proof fn lemma_parse_date_valid(s: Seq<char>)
    ensures
        spec_parse_date(s) matches Some((y, m, d)) ==> y <= 9999 && 1 <= m <= 12 && 1 <= d
            <= days_in_month(y as int, m as int),
{
    if s.len() == 8 && all_digits(s) {
        let ys = s.subrange(0, 4);
        assert(all_digits(ys));
        lemma_uint_upper(ys);
        assert(pow10(ys.len()) == 10000) by {
            reveal_with_fuel(pow10, 5);
        };
    }
}

/// Executable month length, for years and months already validated.
fn month_days(y: u32, m: u32) -> (r: u32)
    requires
        1 <= m <= 12,
    ensures
        r == days_in_month(y as int, m as int),
{
    if m == 2 {
        if y % 4 == 0 && (y % 100 != 0 || y % 400 == 0) {
            29
        } else {
            28
        }
    } else if m == 4 || m == 6 || m == 9 || m == 11 {
        30
    } else {
        31
    }
}

/// Parse a `YYYYMMDD` date exactly as [`spec_parse_date`] describes.
pub fn parse_date(s: &str) -> (r: Option<(u32, u32, u32)>)
    ensures
        r == spec_parse_date(s@),
{
    let n = s.unicode_len();
    if n != 8 {
        return None;
    }
    let mut i: usize = 0;
    while i < 8
        invariant
            0 <= i <= 8,
            s@.len() == 8,
            forall|k: int| 0 <= k < i ==> is_digit(s@[k]),
        decreases 8 - i,
    {
        let c = s.get_char(i);
        if !('0' <= c && c <= '9') {
            return None;
        }
        i = i + 1;
    }
    assert(all_digits(s@));
    let y = parse_part_u32(s, 0, 4);
    let m = parse_part_u32(s, 4, 6);
    let d = parse_part_u32(s, 6, 8);
    if m < 1 || m > 12 {
        return None;
    }
    if d < 1 || d > month_days(y, m) {
        return None;
    }
    Some((y, m, d))
}

/// Parse the all-digit run `s[from..to]` as a number; the run is short
/// enough that the value always fits.
fn parse_part_u32(s: &str, from: usize, to: usize) -> (r: u32)
    requires
        from < to <= s@.len(),
        to - from <= 4,
        all_digits(s@.subrange(from as int, to as int)),
    ensures
        r == uint_value(s@.subrange(from as int, to as int)),
{
    let ghost digits = s@.subrange(from as int, to as int);
    proof {
        lemma_uint_upper(digits);
        assert(pow10(digits.len()) <= 10000) by {
            reveal_with_fuel(pow10, 5);
        };
    }
    let mut acc: u32 = 0;
    let mut i: usize = from;
    while i < to
        invariant
            from <= i <= to,
            to <= s@.len(),
            to - from <= 4,
            digits == s@.subrange(from as int, to as int),
            all_digits(digits),
            acc as nat == uint_value(digits.take(i - from)),
            uint_value(digits) < 10000,
        decreases to - i,
    {
        let c = s.get_char(i);
        proof {
            assert(is_digit(digits[i - from]));
            assert(digits.take(i + 1 - from).drop_last() =~= digits.take(i - from));
            assert(digits.take(i + 1 - from).last() == s@[i as int]);
            lemma_uint_prefix_le(digits, i + 1 - from);
        }
        let d: u32 = (c as u32) - 48;
        acc = acc * 10 + d;
        i = i + 1;
    }
    proof {
        assert(digits.take(to - from) =~= digits);
    }
    acc
}

/// What parsing an optional duration cell yields: surrounding whitespace is
/// ignored; an empty cell means "no duration", anything else must be a
/// signed integer count of seconds.
pub open spec fn spec_parse_duration(s: Seq<char>) -> Option<Option<i64>> {
    let t = spec_trim(s);
    if t.len() == 0 {
        Some(None)
    } else {
        match spec_parse_i64(t) {
            Some(v) => Some(Some(v)),
            None => None,
        }
    }
}

/// Parse an optional duration exactly as [`spec_parse_duration`] describes.
pub fn parse_duration(s: &str) -> (r: Option<Option<i64>>)
    ensures
        r == spec_parse_duration(s@),
{
    let t = trim_str(s);
    if t.as_str().unicode_len() == 0 {
        return Some(None);
    }
    match parse_i64(t.as_str()) {
        Some(v) => Some(Some(v)),
        None => None,
    }
}

/// A sign character.
pub open spec fn is_sign(c: char) -> bool {
    c == '+' || c == '-'
}

/// The text with one optional leading sign removed.
pub open spec fn strip_sign(s: Seq<char>) -> Seq<char> {
    if s.len() > 0 && is_sign(s[0]) {
        s.drop_first()
    } else {
        s
    }
}

/// Index of the first occurrence of `a` or `b` in `s`, or the length of `s`.
pub open spec fn find_mark(s: Seq<char>, a: char, b: char) -> int
    decreases s.len(),
{
    if s.len() == 0 {
        0
    } else if s[0] == a || s[0] == b {
        0
    } else {
        1 + find_mark(s.drop_first(), a, b)
    }
}

/// The first occurrence of `a` or `b` is wherever nothing earlier matches
/// and the position itself does, or the end.
pub proof fn lemma_find_mark_at(s: Seq<char>, a: char, b: char, i: int)
    requires
        0 <= i <= s.len(),
        forall|k: int| 0 <= k < i ==> s[k] != a && s[k] != b,
        i == s.len() || s[i] == a || s[i] == b,
    ensures
        find_mark(s, a, b) == i,
    decreases i,
{
    if i == 0 {
        if s.len() > 0 && !(s[0] == a || s[0] == b) {
            lemma_find_mark_at(s.drop_first(), a, b, 0);
            assert(false);
        }
    } else {
        lemma_find_mark_at(s.drop_first(), a, b, i - 1);
    }
}

/// The mantissa of a decimal number: digits with at most one point, and at
/// least one digit on some side of the point.
pub open spec fn is_mantissa(s: Seq<char>) -> bool {
    let k = find_mark(s, '.', '.');
    if k == s.len() {
        s.len() > 0 && all_digits(s)
    } else {
        all_digits(s.take(k)) && all_digits(s.skip(k + 1)) && s.len() > 1
    }
}

/// The part after the exponent mark: an optionally signed digit run.
pub open spec fn is_exp_part(s: Seq<char>) -> bool {
    strip_sign(s).len() > 0 && all_digits(strip_sign(s))
}

/// `s` is the text of a decimal number: an optional sign, a mantissa, and an
/// optional exponent introduced by `e` or `E`. This is the syntax the
/// numeric (latitude, longitude, price, distance) cells must have; callers
/// that need the value convert the validated text themselves.
pub open spec fn is_decimal_text(s: Seq<char>) -> bool {
    let b = strip_sign(s);
    let k = find_mark(b, 'e', 'E');
    if k == b.len() {
        is_mantissa(b)
    } else {
        is_mantissa(b.take(k)) && is_exp_part(b.skip(k + 1))
    }
}

/// First index in `[from, to)` where `s` holds `a` or `b`, or `to`.
fn find_range_mark(s: &str, from: usize, to: usize, a: char, b: char) -> (r: usize)
    requires
        from <= to <= s@.len(),
    ensures
        from <= r <= to,
        forall|k: int| from <= k < r ==> s@[k] != a && s@[k] != b,
        r == to || s@[r as int] == a || s@[r as int] == b,
{
    let mut i: usize = from;
    while i < to
        invariant
            from <= i <= to,
            to <= s@.len(),
            forall|k: int| from <= k < i ==> s@[k] != a && s@[k] != b,
        decreases to - i,
    {
        let c = s.get_char(i);
        if c == a || c == b {
            return i;
        }
        i = i + 1;
    }
    to
}

/// Whether every character of `s[from..to]` is a digit.
fn digits_range(s: &str, from: usize, to: usize) -> (r: bool)
    requires
        from <= to <= s@.len(),
    ensures
        r == all_digits(s@.subrange(from as int, to as int)),
{
    let ghost part = s@.subrange(from as int, to as int);
    let mut i: usize = from;
    while i < to
        invariant
            from <= i <= to,
            to <= s@.len(),
            part == s@.subrange(from as int, to as int),
            forall|k: int| from <= k < i ==> is_digit(s@[k]),
        decreases to - i,
    {
        let c = s.get_char(i);
        if !('0' <= c && c <= '9') {
            assert(!is_digit(part[i - from]));
            return false;
        }
        i = i + 1;
    }
    assert forall|k: int| 0 <= k < part.len() implies is_digit(part[k]) by {
        assert(part[k] == s@[from + k]);
    }
    true
}

/// Whether `s[from..to]` is a mantissa, per [`is_mantissa`].
fn mantissa_range(s: &str, from: usize, to: usize) -> (r: bool)
    requires
        from <= to <= s@.len(),
    ensures
        r == is_mantissa(s@.subrange(from as int, to as int)),
{
    let ghost part = s@.subrange(from as int, to as int);
    let dot = find_range_mark(s, from, to, '.', '.');
    proof {
        lemma_find_mark_at(part, '.', '.', dot - from);
    }
    if dot == to {
        to > from && digits_range(s, from, to)
    } else {
        proof {
            assert(part.take(dot - from) =~= s@.subrange(from as int, dot as int));
            assert(part.skip(dot - from + 1) =~= s@.subrange(dot + 1, to as int));
        }
        let r = digits_range(s, from, dot) && digits_range(s, dot + 1, to) && to - from > 1;
        r
    }
}

/// Whether `s` is a decimal-number text, per [`is_decimal_text`].
pub fn is_decimal(s: &str) -> (r: bool)
    ensures
        r == is_decimal_text(s@),
{
    let n = s.unicode_len();
    let start: usize = if n > 0 && {
        let c = s.get_char(0);
        c == '+' || c == '-'
    } {
        1
    } else {
        0
    };
    let ghost body = strip_sign(s@);
    proof {
        assert(body =~= s@.subrange(start as int, n as int));
    }
    let e = find_range_mark(s, start, n, 'e', 'E');
    proof {
        lemma_find_mark_at(body, 'e', 'E', e - start);
        assert(body.take(e - start) =~= s@.subrange(start as int, e as int));
    }
    if e == n {
        mantissa_range(s, start, n)
    } else {
        if !mantissa_range(s, start, e) {
            return false;
        }
        let ghost exppart = body.skip(e - start + 1);
        proof {
            assert(exppart =~= s@.subrange(e + 1, n as int));
        }
        let es: usize = if e + 1 < n && {
            let c = s.get_char(e + 1);
            c == '+' || c == '-'
        } {
            e + 2
        } else {
            e + 1
        };
        proof {
            assert(strip_sign(exppart) =~= s@.subrange(es as int, n as int));
        }
        es < n && digits_range(s, es, n)
    }
}

} // verus!



