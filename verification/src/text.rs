//! Character-level text helpers: decimal and hex rendering, substring
//! search, prefix/suffix stripping and integer parsing.

use vstd::prelude::*;
use vstd::string::*;

verus! {

/// The character for a decimal digit.
pub open spec fn digit_char(d: int) -> char {
    (48 + d) as char
}

/// Decimal rendering of a natural number, without leading zeros.
pub open spec fn decimal(n: nat) -> Seq<char>
    decreases n,
{
    if n < 10 {
        seq![digit_char(n as int)]
    } else {
        decimal(n / 10).push(digit_char((n % 10) as int))
    }
}

/// Decimal rendering of an integer, with a leading '-' when negative.
pub open spec fn signed_decimal(n: int) -> Seq<char> {
    if n < 0 {
        seq!['-'] + decimal((-n) as nat)
    } else {
        decimal(n as nat)
    }
}

/// `String::push`: appends one character, as std documents it.
#[verifier::external_body]
pub(crate) fn push_char(s: &mut String, c: char)
    ensures
        final(s)@ == old(s)@.push(c),
{
    s.push(c);
}

/// Appends a string slice.
pub fn push_str(s: &mut String, t: &str)
    ensures
        final(s)@ == old(s)@ + t@,
{
    s.append(t);
}

/// Appends the decimal rendering of `n`.
pub fn push_decimal(s: &mut String, n: u64)
    ensures
        final(s)@ == old(s)@ + decimal(n as nat),
    decreases n,
{
    if n >= 10 {
        push_decimal(s, n / 10);
    }
    let d: u8 = (n % 10) as u8;
    let c: char = (48u8 + d) as char;
    push_char(s, c);
}

/// Appends the decimal rendering of a signed integer.
pub fn push_signed(s: &mut String, n: i64)
    ensures
        final(s)@ == old(s)@ + signed_decimal(n as int),
{
    if n < 0 {
        push_char(s, '-');
        let m: u64 = (0i128 - (n as i128)) as u64;
        push_decimal(s, m);
        assert(final(s)@ =~= old(s)@ + signed_decimal(n as int));
    } else {
        push_decimal(s, n as u64);
    }
}

/// The lowercase hex character for a value below 16.
pub open spec fn hex_char(d: int) -> char {
    if d < 10 {
        (48 + d) as char
    } else {
        (87 + d) as char
    }
}

/// Two lowercase hex digits for a byte, as `{:02x}` renders it.
pub open spec fn hex_byte(b: u8) -> Seq<char> {
    seq![hex_char(b as int / 16), hex_char(b as int % 16)]
}

fn hex_digit(d: u8) -> (c: char)
    requires
        d < 16,
    ensures
        c == hex_char(d as int),
{
    if d < 10 {
        (48u8 + d) as char
    } else {
        (87u8 + d) as char
    }
}

/// Appends two lowercase hex digits for a byte.
pub fn push_hex_byte(s: &mut String, b: u8)
    ensures
        final(s)@ == old(s)@ + hex_byte(b),
{
    push_char(s, hex_digit(b / 16));
    push_char(s, hex_digit(b % 16));
    assert(final(s)@ =~= old(s)@ + hex_byte(b));
}

/// `n` copies of a character.
pub open spec fn repeat_char(c: char, n: nat) -> Seq<char> {
    Seq::new(n, |i: int| c)
}

/// The characters of a string slice, one per element.
pub fn chars_of(s: &str) -> (v: Vec<char>)
    ensures
        v@ == s@,
{
    let n = s.unicode_len();
    let mut v: Vec<char> = Vec::new();
    let mut i: usize = 0;
    while i < n
        invariant
            n == s@.len(),
            i <= n,
            v@ == s@.take(i as int),
        decreases n - i,
    {
        let c = s.get_char(i);
        v.push(c);
        i = i + 1;
        assert(v@ =~= s@.take(i as int));
    }
    assert(v@ =~= s@);
    v
}

/// A string made of the characters `v[from..to]`.
pub fn string_of_range(v: &Vec<char>, from: usize, to: usize) -> (s: String)
    requires
        from <= to <= v@.len(),
    ensures
        s@ == v@.subrange(from as int, to as int),
{
    let mut s = String::new();
    let mut i: usize = from;
    while i < to
        invariant
            from <= i <= to <= v@.len(),
            s@ == v@.subrange(from as int, i as int),
        decreases to - i,
    {
        push_char(&mut s, v[i]);
        i = i + 1;
        assert(s@ =~= v@.subrange(from as int, i as int));
    }
    s
}

/// `needle` occurs in `hay` at position `i`.
pub open spec fn occurs_at(hay: Seq<char>, needle: Seq<char>, i: int) -> bool {
    0 <= i && i + needle.len() <= hay.len() && hay.subrange(i, i + needle.len()) == needle
}

/// `needle` occurs somewhere in `hay` (the empty needle occurs everywhere).
pub open spec fn has_substring(hay: Seq<char>, needle: Seq<char>) -> bool {
    exists|i: int| occurs_at(hay, needle, i)
}

pub fn occurs_at_exec(hay: &Vec<char>, needle: &Vec<char>, i: usize) -> (b: bool)
    requires
        i + needle@.len() <= hay@.len(),
    ensures
        b == occurs_at(hay@, needle@, i as int),
{
    let m = needle.len();
    let hl = hay.len();
    let mut j: usize = 0;
    while j < m
        invariant
            m == needle@.len(),
            hl == hay@.len(),
            i + m <= hay@.len(),
            j <= m,
            forall|k: int| 0 <= k < j ==> hay@[i + k] == needle@[k],
        decreases m - j,
    {
        if hay[i + j] != needle[j] {
            assert(hay@.subrange(i as int, i + m)[j as int] != needle@[j as int]);
            return false;
        }
        j = j + 1;
    }
    assert(hay@.subrange(i as int, i + m) =~= needle@);
    true
}

/// Whether `needle` occurs in `hay`, as `str::contains` with a string pattern.
pub fn contains_str(hay: &str, needle: &str) -> (b: bool)
    ensures
        b == has_substring(hay@, needle@),
{
    let h = chars_of(hay);
    let n = chars_of(needle);
    if n.len() > h.len() {
        assert forall|i: int| !occurs_at(hay@, needle@, i) by {}
        return false;
    }
    let last = h.len() - n.len();
    let mut i: usize = 0;
    while i < last
        invariant
            h@ == hay@,
            n@ == needle@,
            last == h@.len() - n@.len(),
            i <= last,
            forall|k: int| 0 <= k < i ==> !occurs_at(hay@, needle@, k),
        decreases last - i,
    {
        if occurs_at_exec(&h, &n, i) {
            return true;
        }
        i = i + 1;
    }
    if occurs_at_exec(&h, &n, last) {
        return true;
    }
    assert forall|k: int| !occurs_at(hay@, needle@, k) by {
        if 0 <= k < i {
        }
    }
    false
}

/// An ASCII decimal digit.
pub open spec fn is_digit(c: char) -> bool {
    '0' <= c && c <= '9'
}

pub open spec fn all_digits(s: Seq<char>) -> bool {
    forall|i: int| 0 <= i < s.len() ==> is_digit(#[trigger] s[i])
}

/// The value of a run of decimal digits, most significant first.
pub open spec fn digits_value(s: Seq<char>) -> nat
    decreases s.len(),
{
    if s.len() == 0 {
        0
    } else {
        digits_value(s.drop_last()) * 10 + ((s.last() as int - 48) as nat)
    }
}

/// What `str::parse::<u32>` gives: an optional '+', then one or more digits
/// whose value fits.
pub open spec fn parse_u32_spec(s: Seq<char>) -> Option<u32> {
    let body = if s.len() > 0 && s[0] == '+' { s.drop_first() } else { s };
    if body.len() == 0 || !all_digits(body) || digits_value(body) > u32::MAX {
        None
    } else {
        Some(digits_value(body) as u32)
    }
}

/// What `str::parse::<i32>` gives: an optional '+' or '-', then one or more
/// digits whose signed value fits.
pub open spec fn parse_i32_spec(s: Seq<char>) -> Option<i32> {
    if s.len() > 0 && s[0] == '-' {
        let body = s.drop_first();
        if body.len() == 0 || !all_digits(body) || digits_value(body) > 0x8000_0000 {
            None
        } else {
            Some((0 - digits_value(body)) as i32)
        }
    } else {
        let body = if s.len() > 0 && s[0] == '+' { s.drop_first() } else { s };
        if body.len() == 0 || !all_digits(body) || digits_value(body) > i32::MAX {
            None
        } else {
            Some(digits_value(body) as i32)
        }
    }
}

/// The value of the digits `v[from..to]` when they are all digits and the
/// value is at most `cap`.
fn parse_digits(v: &Vec<char>, from: usize, to: usize, cap: u64) -> (r: Option<u64>)
    requires
        from <= to <= v@.len(),
        cap <= 0x1_0000_0000,
    ensures
        ({
            let body = v@.subrange(from as int, to as int);
            r == if all_digits(body) && digits_value(body) <= cap {
                Some(digits_value(body) as u64)
            } else {
                None
            }
        }),
{
    let mut acc: u64 = 0;
    let mut i: usize = from;
    while i < to
        invariant
            from <= i <= to <= v@.len(),
            cap <= 0x1_0000_0000,
            all_digits(v@.subrange(from as int, i as int)),
            acc == if digits_value(v@.subrange(from as int, i as int)) <= cap {
                digits_value(v@.subrange(from as int, i as int))
            } else {
                (cap + 1) as nat
            },
        decreases to - i,
    {
        let c = v[i];
        if !('0' <= c && c <= '9') {
            assert(!is_digit(v@.subrange(from as int, to as int)[i - from]));
            return None;
        }
        let ghost prev = v@.subrange(from as int, i as int);
        let ghost next = v@.subrange(from as int, i + 1);
        assert(next.drop_last() =~= prev);
        let d: u64 = ((c as u32) - 48) as u64;
        if acc > cap {
            acc = cap + 1;
        } else {
            let t = acc * 10 + d;
            if t > cap {
                acc = cap + 1;
            } else {
                acc = t;
            }
        }
        i = i + 1;
        assert(all_digits(next)) by {
            assert forall|k: int| 0 <= k < next.len() implies is_digit(#[trigger] next[k]) by {
                if k < prev.len() {
                    assert(next[k] == prev[k]);
                }
            }
        }
    }
    if acc > cap {
        None
    } else {
        Some(acc)
    }
}

/// `str::parse::<u32>` on the characters `v[from..to]`.
pub fn parse_u32_range(v: &Vec<char>, from: usize, to: usize) -> (r: Option<u32>)
    requires
        from <= to <= v@.len(),
    ensures
        r == parse_u32_spec(v@.subrange(from as int, to as int)),
{
    let ghost s = v@.subrange(from as int, to as int);
    let mut start = from;
    if from < to && v[from] == '+' {
        start = from + 1;
        assert(s.drop_first() =~= v@.subrange(start as int, to as int));
    } else {
        assert(s =~= v@.subrange(start as int, to as int));
    }
    if start == to {
        return None;
    }
    match parse_digits(v, start, to, 0xffff_ffff) {
        Some(n) => Some(n as u32),
        None => None,
    }
}

/// `str::parse::<i32>` on the characters `v[from..to]`.
pub fn parse_i32_range(v: &Vec<char>, from: usize, to: usize) -> (r: Option<i32>)
    requires
        from <= to <= v@.len(),
    ensures
        r == parse_i32_spec(v@.subrange(from as int, to as int)),
{
    let ghost s = v@.subrange(from as int, to as int);
    if from < to && v[from] == '-' {
        let start = from + 1;
        assert(s.drop_first() =~= v@.subrange(start as int, to as int));
        if start == to {
            return None;
        }
        match parse_digits(v, start, to, 0x8000_0000) {
            Some(n) => Some((0i64 - (n as i64)) as i32),
            None => None,
        }
    } else {
        let mut start = from;
        if from < to && v[from] == '+' {
            start = from + 1;
            assert(s.drop_first() =~= v@.subrange(start as int, to as int));
        } else {
            assert(s =~= v@.subrange(start as int, to as int));
        }
        if start == to {
            return None;
        }
        match parse_digits(v, start, to, 0x7fff_ffff) {
            Some(n) => Some(n as i32),
            None => None,
        }
    }
}

/// Index of the last '/' in `s`, or -1 when there is none.
pub open spec fn last_slash(s: Seq<char>) -> int
    decreases s.len(),
{
    if s.len() == 0 {
        -1
    } else if s.last() == '/' {
        s.len() - 1
    } else {
        last_slash(s.drop_last())
    }
}

/// The final component of a Unix path, as `Path::file_name` gives it:
/// trailing separators and `.` components are ignored, and a path that ends
/// in `..`, or has no normal component at its end, has none.
pub open spec fn file_name_of(s: Seq<char>) -> Option<Seq<char>>
    decreases s.len(),
{
    if s.len() == 0 {
        None
    } else if s.last() == '/' || (s.last() == '.' && (s.len() == 1 || s[s.len() - 2] == '/')) {
        file_name_of(s.drop_last())
    } else {
        let seg = s.skip(last_slash(s) + 1);
        if seg == seq!['.', '.'] {
            None
        } else {
            Some(seg)
        }
    }
}

/// The bounds `[a, b)` of the final component of the path `v`.
pub fn file_name_range(v: &Vec<char>) -> (r: Option<(usize, usize)>)
    ensures
        match r {
            None => file_name_of(v@) is None,
            Some((a, b)) => a <= b <= v@.len() && file_name_of(v@) == Some(
                v@.subrange(a as int, b as int),
            ),
        },
{
    let mut end = v.len();
    assert(v@.take(end as int) =~= v@);
    while end > 0 && (v[end - 1] == '/' || (v[end - 1] == '.' && (end == 1 || v[end - 2] == '/')))
        invariant
            end <= v@.len(),
            file_name_of(v@) == file_name_of(v@.take(end as int)),
        decreases end,
    {
        let ghost t = v@.take(end as int);
        assert(t.drop_last() =~= v@.take(end - 1));
        end = end - 1;
    }
    if end == 0 {
        return None;
    }
    let ghost t = v@.take(end as int);
    let mut start = end;
    while start > 0 && v[start - 1] != '/'
        invariant
            start <= end <= v@.len(),
            t == v@.take(end as int),
            last_slash(t) == last_slash(v@.take(start as int)),
            forall|k: int| start <= k < end ==> v@[k] != '/',
        decreases start,
    {
        assert(v@.take(start as int).drop_last() =~= v@.take(start - 1));
        start = start - 1;
    }
    assert(last_slash(t) + 1 == start) by {
        if start > 0 {
            assert(v@.take(start as int).last() == '/');
        }
    }
    assert(t.skip(start as int) =~= v@.subrange(start as int, end as int));
    if end - start == 2 && v[start] == '.' && v[start + 1] == '.' {
        assert(v@.subrange(start as int, end as int) =~= seq!['.', '.']);
        return None;
    }
    proof {
        if v@.subrange(start as int, end as int) == seq!['.', '.'] {
            assert(v@.subrange(start as int, end as int)[0] == '.');
            assert(v@.subrange(start as int, end as int)[1] == '.');
        }
    }
    Some((start, end))
}

} // verus!
