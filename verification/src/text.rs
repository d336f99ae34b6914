//! Text helpers shared by the library: decimal rendering and parsing of
//! integers, ASCII case folding, and UTF-16 conversion.
use vstd::prelude::*;

verus! {

/// The ASCII character of a decimal digit.
pub open spec fn digit_char(d: nat) -> char {
    (48 + d) as char
}

/// The shortest decimal representation of `n`.
pub open spec fn decimal(n: nat) -> Seq<char>
    decreases n,
{
    if n < 10 {
        seq![digit_char(n)]
    } else {
        decimal(n / 10).push(digit_char(n % 10))
    }
}

/// `String::push`: appends one character.
#[verifier::external_body]
pub(crate) fn push_char(s: &mut String, c: char)
    ensures
        final(s)@ == old(s)@.push(c),
{
    s.push(c);
}

/// Appends the decimal representation of `n` to `s`.
pub fn append_decimal(s: &mut String, n: u64)
    ensures
        final(s)@ == old(s)@ + decimal(n as nat),
    decreases n,
{
    if n >= 10 {
        append_decimal(s, n / 10);
    }
    let d = (n % 10) as u8;
    push_char(s, (48u8 + d) as char);
    assert(final(s)@ =~= old(s)@ + decimal(n as nat));
}

/// The decimal representation of `n` as a new string.
pub fn decimal_string(n: u64) -> (r: String)
    ensures
        r@ == decimal(n as nat),
{
    let mut s = String::new();
    append_decimal(&mut s, n);
    assert(s@ =~= decimal(n as nat));
    s
}

/// Whether `c` is one of the ASCII digits `0` to `9`.
pub open spec fn is_digit(c: char) -> bool {
    '0' <= c <= '9'
}

/// Whether every character of `s` is an ASCII digit.
pub open spec fn all_digits(s: Seq<char>) -> bool {
    forall|i: int| 0 <= i < s.len() ==> is_digit(#[trigger] s[i])
}

/// The number written by the decimal digits `s` (leading zeros allowed).
pub open spec fn digits_value(s: Seq<char>) -> nat
    decreases s.len(),
{
    if s.len() == 0 {
        0
    } else {
        digits_value(s.drop_last()) * 10 + ((s.last() as int - 48) as nat)
    }
}

/// Rust's syntax for an unsigned integer: an optional `+`, then one or more digits.
/// Gives the digits.
pub open spec fn unsigned_digits(s: Seq<char>) -> Option<Seq<char>> {
    let d = if s.len() > 0 && s[0] == '+' {
        s.drop_first()
    } else {
        s
    };
    if d.len() > 0 && all_digits(d) {
        Some(d)
    } else {
        None
    }
}

/// The value of `s` as an unsigned integer no larger than `limit`, as `str::parse` reads it.
pub open spec fn parse_unsigned(s: Seq<char>, limit: nat) -> Option<nat> {
    match unsigned_digits(s) {
        Some(d) => if digits_value(d) <= limit {
            Some(digits_value(d))
        } else {
            None
        },
        None => None,
    }
}

/// The value of `s` as an `i32`, as `str::parse::<i32>` reads it.
pub open spec fn parse_i32_spec(s: Seq<char>) -> Option<int> {
    if s.len() > 0 && s[0] == '-' {
        let d = s.drop_first();
        if d.len() > 0 && all_digits(d) && digits_value(d) <= 0x8000_0000 {
            Some(-(digits_value(d) as int))
        } else {
            None
        }
    } else {
        match parse_unsigned(s, 0x7fff_ffff) {
            Some(v) => Some(v as int),
            None => None,
        }
    }
}

proof fn lemma_digits_value_push(s: Seq<char>, c: char)
    ensures
        digits_value(s.push(c)) == digits_value(s) * 10 + ((c as int - 48) as nat),
{
    assert(s.push(c).drop_last() =~= s);
}

/// The value of a digit prefix never exceeds the value of the whole.
proof fn lemma_digits_prefix_le(s: Seq<char>, k: int)
    requires
        0 <= k <= s.len(),
        all_digits(s),
    ensures
        digits_value(s.subrange(0, k)) <= digits_value(s),
    decreases s.len() - k,
{
    if k < s.len() {
        lemma_digits_prefix_le(s, k + 1);
        let p = s.subrange(0, k);
        assert(s.subrange(0, k + 1) =~= p.push(s[k]));
        lemma_digits_value_push(p, s[k]);
        assert(is_digit(s[k]));
    } else {
        assert(s.subrange(0, k) =~= s);
    }
}

/// The decimal representation of `n` is a non-empty run of digits whose value is `n`.
pub proof fn lemma_decimal_reads_back(n: nat)
    ensures
        decimal(n).len() > 0,
        all_digits(decimal(n)),
        digits_value(decimal(n)) == n,
    decreases n,
{
    let d = digit_char(n % 10);
    assert((d as int) == 48 + n % 10);
    if n >= 10 {
        lemma_decimal_reads_back(n / 10);
        let head = decimal(n / 10);
        lemma_digits_value_push(head, d);
        assert(decimal(n) == head.push(d));
        assert(digits_value(head.push(d)) == digits_value(head) * 10 + ((d as int - 48) as nat));
        assert(n == (n / 10) * 10 + n % 10);
        assert forall|i: int| 0 <= i < decimal(n).len() implies is_digit(#[trigger] decimal(n)[i]) by {
            if i < head.len() {
                assert(decimal(n)[i] == head[i]);
            }
        }
    } else {
        assert(decimal(n) == seq![d]);
        lemma_digits_value_push(Seq::<char>::empty(), d);
        assert(Seq::<char>::empty().push(d) =~= seq![d]);
        assert(digits_value(Seq::<char>::empty()) == 0);
    }
}

/// The text an `i32` is written as: its decimal digits, after a `-` when negative.
pub open spec fn i32_text(v: i32) -> Seq<char> {
    if v < 0 {
        seq!['-'] + decimal((-(v as int)) as nat)
    } else {
        decimal(v as nat)
    }
}

/// Every `i32` reads back from the text it is written as.
pub proof fn lemma_i32_text_reads_back(v: i32)
    ensures
        parse_i32_spec(i32_text(v)) == Some(v as int),
{
    if v < 0 {
        let n = (-(v as int)) as nat;
        lemma_decimal_reads_back(n);
        let t = i32_text(v);
        assert(t.drop_first() =~= decimal(n));
        assert(t[0] == '-');
    } else {
        lemma_decimal_reads_back(v as nat);
        let t = decimal(v as nat);
        assert(t[0] != '-' && t[0] != '+') by {
            assert(is_digit(t[0]));
        }
    }
}

/// Every number up to `limit` reads back from its decimal representation, as an
/// unsigned integer.
pub proof fn lemma_unsigned_reads_back(n: nat, limit: nat)
    requires
        n <= limit,
    ensures
        parse_unsigned(decimal(n), limit) == Some(n),
{
    lemma_decimal_reads_back(n);
    let t = decimal(n);
    assert(t[0] != '+') by {
        assert(is_digit(t[0]));
    }
}

/// A leading `+` changes nothing, as `str::parse` reads integers: a run of digits
/// reads the same with and without it, as an `i32` and as an unsigned integer.
pub proof fn lemma_plus_sign_is_optional(digits: Seq<char>, limit: nat)
    requires
        digits.len() > 0,
        all_digits(digits),
    ensures
        parse_i32_spec(seq!['+'] + digits) == parse_i32_spec(digits),
        parse_unsigned(seq!['+'] + digits, limit) == parse_unsigned(digits, limit),
{
    let signed = seq!['+'] + digits;
    assert(signed.drop_first() =~= digits);
    assert(signed[0] == '+');
    assert(digits[0] != '+' && digits[0] != '-') by {
        assert(is_digit(digits[0]));
    }
}

/// Reads the digits of `s` from position `start` to the end, failing on a non-digit,
/// on an empty digit run, or when the value exceeds `limit`.
fn parse_digit_run(s: &str, start: usize, limit: u64) -> (r: Option<u64>)
    requires
        start <= s@.len(),
    ensures
        ({
            let d = s@.subrange(start as int, s@.len() as int);
            match r {
                Some(v) => d.len() > 0 && all_digits(d) && v == digits_value(d) && v <= limit,
                None => !(d.len() > 0 && all_digits(d) && digits_value(d) <= limit),
            }
        }),
{
    let len = s.unicode_len();
    let ghost d = s@.subrange(start as int, s@.len() as int);
    if start == len {
        return None;
    }
    let mut acc: u64 = 0;
    let mut i = start;
    while i < len
        invariant
            start <= i <= len,
            len == s@.len(),
            d == s@.subrange(start as int, s@.len() as int),
            acc <= limit,
            all_digits(d.subrange(0, i - start)),
            acc == digits_value(d.subrange(0, i - start)),
        decreases len - i,
    {
        let c = s.get_char(i);
        if !('0' <= c && c <= '9') {
            assert(d[i - start] == c);
            return None;
        }
        let digit = (c as u32 - 48) as u64;
        proof {
            let p = d.subrange(0, i - start);
            assert(d.subrange(0, i + 1 - start) =~= p.push(c));
            lemma_digits_value_push(p, c);
        }
        if digit > limit || acc > (limit - digit) / 10 {
            proof {
                assert(acc * 10 + digit > limit) by (nonlinear_arith)
                    requires
                        digit > limit || acc > (limit - digit) / 10,
                        digit <= 9,
                        acc >= 0,
                ;
                if all_digits(d) {
                    lemma_digits_prefix_le(d, i + 1 - start);
                }
            }
            return None;
        }
        assert(acc * 10 + digit <= limit) by (nonlinear_arith)
            requires
                acc <= (limit - digit) / 10,
                digit <= limit,
        ;
        acc = acc * 10 + digit;
        i = i + 1;
    }
    assert(d.subrange(0, len - start) =~= d);
    Some(acc)
}

/// Reads `s` as an unsigned integer no larger than `limit`, as `str::parse` does.
pub fn parse_unsigned_limited(s: &str, limit: u64) -> (r: Option<u64>)
    ensures
        match r {
            Some(v) => parse_unsigned(s@, limit as nat) == Some(v as nat),
            None => parse_unsigned(s@, limit as nat) is None,
        },
{
    let len = s.unicode_len();
    let start: usize = if len > 0 && s.get_char(0) == '+' {
        1
    } else {
        0
    };
    proof {
        if start == 1 {
            assert(s@.drop_first() =~= s@.subrange(1, s@.len() as int));
        } else {
            assert(s@ =~= s@.subrange(0, s@.len() as int));
        }
    }
    parse_digit_run(s, start, limit)
}

/// Reads `s` as a `u32`, as `str::parse::<u32>` does.
pub fn parse_u32(s: &str) -> (r: Option<u32>)
    ensures
        match r {
            Some(v) => parse_unsigned(s@, u32::MAX as nat) == Some(v as nat),
            None => parse_unsigned(s@, u32::MAX as nat) is None,
        },
{
    match parse_unsigned_limited(s, u32::MAX as u64) {
        Some(v) => Some(v as u32),
        None => None,
    }
}

/// Reads `s` as a `usize`, as `str::parse::<usize>` does.
pub fn parse_index(s: &str) -> (r: Option<usize>)
    ensures
        match r {
            Some(v) => parse_unsigned(s@, usize::MAX as nat) == Some(v as nat),
            None => parse_unsigned(s@, usize::MAX as nat) is None,
        },
{
    match parse_unsigned_limited(s, usize::MAX as u64) {
        Some(v) => Some(v as usize),
        None => None,
    }
}

/// Reads `s` as an `i32`, as `str::parse::<i32>` does.
pub fn parse_i32(s: &str) -> (r: Option<i32>)
    ensures
        match r {
            Some(v) => parse_i32_spec(s@) == Some(v as int),
            None => parse_i32_spec(s@) is None,
        },
{
    let len = s.unicode_len();
    if len > 0 && s.get_char(0) == '-' {
        assert(s@.drop_first() =~= s@.subrange(1, s@.len() as int));
        match parse_digit_run(s, 1, 0x8000_0000) {
            Some(v) => Some((0 - (v as i64)) as i32),
            None => None,
        }
    } else {
        match parse_unsigned_limited(s, 0x7fff_ffff) {
            Some(v) => Some(v as i32),
            None => None,
        }
    }
}

/// The ASCII lower-case form of a character code.
pub open spec fn ascii_lower(c: int) -> int {
    if 65 <= c <= 90 {
        c + 32
    } else {
        c
    }
}

/// `str::eq_ignore_ascii_case`: equal up to ASCII case.
pub open spec fn eq_ignore_ascii_case(a: Seq<char>, b: Seq<char>) -> bool {
    a.len() == b.len() && forall|i: int|
        0 <= i < a.len() ==> ascii_lower(#[trigger] a[i] as int) == ascii_lower(b[i] as int)
}

/// Compares two strings character by character.
pub fn str_equals(a: &str, b: &str) -> (r: bool)
    ensures
        r == (a@ == b@),
{
    let n = a.unicode_len();
    if n != b.unicode_len() {
        return false;
    }
    let mut i: usize = 0;
    while i < n
        invariant
            n == a@.len() == b@.len(),
            i <= n,
            forall|j: int| 0 <= j < i ==> a@[j] == b@[j],
        decreases n - i,
    {
        if a.get_char(i) != b.get_char(i) {
            return false;
        }
        i = i + 1;
    }
    assert(a@ =~= b@);
    true
}

/// Compares two strings while ignoring ASCII case.
pub fn equals_ignore_ascii_case(a: &str, b: &str) -> (r: bool)
    ensures
        r == eq_ignore_ascii_case(a@, b@),
{
    let n = a.unicode_len();
    if n != b.unicode_len() {
        return false;
    }
    let mut i: usize = 0;
    while i < n
        invariant
            n == a@.len() == b@.len(),
            i <= n,
            forall|j: int| 0 <= j < i ==> ascii_lower(#[trigger] a@[j] as int) == ascii_lower(b@[j] as int),
        decreases n - i,
    {
        let x = a.get_char(i) as u32;
        let y = b.get_char(i) as u32;
        let lx = if 65 <= x && x <= 90 { x + 32 } else { x };
        let ly = if 65 <= y && y <= 90 { y + 32 } else { y };
        if lx != ly {
            return false;
        }
        i = i + 1;
    }
    true
}

/// The UTF-16 code units of one character.
pub open spec fn utf16_of_char(c: char) -> Seq<u16> {
    let v = c as int;
    if v < 0x10000 {
        seq![v as u16]
    } else {
        seq![(0xD800 + (v - 0x10000) / 0x400) as u16, (0xDC00 + (v - 0x10000) % 0x400) as u16]
    }
}

/// The UTF-16 encoding of a character sequence.
pub open spec fn utf16(s: Seq<char>) -> Seq<u16>
    decreases s.len(),
{
    if s.len() == 0 {
        Seq::empty()
    } else {
        utf16(s.drop_last()) + utf16_of_char(s.last())
    }
}

/// Appends the UTF-16 encoding of `s` to `out`.
pub fn append_utf16(out: &mut Vec<u16>, s: &str)
    ensures
        final(out)@ == old(out)@ + utf16(s@),
{
    let n = s.unicode_len();
    let mut i: usize = 0;
    while i < n
        invariant
            n == s@.len(),
            i <= n,
            out@ == old(out)@ + utf16(s@.subrange(0, i as int)),
        decreases n - i,
    {
        let c = s.get_char(i);
        let v = c as u32;
        proof {
            assert(s@.subrange(0, i + 1).drop_last() =~= s@.subrange(0, i as int));
        }
        if v < 0x10000 {
            out.push(v as u16);
        } else {
            assert(v <= 0x10FFFF);
            out.push((0xD800 + (v - 0x10000) / 0x400) as u16);
            out.push((0xDC00 + (v - 0x10000) % 0x400) as u16);
        }
        proof {
            assert(s@.subrange(0, i + 1).last() == c);
        }
        i = i + 1;
        assert(out@ =~= old(out)@ + utf16(s@.subrange(0, i as int)));
    }
    assert(s@.subrange(0, n as int) =~= s@);
}

/// `encode_null_terminated`: the UTF-16 encoding of `value` followed by one NUL unit.
pub fn encode_null_terminated(value: &str) -> (r: Vec<u16>)
    ensures
        r@ == utf16(value@).push(0u16),
{
    let mut out: Vec<u16> = Vec::new();
    append_utf16(&mut out, value);
    out.push(0);
    assert(out@ =~= utf16(value@).push(0u16));
    out
}

/// What `String::from_utf16_lossy` returns for the code units `units`.
pub uninterp spec fn utf16_lossy(units: Seq<u16>) -> Seq<char>;

/// `String::from_utf16_lossy`: decodes UTF-16, replacing each unpaired surrogate with
/// U+FFFD. Its result is a function of the units alone, the UTF-16 encoding
/// of a text decodes to that text, and only a zero unit decodes to a NUL.
#[verifier::external_body]
fn from_utf16_lossy(units: &[u16]) -> (r: String)
    ensures
        r@ == utf16_lossy(units@),
        forall|t: Seq<char>| #[trigger] utf16(t) == units@ ==> r@ == t,
        (forall|j: int| 0 <= j < units@.len() ==> units@[j] != 0u16) ==> nul_free(r@),
{
    String::from_utf16_lossy(units)
}

/// The position of the first NUL unit of `s`, or its length when it holds none.
pub fn first_nul_u16(s: &[u16]) -> (r: usize)
    ensures
        r <= s@.len(),
        forall|j: int| 0 <= j < r ==> s@[j] != 0u16,
        r < s@.len() ==> s@[r as int] == 0u16,
{
    let mut i: usize = 0;
    while i < s.len()
        invariant
            i <= s@.len(),
            forall|j: int| 0 <= j < i ==> s@[j] != 0u16,
        decreases s@.len() - i,
    {
        if s[i] == 0 {
            return i;
        }
        i = i + 1;
    }
    i
}

/// Whether `end` is the position of the first NUL unit of `s`, or its length when
/// `s` holds none.
pub open spec fn first_nul_at(s: Seq<u16>, end: int) -> bool {
    &&& 0 <= end <= s.len()
    &&& forall|j: int| 0 <= j < end ==> s[j] != 0u16
    &&& end < s.len() ==> s[end] == 0u16
}

/// The first NUL position of a buffer is unique.
pub proof fn lemma_first_nul_unique(s: Seq<u16>, end: int)
    requires
        first_nul_at(s, end),
    ensures
        forall|other: int| #[trigger] first_nul_at(s, other) ==> other == end,
        (choose|e: int| first_nul_at(s, e)) == end,
{
    assert forall|other: int| #[trigger] first_nul_at(s, other) implies other == end by {
        if other < end {
            assert(s[other] == 0u16);
        } else if other > end {
            assert(s[end] == 0u16);
        }
    }
}

/// The text of a NUL-terminated UTF-16 buffer: its units up to the first NUL
/// (all of them when there is none), decoded as `String::from_utf16_lossy` does.
pub open spec fn nul_terminated_text(s: Seq<u16>) -> Seq<char> {
    utf16_lossy(s.subrange(0, choose|end: int| first_nul_at(s, end)))
}

/// Whether `t` holds no NUL character.
pub open spec fn nul_free(t: Seq<char>) -> bool {
    forall|i: int| 0 <= i < t.len() ==> t[i] != '\0'
}

/// Whether `value` holds the NUL-free text `t`: its UTF-16 encoding, then a NUL
/// unit or the end of the buffer.
pub open spec fn holds_text(value: Seq<u16>, t: Seq<char>) -> bool {
    let k = utf16(t).len() as int;
    &&& nul_free(t)
    &&& k <= value.len()
    &&& value.subrange(0, k) == utf16(t)
    &&& k < value.len() ==> value[k] == 0u16
}

/// A character's value is a Unicode code point.
proof fn lemma_char_range(c: char)
    ensures
        0 <= c as int <= 0x10FFFF,
{
}

/// The UTF-16 encoding of a NUL-free text holds no NUL unit.
pub proof fn lemma_utf16_nul_free(t: Seq<char>)
    requires
        nul_free(t),
    ensures
        forall|j: int| 0 <= j < utf16(t).len() ==> #[trigger] utf16(t)[j] != 0u16,
    decreases t.len(),
{
    if t.len() > 0 {
        let init = t.drop_last();
        assert(nul_free(init)) by {
            assert forall|i: int| 0 <= i < init.len() implies init[i] != '\0' by {
                assert(init[i] == t[i]);
            }
        }
        lemma_utf16_nul_free(init);
        let c = t.last();
        assert(c != '\0') by {
            assert(t[t.len() - 1] != '\0');
        }
        let v = c as int;
        lemma_char_range(c);
        assert(v != 0);
        let tail = utf16_of_char(c);
        assert forall|j: int| 0 <= j < tail.len() implies tail[j] != 0u16 by {
            if v < 0x10000 {
                assert(tail[j] == v as u16);
                assert((v as u16) as int == v);
            }
        }
        let whole = utf16(t);
        assert(whole == utf16(init) + tail);
        assert forall|j: int| 0 <= j < whole.len() implies #[trigger] whole[j] != 0u16 by {
            if j < utf16(init).len() {
                assert(whole[j] == utf16(init)[j]);
            } else {
                assert(whole[j] == tail[j - utf16(init).len()]);
            }
        }
    }
}

/// `decode_null_terminated`: decodes the UTF-16 units of `value` up to the first
/// NUL, so the text holds no NUL; a buffer holding the encoding of a NUL-free
/// text gives that text back.
pub fn decode_null_terminated(value: &[u16]) -> (r: String)
    ensures
        r@ == nul_terminated_text(value@),
        forall|t: Seq<char>| #[trigger] holds_text(value@, t) ==> r@ == t,
        nul_free(r@),
{
    let end = first_nul_u16(value);
    let prefix = slice_prefix_u16(value, end);
    let r = from_utf16_lossy(prefix.as_slice());
    proof {
        assert forall|j: int| 0 <= j < prefix@.len() implies prefix@[j] != 0u16 by {
            assert(prefix@[j] == value@[j]);
        }
        assert(first_nul_at(value@, end as int));
        lemma_first_nul_unique(value@, end as int);
        assert forall|t: Seq<char>| #[trigger] holds_text(value@, t) implies r@ == t by {
            let k = utf16(t).len() as int;
            lemma_utf16_nul_free(t);
            assert forall|j: int| 0 <= j < k implies value@[j] != 0u16 by {
                assert(value@[j] == value@.subrange(0, k)[j]);
                assert(utf16(t)[j] != 0u16);
            }
            assert(first_nul_at(value@, k));
            assert(k == end as int);
            assert(prefix@ == utf16(t));
        }
    }
    r
}

/// Copies the first `n` units of `s`.
fn slice_prefix_u16(s: &[u16], n: usize) -> (r: Vec<u16>)
    requires
        n <= s@.len(),
    ensures
        r@ == s@.subrange(0, n as int),
{
    let mut out: Vec<u16> = Vec::new();
    let mut i: usize = 0;
    while i < n
        invariant
            i <= n <= s@.len(),
            out@ == s@.subrange(0, i as int),
        decreases n - i,
    {
        out.push(s[i]);
        i = i + 1;
        assert(out@ =~= s@.subrange(0, i as int));
    }
    out
}

} // verus!
