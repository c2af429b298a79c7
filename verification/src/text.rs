//! Character-level text helpers shared by the parsers and the message builders:
//! concatenation, whitespace trimming, splitting on a separator, prefix and
//! substring tests, decimal rendering and unsigned integer parsing.
use vstd::prelude::*;

verus! {

/// Unicode `White_Space` characters, the set that `char::is_whitespace` accepts.
pub open spec fn is_unicode_whitespace(c: char) -> bool {
    ||| ('\u{9}' <= c && c <= '\u{d}')
    ||| c == ' '
    ||| c == '\u{85}'
    ||| c == '\u{a0}'
    ||| c == '\u{1680}'
    ||| ('\u{2000}' <= c && c <= '\u{200a}')
    ||| c == '\u{2028}'
    ||| c == '\u{2029}'
    ||| c == '\u{202f}'
    ||| c == '\u{205f}'
    ||| c == '\u{3000}'
}

pub fn is_whitespace_char(c: char) -> (r: bool)
    ensures
        r == is_unicode_whitespace(c),
{
    ('\u{9}' <= c && c <= '\u{d}') || c == ' ' || c == '\u{85}' || c == '\u{a0}'
        || c == '\u{1680}' || ('\u{2000}' <= c && c <= '\u{200a}') || c == '\u{2028}'
        || c == '\u{2029}' || c == '\u{202f}' || c == '\u{205f}' || c == '\u{3000}'
}

/// Index of the first character at or after `i` that is not whitespace (or the length).
pub open spec fn first_non_ws_from(s: Seq<char>, i: int) -> int
    decreases s.len() - i,
{
    if i < 0 || i >= s.len() {
        s.len() as int
    } else if is_unicode_whitespace(s[i]) {
        first_non_ws_from(s, i + 1)
    } else {
        i
    }
}

/// One past the last character before `end` that is not whitespace (or `lo`).
pub open spec fn last_non_ws_before(s: Seq<char>, lo: int, end: int) -> int
    decreases end - lo,
{
    if end <= lo {
        lo
    } else if is_unicode_whitespace(s[end - 1]) {
        last_non_ws_before(s, lo, end - 1)
    } else {
        end
    }
}

/// The text with leading and trailing whitespace removed, as `str::trim` gives it.
pub open spec fn trimmed(s: Seq<char>) -> Seq<char> {
    let lo = first_non_ws_from(s, 0);
    s.subrange(lo, last_non_ws_before(s, lo, s.len() as int))
}

proof fn lemma_first_non_ws_bounds(s: Seq<char>, i: int)
    requires
        0 <= i <= s.len(),
    ensures
        i <= first_non_ws_from(s, i) <= s.len(),
    decreases s.len() - i,
{
    if i < s.len() && is_unicode_whitespace(s[i]) {
        lemma_first_non_ws_bounds(s, i + 1);
    }
}

proof fn lemma_last_non_ws_bounds(s: Seq<char>, lo: int, end: int)
    requires
        0 <= lo <= end <= s.len(),
    ensures
        lo <= last_non_ws_before(s, lo, end) <= end,
    decreases end - lo,
{
    if end > lo && is_unicode_whitespace(s[end - 1]) {
        lemma_last_non_ws_bounds(s, lo, end - 1);
    }
}

/// Removes leading and trailing Unicode whitespace.
pub fn trim(s: &str) -> (r: String)
    ensures
        r@ == trimmed(s@),
{
    let n = s.unicode_len();
    let mut lo: usize = 0;
    while lo < n && is_whitespace_char(s.get_char(lo))
        invariant
            n == s@.len(),
            lo <= n,
            first_non_ws_from(s@, lo as int) == first_non_ws_from(s@, 0),
        decreases n - lo,
    {
        lo = lo + 1;
    }
    proof {
        lemma_first_non_ws_bounds(s@, 0);
    }
    let mut hi: usize = n;
    while hi > lo && is_whitespace_char(s.get_char(hi - 1))
        invariant
            n == s@.len(),
            lo <= hi <= n,
            lo == first_non_ws_from(s@, 0),
            last_non_ws_before(s@, lo as int, hi as int) == last_non_ws_before(
                s@,
                lo as int,
                n as int,
            ),
        decreases hi - lo,
    {
        hi = hi - 1;
    }
    String::from_str(s.substring_char(lo, hi))
}

/// `a` followed by `b`.
pub fn concat(a: &str, b: &str) -> (r: String)
    ensures
        r@ == a@ + b@,
{
    let mut r = String::from_str(a);
    r.append(b);
    r
}

/// `a`, `b` and `c` one after the other.
pub fn concat3(a: &str, b: &str, c: &str) -> (r: String)
    ensures
        r@ == a@ + b@ + c@,
{
    let mut r = String::from_str(a);
    r.append(b);
    r.append(c);
    r
}

/// `s` begins with `prefix`.
pub open spec fn has_prefix(s: Seq<char>, prefix: Seq<char>) -> bool {
    prefix.len() <= s.len() && s.subrange(0, prefix.len() as int) == prefix
}

pub fn starts_with(s: &str, prefix: &str) -> (r: bool)
    ensures
        r == has_prefix(s@, prefix@),
{
    let n = s.unicode_len();
    let m = prefix.unicode_len();
    if m > n {
        return false;
    }
    let mut i: usize = 0;
    while i < m
        invariant
            n == s@.len(),
            m == prefix@.len(),
            m <= n,
            i <= m,
            forall|j: int| 0 <= j < i ==> s@[j] == prefix@[j],
        decreases m - i,
    {
        if s.get_char(i) != prefix.get_char(i) {
            assert(s@.subrange(0, m as int)[i as int] != prefix@[i as int]);
            return false;
        }
        i = i + 1;
    }
    assert(s@.subrange(0, m as int) =~= prefix@);
    true
}

/// `pattern` occurs somewhere inside `s`.
pub open spec fn has_substring(s: Seq<char>, pattern: Seq<char>) -> bool {
    exists|i: int|
        0 <= i && i + pattern.len() <= s.len() && #[trigger] s.subrange(i, i + pattern.len())
            == pattern
}

pub fn contains(s: &str, pattern: &str) -> (r: bool)
    ensures
        r == has_substring(s@, pattern@),
{
    let n = s.unicode_len();
    let m = pattern.unicode_len();
    if m > n {
        assert(!has_substring(s@, pattern@));
        return false;
    }
    if m == 0 {
        assert(s@.subrange(0, 0 + pattern@.len() as int) =~= pattern@);
        return true;
    }
    let mut i: usize = 0;
    while i <= n - m
        invariant
            n == s@.len(),
            m == pattern@.len(),
            1 <= m <= n,
            i <= n - m + 1,
            forall|p: int|
                0 <= p < i ==> #[trigger] s@.subrange(p, p + m as int) != pattern@,
        decreases n + 1 - i,
    {
        let mut k: usize = 0;
        let mut all = true;
        while k < m
            invariant
                n == s@.len(),
                m == pattern@.len(),
                i + m <= n,
                k <= m,
                all ==> forall|q: int| 0 <= q < k ==> s@[i + q] == pattern@[q],
                !all ==> s@.subrange(i as int, i + m as int) != pattern@,
            decreases m - k,
        {
            if all && s.get_char(i + k) != pattern.get_char(k) {
                assert(s@.subrange(i as int, i + m as int)[k as int] != pattern@[k as int]);
                all = false;
            }
            k = k + 1;
        }
        if all {
            assert(s@.subrange(i as int, i + m as int) =~= pattern@);
            return true;
        }
        i = i + 1;
    }
    assert forall|p: int| 0 <= p && p + pattern@.len() <= s@.len() implies #[trigger] s@.subrange(
        p,
        p + pattern@.len(),
    ) != pattern@ by {
        assert(p < i);
    }
    false
}

/// Splits `s` at every occurrence of `sep`, as `str::split` with a character does:
/// always at least one piece, empty pieces kept.
pub open spec fn split_on(s: Seq<char>, sep: char) -> Seq<Seq<char>>
    decreases s.len(),
{
    if s.len() == 0 {
        seq![Seq::<char>::empty()]
    } else {
        let init = split_on(s.drop_last(), sep);
        if s.last() == sep {
            init.push(Seq::<char>::empty())
        } else {
            init.update(init.len() - 1, init.last().push(s.last()))
        }
    }
}

pub proof fn lemma_split_on_nonempty(s: Seq<char>, sep: char)
    ensures
        split_on(s, sep).len() >= 1,
    decreases s.len(),
{
    if s.len() > 0 {
        lemma_split_on_nonempty(s.drop_last(), sep);
    }
}

/// The pieces of `s` between occurrences of `sep`.
pub fn split_char(s: &str, sep: char) -> (pieces: Vec<String>)
    ensures
        pieces@.map_values(|p: String| p@) == split_on(s@, sep),
{
    let n = s.unicode_len();
    let mut pieces: Vec<String> = Vec::new();
    let mut start: usize = 0;
    let mut i: usize = 0;
    assert(s@.subrange(0, 0) =~= Seq::<char>::empty());
    assert(pieces@.map_values(|p: String| p@) =~= Seq::<Seq<char>>::empty());
    assert(pieces@.map_values(|p: String| p@).push(s@.subrange(0, 0)) =~= seq![
        Seq::<char>::empty(),
    ]);
    while i < n
        invariant
            n == s@.len(),
            start <= i <= n,
            pieces@.map_values(|p: String| p@).push(s@.subrange(start as int, i as int))
                == split_on(s@.subrange(0, i as int), sep),
        decreases n - i,
    {
        let c = s.get_char(i);
        let ghost prefix = s@.subrange(0, i + 1);
        assert(prefix.drop_last() =~= s@.subrange(0, i as int));
        assert(prefix.last() == c);
        if c == sep {
            let piece = String::from_str(s.substring_char(start, i));
            pieces.push(piece);
            start = i + 1;
            assert(pieces@.map_values(|p: String| p@) =~= split_on(s@.subrange(0, i as int), sep));
            assert(s@.subrange(start as int, i + 1) =~= Seq::<char>::empty());
        } else {
            let ghost before = pieces@.map_values(|p: String| p@);
            assert(s@.subrange(start as int, i + 1) =~= s@.subrange(start as int, i as int).push(
                c,
            ));
            assert(before.push(s@.subrange(start as int, i + 1)) =~= before.push(
                s@.subrange(start as int, i as int),
            ).update(before.len() as int, s@.subrange(start as int, i as int).push(c)));
        }
        i = i + 1;
    }
    let last = String::from_str(s.substring_char(start, n));
    pieces.push(last);
    assert(s@.subrange(0, n as int) =~= s@);
    assert(pieces@.map_values(|p: String| p@) =~= split_on(s@, sep));
    pieces
}

/// The character for a decimal digit.
pub open spec fn digit_char(d: nat) -> char {
    if d == 0 {
        '0'
    } else if d == 1 {
        '1'
    } else if d == 2 {
        '2'
    } else if d == 3 {
        '3'
    } else if d == 4 {
        '4'
    } else if d == 5 {
        '5'
    } else if d == 6 {
        '6'
    } else if d == 7 {
        '7'
    } else if d == 8 {
        '8'
    } else {
        '9'
    }
}

/// Decimal rendering of a natural number, without sign or leading zeros.
pub open spec fn decimal(n: nat) -> Seq<char>
    decreases n,
{
    if n < 10 {
        seq![digit_char(n)]
    } else {
        decimal(n / 10) + seq![digit_char(n % 10)]
    }
}

fn digit_str(d: u64) -> (r: &'static str)
    requires
        d < 10,
    ensures
        r@ == seq![digit_char(d as nat)],
{
    proof {
        reveal_strlit("0");
        reveal_strlit("1");
        reveal_strlit("2");
        reveal_strlit("3");
        reveal_strlit("4");
        reveal_strlit("5");
        reveal_strlit("6");
        reveal_strlit("7");
        reveal_strlit("8");
        reveal_strlit("9");
    }
    if d == 0 {
        "0"
    } else if d == 1 {
        "1"
    } else if d == 2 {
        "2"
    } else if d == 3 {
        "3"
    } else if d == 4 {
        "4"
    } else if d == 5 {
        "5"
    } else if d == 6 {
        "6"
    } else if d == 7 {
        "7"
    } else if d == 8 {
        "8"
    } else {
        "9"
    }
}

/// Decimal rendering of `n`, as `n.to_string()` gives it.
pub fn decimal_string(n: u64) -> (r: String)
    ensures
        r@ == decimal(n as nat),
    decreases n,
{
    if n < 10 {
        String::from_str(digit_str(n))
    } else {
        let mut r = decimal_string(n / 10);
        r.append(digit_str(n % 10));
        r
    }
}


/// Why a text is not an unsigned integer, in the order in which the
/// standard library's `from_str` detects it.
#[derive(Debug, Clone, Copy, PartialEq, Eq, Structural)]
pub enum IntParseError {
    Empty,
    InvalidDigit,
    PosOverflow,
}

impl IntParseError {
    /// The message that the standard library displays for this kind of error.
    pub fn message(&self) -> (r: &'static str)
        ensures
            r@ == self.message_text(),
    {
        match self {
            IntParseError::Empty => "cannot parse integer from empty string",
            IntParseError::InvalidDigit => "invalid digit found in string",
            IntParseError::PosOverflow => "number too large to fit in target type",
        }
    }

    pub open spec fn message_text(&self) -> Seq<char> {
        match self {
            IntParseError::Empty => "cannot parse integer from empty string"@,
            IntParseError::InvalidDigit => "invalid digit found in string"@,
            IntParseError::PosOverflow => "number too large to fit in target type"@,
        }
    }
}

pub open spec fn is_ascii_digit(c: char) -> bool {
    '0' <= c && c <= '9'
}

pub open spec fn digit_value(c: char) -> nat {
    (c as int - '0' as int) as nat
}

/// Reads decimal digits of `d` from position `i` on, with `acc` the value read so far;
/// an unexpected character or a value above `max` stops the reading.
pub open spec fn parse_digits_from(d: Seq<char>, i: int, acc: nat, max: nat) -> Result<
    nat,
    IntParseError,
>
    decreases d.len() - i,
{
    if i < 0 || i >= d.len() {
        Ok(acc)
    } else if !is_ascii_digit(d[i]) {
        Err(IntParseError::InvalidDigit)
    } else if acc * 10 + digit_value(d[i]) > max {
        Err(IntParseError::PosOverflow)
    } else {
        parse_digits_from(d, i + 1, acc * 10 + digit_value(d[i]), max)
    }
}

/// An unsigned integer no larger than `max`, read from text as `from_str` reads it:
/// an optional `+`, then one or more decimal digits.
pub open spec fn parse_unsigned(s: Seq<char>, max: nat) -> Result<nat, IntParseError> {
    if s.len() == 0 {
        Err(IntParseError::Empty)
    } else if (s[0] == '+' || s[0] == '-') && s.len() == 1 {
        Err(IntParseError::InvalidDigit)
    } else if s[0] == '+' {
        parse_digits_from(s.drop_first(), 0, 0, max)
    } else {
        parse_digits_from(s, 0, 0, max)
    }
}

proof fn lemma_parse_digits_bound(d: Seq<char>, i: int, acc: nat, max: nat)
    requires
        acc <= max,
    ensures
        parse_digits_from(d, i, acc, max) matches Ok(v) ==> v <= max,
    decreases d.len() - i,
{
    if 0 <= i < d.len() && is_ascii_digit(d[i]) && acc * 10 + digit_value(d[i]) <= max {
        lemma_parse_digits_bound(d, i + 1, acc * 10 + digit_value(d[i]), max);
    }
}

/// A parsed value never exceeds the bound.
pub proof fn lemma_parse_unsigned_bound(s: Seq<char>, max: nat)
    ensures
        parse_unsigned(s, max) matches Ok(v) ==> v <= max,
{
    if s.len() > 0 && s[0] == '+' {
        lemma_parse_digits_bound(s.drop_first(), 0, 0, max);
    } else {
        lemma_parse_digits_bound(s, 0, 0, max);
    }
}

/// Parses an unsigned integer no larger than `max`.
pub fn parse_unsigned_str(s: &str, max: u64) -> (r: Result<u64, IntParseError>)
    ensures
        match r {
            Ok(v) => parse_unsigned(s@, max as nat) == Ok::<nat, IntParseError>(v as nat),
            Err(e) => parse_unsigned(s@, max as nat) == Err::<nat, IntParseError>(e),
        },
{
    let n = s.unicode_len();
    if n == 0 {
        return Err(IntParseError::Empty);
    }
    let first = s.get_char(0);
    if (first == '+' || first == '-') && n == 1 {
        return Err(IntParseError::InvalidDigit);
    }
    let start: usize = if first == '+' { 1 } else { 0 };
    let ghost d = if first == '+' { s@.drop_first() } else { s@ };
    assert(parse_unsigned(s@, max as nat) == parse_digits_from(d, 0, 0, max as nat));
    let mut i: usize = start;
    let mut acc: u64 = 0;
    while i < n
        invariant
            n == s@.len(),
            start <= i <= n,
            start == 0 || start == 1,
            d.len() == n - start,
            forall|k: int| 0 <= k < d.len() ==> d[k] == s@[k + start],
            acc <= max,
            parse_unsigned(s@, max as nat) == parse_digits_from(d, 0, 0, max as nat),
            parse_digits_from(d, (i - start) as int, acc as nat, max as nat) == parse_digits_from(
                d,
                0,
                0,
                max as nat,
            ),
        decreases n - i,
    {
        let c = s.get_char(i);
        assert(d[(i - start) as int] == c);
        if !('0' <= c && c <= '9') {
            return Err(IntParseError::InvalidDigit);
        }
        let v = (c as u32 - '0' as u32) as u64;
        assert(v as nat == digit_value(c));
        if v > max {
            assert(acc * 10 + v > max) by (nonlinear_arith)
                requires
                    v > max,
            ;
            return Err(IntParseError::PosOverflow);
        }
        if acc > (max - v) / 10 {
            assert(acc * 10 + v > max) by (nonlinear_arith)
                requires
                    acc > (max - v) / 10,
                    v <= max,
            ;
            return Err(IntParseError::PosOverflow);
        }
        assert(acc * 10 + v <= max) by (nonlinear_arith)
            requires
                acc <= (max - v) / 10,
                v <= max,
        ;
        acc = acc * 10 + v;
        i = i + 1;
    }
    Ok(acc)
}


/// A non-negative fixed-point value counted in tenths (units of `per_tenth`),
/// rounded to the nearest tenth, a tie going to the even tenth.
pub open spec fn rounded_tenths(value: nat, per_tenth: nat) -> nat {
    let q = value / per_tenth;
    let rem = value % per_tenth;
    if 2 * rem > per_tenth || (2 * rem == per_tenth && q % 2 == 1) {
        q + 1
    } else {
        q
    }
}

/// A non-negative fixed-point value, whose tenths are units of `per_tenth`,
/// rounded to one decimal place (ties to even) and written "<integer>.<tenth>".
pub open spec fn unsigned_one_decimal(value: nat, per_tenth: nat) -> Seq<char> {
    let tenths = rounded_tenths(value, per_tenth);
    decimal(tenths / 10) + "."@ + seq![digit_char(tenths % 10)]
}

/// A fixed-point value written with one decimal place, with a leading minus
/// sign when it is negative.
pub open spec fn one_decimal(value: int, per_tenth: nat) -> Seq<char> {
    if value < 0 {
        "-"@ + unsigned_one_decimal((-value) as nat, per_tenth)
    } else {
        unsigned_one_decimal(value as nat, per_tenth)
    }
}

/// Writes a fixed-point value (whose tenths are units of `per_tenth`) with one
/// decimal place, rounding to the nearest tenth (ties to even).
pub fn format_one_decimal(value: i64, per_tenth: u64) -> (r: String)
    requires
        1 <= per_tenth <= 1_000_000,
    ensures
        r@ == one_decimal(value as int, per_tenth as nat),
{
    let magnitude: u64 = if value < 0 {
        if value == i64::MIN {
            9_223_372_036_854_775_808u64
        } else {
            (-value) as u64
        }
    } else {
        value as u64
    };
    let q: u64 = magnitude / per_tenth;
    let rem: u64 = magnitude % per_tenth;
    let twice: u128 = 2 * (rem as u128);
    let round_up = twice > per_tenth as u128 || (twice == per_tenth as u128 && q % 2 == 1);
    assert(q <= magnitude) by (nonlinear_arith)
        requires
            q == magnitude / per_tenth,
            per_tenth >= 1,
    ;
    let tenths: u64 = if round_up {
        q + 1
    } else {
        q
    };
    assert(tenths == rounded_tenths(magnitude as nat, per_tenth as nat));
    let mut r = decimal_string(tenths / 10);
    proof {
        reveal_strlit(".");
    }
    r.append(".");
    r.append(digit_str(tenths % 10));
    if value < 0 {
        let mut signed = String::from_str("-");
        signed.append(r.as_str());
        signed
    } else {
        r
    }
}


/// Whether two texts are equal.
pub fn same_text(a: &str, b: &str) -> (r: bool)
    ensures
        r == (a@ == b@),
{
    let n = a.unicode_len();
    if n != b.unicode_len() {
        return false;
    }
    let mut i: usize = 0;
    while i < n
        invariant
            n == a@.len(),
            n == b@.len(),
            i <= n,
            forall|k: int| 0 <= k < i ==> a@[k] == b@[k],
        decreases n - i,
    {
        if a.get_char(i) != b.get_char(i) {
            return false;
        }
        i = i + 1;
    }
    assert(a@ =~= b@);
    true
}


/// Decimal rendering of an integer, with a leading minus sign when negative.
pub open spec fn signed_decimal(v: int) -> Seq<char> {
    if v < 0 {
        "-"@ + decimal((-v) as nat)
    } else {
        decimal(v as nat)
    }
}

/// Decimal rendering of `v`, as `v.to_string()` gives it.
pub fn signed_decimal_string(v: i64) -> (r: String)
    ensures
        r@ == signed_decimal(v as int),
{
    if v < 0 {
        let magnitude: u64 = if v == i64::MIN {
            9_223_372_036_854_775_808u64
        } else {
            (-v) as u64
        };
        let digits = decimal_string(magnitude);
        concat("-", digits.as_str())
    } else {
        decimal_string(v as u64)
    }
}

/// The texts of a list of string slices.
pub open spec fn texts_of(items: Seq<&str>) -> Seq<Seq<char>> {
    items.map_values(|s: &str| s@)
}

/// Owned copies of a list of string slices.
pub fn owned_strings(items: &[&str]) -> (r: Vec<String>)
    ensures
        r.deep_view() == texts_of(items@),
{
    let mut r: Vec<String> = Vec::new();
    for i in 0..items.len()
        invariant
            r.len() == i,
            i <= items@.len(),
            forall|k: int| 0 <= k < i ==> (#[trigger] r@[k])@ == items@[k]@,
    {
        r.push(String::from_str(items[i]));
    }
    assert(r.deep_view() =~= texts_of(items@));
    r
}

} // verus!
