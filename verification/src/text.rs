//! Text primitives: comparison, searching, trimming, tokenising, number
//! formatting and parsing, and Unix path joining.
//!
//! Every function is stated over the characters of its arguments.

use vstd::prelude::*;
use vstd::string::*;
use vstd::utf8::{decode_utf8, valid_utf8};

verus! {

// ---------------------------------------------------------------------------
// Comparison and access
// ---------------------------------------------------------------------------

/// Whether two texts hold the same characters.
pub fn same_text(a: &str, b: &str) -> (same: bool)
    ensures
        same == (a@ == b@),
{
    let left: String = a.to_owned();
    let right: String = b.to_owned();
    left == right
}

/// The characters of a text.
pub fn chars_of(s: &str) -> (chars: Vec<char>)
    ensures
        chars@ == s@,
{
    let mut chars: Vec<char> = Vec::new();
    for c in it: s.chars()
        invariant
            chars@ == it.seq().take(it.index() as int),
            it.seq() == s@,
    {
        chars.push(c);
    }
    chars
}

/// The characters of each text of a list.
pub open spec fn texts(list: Seq<String>) -> Seq<Seq<char>> {
    list.map_values(|s: String| s@)
}

/// A text that may be absent, by its characters.
pub open spec fn opt_text(s: Option<String>) -> Option<Seq<char>> {
    match s {
        Some(t) => Some(t@),
        None => None,
    }
}

/// Copies a text that may be absent.
pub fn copy_opt(s: &Option<String>) -> (copy: Option<String>)
    ensures
        opt_text(copy) == opt_text(*s),
{
    match s {
        Some(t) => Some(t.clone()),
        None => None,
    }
}

// ---------------------------------------------------------------------------
// Searching
// ---------------------------------------------------------------------------

/// `needle` stands in `hay` at position `at`.
pub open spec fn occurs_at(hay: Seq<char>, needle: Seq<char>, at: int) -> bool {
    0 <= at && at + needle.len() <= hay.len() && hay.subrange(at, at + needle.len()) == needle
}

/// `needle` is a contiguous part of `hay`. The empty text is a part of every
/// text.
pub open spec fn contains_text(hay: Seq<char>, needle: Seq<char>) -> bool {
    exists|at: int| occurs_at(hay, needle, at)
}

fn matches_at(hay: &Vec<char>, needle: &Vec<char>, at: usize) -> (found: bool)
    requires
        at + needle@.len() <= hay@.len(),
    ensures
        found == occurs_at(hay@, needle@, at as int),
{
    let mut i: usize = 0;
    while i < needle.len()
        invariant
            i <= needle.len(),
            at + needle.len() <= hay.len(),
            forall|k: int| 0 <= k < i ==> hay@[at + k] == needle@[k],
        decreases needle@.len() - i,
    {
        if hay[at + i] != needle[i] {
            proof {
                if occurs_at(hay@, needle@, at as int) {
                    assert(hay@.subrange(at as int, at + needle@.len())[i as int] == needle@[i as int]);
                }
            }
            return false;
        }
        i = i + 1;
    }
    assert(hay@.subrange(at as int, at + needle@.len()) =~= needle@);
    true
}

/// Whether `needle` occurs in `hay`.
pub fn contains(hay: &str, needle: &str) -> (found: bool)
    ensures
        found == contains_text(hay@, needle@),
{
    let h: Vec<char> = chars_of(hay);
    let n: Vec<char> = chars_of(needle);
    if n.len() > h.len() {
        return false;
    }
    let last: usize = h.len() - n.len();
    let mut at: usize = 0;
    while at <= last
        invariant
            h@ == hay@,
            n@ == needle@,
            last == h@.len() - n@.len(),
            at <= last + 1,
            forall|k: int| 0 <= k < at ==> !occurs_at(hay@, needle@, k),
        decreases last + 1 - at,
    {
        if matches_at(&h, &n, at) {
            return true;
        }
        if at == last {
            return false;
        }
        at = at + 1;
    }
    false
}

/// Whether a text begins with another one.
pub fn starts_with(s: &str, front: &str) -> (yes: bool)
    ensures
        yes == occurs_at(s@, front@, 0),
{
    let h: Vec<char> = chars_of(s);
    let n: Vec<char> = chars_of(front);
    n.len() <= h.len() && matches_at(&h, &n, 0)
}

// ---------------------------------------------------------------------------
// Trimming
// ---------------------------------------------------------------------------

/// The Unicode `White_Space` property.
pub open spec fn is_space(c: char) -> bool {
    ||| '\u{9}' <= c <= '\u{d}'
    ||| c == ' '
    ||| c == '\u{85}'
    ||| c == '\u{a0}'
    ||| c == '\u{1680}'
    ||| '\u{2000}' <= c <= '\u{200a}'
    ||| c == '\u{2028}'
    ||| c == '\u{2029}'
    ||| c == '\u{202f}'
    ||| c == '\u{205f}'
    ||| c == '\u{3000}'
}

fn space(c: char) -> (yes: bool)
    ensures
        yes == is_space(c),
{
    ('\u{9}' <= c && c <= '\u{d}') || c == ' ' || c == '\u{85}' || c == '\u{a0}' || c == '\u{1680}'
        || ('\u{2000}' <= c && c <= '\u{200a}') || c == '\u{2028}' || c == '\u{2029}'
        || c == '\u{202f}' || c == '\u{205f}' || c == '\u{3000}'
}

/// `s` without the white space at its front.
pub open spec fn trimmed_front(s: Seq<char>) -> Seq<char>
    decreases s.len(),
{
    if s.len() > 0 && is_space(s[0]) {
        trimmed_front(s.drop_first())
    } else {
        s
    }
}

/// `s` without the white space at its end.
pub open spec fn trimmed_back(s: Seq<char>) -> Seq<char>
    decreases s.len(),
{
    if s.len() > 0 && is_space(s.last()) {
        trimmed_back(s.drop_last())
    } else {
        s
    }
}

/// `s` without the white space at both ends.
pub open spec fn trimmed(s: Seq<char>) -> Seq<char> {
    trimmed_back(trimmed_front(s))
}

/// Cuts the white space off both ends.
pub fn trim(s: &str) -> (out: &str)
    ensures
        out@ == trimmed(s@),
{
    let c: Vec<char> = chars_of(s);
    let mut from: usize = 0;
    assert(c@.skip(0) =~= s@);
    while from < c.len() && space(c[from])
        invariant
            c@ == s@,
            from <= c@.len(),
            trimmed_front(s@) == trimmed_front(c@.skip(from as int)),
        decreases c@.len() - from,
    {
        assert(c@.skip(from as int).drop_first() =~= c@.skip(from + 1));
        from = from + 1;
    }
    let mut to: usize = c.len();
    assert(c@.subrange(from as int, to as int) =~= c@.skip(from as int));
    while to > from && space(c[to - 1])
        invariant
            c@ == s@,
            from <= to <= c@.len(),
            trimmed(s@) == trimmed_back(c@.subrange(from as int, to as int)),
        decreases to,
    {
        assert(c@.subrange(from as int, to as int).drop_last() =~= c@.subrange(from as int, to - 1));
        to = to - 1;
    }
    s.substring_char(from, to)
}

/// `s` without the line feeds at its end.
pub open spec fn chomped(s: Seq<char>) -> Seq<char>
    decreases s.len(),
{
    if s.len() > 0 && s.last() == '\n' {
        chomped(s.drop_last())
    } else {
        s
    }
}

/// Cuts the line feeds off the end.
pub fn chomp(s: &str) -> (out: &str)
    ensures
        out@ == chomped(s@),
{
    let mut to: usize = s.unicode_len();
    assert(s@.take(to as int) =~= s@);
    while to > 0 && s.get_char(to - 1) == '\n'
        invariant
            to <= s@.len(),
            chomped(s@) == chomped(s@.take(to as int)),
        decreases to,
    {
        assert(s@.take(to as int).drop_last() =~= s@.take(to - 1));
        to = to - 1;
    }
    assert(s@.take(to as int) =~= s@.subrange(0, to as int));
    s.substring_char(0, to)
}

// ---------------------------------------------------------------------------
// Tokenising
// ---------------------------------------------------------------------------

/// The characters that make up a token; all others separate tokens.
#[derive(Clone, Copy)]
pub enum TokenClass {
    /// ASCII decimal digits.
    Digits,
    /// Everything but white space.
    Words,
}

/// Whether `c` is an ASCII decimal digit.
pub open spec fn is_digit(c: char) -> bool {
    '0' <= c <= '9'
}

impl TokenClass {
    /// Whether `c` belongs to a token of this class.
    pub open spec fn has(self, c: char) -> bool {
        match self {
            TokenClass::Digits => is_digit(c),
            TokenClass::Words => !is_space(c),
        }
    }

    fn member(self, c: char) -> (yes: bool)
        ensures
            yes == self.has(c),
    {
        match self {
            TokenClass::Digits => '0' <= c && c <= '9',
            TokenClass::Words => !space(c),
        }
    }
}

/// The length of the longest front part of `s` that holds token characters
/// only.
pub open spec fn token_len(s: Seq<char>, class: TokenClass) -> nat
    decreases s.len(),
{
    if s.len() > 0 && class.has(s[0]) {
        1 + token_len(s.drop_first(), class)
    } else {
        0
    }
}

proof fn lemma_token_len_is(s: Seq<char>, class: TokenClass, n: nat)
    requires
        n <= s.len(),
        forall|i: int| 0 <= i < n ==> class.has(#[trigger] s[i]),
        n < s.len() ==> !class.has(s[n as int]),
    ensures
        token_len(s, class) == n,
    decreases s.len(),
{
    if n > 0 {
        assert forall|i: int| 0 <= i < n - 1 implies class.has(#[trigger] s.drop_first()[i]) by {
            assert(s.drop_first()[i] == s[i + 1]);
        }
        lemma_token_len_is(s.drop_first(), class, (n - 1) as nat);
    }
}

/// The maximal runs of token characters, from front to back.
pub open spec fn tokens(s: Seq<char>, class: TokenClass) -> Seq<Seq<char>>
    decreases s.len(),
{
    if s.len() == 0 {
        Seq::empty()
    } else if !class.has(s[0]) {
        tokens(s.drop_first(), class)
    } else {
        let n = token_len(s, class) as int;
        if n <= s.len() {
            seq![s.take(n)] + tokens(s.skip(n), class)
        } else {
            Seq::empty()
        }
    }
}

/// Splits a text into its tokens.
pub fn split_tokens(s: &str, class: TokenClass) -> (out: Vec<String>)
    ensures
        texts(out@) == tokens(s@, class),
{
    let c: Vec<char> = chars_of(s);
    let mut out: Vec<String> = Vec::new();
    let mut at: usize = 0;
    assert(c@.skip(0) =~= s@);
    assert(texts(out@) + tokens(s@, class) =~= tokens(s@, class));
    while at < c.len()
        invariant
            c@ == s@,
            at <= c@.len(),
            tokens(s@, class) == texts(out@) + tokens(s@.skip(at as int), class),
        decreases c@.len() - at,
    {
        let ghost rest = s@.skip(at as int);
        if !class.member(c[at]) {
            assert(rest.drop_first() =~= s@.skip(at + 1));
            at = at + 1;
        } else {
            let mut end: usize = at + 1;
            while end < c.len() && class.member(c[end])
                invariant
                    c@ == s@,
                    at < end <= c@.len(),
                    forall|i: int| at <= i < end ==> class.has(#[trigger] c@[i]),
                decreases c@.len() - end,
            {
                end = end + 1;
            }
            let ghost n: int = end - at;
            proof {
                assert forall|i: int| 0 <= i < n implies class.has(#[trigger] rest[i]) by {
                    assert(rest[i] == c@[at + i]);
                }
                lemma_token_len_is(rest, class, n as nat);
                assert(rest.take(n) =~= s@.subrange(at as int, end as int));
                assert(rest.skip(n) =~= s@.skip(end as int));
            }
            let token: String = s.substring_char(at, end).to_owned();
            let ghost before = texts(out@);
            out.push(token);
            proof {
                assert(texts(out@) =~= before + seq![rest.take(n)]);
                assert(before + (seq![rest.take(n)] + tokens(rest.skip(n), class)) =~= texts(out@)
                    + tokens(rest.skip(n), class));
            }
            at = end;
        }
    }
    assert(s@.skip(at as int) =~= Seq::empty());
    assert(texts(out@) + Seq::empty() =~= texts(out@));
    out
}

// ---------------------------------------------------------------------------
// Numbers
// ---------------------------------------------------------------------------

/// The character of a decimal digit.
pub open spec fn digit_char(d: nat) -> char {
    (('0' as int) + d) as char
}

/// A number in decimal, without leading zeros.
pub open spec fn decimal(n: nat) -> Seq<char>
    decreases n,
{
    if n < 10 {
        seq![digit_char(n)]
    } else {
        decimal(n / 10).push(digit_char(n % 10))
    }
}

fn digit_text(d: u64) -> (out: &'static str)
    requires
        d < 10,
    ensures
        out@ == seq![digit_char(d as nat)],
{
    proof {
        reveal_strlit("0");
        reveal_strlit("1");
        reveal_strlit("2");
        reveal_strlit("3");
        reveal_strlit("4");
        reveal_strlit("5");
        reveal_strlit("6");
        reveal_strlit("7");
        reveal_strlit("8");
        reveal_strlit("9");
    }
    let out: &'static str = if d == 0 {
        "0"
    } else if d == 1 {
        "1"
    } else if d == 2 {
        "2"
    } else if d == 3 {
        "3"
    } else if d == 4 {
        "4"
    } else if d == 5 {
        "5"
    } else if d == 6 {
        "6"
    } else if d == 7 {
        "7"
    } else if d == 8 {
        "8"
    } else {
        "9"
    };
    assert(out@ =~= seq![digit_char(d as nat)]);
    out
}

/// Writes a number in decimal.
pub fn decimal_text(n: u64) -> (out: String)
    ensures
        out@ == decimal(n as nat),
    decreases n,
{
    if n < 10 {
        digit_text(n).to_owned()
    } else {
        let mut out: String = decimal_text(n / 10);
        let digit: &str = digit_text(n % 10);
        let ghost front = out@;
        out.append(digit);
        assert(out@ =~= front.push(digit_char((n % 10) as nat)));
        out
    }
}

/// The character of a hexadecimal digit.
pub open spec fn hex_char(d: nat, upper: bool) -> char {
    if d < 10 {
        digit_char(d)
    } else if upper {
        (('A' as int) + d - 10) as char
    } else {
        (('a' as int) + d - 10) as char
    }
}

/// The last `width` hexadecimal digits of a number.
pub open spec fn hex(n: nat, width: nat, upper: bool) -> Seq<char>
    decreases width,
{
    if width == 0 {
        Seq::empty()
    } else {
        hex(n / 16, (width - 1) as nat, upper).push(hex_char(n % 16, upper))
    }
}

fn hex_digit_text(d: u64, upper: bool) -> (out: &'static str)
    requires
        d < 16,
    ensures
        out@ == seq![hex_char(d as nat, upper)],
{
    if d < 10 {
        return digit_text(d);
    }
    proof {
        reveal_strlit("a");
        reveal_strlit("b");
        reveal_strlit("c");
        reveal_strlit("d");
        reveal_strlit("e");
        reveal_strlit("f");
        reveal_strlit("A");
        reveal_strlit("B");
        reveal_strlit("C");
        reveal_strlit("D");
        reveal_strlit("E");
        reveal_strlit("F");
    }
    let out: &'static str = if upper {
        if d == 10 {
            "A"
        } else if d == 11 {
            "B"
        } else if d == 12 {
            "C"
        } else if d == 13 {
            "D"
        } else if d == 14 {
            "E"
        } else {
            "F"
        }
    } else {
        if d == 10 {
            "a"
        } else if d == 11 {
            "b"
        } else if d == 12 {
            "c"
        } else if d == 13 {
            "d"
        } else if d == 14 {
            "e"
        } else {
            "f"
        }
    };
    assert(out@ =~= seq![hex_char(d as nat, upper)]);
    out
}

/// Writes the last `width` hexadecimal digits of a number.
pub fn hex_text(n: u64, width: usize, upper: bool) -> (out: String)
    ensures
        out@ == hex(n as nat, width as nat, upper),
    decreases width,
{
    if width == 0 {
        String::new()
    } else {
        let mut out: String = hex_text(n / 16, width - 1, upper);
        let digit: &str = hex_digit_text(n % 16, upper);
        let ghost front = out@;
        out.append(digit);
        assert(out@ =~= front.push(hex_char((n % 16) as nat, upper)));
        out
    }
}

/// The value of a digit character.
pub open spec fn digit_value(c: char) -> nat {
    (c as int - '0' as int) as nat
}

/// All characters are decimal digits.
pub open spec fn all_digits(s: Seq<char>) -> bool {
    forall|i: int| 0 <= i < s.len() ==> is_digit(#[trigger] s[i])
}

/// The number that a row of decimal digits writes down.
pub open spec fn decimal_value(s: Seq<char>) -> nat
    decreases s.len(),
{
    if s.len() == 0 {
        0
    } else {
        decimal_value(s.drop_last()) * 10 + digit_value(s.last())
    }
}

/// What reading `s` as an unsigned 32-bit decimal number gives: one or more
/// digits, with at most one `+` in front, whose value fits.
pub open spec fn u32_of(s: Seq<char>) -> Option<u32> {
    let digits = if s.len() > 0 && s[0] == '+' {
        s.drop_first()
    } else {
        s
    };
    if digits.len() > 0 && all_digits(digits) && decimal_value(digits) <= u32::MAX {
        Some(decimal_value(digits) as u32)
    } else {
        None
    }
}

proof fn lemma_decimal_value_grows(s: Seq<char>, n: int)
    requires
        0 <= n <= s.len(),
    ensures
        decimal_value(s.take(n)) <= decimal_value(s),
    decreases s.len(),
{
    if n < s.len() {
        lemma_decimal_value_grows(s.drop_last(), n);
        assert(s.drop_last().take(n) =~= s.take(n));
    } else {
        assert(s.take(n) =~= s);
    }
}

/// Reads an unsigned 32-bit decimal number.
pub fn parse_u32(s: &str) -> (out: Option<u32>)
    ensures
        out == u32_of(s@),
{
    let c: Vec<char> = chars_of(s);
    let start: usize = if c.len() > 0 && c[0] == '+' {
        1
    } else {
        0
    };
    let ghost digits = c@.skip(start as int);
    proof {
        if start == 1 {
            assert(digits =~= s@.drop_first());
        } else {
            assert(digits =~= s@);
        }
    }
    if start == c.len() {
        return None;
    }
    let mut value: u64 = 0;
    let mut at: usize = start;
    assert(digits.take(0) =~= Seq::empty());
    while at < c.len()
        invariant
            start <= at <= c@.len(),
            digits == c@.skip(start as int),
            u32_of(s@) == (if digits.len() > 0 && all_digits(digits) && decimal_value(digits)
                <= u32::MAX {
                Some(decimal_value(digits) as u32)
            } else {
                None
            }),
            forall|i: int| 0 <= i < at - start ==> is_digit(#[trigger] digits[i]),
            value == decimal_value(digits.take(at - start)),
            value <= u32::MAX,
        decreases c@.len() - at,
    {
        let d: char = c[at];
        let ghost k: int = at - start;
        assert(digits[k] == d);
        if !('0' <= d && d <= '9') {
            return None;
        }
        let step: u64 = (d as u32 - '0' as u32) as u64;
        proof {
            assert(digits.take(k + 1).drop_last() =~= digits.take(k));
            assert(digits.take(k + 1).last() == d);
        }
        value = value * 10 + step;
        if value > u32::MAX as u64 {
            proof {
                lemma_decimal_value_grows(digits, k + 1);
            }
            return None;
        }
        at = at + 1;
    }
    assert(digits.take(at - start) =~= digits);
    Some(value as u32)
}

/// Where the row of digits that begins at a position ends.
pub open spec fn run_end(s: Seq<char>, at: int) -> int {
    at + token_len(s.skip(at), TokenClass::Digits)
}

/// The number that the row of digits at a position writes down.
pub open spec fn number_from(s: Seq<char>, at: int) -> nat {
    decimal_value(s.subrange(at, run_end(s, at)))
}

/// Reads the number that begins at a position, capped at the largest that fits,
/// and tells where it ends.
pub fn read_number(s: &str, at: usize) -> (out: (u32, usize))
    requires
        at < s@.len(),
        is_digit(s@[at as int]),
    ensures
        out.0 == (if number_from(s@, at as int) <= u32::MAX {
            number_from(s@, at as int) as int
        } else {
            u32::MAX as int
        }),
        out.1 == run_end(s@, at as int),
        at < out.1 <= s@.len(),
{
    let c: Vec<char> = chars_of(s);
    let len: usize = c.len();
    let class: TokenClass = TokenClass::Digits;
    let mut end: usize = at + 1;
    while end < len && class.member(c[end])
        invariant
            c@ == s@,
            len == c@.len(),
            class == TokenClass::Digits,
            at < end <= c@.len(),
            forall|i: int| at <= i < end ==> is_digit(#[trigger] c@[i]),
        decreases c@.len() - end,
    {
        end = end + 1;
    }
    let digits: &str = s.substring_char(at, end);
    proof {
        let rest = s@.skip(at as int);
        let n = (end - at) as nat;
        assert forall|i: int| 0 <= i < n implies class.has(#[trigger] rest[i]) by {
            assert(rest[i] == c@[at + i]);
        }
        lemma_token_len_is(rest, class, n);
        assert(digits@ == s@.subrange(at as int, end as int));
        assert forall|i: int| 0 <= i < digits@.len() implies is_digit(#[trigger] digits@[i]) by {
            assert(digits@[i] == c@[at + i]);
        }
    }
    match parse_u32(digits) {
        Some(n) => (n, end),
        None => (u32::MAX, end),
    }
}

// ---------------------------------------------------------------------------
// Paths
// ---------------------------------------------------------------------------

/// A Unix path with another one joined to it: an absolute second path replaces
/// the first, and one slash stands between the two otherwise.
pub open spec fn joined(base: Seq<char>, rest: Seq<char>) -> Seq<char> {
    if rest.len() > 0 && rest[0] == '/' {
        rest
    } else if base.len() == 0 || base.last() == '/' {
        base + rest
    } else {
        base.push('/') + rest
    }
}

/// Joins two Unix paths.
pub fn join_path(base: &str, rest: &str) -> (out: String)
    ensures
        out@ == joined(base@, rest@),
{
    let rest_len: usize = rest.unicode_len();
    if rest_len > 0 && rest.get_char(0) == '/' {
        return rest.to_owned();
    }
    let base_len: usize = base.unicode_len();
    if base_len == 0 || base.get_char(base_len - 1) == '/' {
        base.to_owned().concat(rest)
    } else {
        proof {
            reveal_strlit("/");
        }
        assert(base@ + "/"@ =~= base@.push('/'));
        base.to_owned().concat("/").concat(rest)
    }
}

// ---------------------------------------------------------------------------
// Calls into the standard library
// ---------------------------------------------------------------------------

/// The lower-case form of a text, by the Unicode character database.
pub uninterp spec fn lowercase(s: Seq<char>) -> Seq<char>;

/// Calls `str::to_lowercase`. The result is a function of the text alone; the
/// case mapping itself is Unicode's and is not restated here.
#[verifier::external_body]
pub(crate) fn to_lowercase(s: &str) -> (out: String)
    ensures
        out@ == lowercase(s@),
{
    s.to_lowercase()
}

/// The text of a byte string, with a replacement character for each malformed
/// part.
pub uninterp spec fn utf8_lossy(bytes: Seq<u8>) -> Seq<char>;

/// Calls `String::from_utf8_lossy`. The result is a function of the bytes
/// alone, and well-formed UTF-8 is decoded as it stands; how malformed parts
/// are replaced is not restated here.
#[verifier::external_body]
pub(crate) fn from_utf8_lossy(bytes: &[u8]) -> (out: String)
    ensures
        out@ == utf8_lossy(bytes@),
        valid_utf8(bytes@) ==> out@ == decode_utf8(bytes@),
{
    String::from_utf8_lossy(bytes).into_owned()
}

/// A path in quotes, as the `Debug` form of `std::path::Path` writes it.
pub uninterp spec fn quoted_path(path: Seq<char>) -> Seq<char>;

/// Formats a path with the `Debug` form of `std::path::Path`. The result is a
/// function of the path alone; the escaping rules are not restated here.
#[verifier::external_body]
pub(crate) fn quote_path(path: &str) -> (out: String)
    ensures
        out@ == quoted_path(path@),
{
    format!("{:?}", std::path::Path::new(path))
}

// ---------------------------------------------------------------------------
// Laws
// ---------------------------------------------------------------------------

/// All characters of a text are white space.
pub open spec fn blank(s: Seq<char>) -> bool {
    forall|i: int| 0 <= i < s.len() ==> is_space(#[trigger] s[i])
}

proof fn lemma_trimmed_front(front: Seq<char>, s: Seq<char>)
    requires
        blank(front),
        s.len() == 0 || !is_space(s[0]),
    ensures
        trimmed_front(front + s) == s,
    decreases front.len(),
{
    let all = front + s;
    if front.len() > 0 {
        assert(all[0] == front[0]);
        assert(all.drop_first() =~= front.drop_first() + s);
        assert forall|i: int| 0 <= i < front.drop_first().len() implies is_space(
            #[trigger] front.drop_first()[i],
        ) by {
            assert(front.drop_first()[i] == front[i + 1]);
        }
        lemma_trimmed_front(front.drop_first(), s);
    } else {
        assert(all =~= s);
    }
}

proof fn lemma_trimmed_back(s: Seq<char>, back: Seq<char>)
    requires
        blank(back),
        s.len() == 0 || !is_space(s.last()),
    ensures
        trimmed_back(s + back) == s,
    decreases back.len(),
{
    let all = s + back;
    if back.len() > 0 {
        assert(all.last() == back.last());
        assert(all.drop_last() =~= s + back.drop_last());
        lemma_trimmed_back(s, back.drop_last());
    } else {
        assert(all =~= s);
    }
}

/// Trimming takes white space off both ends and nothing else: whatever blanks
/// stand around a text that has none at its own ends, the text itself is left.
pub proof fn law_trimming_leaves_the_text(front: Seq<char>, s: Seq<char>, back: Seq<char>)
    requires
        blank(front),
        blank(back),
        s.len() > 0,
        !is_space(s[0]),
        !is_space(s.last()),
    ensures
        trimmed(front + s + back) == s,
{
    assert((s + back)[0] == s[0]);
    lemma_trimmed_front(front, s + back);
    assert(front + s + back =~= front + (s + back));
    lemma_trimmed_back(s, back);
}

/// A text of blanks is trimmed to nothing.
pub proof fn law_trimming_blanks_leaves_nothing(s: Seq<char>)
    requires
        blank(s),
    ensures
        trimmed(s) == Seq::<char>::empty(),
{
    lemma_trimmed_front(s, Seq::empty());
    assert(s + Seq::<char>::empty() =~= s);
}

/// Line feeds at the end are cut off, however many, and nothing else.
pub proof fn law_chomping_leaves_the_text(s: Seq<char>, feeds: Seq<char>)
    requires
        s.len() == 0 || s.last() as int != 10,
        forall|i: int| 0 <= i < feeds.len() ==> (#[trigger] feeds[i]) as int == 10,
    ensures
        chomped(s + feeds) == s,
    decreases feeds.len(),
{
    let all = s + feeds;
    if feeds.len() > 0 {
        assert(all.last() == feeds.last());
        assert(feeds.last() as int == 10);
        assert(all.drop_last() =~= s + feeds.drop_last());
        law_chomping_leaves_the_text(s, feeds.drop_last());
    } else {
        assert(all =~= s);
    }
}

/// All characters of a text belong to a class.
pub open spec fn all_in(s: Seq<char>, class: TokenClass) -> bool {
    forall|i: int| 0 <= i < s.len() ==> class.has(#[trigger] s[i])
}

/// An unbroken run of token characters is one token, and an empty text has
/// none.
pub proof fn law_a_run_is_one_token(s: Seq<char>, class: TokenClass)
    requires
        all_in(s, class),
    ensures
        tokens(s, class) == (if s.len() == 0 {
            Seq::<Seq<char>>::empty()
        } else {
            seq![s]
        }),
{
    if s.len() > 0 {
        lemma_token_len_is(s, class, s.len());
        assert(s.take(s.len() as int) =~= s);
        assert(s.skip(s.len() as int) =~= Seq::empty());
        assert(tokens(Seq::<char>::empty(), class) =~= Seq::empty());
        assert(tokens(s, class) =~= seq![s]);
    }
}

proof fn lemma_token_len_bound(s: Seq<char>, class: TokenClass)
    ensures
        token_len(s, class) <= s.len(),
        s.len() > 0 && class.has(s[0]) ==> token_len(s, class) > 0,
    decreases s.len(),
{
    if s.len() > 0 && class.has(s[0]) {
        lemma_token_len_bound(s.drop_first(), class);
    }
}

proof fn lemma_token_len_stops(a: Seq<char>, sep: char, b: Seq<char>, class: TokenClass)
    requires
        !class.has(sep),
    ensures
        token_len(a.push(sep) + b, class) == token_len(a, class),
        token_len(a, class) <= a.len(),
    decreases a.len(),
{
    let all = a.push(sep) + b;
    if a.len() > 0 {
        assert(all[0] == a[0]);
        assert(all.drop_first() =~= a.drop_first().push(sep) + b);
        lemma_token_len_stops(a.drop_first(), sep, b, class);
    } else {
        assert(all[0] == sep);
    }
}

/// A character that belongs to no token splits a text: its tokens are those in
/// front of it, then those behind it.
pub proof fn law_separators_split_tokens(
    a: Seq<char>,
    sep: char,
    b: Seq<char>,
    class: TokenClass,
)
    requires
        !class.has(sep),
    ensures
        tokens(a.push(sep) + b, class) == tokens(a, class) + tokens(b, class),
    decreases a.len(),
{
    let all = a.push(sep) + b;
    if a.len() == 0 {
        assert(all[0] == sep);
        assert(all.drop_first() =~= b);
        assert(tokens(a, class) + tokens(b, class) =~= tokens(b, class));
    } else {
        assert(all[0] == a[0]);
        if !class.has(a[0]) {
            assert(all.drop_first() =~= a.drop_first().push(sep) + b);
            law_separators_split_tokens(a.drop_first(), sep, b, class);
        } else {
            lemma_token_len_stops(a, sep, b, class);
            lemma_token_len_bound(a, class);
            let n = token_len(a, class) as int;
            assert(all.take(n) =~= a.take(n));
            assert(all.skip(n) =~= a.skip(n).push(sep) + b);
            law_separators_split_tokens(a.skip(n), sep, b, class);
            assert(seq![a.take(n)] + (tokens(a.skip(n), class) + tokens(b, class)) =~= (seq![
                a.take(n),
            ] + tokens(a.skip(n), class)) + tokens(b, class));
        }
    }
}

/// A run of token characters in front of a separator is the first token.
pub proof fn law_the_first_run_is_the_first_token(
    run: Seq<char>,
    sep: char,
    rest: Seq<char>,
    class: TokenClass,
)
    requires
        run.len() > 0,
        all_in(run, class),
        !class.has(sep),
    ensures
        tokens(run.push(sep) + rest, class) == seq![run] + tokens(rest, class),
{
    law_a_run_is_one_token(run, class);
    law_separators_split_tokens(run, sep, rest, class);
}

/// A row of digits counts tenfold with each digit that follows.
pub proof fn law_digits_count_tenfold(s: Seq<char>, digit: char)
    ensures
        decimal_value(Seq::<char>::empty()) == 0,
        is_digit(digit) ==> decimal_value(s.push(digit)) == decimal_value(s) * 10 + (digit as int
            - 48),
        is_digit(digit) <==> 48 <= digit as int <= 57,
{
    assert(s.push(digit).drop_last() =~= s);
}

/// A number in decimal is a row of digits that writes that number down, without
/// a zero in front unless it is zero itself.
pub proof fn law_decimal_writes_the_number(n: nat)
    ensures
        decimal(n).len() > 0,
        forall|i: int| 0 <= i < decimal(n).len() ==> 48 <= (#[trigger] decimal(n)[i]) as int <= 57,
        decimal_value(decimal(n)) == n,
        decimal(n)[0] as int == 48 ==> n == 0 && decimal(n).len() == 1,
    decreases n,
{
    if n < 10 {
        assert(decimal(n).drop_last() =~= Seq::empty());
        reveal_with_fuel(decimal_value, 2);
    } else {
        law_decimal_writes_the_number(n / 10);
        let front = decimal(n / 10);
        let all = decimal(n);
        assert(all.drop_last() =~= front);
        assert(all[0] == front[0]);
        assert forall|i: int| 0 <= i < all.len() implies 48 <= (#[trigger] all[i]) as int <= 57 by {
            if i < front.len() {
                assert(all[i] == front[i]);
            }
        }
    }
}

/// A number that was written in decimal is read back, as far as it fits, with
/// and without a plus sign in front.
pub proof fn law_written_numbers_are_read_back(n: nat)
    ensures
        n <= u32::MAX ==> u32_of(decimal(n)) == Some(n as u32),
        n > u32::MAX ==> u32_of(decimal(n)) is None,
        u32_of(seq!['+'] + decimal(n)) == u32_of(decimal(n)),
{
    law_decimal_writes_the_number(n);
    assert(all_in(decimal(n), TokenClass::Digits));
    law_digit_rows_are_numbers(decimal(n));
}

/// A text with any other character in it, or without a digit, is no number.
pub proof fn law_other_texts_are_no_numbers(s: Seq<char>, i: int)
    requires
        0 <= i < s.len(),
        !(48 <= s[i] as int <= 57),
        i > 0 || s[i] as int != 43,
    ensures
        u32_of(s) is None,
        u32_of(Seq::<char>::empty()) is None,
        u32_of(seq!['+']) is None,
{
    if s[0] == '+' {
        assert(s.drop_first()[i - 1] == s[i]);
    }
    assert(seq!['+'].drop_first() =~= Seq::<char>::empty());
}

/// The number that a row of hexadecimal digits writes down, in either case.
pub open spec fn hex_value(s: Seq<char>) -> int
    decreases s.len(),
{
    if s.len() == 0 {
        0
    } else {
        let c = s.last() as int;
        hex_value(s.drop_last()) * 16 + (if c < 58 {
            c - 48
        } else if c < 71 {
            c - 55
        } else {
            c - 87
        })
    }
}

/// How many numbers so many hexadecimal digits can write down.
pub open spec fn hex_range(width: nat) -> nat
    decreases width,
{
    if width == 0 {
        1
    } else {
        16 * hex_range((width - 1) as nat)
    }
}

/// A number in hexadecimal has the asked width, writes that number down where
/// it fits, and uses letters of one case only.
pub proof fn law_hex_writes_the_number(n: nat, width: nat, upper: bool)
    requires
        n < hex_range(width),
    ensures
        hex(n, width, upper).len() == width,
        hex_value(hex(n, width, upper)) == n,
        forall|i: int|
            0 <= i < width ==> {
                let c = (#[trigger] hex(n, width, upper)[i]) as int;
                48 <= c <= 57 || (upper && 65 <= c <= 70) || (!upper && 97 <= c <= 102)
            },
    decreases width,
{
    if width > 0 {
        let front = hex(n / 16, (width - 1) as nat, upper);
        law_hex_writes_the_number(n / 16, (width - 1) as nat, upper);
        let all = hex(n, width, upper);
        assert(all.drop_last() =~= front);
        assert(all.last() == hex_char(n % 16, upper));
        assert forall|i: int| 0 <= i < width implies {
            let c = (#[trigger] all[i]) as int;
            48 <= c <= 57 || (upper && 65 <= c <= 70) || (!upper && 97 <= c <= 102)
        } by {
            if i < width - 1 {
                assert(all[i] == front[i]);
            }
        }
    }
}

/// A relative path is appended behind one slash, and an absolute one replaces
/// what it is joined to.
pub proof fn law_joined_paths(base: Seq<char>, rest: Seq<char>)
    ensures
        rest.len() > 0 && rest[0] as int == 47 ==> joined(base, rest) == rest,
        rest.len() == 0 || rest[0] as int != 47 ==> {
            let slash = base.len() > 0 && base.last() as int != 47;
            &&& joined(base, rest).len() == base.len() + rest.len() + (if slash {
                1int
            } else {
                0int
            })
            &&& joined(base, rest).take(base.len() as int) == base
            &&& joined(base, rest).skip(joined(base, rest).len() - rest.len()) == rest
            &&& slash ==> joined(base, rest)[base.len() as int] as int == 47
        },
{
    if rest.len() == 0 || rest[0] as int != 47 {
        let out = joined(base, rest);
        assert(out.take(base.len() as int) =~= base);
        assert(out.skip(out.len() - rest.len()) =~= rest);
    }
}

/// A text contains another one exactly where it can be cut into something, that
/// text, and something.
pub proof fn law_containing_is_surrounding(hay: Seq<char>, needle: Seq<char>)
    ensures
        contains_text(hay, needle) <==> exists|front: Seq<char>, back: Seq<char>|
            hay == #[trigger] (front + needle + back),
{
    if contains_text(hay, needle) {
        let at = choose|at: int| occurs_at(hay, needle, at);
        let front = hay.take(at);
        let back = hay.skip(at + needle.len());
        assert(hay =~= front + hay.subrange(at, at + needle.len()) + back);
    }
    if exists|front: Seq<char>, back: Seq<char>| hay == #[trigger] (front + needle + back) {
        let (front, back) = choose|front: Seq<char>, back: Seq<char>|
            hay == #[trigger] (front + needle + back);
        let at = front.len() as int;
        assert(hay.subrange(at, at + needle.len()) =~= needle);
        assert(occurs_at(hay, needle, at));
    }
}

/// A text starts with another one exactly where something follows that one.
pub proof fn law_starting_is_being_followed(s: &str, front: &str, yes: bool)
    requires
        call_ensures(starts_with, (s, front), yes),
    ensures
        yes <==> exists|rest: Seq<char>| s@ == #[trigger] (front@ + rest),
{
    if yes {
        let rest = s@.skip(front@.len() as int);
        assert(s@ =~= s@.subrange(0, front@.len() as int) + rest);
    }
    if exists|rest: Seq<char>| s@ == #[trigger] (front@ + rest) {
        let rest = choose|rest: Seq<char>| s@ == #[trigger] (front@ + rest);
        assert(s@.subrange(0, front@.len() as int) =~= front@);
    }
}

/// The white space of Unicode, by number.
pub proof fn law_white_space(c: char)
    ensures
        is_space(c) <==> {
            let n = c as int;
            ||| 9 <= n <= 13
            ||| n == 32
            ||| n == 133
            ||| n == 160
            ||| n == 5760
            ||| 8192 <= n <= 8202
            ||| n == 8232
            ||| n == 8233
            ||| n == 8239
            ||| n == 8287
            ||| n == 12288
        },
        TokenClass::Words.has(c) <==> !is_space(c),
        TokenClass::Digits.has(c) <==> 48 <= c as int <= 57,
{
}

/// What stands in front of the first token does not matter.
pub proof fn law_tokens_begin_behind_the_front(
    front: Seq<char>,
    rest: Seq<char>,
    class: TokenClass,
)
    requires
        forall|i: int| 0 <= i < front.len() ==> !class.has(#[trigger] front[i]),
    ensures
        tokens(front + rest, class) == tokens(rest, class),
    decreases front.len(),
{
    if front.len() > 0 {
        assert((front + rest)[0] == front[0]);
        assert((front + rest).drop_first() =~= front.drop_first() + rest);
        assert forall|i: int| 0 <= i < front.drop_first().len() implies !class.has(
            #[trigger] front.drop_first()[i],
        ) by {
            assert(front.drop_first()[i] == front[i + 1]);
        }
        law_tokens_begin_behind_the_front(front.drop_first(), rest, class);
    } else {
        assert(front + rest =~= rest);
    }
}

/// A run that ends at the end of a text or in front of a separator is the first
/// token; the tokens of the rest follow.
pub proof fn law_the_front_run_is_the_first_token(
    run: Seq<char>,
    tail: Seq<char>,
    class: TokenClass,
)
    requires
        run.len() > 0,
        all_in(run, class),
        tail.len() > 0 ==> !class.has(tail[0]),
    ensures
        tokens(run + tail, class) == seq![run] + tokens(tail, class),
{
    if tail.len() == 0 {
        law_a_run_is_one_token(run, class);
        assert(run + tail =~= run);
        assert(tokens(tail, class) =~= Seq::empty());
        assert(seq![run] + tokens(tail, class) =~= seq![run]);
    } else {
        law_the_first_run_is_the_first_token(run, tail[0], tail.drop_first(), class);
        assert(run.push(tail[0]) + tail.drop_first() =~= run + tail);
        assert(tokens(tail, class) == tokens(tail.drop_first(), class));
    }
}

/// A word stands alone at a position of a text: at both of its ends there is
/// white space or the end of the text.
pub open spec fn stands_alone(s: Seq<char>, word: Seq<char>, at: int) -> bool {
    &&& occurs_at(s, word, at)
    &&& at > 0 ==> is_space(s[at - 1])
    &&& at + word.len() < s.len() ==> is_space(s[(at + word.len()) as int])
}

proof fn lemma_token_stands_alone(s: Seq<char>, word: Seq<char>) -> (at: int)
    requires
        word.len() > 0,
        !is_space(word[0]),
        tokens(s, TokenClass::Words).contains(word),
    ensures
        stands_alone(s, word, at),
    decreases s.len(),
{
    let class = TokenClass::Words;
    let t = tokens(s, class);
    if s.len() == 0 {
        assert(t.len() == 0);
        0
    } else if !class.has(s[0]) {
        let rest = s.drop_first();
        let at = lemma_token_stands_alone(rest, word);
        assert(s.subrange(at + 1, at + 1 + word.len()) =~= rest.subrange(at, at + word.len()));
        if at > 0 {
            assert(rest[at - 1] == s[at]);
        }
        at + 1
    } else {
        lemma_token_len_bound(s, class);
        let n = token_len(s, class) as int;
        let rest = s.skip(n);
        law_runs_are_of_one_class(s, class);
        let k = choose|k: int| 0 <= k < t.len() && t[k] == word;
        if k == 0 {
            assert(t[0] == s.take(n));
            assert(s.subrange(0, n) =~= s.take(n));
            0
        } else {
            assert(tokens(rest, class)[k - 1] == word);
            let at = lemma_token_stands_alone(rest, word);
            assert(rest.subrange(at, at + word.len()) =~= s.subrange(
                at + n,
                at + n + word.len(),
            ));
            assert(rest.subrange(at, at + word.len())[0] == s[at + n]);
            if at > 0 {
                assert(rest[at - 1] == s[at + n - 1]);
            }
            at + n
        }
    }
}

/// The words of a text are those that stand alone in it.
pub proof fn law_words_stand_alone(s: Seq<char>, word: Seq<char>)
    requires
        word.len() > 0,
        forall|i: int| 0 <= i < word.len() ==> !is_space(#[trigger] word[i]),
    ensures
        tokens(s, TokenClass::Words).contains(word) <==> exists|at: int| #[trigger]
            stands_alone(s, word, at),
{
    let class = TokenClass::Words;
    if tokens(s, class).contains(word) {
        let at = lemma_token_stands_alone(s, word);
        assert(stands_alone(s, word, at));
    }
    if exists|at: int| #[trigger] stands_alone(s, word, at) {
        let at = choose|at: int| #[trigger] stands_alone(s, word, at);
        let tail = s.skip((at + word.len()) as int);
        assert(all_in(word, class));
        law_the_front_run_is_the_first_token(word, tail, class);
        let inner = word + tail;
        assert(tokens(inner, class)[0] == word);
        if at == 0 {
            assert(inner =~= s);
        } else {
            let front = s.take(at - 1);
            law_separators_split_tokens(front, s[at - 1], inner, class);
            assert(front.push(s[at - 1]) + inner =~= s);
            assert(tokens(s, class)[tokens(front, class).len() as int] == word);
        }
    }
}

/// A row of digits is the number that it writes down, as far as it fits, zeros
/// in front or not, with and without a plus sign.
pub proof fn law_digit_rows_are_numbers(row: Seq<char>)
    requires
        row.len() > 0,
        all_in(row, TokenClass::Digits),
    ensures
        decimal_value(row) <= u32::MAX ==> u32_of(row) == Some(decimal_value(row) as u32),
        decimal_value(row) > u32::MAX ==> u32_of(row) is None,
        u32_of(seq!['+'] + row) == u32_of(row),
{
    assert forall|i: int| 0 <= i < row.len() implies is_digit(#[trigger] row[i]) by {
        assert(TokenClass::Digits.has(row[i]));
    }
    let signed = seq!['+'] + row;
    assert(signed.drop_first() =~= row);
    assert(signed[0] == '+');
    assert(is_digit(row[0]));
}

/// A row of digits is found at its place, and it ends where its digits end.
pub proof fn law_digit_rows_are_found(front: Seq<char>, row: Seq<char>, tail: Seq<char>)
    requires
        row.len() > 0,
        all_in(row, TokenClass::Digits),
        tail.len() > 0 ==> !is_digit(tail[0]),
    ensures
        ({
            let s = front + row + tail;
            let at = front.len() as int;
            &&& is_digit(s[at])
            &&& run_end(s, at) == at + row.len()
            &&& number_from(s, at) == decimal_value(row)
        }),
{
    let s = front + row + tail;
    let at = front.len() as int;
    let rest = s.skip(at);
    assert(rest =~= row + tail);
    assert forall|i: int| 0 <= i < row.len() implies TokenClass::Digits.has(
        #[trigger] rest[i],
    ) by {
        assert(rest[i] == row[i]);
    }
    lemma_token_len_is(rest, TokenClass::Digits, row.len());
    assert(s.subrange(at, run_end(s, at)) =~= row);
    assert(s[at] == row[0]);
    assert(TokenClass::Digits.has(row[0]));
}

/// The run at the front of a text has characters of its class only, and ends
/// where one of another class follows.
pub proof fn law_runs_are_of_one_class(s: Seq<char>, class: TokenClass)
    ensures
        token_len(s, class) <= s.len(),
        forall|i: int| 0 <= i < token_len(s, class) ==> class.has(#[trigger] s[i]),
        token_len(s, class) < s.len() ==> !class.has(s[token_len(s, class) as int]),
    decreases s.len(),
{
    if s.len() > 0 && class.has(s[0]) {
        let rest = s.drop_first();
        law_runs_are_of_one_class(rest, class);
        assert forall|i: int| 0 <= i < token_len(s, class) implies class.has(#[trigger] s[i]) by {
            if i > 0 {
                assert(rest[i - 1] == s[i]);
            }
        }
    }
}

/// Two texts are the same exactly when they have equally many characters and
/// the same one at each position.
pub proof fn law_same_texts_have_the_same_characters(a: &str, b: &str, same: bool)
    requires
        call_ensures(same_text, (a, b), same),
    ensures
        same <==> a@.len() == b@.len() && forall|i: int|
            0 <= i < a@.len() ==> #[trigger] a@[i] == b@[i],
{
    if a@.len() == b@.len() && forall|i: int| 0 <= i < a@.len() ==> #[trigger] a@[i] == b@[i] {
        assert(a@ =~= b@);
    }
}

/// A text is found in another one exactly where that can be cut into something,
/// that text, and something.
pub proof fn law_searching_finds_parts(hay: &str, needle: &str, yes: bool)
    requires
        call_ensures(contains, (hay, needle), yes),
    ensures
        yes <==> exists|front: Seq<char>, back: Seq<char>|
            hay@ == #[trigger] (front + needle@ + back),
{
    law_containing_is_surrounding(hay@, needle@);
}

/// Trimming gives back what stands between the blanks.
pub proof fn law_trim_takes_blanks_off(
    front: Seq<char>,
    inner: Seq<char>,
    back: Seq<char>,
    s: &str,
    out: &str,
)
    requires
        call_ensures(trim, (s,), out),
        s@ == front + inner + back,
        blank(front),
        blank(back),
        inner.len() > 0 ==> !is_space(inner[0]) && !is_space(inner.last()),
    ensures
        out@ == inner,
{
    if inner.len() > 0 {
        law_trimming_leaves_the_text(front, inner, back);
    } else {
        assert forall|i: int| 0 <= i < s@.len() implies is_space(#[trigger] s@[i]) by {
            if i < front.len() {
                assert(s@[i] == front[i]);
            } else {
                assert(s@[i] == back[i - front.len()]);
            }
        }
        law_trimming_blanks_leaves_nothing(s@);
        assert(inner =~= Seq::empty());
    }
}

/// Chomping gives back what stands in front of the last line feeds.
pub proof fn law_chomp_takes_line_feeds_off(
    inner: Seq<char>,
    feeds: Seq<char>,
    s: &str,
    out: &str,
)
    requires
        call_ensures(chomp, (s,), out),
        s@ == inner + feeds,
        inner.len() == 0 || inner.last() as int != 10,
        forall|i: int| 0 <= i < feeds.len() ==> (#[trigger] feeds[i]) as int == 10,
    ensures
        out@ == inner,
{
    law_chomping_leaves_the_text(inner, feeds);
}

/// Numbers are written with their digits and read back from them.
pub proof fn law_numbers_are_written_and_read(
    n: u64,
    written: String,
    s: &str,
    out: Option<u32>,
)
    requires
        call_ensures(decimal_text, (n,), written),
        call_ensures(parse_u32, (s,), out),
        s@ == written@,
    ensures
        decimal_value(written@) == n,
        n <= 4_294_967_295 ==> out == Some(n as u32),
        n > 4_294_967_295 ==> out is None,
{
    law_decimal_writes_the_number(n as nat);
    law_written_numbers_are_read_back(n as nat);
}

/// A number in hexadecimal is written with as many digits as were asked for.
pub proof fn law_hex_text_writes_the_number(n: u64, width: usize, upper: bool, out: String)
    requires
        call_ensures(hex_text, (n, width, upper), out),
        n < hex_range(width as nat),
    ensures
        out@.len() == width,
        hex_value(out@) == n,
{
    law_hex_writes_the_number(n as nat, width as nat, upper);
}

/// A relative path goes behind the other one and a slash, and an absolute path
/// stands for itself.
pub proof fn law_paths_are_joined_by_a_slash(base: &str, rest: &str, out: String)
    requires
        call_ensures(join_path, (base, rest), out),
    ensures
        rest@.len() > 0 && rest@[0] == '/' ==> out@ == rest@,
        (rest@.len() == 0 || rest@[0] != '/') && base@.len() > 0 && base@.last() != '/' ==> out@
            == base@ + seq!['/'] + rest@,
        (rest@.len() == 0 || rest@[0] != '/') && (base@.len() == 0 || base@.last() == '/') ==> out@
            == base@ + rest@,
{
    assert(base@.push('/') =~= base@ + seq!['/']);
}

} // verus!
