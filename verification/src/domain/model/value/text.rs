//! Text primitives shared by the value objects: trimming, and the decimal
//! notation of unsigned numbers.

use vstd::prelude::*;
use vstd::std_specs::iter::IteratorSpec;

verus! {

/// The characters with the Unicode property `White_Space`.
pub open spec fn is_whitespace(c: char) -> bool {
    ||| '\u{9}' <= c <= '\u{D}'
    ||| c == '\u{20}'
    ||| c == '\u{85}'
    ||| c == '\u{A0}'
    ||| c == '\u{1680}'
    ||| '\u{2000}' <= c <= '\u{200A}'
    ||| c == '\u{2028}'
    ||| c == '\u{2029}'
    ||| c == '\u{202F}'
    ||| c == '\u{205F}'
    ||| c == '\u{3000}'
}

/// `s` without its leading whitespace.
pub open spec fn trimmed_start(s: Seq<char>) -> Seq<char>
    decreases s.len(),
{
    if s.len() > 0 && is_whitespace(s.first()) {
        trimmed_start(s.drop_first())
    } else {
        s
    }
}

/// `s` without its trailing whitespace.
pub open spec fn trimmed_end(s: Seq<char>) -> Seq<char>
    decreases s.len(),
{
    if s.len() > 0 && is_whitespace(s.last()) {
        trimmed_end(s.drop_last())
    } else {
        s
    }
}

/// `s` without leading and trailing whitespace.
pub open spec fn trimmed(s: Seq<char>) -> Seq<char> {
    trimmed_end(trimmed_start(s))
}

/// Whether the character has the Unicode property `White_Space`.
pub fn is_whitespace_char(c: char) -> (r: bool)
    ensures
        r == is_whitespace(c),
{
    ('\u{9}' <= c && c <= '\u{D}') || c == '\u{20}' || c == '\u{85}' || c == '\u{A0}' || c
        == '\u{1680}' || ('\u{2000}' <= c && c <= '\u{200A}') || c == '\u{2028}' || c
        == '\u{2029}' || c == '\u{202F}' || c == '\u{205F}' || c == '\u{3000}'
}

/// Trimming at the start leaves what follows the leading whitespace.
proof fn lemma_trimmed_start_is_rest(s: Seq<char>, first: int)
    requires
        0 <= first <= s.len(),
        forall|i: int| 0 <= i < first ==> is_whitespace(#[trigger] s[i]),
        first < s.len() ==> !is_whitespace(s[first]),
    ensures
        trimmed_start(s) == s.subrange(first, s.len() as int),
    decreases first,
{
    if first == 0 {
        assert(s.subrange(0, s.len() as int) =~= s);
    } else {
        let rest = s.drop_first();
        assert forall|i: int| 0 <= i < first - 1 implies is_whitespace(#[trigger] rest[i]) by {
            assert(rest[i] == s[i + 1]);
        }
        lemma_trimmed_start_is_rest(rest, first - 1);
        assert(rest.subrange(first - 1, rest.len() as int) =~= s.subrange(first, s.len() as int));
    }
}

/// Trimming at the end leaves what precedes the trailing whitespace.
proof fn lemma_trimmed_end_is_beginning(s: Seq<char>, end: int)
    requires
        0 <= end <= s.len(),
        forall|i: int| end <= i < s.len() ==> is_whitespace(#[trigger] s[i]),
        0 < end ==> !is_whitespace(s[end - 1]),
    ensures
        trimmed_end(s) == s.subrange(0, end),
    decreases s.len() - end,
{
    if end == s.len() {
        assert(s.subrange(0, end) =~= s);
    } else {
        let rest = s.drop_last();
        lemma_trimmed_end_is_beginning(rest, end);
        assert(rest.subrange(0, end) =~= s.subrange(0, end));
    }
}

/// `s` without leading and trailing whitespace, whitespace being the
/// characters of the Unicode property `White_Space`.
pub fn trim<'a>(s: &'a str) -> (r: &'a str)
    ensures
        r@ == trimmed(s@),
{
    let length = s.unicode_len();
    let mut chars = s.chars();
    let mut index: usize = 0;
    let mut first: usize = length;
    let mut end: usize = 0;
    assert(s@.skip(0) =~= s@);
    while index < length
        invariant
            index <= length,
            length == s@.len(),
            chars.remaining() == s@.skip(index as int),
            first == length || first < index,
            first == length ==> end == 0,
            first < length ==> first < end <= index,
            forall|i: int| 0 <= i < index && i < first ==> is_whitespace(#[trigger] s@[i]),
            first < length ==> !is_whitespace(s@[first as int]),
            first < length ==> !is_whitespace(s@[end - 1]),
            forall|i: int| end <= i < index ==> is_whitespace(#[trigger] s@[i]),
        decreases length - index,
    {
        let ghost rest = chars.remaining();
        let next = chars.next();
        assert(rest.len() > 0);
        assert(rest[0] == s@[index as int]);
        assert(rest.drop_first() =~= s@.skip(index + 1));
        match next {
            Some(c) => {
                if !is_whitespace_char(c) {
                    if first == length {
                        first = index;
                    }
                    end = index + 1;
                }
            },
            None => {},
        }
        index = index + 1;
    }
    if first == length {
        end = length;
    }
    proof {
        let rest = s@.subrange(first as int, length as int);
        lemma_trimmed_start_is_rest(s@, first as int);
        assert forall|i: int| end - first <= i < rest.len() implies is_whitespace(
            #[trigger] rest[i],
        ) by {
            assert(rest[i] == s@[i + first]);
        }
        if first < length {
            assert(rest[end - first - 1] == s@[end - 1]);
        }
        lemma_trimmed_end_is_beginning(rest, end - first);
        assert(rest.subrange(0, end - first) =~= s@.subrange(first as int, end as int));
    }
    s.substring_char(first, end)
}

/// The value of an ASCII digit, or `None` for any other character.
pub open spec fn digit_value(c: char) -> Option<nat> {
    if '0' <= c <= '9' {
        Some((c as u32 - '0' as u32) as nat)
    } else {
        None
    }
}

/// Every character of `s` is an ASCII digit.
pub open spec fn is_digits(s: Seq<char>) -> bool {
    forall|i: int| 0 <= i < s.len() ==> (#[trigger] digit_value(s[i])) is Some
}

/// The number that a run of ASCII digits denotes in base ten.
pub open spec fn digits_value(s: Seq<char>) -> nat
    decreases s.len(),
{
    if s.len() == 0 {
        0
    } else {
        digits_value(s.drop_last()) * 10 + digit_value(s.last()).unwrap_or(0)
    }
}

/// What parsing `s` as a `usize` gives: an optional `+`, then one or more
/// ASCII digits whose value fits the type.
pub open spec fn parsed_usize(s: Seq<char>) -> Option<usize> {
    let digits = if s.len() > 0 && s.first() == '+' {
        s.drop_first()
    } else {
        s
    };
    if digits.len() > 0 && is_digits(digits) && digits_value(digits) <= usize::MAX {
        Some(digits_value(digits) as usize)
    } else {
        None
    }
}

/// The value of a run of digits is at least the value of each of its
/// beginnings.
proof fn lemma_digits_value_grows(s: Seq<char>, k: int)
    requires
        0 <= k <= s.len(),
    ensures
        digits_value(s.subrange(0, k)) <= digits_value(s),
    decreases s.len() - k,
{
    if k == s.len() {
        assert(s.subrange(0, k) =~= s);
    } else {
        lemma_digits_value_grows(s.drop_last(), k);
        assert(s.drop_last().subrange(0, k) =~= s.subrange(0, k));
    }
}

/// Reads a `usize` in decimal notation: an optional `+`, then one or more
/// ASCII digits whose value fits the type.
pub fn parse_usize(s: &str) -> (r: Option<usize>)
    ensures
        r == parsed_usize(s@),
{
    let ghost digits = if s@.len() > 0 && s@.first() == '+' {
        s@.drop_first()
    } else {
        s@
    };
    if !s.is_ascii() {
        proof {
            if is_digits(digits) {
                let sign: int = if s@.len() > 0 && s@.first() == '+' {
                    1
                } else {
                    0
                };
                assert forall|i: int| 0 <= i < s@.len() implies '\0' <= #[trigger] s@[i]
                    <= '\u{7f}' by {
                    if i >= sign {
                        assert(digits[i - sign] == s@[i]);
                        assert(digit_value(digits[i - sign]) is Some);
                    }
                }
                assert(vstd::utf8::is_ascii_chars(s@));
            }
        }
        return None;
    }
    let length = s.unicode_len();
    let start: usize = if length > 0 && s.get_ascii(0) == 43 {
        1
    } else {
        0
    };
    assert(digits =~= s@.subrange(start as int, length as int));
    if start >= length {
        return None;
    }
    let mut value: usize = 0;
    let mut i: usize = start;
    assert(digits.subrange(0, 0) =~= Seq::<char>::empty());
    while i < length
        invariant
            start <= i <= length,
            length == s@.len(),
            vstd::string::is_ascii(s),
            digits == s@.subrange(start as int, length as int),
            digits == if s@.len() > 0 && s@.first() == '+' {
                s@.drop_first()
            } else {
                s@
            },
            is_digits(digits.subrange(0, i - start)),
            value == digits_value(digits.subrange(0, i - start)),
        decreases length - i,
    {
        let ghost seen = digits.subrange(0, i - start);
        let ghost next = digits.subrange(0, i - start + 1);
        let byte = s.get_ascii(i);
        let ghost c = s@[i as int];
        assert(digits[i - start] == c);
        assert('\0' <= c <= '\u{7f}');
        assert(byte as u32 == c as u32);
        assert(next.drop_last() =~= seen);
        assert(next.last() == c);
        if byte < 48 || byte > 57 {
            assert(digit_value(digits[i - start]) is None);
            return None;
        }
        let digit = (byte - 48) as usize;
        assert(digits_value(next) == value * 10 + digit);
        if value > (usize::MAX - digit) / 10 {
            proof {
                lemma_digits_value_grows(digits, i - start + 1);
            }
            return None;
        }
        value = value * 10 + digit;
        assert forall|j: int| 0 <= j < next.len() implies (#[trigger] digit_value(next[j]))
            is Some by {
            if j < seen.len() {
                assert(seen[j] == next[j]);
            }
        }
        i = i + 1;
    }
    assert(digits.subrange(0, length - start) =~= digits);
    Some(value)
}

/// The ASCII digit for a value below ten.
pub open spec fn digit_char(d: nat) -> char {
    if d == 0 {
        '0'
    } else if d == 1 {
        '1'
    } else if d == 2 {
        '2'
    } else if d == 3 {
        '3'
    } else if d == 4 {
        '4'
    } else if d == 5 {
        '5'
    } else if d == 6 {
        '6'
    } else if d == 7 {
        '7'
    } else if d == 8 {
        '8'
    } else {
        '9'
    }
}

/// `n` in base ten, without sign or leading zeros.
pub open spec fn decimal_text(n: nat) -> Seq<char>
    decreases n,
{
    if n < 10 {
        seq![digit_char(n)]
    } else {
        decimal_text(n / 10).push(digit_char(n % 10))
    }
}

/// The ASCII digit for a value below ten, as a text of one character.
fn digit_text(d: usize) -> (r: &'static str)
    requires
        d < 10,
    ensures
        r@ == seq![digit_char(d as nat)],
{
    proof {
        reveal_strlit("0");
        reveal_strlit("1");
        reveal_strlit("2");
        reveal_strlit("3");
        reveal_strlit("4");
        reveal_strlit("5");
        reveal_strlit("6");
        reveal_strlit("7");
        reveal_strlit("8");
        reveal_strlit("9");
    }
    let r = if d == 0 {
        "0"
    } else if d == 1 {
        "1"
    } else if d == 2 {
        "2"
    } else if d == 3 {
        "3"
    } else if d == 4 {
        "4"
    } else if d == 5 {
        "5"
    } else if d == 6 {
        "6"
    } else if d == 7 {
        "7"
    } else if d == 8 {
        "8"
    } else {
        "9"
    };
    assert(r@ =~= seq![digit_char(d as nat)]);
    r
}

/// `n` in base ten, without sign or leading zeros.
pub fn usize_to_string(n: usize) -> (r: String)
    ensures
        r@ == decimal_text(n as nat),
    decreases n,
{
    if n < 10 {
        digit_text(n).to_string()
    } else {
        let mut text = usize_to_string(n / 10);
        text.append(digit_text(n % 10));
        text
    }
}

/// A name for the upper-case form of a text: every character replaced by
/// its Unicode upper-case mapping.
pub uninterp spec fn upper_case(s: Seq<char>) -> Seq<char>;

/// Trusted: `str::to_uppercase`. The result depends on the text alone.
#[verifier::external_body]
pub(crate) fn to_uppercase(s: &str) -> (r: String)
    ensures
        r@ == upper_case(s@),
{
    s.to_uppercase()
}


/// The length of a text in bytes of UTF-8.
pub open spec fn byte_length(s: Seq<char>) -> nat {
    vstd::utf8::encode_utf8(s).len()
}

/// A text that a bounded text field holds: already trimmed, not empty, and
/// at most `max_length` bytes long.
pub open spec fn accepted_field(s: Seq<char>, max_length: usize) -> bool {
    &&& trimmed(s) == s
    &&& s.len() > 0
    &&& byte_length(s) <= max_length
}

/// The rule of every bounded text field: the trimmed text when it is not
/// empty and fits, `FieldEmpty` when nothing is left after trimming,
/// `FieldMaxLength` with the limit when it is too long.
pub open spec fn checked_field(
    input: Seq<char>,
    field_name: Seq<char>,
    max_length: usize,
) -> Result<Seq<char>, crate::domain::model::error::ClientErrorView> {
    let text = trimmed(input);
    if text.len() == 0 {
        Err(crate::domain::model::error::ClientErrorView::FieldEmpty { field_name })
    } else if byte_length(text) > max_length {
        Err(crate::domain::model::error::ClientErrorView::FieldMaxLength { field_name, max_length })
    } else {
        Ok(text)
    }
}

/// `outcome` is what the rule of the bounded text fields makes of `input`.
pub open spec fn field_outcome(
    input: Seq<char>,
    field_name: Seq<char>,
    max_length: usize,
    outcome: Result<Seq<char>, crate::domain::model::error::ClientErrorView>,
) -> bool {
    outcome == checked_field(input, field_name, max_length)
}

/// Trimming twice is trimming once.
pub proof fn lemma_trimmed_idempotent(s: Seq<char>)
    ensures
        trimmed(trimmed(s)) == trimmed(s),
{
    lemma_trimmed_start_shape(s);
    lemma_trimmed_end_shape(trimmed_start(s));
    let t = trimmed(s);
    if t.len() > 0 {
        lemma_trimmed_end_keeps_first(trimmed_start(s));
    }
}

/// After trimming at the start, the text does not begin with whitespace.
pub proof fn lemma_trimmed_start_shape(s: Seq<char>)
    ensures
        trimmed_start(s).len() > 0 ==> !is_whitespace(trimmed_start(s).first()),
        trimmed_start(s).len() <= s.len(),
    decreases s.len(),
{
    if s.len() > 0 && is_whitespace(s.first()) {
        lemma_trimmed_start_shape(s.drop_first());
    }
}

/// After trimming at the end, the text does not end with whitespace.
pub proof fn lemma_trimmed_end_shape(s: Seq<char>)
    ensures
        trimmed_end(s).len() > 0 ==> !is_whitespace(trimmed_end(s).last()),
        trimmed_end(s).len() <= s.len(),
    decreases s.len(),
{
    if s.len() > 0 && is_whitespace(s.last()) {
        lemma_trimmed_end_shape(s.drop_last());
    }
}

/// Trimming at the end leaves the first character in place.
pub proof fn lemma_trimmed_end_keeps_first(s: Seq<char>)
    ensures
        trimmed_end(s).len() > 0 ==> trimmed_end(s).first() == s.first(),
    decreases s.len(),
{
    if s.len() > 0 && is_whitespace(s.last()) {
        lemma_trimmed_end_keeps_first(s.drop_last());
    }
}

} // verus!
