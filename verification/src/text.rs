//! Text helpers shared by the other modules: joining, comparing and
//! splitting strings, and writing and reading integers in decimal.

use vstd::prelude::*;
use vstd::string::StringExecFns;

verus! {

/// The character that writes the decimal digit `d`.
pub open spec fn digit_char(d: nat) -> char {
    if d == 0 {
        '0'
    } else if d == 1 {
        '1'
    } else if d == 2 {
        '2'
    } else if d == 3 {
        '3'
    } else if d == 4 {
        '4'
    } else if d == 5 {
        '5'
    } else if d == 6 {
        '6'
    } else if d == 7 {
        '7'
    } else if d == 8 {
        '8'
    } else {
        '9'
    }
}

/// The decimal digits of `n`, most significant first, without leading zeros.
pub open spec fn decimal_digits(n: nat) -> Seq<char>
    decreases n,
{
    if n < 10 {
        seq![digit_char(n)]
    } else {
        decimal_digits(n / 10).push(digit_char(n % 10))
    }
}

/// The decimal text of `n`: a minus sign, where `n` is negative, and the
/// digits of its magnitude.
pub open spec fn decimal_text(n: int) -> Seq<char> {
    if n < 0 {
        seq!['-'] + decimal_digits((-n) as nat)
    } else {
        decimal_digits(n as nat)
    }
}

fn digit_str(d: u64) -> (s: &'static str)
    requires
        d < 10,
    ensures
        s@ == seq![digit_char(d as nat)],
{
    proof {
        reveal_strlit("0");
        reveal_strlit("1");
        reveal_strlit("2");
        reveal_strlit("3");
        reveal_strlit("4");
        reveal_strlit("5");
        reveal_strlit("6");
        reveal_strlit("7");
        reveal_strlit("8");
        reveal_strlit("9");
    }
    let s = if d == 0 {
        "0"
    } else if d == 1 {
        "1"
    } else if d == 2 {
        "2"
    } else if d == 3 {
        "3"
    } else if d == 4 {
        "4"
    } else if d == 5 {
        "5"
    } else if d == 6 {
        "6"
    } else if d == 7 {
        "7"
    } else if d == 8 {
        "8"
    } else {
        "9"
    };
    assert(s@ =~= seq![digit_char(d as nat)]);
    s
}

/// Appends the decimal digits of `n` to `out`.
pub fn push_decimal(out: &mut String, n: u64)
    ensures
        final(out)@ == old(out)@ + decimal_digits(n as nat),
    decreases n,
{
    if n >= 10 {
        push_decimal(out, n / 10);
    }
    out.append(digit_str(n % 10));
    assert(final(out)@ =~= old(out)@ + decimal_digits(n as nat));
}

/// Appends the decimal text of `n` to `out`.
pub fn push_signed_decimal(out: &mut String, n: i64)
    ensures
        final(out)@ == old(out)@ + decimal_text(n as int),
{
    if n < 0 {
        proof {
            reveal_strlit("-");
        }
        out.append("-");
        let magnitude: u64 = if n == i64::MIN {
            9223372036854775808u64
        } else {
            (-n) as u64
        };
        push_decimal(out, magnitude);
        assert(final(out)@ =~= old(out)@ + decimal_text(n as int));
    } else {
        push_decimal(out, n as u64);
    }
}

/// The decimal text of `n`.
pub fn to_decimal(n: u64) -> (text: String)
    ensures
        text@ == decimal_digits(n as nat),
{
    let mut text = String::new();
    push_decimal(&mut text, n);
    assert(text@ =~= decimal_digits(n as nat));
    text
}

/// The text of an optional string.
pub open spec fn text_of(value: Option<String>) -> Option<Seq<char>> {
    match value {
        Some(text) => Some(text@),
        None => None,
    }
}

/// A copy of an optional string.
pub fn clone_text(value: &Option<String>) -> (copy: Option<String>)
    ensures
        text_of(copy) == text_of(*value),
{
    match value {
        Some(text) => Some(text.clone()),
        None => None,
    }
}

/// The texts of a list of strings.
pub open spec fn views(strings: Seq<String>) -> Seq<Seq<char>> {
    strings.map_values(|s: String| s@)
}

/// Appends a copy of `text` to `list`.
pub fn push_text(list: &mut Vec<String>, text: &str)
    ensures
        views(final(list)@) == views(old(list)@).push(text@),
{
    list.push(String::from_str(text));
    assert(views(list@) =~= views(old(list)@).push(text@));
}

/// `prefix` followed by `rest`.
pub fn joined(prefix: &str, rest: &str) -> (text: String)
    ensures
        text@ == prefix@ + rest@,
{
    let mut text = String::from_str(prefix);
    text.append(rest);
    text
}

/// The characters of `text`.
pub fn chars_of(text: &str) -> (chars: Vec<char>)
    ensures
        chars@ == text@,
{
    let mut chars: Vec<char> = Vec::new();
    for c in it: text.chars()
        invariant
            it.seq() == text@,
            chars@ == text@.take(it.index() as int),
    {
        chars.push(c);
    }
    assert(chars@ =~= text@);
    chars
}

/// Whether two strings hold the same text.
pub fn same_text(left: &str, right: &str) -> (same: bool)
    ensures
        same == (left@ == right@),
{
    let left = String::from_str(left);
    let right = String::from_str(right);
    left == right
}

/// Whether `text` begins with `prefix`.
pub fn starts_with(text: &str, prefix: &str) -> (yes: bool)
    ensures
        yes == prefix@.is_prefix_of(text@),
{
    let whole = chars_of(text);
    let head = chars_of(prefix);
    if head.len() > whole.len() {
        return false;
    }
    let mut i: usize = 0;
    while i < head.len()
        invariant
            whole@ == text@,
            head@ == prefix@,
            i <= head.len() <= whole.len(),
            forall|j: int| 0 <= j < i ==> whole@[j] == head@[j],
        decreases head.len() - i,
    {
        if whole[i] != head[i] {
            assert(whole@.subrange(0, head@.len() as int)[i as int] != head@[i as int]);
            return false;
        }
        i += 1;
    }
    assert(head@ =~= whole@.subrange(0, head@.len() as int));
    true
}

/// Whether `text` ends with `suffix`.
pub fn ends_with(text: &str, suffix: &str) -> (yes: bool)
    ensures
        yes == suffix@.is_suffix_of(text@),
{
    let whole = chars_of(text);
    let tail = chars_of(suffix);
    if tail.len() > whole.len() {
        return false;
    }
    let offset: usize = whole.len() - tail.len();
    let mut i: usize = 0;
    while i < tail.len()
        invariant
            whole@ == text@,
            tail@ == suffix@,
            i <= tail.len() <= whole.len(),
            offset == whole.len() - tail.len(),
            forall|j: int| 0 <= j < i ==> whole@[offset + j] == tail@[j],
        decreases tail.len() - i,
    {
        if whole[offset + i] != tail[i] {
            assert(whole@.subrange(offset as int, whole@.len() as int)[i as int] != tail@[i as int]);
            return false;
        }
        i += 1;
    }
    assert(tail@ =~= whole@.subrange(offset as int, whole@.len() as int));
    true
}

/// The pieces of `text` between the occurrences of `separator`, in order.
/// There is always at least one piece; pieces may be empty.
pub open spec fn split(text: Seq<char>, separator: char) -> Seq<Seq<char>>
    decreases text.len(),
{
    if text.len() == 0 {
        seq![Seq::empty()]
    } else {
        let before = split(text.drop_last(), separator);
        if text.last() == separator {
            before.push(Seq::empty())
        } else {
            before.drop_last().push(before.last().push(text.last()))
        }
    }
}

/// A split always yields a piece.
pub proof fn lemma_split_is_not_empty(text: Seq<char>, separator: char)
    ensures
        split(text, separator).len() >= 1,
    decreases text.len(),
{
    if text.len() > 0 {
        lemma_split_is_not_empty(text.drop_last(), separator);
    }
}

/// Splits `text` at each occurrence of `separator`.
pub fn split_chars(text: &Vec<char>, separator: char) -> (pieces: Vec<Vec<char>>)
    ensures
        pieces@.map_values(|piece: Vec<char>| piece@) == split(text@, separator),
        pieces@.len() >= 1,
{
    let mut pieces: Vec<Vec<char>> = Vec::new();
    let mut current: Vec<char> = Vec::new();
    let mut i: usize = 0;
    while i < text.len()
        invariant
            i <= text.len(),
            pieces@.map_values(|piece: Vec<char>| piece@).push(current@) == split(
                text@.take(i as int),
                separator,
            ),
        decreases text.len() - i,
    {
        let ghost before = pieces@.map_values(|piece: Vec<char>| piece@).push(current@);
        let c = text[i];
        proof {
            assert(text@.take(i + 1).drop_last() =~= text@.take(i as int));
            assert(text@.take(i + 1).last() == c);
        }
        if c == separator {
            pieces.push(current);
            current = Vec::new();
            assert(pieces@.map_values(|piece: Vec<char>| piece@) =~= before);
        } else {
            current.push(c);
            assert(pieces@.map_values(|piece: Vec<char>| piece@).push(current@)
                =~= before.drop_last().push(before.last().push(c)));
        }
        i += 1;
    }
    assert(text@.take(text@.len() as int) =~= text@);
    pieces.push(current);
    assert(pieces@.map_values(|piece: Vec<char>| piece@) =~= split(text@, separator));
    pieces
}

/// Whether `c` is a decimal digit.
pub open spec fn is_digit(c: char) -> bool {
    '0' <= c <= '9'
}

/// The number that the digits `digits` write in decimal.
pub open spec fn digits_value(digits: Seq<char>) -> nat
    decreases digits.len(),
{
    if digits.len() == 0 {
        0
    } else {
        digits_value(digits.drop_last()) * 10 + (digits.last() as nat - '0' as nat) as nat
    }
}

/// Whether every character of `text` is a decimal digit.
pub open spec fn all_digits(text: Seq<char>) -> bool {
    forall|i: int| 0 <= i < text.len() ==> is_digit(#[trigger] text[i])
}

/// `text` without the plus sign that it may begin with.
pub open spec fn without_plus(text: Seq<char>) -> Seq<char> {
    if text.len() > 0 && text[0] == '+' {
        text.drop_first()
    } else {
        text
    }
}

/// The number that `text` writes, unless it is above `max`: a plus sign may
/// come first, then at least one decimal digit and nothing else.
pub open spec fn parsed_unsigned(text: Seq<char>, max: nat) -> Option<nat> {
    let digits = without_plus(text);
    if digits.len() > 0 && all_digits(digits) && digits_value(digits) <= max {
        Some(digits_value(digits))
    } else {
        None
    }
}

/// What is written in decimal is read back as the same number.
pub proof fn lemma_decimal_round_trip(n: nat, max: nat)
    ensures
        decimal_digits(n).len() >= 1,
        all_digits(decimal_digits(n)),
        digits_value(decimal_digits(n)) == n,
        n <= max ==> parsed_unsigned(decimal_digits(n), max) == Some(n),
        n > max ==> parsed_unsigned(decimal_digits(n), max) is None,
    decreases n,
{
    let digits = decimal_digits(n);
    let last = n % 10;
    assert(digit_char(last) as nat - '0' as nat == last && is_digit(digit_char(last))) by {
        assert('0' as nat == 48 && '1' as nat == 49 && '2' as nat == 50 && '3' as nat == 51);
        assert('4' as nat == 52 && '5' as nat == 53 && '6' as nat == 54 && '7' as nat == 55);
        assert('8' as nat == 56 && '9' as nat == 57);
    }
    if n >= 10 {
        lemma_decimal_round_trip(n / 10, max);
        let before = decimal_digits(n / 10);
        assert(digits.drop_last() =~= before);
        assert(digits.last() == digit_char(n % 10));
        assert(digits_value(digits) == digits_value(before) * 10 + last);
        assert forall|i: int| 0 <= i < digits.len() implies is_digit(#[trigger] digits[i]) by {
            if i < before.len() {
                assert(digits[i] == before[i]);
            }
        }
        assert(digits[0] == before[0]);
    } else {
        assert(digits.drop_last() =~= Seq::<char>::empty());
        assert(digits.last() == digit_char(last));
        assert(digits_value(digits.drop_last()) == 0);
        assert(digits_value(digits) == last);
    }
    assert(is_digit(digits[0]));
    assert(without_plus(digits) == digits);
}

proof fn lemma_digits_value_grows(digits: Seq<char>, shorter: int, longer: int)
    requires
        0 <= shorter <= longer <= digits.len(),
    ensures
        digits_value(digits.take(shorter)) <= digits_value(digits.take(longer)),
    decreases longer - shorter,
{
    if shorter < longer {
        lemma_digits_value_grows(digits, shorter, longer - 1);
        assert(digits.take(longer).drop_last() =~= digits.take(longer - 1));
    }
}

/// Reads the characters as an unsigned decimal number not above `max`.
pub fn parse_unsigned_chars(text: &Vec<char>, max: u64) -> (number: Option<u64>)
    ensures
        match number {
            Some(value) => parsed_unsigned(text@, max as nat) == Some(value as nat),
            None => parsed_unsigned(text@, max as nat) is None,
        },
{
    let start: usize = if text.len() > 0 && text[0] == '+' {
        1
    } else {
        0
    };
    let ghost digits = without_plus(text@);
    if text.len() == start {
        return None;
    }
    let mut value: u64 = 0;
    let mut i: usize = start;
    while i < text.len()
        invariant
            start <= i <= text.len(),
            digits == without_plus(text@),
            digits.len() == text.len() - start,
            forall|j: int| 0 <= j < digits.len() ==> #[trigger] digits[j] == text@[start + j],
            forall|j: int| 0 <= j < i - start ==> is_digit(#[trigger] digits[j]),
            value == digits_value(digits.take(i - start)),
            value <= max,
        decreases text.len() - i,
    {
        let c = text[i];
        if !(c >= '0' && c <= '9') {
            assert(!is_digit(digits[i - start]));
            return None;
        }
        let digit: u64 = (c as u32 - '0' as u32) as u64;
        proof {
            assert(digits.take(i - start + 1).drop_last() =~= digits.take(i - start));
            assert(digits.take(i - start + 1).last() == c);
            lemma_digits_value_grows(digits, i - start + 1, digits.len() as int);
            assert(digits.take(digits.len() as int) =~= digits);
        }
        if max < digit || value > (max - digit) / 10 {
            assert(digits_value(digits.take(i - start + 1)) > max);
            return None;
        }
        value = value * 10 + digit;
        i += 1;
    }
    assert(digits.take(digits.len() as int) =~= digits);
    Some(value)
}

/// Reads `text` as an unsigned decimal number not above `max`.
pub fn parse_unsigned(text: &str, max: u64) -> (number: Option<u64>)
    ensures
        match number {
            Some(value) => parsed_unsigned(text@, max as nat) == Some(value as nat),
            None => parsed_unsigned(text@, max as nat) is None,
        },
{
    let chars = chars_of(text);
    parse_unsigned_chars(&chars, max)
}

} // verus!
