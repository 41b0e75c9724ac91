//! Text building blocks: decimal numbers, trimming, and lists of bytes.

use vstd::prelude::*;

verus! {

/// The character of a decimal digit.
pub open spec fn digit_char(digit: nat) -> char {
    ((48 + digit) as u8) as char
}

/// The decimal digits of a number, most significant first, with no leading
/// zero but for zero itself.
pub open spec fn decimal_digits(value: nat) -> Seq<char>
    decreases value,
{
    if value < 10 {
        seq![digit_char(value)]
    } else {
        decimal_digits(value / 10).push(digit_char(value % 10))
    }
}

/// The characters of `digits`, read as decimal digits, last one first.
spec fn chars_reversed(digits: Seq<u8>) -> Seq<char>
    decreases digits.len(),
{
    if digits.len() == 0 {
        Seq::empty()
    } else {
        seq![digit_char(digits.last() as nat)] + chars_reversed(digits.drop_last())
    }
}

/// The decimal text of a number.
pub fn decimal_text(value: u64) -> (text: String)
    ensures
        text@ == decimal_digits(value as nat),
{
    // The digits, least significant first.
    let mut digits: Vec<u8> = Vec::new();
    let mut rest: u64 = value;
    digits.push((rest % 10) as u8);
    rest = rest / 10;
    assert(chars_reversed(digits@) =~= seq![digit_char((value % 10) as nat)]) by {
        assert(digits@.drop_last() =~= Seq::<u8>::empty());
        reveal_with_fuel(chars_reversed, 2);
    }
    while rest > 0
        invariant
            digits@.len() > 0,
            forall|k: int| 0 <= k < digits@.len() ==> (#[trigger] digits@[k]) < 10,
            decimal_digits(value as nat) == (if rest > 0 {
                decimal_digits(rest as nat)
            } else {
                Seq::<char>::empty()
            }) + chars_reversed(digits@),
        decreases rest,
    {
        let ghost before = digits@;
        let digit: u8 = (rest % 10) as u8;
        digits.push(digit);
        proof {
            assert(digits@.drop_last() =~= before);
            assert(chars_reversed(digits@) == seq![digit_char(digit as nat)] + chars_reversed(
                before,
            ));
            if rest >= 10 {
                assert(decimal_digits(rest as nat) == decimal_digits((rest / 10) as nat).push(
                    digit_char((rest % 10) as nat),
                ));
                assert(decimal_digits(rest as nat) + chars_reversed(before) =~= decimal_digits(
                    (rest / 10) as nat,
                ) + chars_reversed(digits@));
            } else {
                assert(decimal_digits(rest as nat) + chars_reversed(before) =~= Seq::<
                    char,
                >::empty() + chars_reversed(digits@));
            }
        }
        rest = rest / 10;
    }
    let ghost all = digits@;
    let numerals = "0123456789";
    proof {
        reveal_strlit("0123456789");
    }
    let mut text = String::new();
    let mut left: usize = digits.len();
    proof {
        assert(digits@.take(left as int) =~= digits@);
        assert(text@ + chars_reversed(digits@) =~= chars_reversed(all));
    }
    while left > 0
        invariant
            left <= digits@.len(),
            digits@ == all,
            numerals@ == "0123456789"@,
            forall|k: int| 0 <= k < digits@.len() ==> (#[trigger] digits@[k]) < 10,
            text@ + chars_reversed(digits@.take(left as int)) == chars_reversed(all),
        decreases left,
    {
        let digit: usize = digits[left - 1] as usize;
        proof {
            reveal_strlit("0123456789");
        }
        let numeral = numerals.substring_char(digit, digit + 1);
        proof {
            let shorter = digits@.take(left as int);
            assert(shorter.last() == digits@[left - 1]);
            assert(shorter.drop_last() =~= digits@.take(left - 1));
            assert(numeral@ =~= seq![digit_char(digit as nat)]);
            assert(text@ + numeral@ + chars_reversed(digits@.take(left - 1)) =~= text@
                + chars_reversed(shorter));
        }
        text.append(numeral);
        left -= 1;
    }
    proof {
        assert(digits@.take(digits@.len() as int) =~= digits@);
        assert(chars_reversed(digits@.take(0)) =~= Seq::<char>::empty());
        assert(text@ =~= chars_reversed(all));
        assert(decimal_digits(value as nat) =~= chars_reversed(all));
    }
    text
}

/// Whether a character is white space, as Unicode defines it.
pub open spec fn is_whitespace(c: char) -> bool {
    let code = c as u32;
    ||| 0x09 <= code <= 0x0D
    ||| code == 0x20
    ||| code == 0x85
    ||| code == 0xA0
    ||| code == 0x1680
    ||| 0x2000 <= code <= 0x200A
    ||| code == 0x2028
    ||| code == 0x2029
    ||| code == 0x202F
    ||| code == 0x205F
    ||| code == 0x3000
}

/// The text without the white space at its start.
pub open spec fn trimmed_at_start(text: Seq<char>) -> Seq<char>
    decreases text.len(),
{
    if text.len() > 0 && is_whitespace(text.first()) {
        trimmed_at_start(text.drop_first())
    } else {
        text
    }
}

/// The text without the white space at its end.
pub open spec fn trimmed_at_end(text: Seq<char>) -> Seq<char>
    decreases text.len(),
{
    if text.len() > 0 && is_whitespace(text.last()) {
        trimmed_at_end(text.drop_last())
    } else {
        text
    }
}

/// The text without the white space at its start and at its end.
pub open spec fn trimmed(text: Seq<char>) -> Seq<char> {
    trimmed_at_end(trimmed_at_start(text))
}

/// Whether a character is white space.
pub fn is_whitespace_char(c: char) -> (white: bool)
    ensures
        white == is_whitespace(c),
{
    let code: u32 = c as u32;
    (0x09 <= code && code <= 0x0D) || code == 0x20 || code == 0x85 || code == 0xA0 || code
        == 0x1680 || (0x2000 <= code && code <= 0x200A) || code == 0x2028 || code == 0x2029
        || code == 0x202F || code == 0x205F || code == 0x3000
}

/// The text without the white space at its start and at its end.
pub fn trim_text(text: &str) -> (kept: &str)
    ensures
        kept@ == trimmed(text@),
{
    let length = text.unicode_len();
    let mut start: usize = 0;
    assert(text@.skip(0) =~= text@);
    while start < length && is_whitespace_char(text.get_char(start))
        invariant
            start <= length,
            length == text@.len(),
            trimmed_at_start(text@) == trimmed_at_start(text@.skip(start as int)),
        decreases length - start,
    {
        proof {
            let tail = text@.skip(start as int);
            assert(tail.first() == text@[start as int]);
            assert(tail.drop_first() =~= text@.skip(start + 1));
        }
        start += 1;
    }
    proof {
        let tail = text@.skip(start as int);
        if start < length {
            assert(tail.first() == text@[start as int]);
        }
        assert(trimmed_at_start(text@) == tail);
    }
    let mut end: usize = length;
    while end > start && is_whitespace_char(text.get_char(end - 1))
        invariant
            start <= end <= length,
            length == text@.len(),
            trimmed(text@) == trimmed_at_end(text@.subrange(start as int, end as int)),
        decreases end,
    {
        proof {
            let piece = text@.subrange(start as int, end as int);
            assert(piece.last() == text@[end - 1]);
            assert(piece.drop_last() =~= text@.subrange(start as int, end - 1));
        }
        end -= 1;
    }
    proof {
        let piece = text@.subrange(start as int, end as int);
        if end > start {
            assert(piece.last() == text@[end - 1]);
        }
        assert(trimmed_at_end(piece) == piece);
    }
    text.substring_char(start, end)
}

/// Whether a character is a decimal digit.
pub open spec fn is_digit(c: char) -> bool {
    48 <= c as u32 <= 57
}

/// The digit that a character stands for; zero for any other character.
pub open spec fn digit_value(c: char) -> nat {
    if is_digit(c) {
        (c as u32 - 48) as nat
    } else {
        0
    }
}

/// The number that a sequence of decimal digits stands for.
pub open spec fn digits_value(digits: Seq<char>) -> nat
    decreases digits.len(),
{
    if digits.len() == 0 {
        0
    } else {
        digits_value(digits.drop_last()) * 10 + digit_value(digits.last())
    }
}

/// The digits of the text of a number: the text without a plus sign at
/// its start.
pub open spec fn unsigned_part(text: Seq<char>) -> Seq<char> {
    if text.len() > 0 && text[0] == '+' {
        text.drop_first()
    } else {
        text
    }
}

/// The byte that a text stands for: one or more decimal digits, with or
/// without a plus sign before them, whose number is at most 255. Any other
/// text stands for none.
pub open spec fn byte_of_text(text: Seq<char>) -> Option<u8> {
    let digits = unsigned_part(text);
    if digits.len() > 0 && (forall|i: int| 0 <= i < digits.len() ==> is_digit(#[trigger] digits[i]))
        && digits_value(digits) <= 255 {
        Some(digits_value(digits) as u8)
    } else {
        None
    }
}

/// Reads the rest of a list of bytes, character by character; `current` is
/// what was read of the piece at hand.
pub open spec fn rest_of_byte_list(text: Seq<char>, current: Seq<char>) -> Option<Seq<u8>>
    decreases text.len(),
{
    if text.len() == 0 {
        match byte_of_text(current) {
            Some(byte) => Some(seq![byte]),
            None => None,
        }
    } else if text[0] == ',' {
        match byte_of_text(current) {
            Some(byte) => match rest_of_byte_list(text.drop_first(), Seq::empty()) {
                Some(rest) => Some(seq![byte] + rest),
                None => None,
            },
            None => None,
        }
    } else {
        rest_of_byte_list(text.drop_first(), current.push(text[0]))
    }
}

/// The bytes that a text lists: the text is cut at its commas, and every
/// piece must stand for a byte. A text with a piece that stands for none,
/// an empty piece among them, lists nothing.
pub open spec fn byte_list_of_text(text: Seq<char>) -> Option<Seq<u8>> {
    rest_of_byte_list(text, Seq::empty())
}

/// The number of the first digits of a sequence is no more than the number
/// of them all.
proof fn lemma_digits_value_grows(digits: Seq<char>, count: int)
    requires
        0 <= count <= digits.len(),
    ensures
        digits_value(digits.take(count)) <= digits_value(digits),
    decreases digits.len(),
{
    if count == digits.len() {
        assert(digits.take(count) =~= digits);
    } else {
        lemma_digits_value_grows(digits.drop_last(), count);
        assert(digits.drop_last().take(count) =~= digits.take(count));
    }
}

/// Reads the byte that the characters from `start` up to `end` stand for.
fn parse_byte(text: &str, start: usize, end: usize) -> (byte: Option<u8>)
    requires
        start <= end <= text@.len(),
    ensures
        byte == byte_of_text(text@.subrange(start as int, end as int)),
{
    let ghost piece = text@.subrange(start as int, end as int);
    let mut first: usize = start;
    if start < end && text.get_char(start) == '+' {
        first = start + 1;
    }
    let ghost digits = unsigned_part(piece);
    assert(digits =~= text@.subrange(first as int, end as int));
    if first == end {
        return None;
    }
    let mut value: u16 = 0;
    let mut i: usize = first;
    while i < end
        invariant
            start <= first <= i <= end <= text@.len(),
            first < end,
            digits == text@.subrange(first as int, end as int),
            digits == unsigned_part(text@.subrange(start as int, end as int)),
            forall|k: int| 0 <= k < i - first ==> is_digit(#[trigger] digits[k]),
            value == digits_value(digits.take(i - first)),
            value <= 255,
        decreases end - i,
    {
        let c = text.get_char(i);
        let code: u32 = c as u32;
        assert(digits[i - first] == c);
        if code < 48 || code > 57 {
            assert(!is_digit(digits[i - first]));
            return None;
        }
        let ghost longer = digits.take(i - first + 1);
        assert(longer.drop_last() =~= digits.take(i - first));
        assert(longer.last() == c);
        let next: u16 = value * 10 + (code - 48) as u16;
        if next > 255 {
            proof {
                lemma_digits_value_grows(digits, i - first + 1);
            }
            return None;
        }
        value = next;
        i += 1;
    }
    assert(digits.take(digits.len() as int) =~= digits);
    Some(value as u8)
}

/// What is known of a whole list once its first bytes are read: they stand
/// in front of whatever the rest gives.
spec fn bytes_behind(done: Seq<u8>, rest: Option<Seq<u8>>) -> Option<Seq<u8>> {
    match rest {
        Some(others) => Some(done + others),
        None => None,
    }
}

/// Reads a list of bytes written as decimal numbers with commas between
/// them, such as `12,0,255`.
pub fn parse_byte_list(text: &str) -> (bytes: Option<Vec<u8>>)
    ensures
        match byte_list_of_text(text@) {
            Some(listed) => bytes is Some && bytes->Some_0@ == listed,
            None => bytes is None,
        },
{
    let length = text.unicode_len();
    let mut done: Vec<u8> = Vec::new();
    let mut start: usize = 0;
    let mut i: usize = 0;
    proof {
        assert(text@.skip(0) =~= text@);
        assert(text@.subrange(0, 0) =~= Seq::<char>::empty());
        let whole = byte_list_of_text(text@);
        if whole is Some {
            assert(Seq::<u8>::empty() + whole->Some_0 =~= whole->Some_0);
        }
    }
    while i < length
        invariant
            start <= i <= length,
            length == text@.len(),
            byte_list_of_text(text@) == bytes_behind(
                done@,
                rest_of_byte_list(text@.skip(i as int), text@.subrange(start as int, i as int)),
            ),
        decreases length - i,
    {
        let ghost tail = text@.skip(i as int);
        let ghost current = text@.subrange(start as int, i as int);
        assert(tail[0] == text@[i as int]);
        assert(tail.drop_first() =~= text@.skip(i + 1));
        if text.get_char(i) == ',' {
            match parse_byte(text, start, i) {
                None => {
                    return None;
                },
                Some(byte) => {
                    proof {
                        let after = rest_of_byte_list(text@.skip(i + 1), Seq::empty());
                        assert(text@.subrange(i + 1, i + 1) =~= Seq::<char>::empty());
                        if after is Some {
                            assert(done@ + (seq![byte] + after->Some_0) =~= done@.push(byte)
                                + after->Some_0);
                        }
                    }
                    done.push(byte);
                    start = i + 1;
                },
            }
        } else {
            assert(current.push(text@[i as int]) =~= text@.subrange(start as int, i + 1));
        }
        i += 1;
    }
    assert(text@.skip(i as int).len() == 0);
    match parse_byte(text, start, i) {
        None => None,
        Some(byte) => {
            assert(done@ + seq![byte] =~= done@.push(byte));
            done.push(byte);
            Some(done)
        },
    }
}

} // verus!
