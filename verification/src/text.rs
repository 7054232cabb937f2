//! Splitting text and reading and writing decimal numbers
//!
//! Text is handled as the bytes that it is stored as.

use vstd::prelude::*;

verus! {

/// The bytes that a text is stored as
pub open spec fn utf8(text: &str) -> Seq<u8> {
    vstd::utf8::encode_utf8(text@)
}

/// The byte sequences that a list of byte strings holds
pub open spec fn contents(list: Seq<Vec<u8>>) -> Seq<Seq<u8>> {
    list.map_values(|item: Vec<u8>| item@)
}

/// Whether a text begins with another one
pub fn begins_with(text: &[u8], beginning: &[u8]) -> (r: bool)
    ensures
        r == beginning@.is_prefix_of(text@),
{
    if text.len() < beginning.len() {
        return false;
    }
    for i in 0..beginning.len()
        invariant
            beginning@.len() <= text@.len(),
            forall|j: int| 0 <= j < i ==> beginning@[j] == text@[j],
    {
        if text[i] != beginning[i] {
            assert(text@.subrange(0, beginning@.len() as int)[i as int] == text@[i as int]);
            return false;
        }
    }
    assert(beginning@ =~= text@.subrange(0, beginning@.len() as int));
    true
}

/// Whether two texts are the same
pub fn is_same(one: &[u8], other: &[u8]) -> (r: bool)
    ensures
        r == (one@ == other@),
{
    if one.len() == other.len() && begins_with(one, other) {
        assert(one@ =~= other@);
        true
    } else {
        assert(one@ == other@ ==> other@ =~= one@.subrange(0, other@.len() as int));
        false
    }
}

/// A copy of a text
pub fn copy(text: &Vec<u8>) -> (r: Vec<u8>)
    ensures
        r@ == text@,
{
    let r = text.clone();
    assert(r@ =~= text@);
    r
}

/// Number of bytes before the first `separator`
pub open spec fn prefix_len(text: Seq<u8>, separator: u8) -> nat
    decreases text.len(),
{
    if text.len() == 0 || text[0] == separator {
        0
    } else {
        1 + prefix_len(text.drop_first(), separator)
    }
}

/// The parts of a text between separators, of which there is always one more
/// than there are separators
pub open spec fn split_at_all(text: Seq<u8>, separator: u8) -> Seq<Seq<u8>>
    decreases text.len(),
{
    let n = prefix_len(text, separator) as int;
    if n < text.len() {
        seq![text.take(n)] + split_at_all(text.skip(n + 1), separator)
    } else {
        seq![text]
    }
}

proof fn prefix_len_finds_separator(text: Seq<u8>, separator: u8)
    ensures
        prefix_len(text, separator) <= text.len(),
        prefix_len(text, separator) < text.len() ==> text[prefix_len(text, separator) as int]
            == separator,
        forall|i: int| 0 <= i < prefix_len(text, separator) ==> text[i] != separator,
    decreases text.len(),
{
    if text.len() != 0 && text[0] != separator {
        prefix_len_finds_separator(text.drop_first(), separator);
        assert forall|i: int| 0 <= i < prefix_len(text, separator) implies text[i]
            != separator by {
            if i > 0 {
                assert(text[i] == text.drop_first()[i - 1]);
            }
        }
    }
}

proof fn prefix_len_is_first(text: Seq<u8>, separator: u8, n: int)
    requires
        0 <= n <= text.len(),
        forall|i: int| 0 <= i < n ==> text[i] != separator,
        n < text.len() ==> text[n] == separator,
    ensures
        prefix_len(text, separator) == n,
{
    prefix_len_finds_separator(text, separator);
    let found = prefix_len(text, separator) as int;
    if found < n {
        assert(text[found] == separator);
    }
}

/// The parts around one separator are the parts before it and the parts
/// after it.
pub proof fn split_of_concatenation(before: Seq<u8>, after: Seq<u8>, separator: u8)
    ensures
        split_at_all(before + seq![separator] + after, separator) == split_at_all(before, separator)
            + split_at_all(after, separator),
    decreases before.len(),
{
    let whole = before + seq![separator] + after;
    prefix_len_finds_separator(before, separator);
    let n = prefix_len(before, separator) as int;
    assert(forall|i: int| 0 <= i < n ==> whole[i] == before[i]);
    if n < before.len() {
        assert(whole[n] == before[n]);
        prefix_len_is_first(whole, separator, n);
        let rest = before.skip(n + 1);
        split_of_concatenation(rest, after, separator);
        assert(whole.take(n) =~= before.take(n));
        assert(whole.skip(n + 1) =~= rest + seq![separator] + after);
        assert(split_at_all(whole, separator) =~= split_at_all(before, separator) + split_at_all(
            after,
            separator,
        ));
    } else {
        assert(whole[n] == separator);
        prefix_len_is_first(whole, separator, n);
        assert(whole.take(n) =~= before);
        assert(whole.skip(n + 1) =~= after);
    }
}

/// Split text at each separator
pub fn split(text: &[u8], separator: u8) -> (r: Vec<Vec<u8>>)
    ensures
        contents(r@) == split_at_all(text@, separator),
{
    let mut parts: Vec<Vec<u8>> = Vec::new();
    let mut part: Vec<u8> = Vec::new();
    let mut start: Ghost<int> = Ghost(0);
    proof {
        assert(text@.skip(0) =~= text@);
    }
    for i in 0..text.len()
        invariant
            0 <= start@ <= i <= text@.len(),
            part@ == text@.subrange(start@, i as int),
            forall|j: int| start@ <= j < i ==> text@[j] != separator,
            contents(parts@) + split_at_all(text@.skip(start@), separator) == split_at_all(
                text@,
                separator,
            ),
    {
        if text[i] == separator {
            let ghost rest = text@.skip(start@);
            let ghost before = parts@;
            let ghost finished = part@;
            proof {
                prefix_len_is_first(rest, separator, i - start@);
                assert(rest.take(i - start@) =~= part@);
                assert(rest.skip(i - start@ + 1) =~= text@.skip(i + 1));
            }
            parts.push(part);
            part = Vec::new();
            proof {
                assert(contents(parts@) =~= contents(before).push(finished));
                start@ = i + 1;
                assert(contents(parts@) + split_at_all(text@.skip(start@), separator)
                    =~= contents(before) + split_at_all(rest, separator));
            }
        } else {
            part.push(text[i]);
            proof {
                assert(part@ =~= text@.subrange(start@, i + 1));
            }
        }
    }
    proof {
        let rest = text@.skip(start@);
        prefix_len_is_first(rest, separator, rest.len() as int);
        assert(part@ =~= rest);
    }
    let ghost before = parts@;
    let ghost finished = part@;
    parts.push(part);
    assert(contents(parts@) =~= contents(before).push(finished));
    parts
}

/// A number in decimal digits, without leading zeros
pub open spec fn decimal(number: nat) -> Seq<u8>
    decreases number,
{
    let digit = (48 + number % 10) as u8;
    if number < 10 {
        seq![digit]
    } else {
        decimal(number / 10).push(digit)
    }
}

/// A number in decimal digits, after a minus sign if it is negative
pub open spec fn signed_decimal(number: int) -> Seq<u8> {
    if number < 0 {
        seq![45u8] + decimal((-number) as nat)
    } else {
        decimal(number as nat)
    }
}

/// Write a number in decimal digits
pub fn write_u64(number: u64) -> (r: Vec<u8>)
    ensures
        r@ == decimal(number as nat),
    decreases number,
{
    let digit: u8 = 48 + (number % 10) as u8;
    if number < 10 {
        let mut text: Vec<u8> = Vec::new();
        text.push(digit);
        assert(text@ =~= seq![digit]);
        text
    } else {
        let mut text = write_u64(number / 10);
        text.push(digit);
        text
    }
}

/// Write a number in decimal digits, after a minus sign if it is negative
pub fn write_i32(number: i32) -> (r: Vec<u8>)
    ensures
        r@ == signed_decimal(number as int),
{
    if number < 0 {
        let mut digits = write_u64((-(number as i64)) as u64);
        let mut text: Vec<u8> = Vec::new();
        text.push(45);
        text.append(&mut digits);
        assert(text@ =~= signed_decimal(number as int));
        text
    } else {
        write_u64(number as u64)
    }
}

/// Whether a byte is a decimal digit
pub open spec fn is_digit(byte: u8) -> bool {
    48 <= byte <= 57
}

/// The number that decimal digits stand for
pub open spec fn digits_value(digits: Seq<u8>) -> nat
    decreases digits.len(),
{
    if digits.len() == 0 {
        0
    } else {
        10 * digits_value(digits.drop_last()) + (digits.last() - 48) as nat
    }
}

/// Whether a text is made of decimal digits alone, and of at least one
pub open spec fn is_number(digits: Seq<u8>) -> bool {
    digits.len() > 0 && forall|i: int| 0 <= i < digits.len() ==> is_digit(#[trigger] digits[i])
}

/// A text without the plus sign that it may begin with
pub open spec fn without_plus(text: Seq<u8>) -> Seq<u8> {
    if text.len() > 0 && text[0] == 43 {
        text.drop_first()
    } else {
        text
    }
}

/// The number that a text stands for: decimal digits, after a plus sign or
/// without one
///
/// There is none for a text of another form, nor for a number that does not
/// fit into 64 bits.
pub open spec fn parse_u64(text: Seq<u8>) -> Option<u64> {
    let digits = without_plus(text);
    if is_number(digits) && digits_value(digits) <= u64::MAX {
        Some(digits_value(digits) as u64)
    } else {
        None
    }
}

proof fn digits_value_grows(digits: Seq<u8>, n: int)
    requires
        0 <= n <= digits.len(),
        forall|i: int| 0 <= i < digits.len() ==> is_digit(#[trigger] digits[i]),
    ensures
        digits_value(digits.take(n)) <= digits_value(digits),
    decreases digits.len(),
{
    if n == digits.len() {
        assert(digits.take(n) =~= digits);
    } else {
        let shorter = digits.drop_last();
        assert(forall|i: int| 0 <= i < shorter.len() ==> shorter[i] == digits[i]);
        digits_value_grows(shorter, n);
        assert(shorter.take(n) =~= digits.take(n));
        assert(is_digit(digits[digits.len() - 1]));
    }
}

/// Read a number in decimal digits
pub fn read_u64(text: &[u8]) -> (r: Option<u64>)
    ensures
        r == parse_u64(text@),
{
    let start: usize = if text.len() > 0 && text[0] == 43 {
        1
    } else {
        0
    };
    let ghost digits = text@.skip(start as int);
    proof {
        assert(without_plus(text@) =~= digits);
    }
    if start == text.len() {
        return None;
    }
    let mut number: u64 = 0;
    for i in start..text.len()
        invariant
            start <= i <= text@.len(),
            digits == text@.skip(start as int),
            digits == without_plus(text@),
            forall|j: int| 0 <= j < i - start ==> is_digit(#[trigger] digits[j]),
            number == digits_value(digits.take(i - start)),
    {
        let byte = text[i];
        proof {
            assert(digits[i - start] == byte);
            assert(digits.take(i + 1 - start).drop_last() =~= digits.take(i - start));
            if parse_u64(text@) is Some {
                digits_value_grows(digits, i + 1 - start);
            }
        }
        if byte < 48 || byte > 57 {
            return None;
        }
        number = match number.checked_mul(10) {
            Some(shifted) => match shifted.checked_add((byte - 48) as u64) {
                Some(sum) => sum,
                None => return None,
            },
            None => return None,
        };
    }
    assert(digits.take(text@.len() - start) =~= digits);
    Some(number)
}

proof fn decimal_has_value(number: nat)
    ensures
        is_number(decimal(number)),
        digits_value(decimal(number)) == number,
    decreases number,
{
    if number < 10 {
        assert(decimal(number).drop_last() =~= Seq::<u8>::empty());
        assert(digits_value(Seq::<u8>::empty()) == 0);
    } else {
        decimal_has_value(number / 10);
        assert(decimal(number).drop_last() =~= decimal(number / 10));
    }
}

/// Reading what was written for a number gives the number back.
pub proof fn written_number_reads_back(number: u64)
    ensures
        parse_u64(decimal(number as nat)) == Some(number),
{
    decimal_has_value(number as nat);
    assert(is_digit(decimal(number as nat)[0]));
}

/// A text is stored as its characters in UTF-8.
pub proof fn text_is_stored_as_utf8(text: &str)
    ensures
        utf8(text) == vstd::utf8::encode_utf8(text@),
{
}

/// A list of byte strings holds the bytes of each of them, in their order.
pub proof fn contents_are_in_order(list: Seq<Vec<u8>>)
    ensures
        contents(list).len() == list.len(),
        forall|i: int| 0 <= i < list.len() ==> #[trigger] contents(list)[i] == list[i]@,
{
}

/// A text without a separator in it is its only part.
pub proof fn text_without_separator_is_one_part(text: Seq<u8>, separator: u8)
    requires
        forall|i: int| 0 <= i < text.len() ==> text[i] != separator,
    ensures
        split_at_all(text, separator) == seq![text],
{
    prefix_len_is_first(text, separator, text.len() as int);
}

/// A number below ten is written as one digit, and each further digit comes
/// behind those of the number without it. A minus sign comes first.
pub proof fn digits_are_written_in_order(number: nat, digit: nat)
    requires
        digit < 10,
    ensures
        decimal(digit) == seq![(48 + digit) as u8],
        number > 0 ==> decimal(10 * number + digit) == decimal(number).push((48 + digit) as u8),
        signed_decimal(number as int) == decimal(number),
        number > 0 ==> signed_decimal(-number) == seq![45u8] + decimal(number),
{
    assert((10 * number + digit) / 10 == number);
    assert((10 * number + digit) % 10 == digit);
}

/// A byte alone is a number exactly if it is a digit, and no byte at all is none.
pub proof fn digit_is_number(byte: u8)
    ensures
        parse_u64(seq![byte]) == if 48 <= byte <= 57 {
            Some((byte - 48) as u64)
        } else {
            None
        },
        parse_u64(seq![]) is None,
{
    let text = seq![byte];
    assert(text.drop_last() =~= Seq::<u8>::empty());
    assert(text.drop_first() =~= Seq::<u8>::empty());
    assert(digits_value(Seq::<u8>::empty()) == 0);
    assert(digits_value(text) == (byte - 48) as nat);
    if 48 <= byte <= 57 {
        assert(is_number(text));
    } else if byte != 43 {
        assert(!is_digit(text[0]));
    }
}

/// A further digit makes a number ten times as large and adds its own value, as
/// long as the number fits into 64 bits. Any other byte makes it no number, and
/// what is no number does not become one, except a single plus sign.
pub proof fn further_digit_counts(text: Seq<u8>, byte: u8)
    requires
        text.len() > 0,
        text != seq![43u8],
    ensures
        parse_u64(text.push(byte)) == match parse_u64(text) {
            Some(number) => if 48 <= byte <= 57 && 10 * number + (byte - 48) <= u64::MAX {
                Some((10 * number + (byte - 48)) as u64)
            } else {
                None
            },
            None => None,
        },
{
    let digits = without_plus(text);
    let longer = digits.push(byte);
    assert(without_plus(text.push(byte)) =~= longer);
    assert(digits.len() > 0) by {
        if text.len() == 1 && text[0] == 43 {
            assert(text =~= seq![43u8]);
        }
    }
    assert(longer.drop_last() =~= digits);
    assert(forall|i: int| 0 <= i < digits.len() ==> longer[i] == digits[i]);
    assert(longer[longer.len() - 1] == byte);
    if is_number(longer) {
        assert forall|i: int| 0 <= i < digits.len() implies is_digit(#[trigger] digits[i]) by {
            assert(is_digit(longer[i]));
        }
        assert(is_digit(longer[longer.len() - 1]));
    } else if is_number(digits) && is_digit(byte) {
        assert forall|i: int| 0 <= i < longer.len() implies is_digit(#[trigger] longer[i]) by {
            if i < digits.len() {
                assert(is_digit(digits[i]));
            }
        }
    }
}

/// A plus sign in front of a number does not change it, but there is only one.
pub proof fn plus_sign_does_not_count(text: Seq<u8>)
    ensures
        parse_u64(seq![43u8] + text) == if text.len() > 0 && text[0] == 43 {
            None
        } else {
            parse_u64(text)
        },
{
    let signed = seq![43u8] + text;
    assert(signed.drop_first() =~= text);
    if text.len() > 0 && text[0] == 43 {
        assert(!is_digit(text[0]));
    }
}

} // verus!
