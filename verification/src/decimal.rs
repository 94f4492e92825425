use vstd::prelude::*;

verus! {

/// The character that writes one decimal digit.
pub open spec fn digit_char(digit: int) -> char
    recommends
        0 <= digit <= 9,
{
    ((48 + digit) as u8) as char
}

/// The number that a digit character stands for.
pub open spec fn digit_value(character: char) -> int {
    (character as u32) as int - 48
}

/// Whether a character is one of `0` to `9`.
pub open spec fn is_digit(character: char) -> bool {
    0 <= digit_value(character) <= 9
}

/// The digits of a natural number in base 10, most significant first, with no
/// leading zero; the number 0 is the single digit `0`.
pub open spec fn decimal_digits(value: nat) -> Seq<char>
    decreases value,
{
    if value < 10 {
        seq![digit_char(value as int)]
    } else {
        decimal_digits(value / 10).push(digit_char((value % 10) as int))
    }
}

/// The canonical base-10 text of an integer: its digits, after a `-` exactly
/// when it is negative.
pub open spec fn decimal_text(value: int) -> Seq<char> {
    if value < 0 {
        seq!['-'] + decimal_digits((-value) as nat)
    } else {
        decimal_digits(value as nat)
    }
}

/// The natural number that a run of digits writes in base 10.
pub open spec fn digits_value(digits: Seq<char>) -> nat
    decreases digits.len(),
{
    if digits.len() == 0 {
        0
    } else {
        (digits_value(digits.drop_last()) * 10 + digit_value(digits.last())) as nat
    }
}

/// The integer that a decimal text writes: a leading `-` negates the digits
/// that follow it.
pub open spec fn parse_decimal(text: Seq<char>) -> int {
    if text.len() > 0 && text[0] == '-' {
        -(digits_value(text.skip(1)) as int)
    } else {
        digits_value(text) as int
    }
}

/// Whether a run of characters is the digits of a natural number as they
/// are canonically written: at least one digit, nothing but digits, and no
/// leading zero unless the run is the single digit `0`.
pub open spec fn is_canonical_digits(digits: Seq<char>) -> bool {
    &&& digits.len() >= 1
    &&& forall|i: int| 0 <= i < digits.len() ==> is_digit(#[trigger] digits[i])
    &&& digits[0] == '0' ==> digits.len() == 1
}

/// The part of a decimal text that follows its sign, if it has one.
pub open spec fn unsigned_part(text: Seq<char>) -> Seq<char> {
    if text.len() > 0 && text[0] == '-' {
        text.skip(1)
    } else {
        text
    }
}

/// Whether a text is a canonical decimal numeral: an optional `-`, then
/// canonical digits, and no `-0`.
pub open spec fn is_canonical_decimal(text: Seq<char>) -> bool {
    &&& is_canonical_digits(unsigned_part(text))
    &&& unsigned_part(text)[0] == '0' ==> text.len() == 1
}

/// A digit character stands for the digit it was made from.
pub proof fn lemma_digit_char_value(digit: int)
    requires
        0 <= digit <= 9,
    ensures
        digit_value(digit_char(digit)) == digit,
        is_digit(digit_char(digit)),
        digit_char(digit) != '-',
        digit_char(digit) == '0' <==> digit == 0,
{
}

/// A digit character is made from the digit it stands for.
pub proof fn lemma_digit_value_char(character: char)
    requires
        is_digit(character),
    ensures
        digit_char(digit_value(character)) == character,
{
    let digit = digit_value(character);
    let code = (48 + digit) as u8;
    assert(code == character as u8);
    assert(code as char == character);
}

/// The digits of a natural number are digits only, begin with `0` only for
/// the number 0, and write that number.
pub proof fn lemma_decimal_digits(value: nat)
    ensures
        decimal_digits(value).len() >= 1,
        forall|i: int|
            0 <= i < decimal_digits(value).len() ==> is_digit(#[trigger] decimal_digits(value)[i]),
        decimal_digits(value)[0] == '0' <==> value == 0,
        value == 0 ==> decimal_digits(value).len() == 1,
        digits_value(decimal_digits(value)) == value,
    decreases value,
{
    if value < 10 {
        lemma_digit_char_value(value as int);
        let digits = decimal_digits(value);
        assert(digits.drop_last() =~= Seq::<char>::empty());
        assert(digits_value(digits.drop_last()) == 0);
    } else {
        let front = decimal_digits(value / 10);
        let digits = decimal_digits(value);
        lemma_decimal_digits(value / 10);
        lemma_digit_char_value((value % 10) as int);
        assert(digits.drop_last() =~= front);
        assert(digits[0] == front[0]);
        assert forall|i: int| 0 <= i < digits.len() implies is_digit(#[trigger] digits[i]) by {
            if i < front.len() {
                assert(digits[i] == front[i]);
            }
        }
    }
}

/// Reading back the decimal text of an integer gives that integer.
pub proof fn lemma_decimal_text_round_trips(value: int)
    ensures
        parse_decimal(decimal_text(value)) == value,
{
    let text = decimal_text(value);
    if value < 0 {
        let digits = decimal_digits((-value) as nat);
        lemma_decimal_digits((-value) as nat);
        assert(text[0] == '-');
        assert(text.skip(1) =~= digits);
    } else {
        lemma_decimal_digits(value as nat);
        assert(is_digit(text[0]));
    }
}

/// The decimal text of an integer is canonical: it starts with `-` exactly
/// when the integer is negative, the rest are digits, and a leading zero
/// occurs only in the text of 0, which is the single character `0`.
pub proof fn lemma_decimal_text_is_canonical(value: int)
    ensures
        is_canonical_decimal(decimal_text(value)),
        decimal_text(value)[0] == '-' <==> value < 0,
        value == 0 ==> decimal_text(value) == seq!['0'],
{
    let text = decimal_text(value);
    if value < 0 {
        let digits = decimal_digits((-value) as nat);
        lemma_decimal_digits((-value) as nat);
        assert(text[0] == '-');
        assert(text.skip(1) =~= digits);
    } else {
        lemma_decimal_digits(value as nat);
        assert(is_digit(text[0]));
        if value == 0 {
            lemma_digit_char_value(0);
            assert(text =~= seq!['0']);
        }
    }
}

/// A run of digits with no leading zero, or the single digit `0`, is the
/// digits of the number that it writes.
pub proof fn lemma_digits_of_value(digits: Seq<char>)
    requires
        is_canonical_digits(digits),
    ensures
        decimal_digits(digits_value(digits)) == digits,
        digits_value(digits) == 0 <==> digits[0] == '0',
    decreases digits.len(),
{
    let front = digits.drop_last();
    let last = digit_value(digits.last());
    assert(is_digit(digits.last()));
    lemma_digit_value_char(digits.last());
    if digits.len() == 1 {
        assert(front =~= Seq::<char>::empty());
        assert(digits_value(front) == 0);
        assert(digits_value(digits) == last);
        assert(decimal_digits(last as nat) =~= digits);
    } else {
        assert(front[0] == digits[0]);
        assert forall|i: int| 0 <= i < front.len() implies is_digit(#[trigger] front[i]) by {
            assert(front[i] == digits[i]);
        }
        lemma_digits_of_value(front);
        let value = digits_value(digits);
        assert(value == digits_value(front) * 10 + last);
        assert(digits_value(front) >= 1);
        assert(value / 10 == digits_value(front));
        assert(value % 10 == last);
        assert(decimal_digits(value) =~= digits);
    }
}

/// The decimal text of an integer is the only canonical numeral that writes
/// it: every canonical numeral is the decimal text of the integer it reads
/// as.
pub proof fn lemma_canonical_text_is_decimal_text(text: Seq<char>)
    requires
        is_canonical_decimal(text),
    ensures
        decimal_text(parse_decimal(text)) == text,
{
    if text.len() > 0 && text[0] == '-' {
        let digits = text.skip(1);
        assert(unsigned_part(text) == digits);
        lemma_digits_of_value(digits);
        assert(digits[0] != '0');
        assert(parse_decimal(text) < 0);
        assert(decimal_text(parse_decimal(text)) =~= text);
    } else {
        assert(unsigned_part(text) == text);
        lemma_digits_of_value(text);
        assert(is_digit(text[0]));
    }
}

/// Two integers with the same decimal text are the same integer.
pub proof fn lemma_decimal_text_is_injective(first: int, second: int)
    requires
        decimal_text(first) == decimal_text(second),
    ensures
        first == second,
{
    lemma_decimal_text_round_trips(first);
    lemma_decimal_text_round_trips(second);
}

/// Formats an integer with `itoa::Buffer::format`, which writes the base-10
/// digits of the value, most significant first and without padding, after a
/// `-` if the value is negative. Trusted: the result is `decimal_text` of the
/// value.
#[verifier::external_body]
pub(crate) fn format_decimal(value: i128) -> (text: String)
    ensures
        text@ == decimal_text(value as int),
{
    let mut buffer = itoa::Buffer::new();
    buffer.format(value).to_owned()
}

} // verus!
