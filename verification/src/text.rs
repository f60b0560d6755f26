//! Byte strings: searching, splitting, and decimal numerals.

use vstd::prelude::*;

verus! {

/// The byte `+`.
pub const PLUS: u8 = 0x2b;

/// The byte `0`.
pub const ZERO: u8 = 0x30;

/// The byte `9`.
pub const NINE: u8 = 0x39;

/// The position of the first occurrence of `b` in `s`, or `s.len()` where `s` does not hold `b`.
pub open spec fn position(s: Seq<u8>, b: u8) -> int
    decreases s.len(),
{
    if s.len() == 0 || s[0] == b {
        0
    } else {
        1 + position(s.drop_first(), b)
    }
}

/// `position` stays within the sequence, names an occurrence when it is inside, and nothing
/// before it is an occurrence.
pub proof fn lemma_position(s: Seq<u8>, b: u8)
    ensures
        0 <= position(s, b) <= s.len(),
        position(s, b) < s.len() ==> s[position(s, b)] == b,
        forall|j: int| 0 <= j < position(s, b) ==> s[j] != b,
    decreases s.len(),
{
    if s.len() == 0 || s[0] == b {
    } else {
        let t = s.drop_first();
        lemma_position(t, b);
        assert forall|j: int| 0 <= j < position(s, b) implies s[j] != b by {
            if j > 0 {
                assert(s[j] == t[j - 1]);
            }
        }
    }
}

/// An index that no occurrence comes before, and that is an occurrence or the end, is the
/// position.
pub proof fn lemma_position_unique(s: Seq<u8>, b: u8, i: int)
    requires
        0 <= i <= s.len(),
        i < s.len() ==> s[i] == b,
        forall|j: int| 0 <= j < i ==> s[j] != b,
    ensures
        position(s, b) == i,
{
    lemma_position(s, b);
    let p = position(s, b);
    if p < i {
        assert(s[p] == b);
    }
}

/// Finds the first occurrence of `b` in `s`.
pub fn find_byte(s: &[u8], b: u8) -> (found: Option<usize>)
    ensures
        match found {
            Some(i) => i == position(s@, b) && i < s@.len() && s@[i as int] == b,
            None => position(s@, b) == s@.len(),
        },
{
    let mut i: usize = 0;
    while i < s.len()
        invariant
            i <= s@.len(),
            forall|j: int| 0 <= j < i ==> s@[j] != b,
        decreases s@.len() - i,
    {
        if s[i] == b {
            proof {
                lemma_position_unique(s@, b, i as int);
            }
            return Some(i);
        }
        i += 1;
    }
    proof {
        lemma_position_unique(s@, b, i as int);
    }
    None
}

/// The two parts of `s` around the first occurrence of `b`, which belongs to neither.
pub open spec fn split_once(s: Seq<u8>, b: u8) -> Option<(Seq<u8>, Seq<u8>)> {
    let p = position(s, b);
    if p < s.len() {
        Some((s.subrange(0, p), s.subrange(p + 1, s.len() as int)))
    } else {
        None
    }
}

/// Why a field is not an unsigned decimal number of 64 bits.
#[derive(Clone, Copy, Debug, PartialEq, Eq, Hash, Structural)]
pub enum FieldError {
    /// The field is empty.
    Empty,
    /// The field holds something else than digits after an optional `+`, or a sign alone.
    InvalidDigit,
    /// The digits stand for a number above `u64::MAX`.
    Overflow,
}

/// Whether `b` is an ASCII decimal digit.
pub open spec fn is_digit(b: u8) -> bool {
    ZERO <= b <= NINE
}

/// The number that the digits read so far (`value`) and one more byte stand for.
pub open spec fn push_digit(value: u64, b: u8) -> Result<u64, FieldError> {
    if !is_digit(b) {
        Err(FieldError::InvalidDigit)
    } else if value * 10 + (b - ZERO) > u64::MAX {
        Err(FieldError::Overflow)
    } else {
        Ok((value * 10 + (b - ZERO)) as u64)
    }
}

/// Reads `digits` from the left: the number they stand for, or what is wrong with the shortest
/// prefix that stands for none.
pub open spec fn digits_value(digits: Seq<u8>) -> Result<u64, FieldError>
    decreases digits.len(),
{
    if digits.len() == 0 {
        Ok(0)
    } else {
        match digits_value(digits.drop_last()) {
            Ok(value) => push_digit(value, digits.last()),
            Err(e) => Err(e),
        }
    }
}

/// The unsigned number that `field` stands for: decimal digits, at least one, after an optional
/// `+`.
pub open spec fn field_value(field: Seq<u8>) -> Result<u64, FieldError> {
    if field.len() == 0 {
        Err(FieldError::Empty)
    } else if field.len() == 1 && field[0] == PLUS {
        Err(FieldError::InvalidDigit)
    } else if field[0] == PLUS {
        digits_value(field.skip(1))
    } else {
        digits_value(field)
    }
}

/// The number that a sequence of digits stands for, without any bound.
pub open spec fn decimal_value(digits: Seq<u8>) -> nat
    decreases digits.len(),
{
    if digits.len() == 0 {
        0
    } else {
        decimal_value(digits.drop_last()) * 10 + (digits.last() - ZERO) as nat
    }
}

/// Once a prefix fails, the whole sequence fails in the same way.
pub proof fn lemma_digits_error_stays(digits: Seq<u8>, k: int)
    requires
        0 <= k <= digits.len(),
        digits_value(digits.take(k)) is Err,
    ensures
        digits_value(digits) == digits_value(digits.take(k)),
    decreases digits.len() - k,
{
    if k == digits.len() {
        assert(digits.take(k) =~= digits);
    } else {
        assert(digits.take(k + 1).drop_last() =~= digits.take(k));
        lemma_digits_error_stays(digits, k + 1);
    }
}

/// `digits_value` succeeds exactly on digits whose number fits, and gives that number.
pub proof fn lemma_digits_value(digits: Seq<u8>)
    ensures
        digits_value(digits) is Ok <==> (forall|i: int| 0 <= i < digits.len() ==> is_digit(
            #[trigger] digits[i],
        )) && decimal_value(digits) <= u64::MAX,
        digits_value(digits) is Ok ==> digits_value(digits)->Ok_0 == decimal_value(digits),
    decreases digits.len(),
{
    if digits.len() > 0 {
        let init = digits.drop_last();
        lemma_digits_value(init);
        assert forall|i: int| 0 <= i < init.len() implies init[i] == digits[i] by {}
        if digits_value(digits) is Ok {
            assert forall|i: int| 0 <= i < digits.len() implies is_digit(#[trigger] digits[i]) by {
                if i < init.len() {
                    assert(is_digit(init[i]));
                }
            }
        }
        if (forall|i: int| 0 <= i < digits.len() ==> is_digit(#[trigger] digits[i]))
            && decimal_value(digits) <= u64::MAX {
            assert forall|i: int| 0 <= i < init.len() implies is_digit(#[trigger] init[i]) by {
                assert(is_digit(digits[i]));
            }
            assert(is_digit(digits[digits.len() - 1]));
        }
    }
}

/// Reads an unsigned decimal number of 64 bits.
pub fn parse_u64(field: &[u8]) -> (parsed: Result<u64, FieldError>)
    ensures
        parsed == field_value(field@),
{
    if field.len() == 0 {
        return Err(FieldError::Empty);
    }
    let first: usize = if field[0] == PLUS {
        1
    } else {
        0
    };
    if first == field.len() {
        return Err(FieldError::InvalidDigit);
    }
    let ghost digits = field@.skip(first as int);
    let mut value: u64 = 0;
    let mut i: usize = first;
    assert(digits.take(0) =~= Seq::<u8>::empty());
    assert(field@.skip(0) =~= field@);
    while i < field.len()
        invariant
            first <= i <= field@.len(),
            digits == field@.skip(first as int),
            field_value(field@) == digits_value(digits),
            digits_value(digits.take(i - first)) == Ok::<u64, FieldError>(value),
        decreases field@.len() - i,
    {
        let b = field[i];
        proof {
            assert(digits.take(i - first + 1).drop_last() =~= digits.take(i - first));
            assert(digits.take(i - first + 1).last() == b);
        }
        if b < ZERO || b > NINE {
            proof {
                lemma_digits_error_stays(digits, i - first + 1);
            }
            return Err(FieldError::InvalidDigit);
        }
        let digit: u64 = (b - ZERO) as u64;
        let next = match value.checked_mul(10) {
            Some(tens) => tens.checked_add(digit),
            None => None,
        };
        match next {
            Some(n) => {
                value = n;
            },
            None => {
                proof {
                    lemma_digits_error_stays(digits, i - first + 1);
                }
                return Err(FieldError::Overflow);
            },
        }
        i += 1;
    }
    assert(digits.take(i - first) =~= digits);
    Ok(value)
}

/// The character of the digit `d`.
pub open spec fn digit_char(d: nat) -> char
    recommends
        d < 10,
{
    (ZERO + d) as u8 as char
}

/// The decimal numeral of `n`, without leading zeros.
pub open spec fn decimal(n: nat) -> Seq<char>
    decreases n,
{
    if n < 10 {
        seq![digit_char(n)]
    } else {
        decimal(n / 10).push(digit_char(n % 10))
    }
}

/// The decimal numeral of `n`, with zeros before it where it has fewer than `width` digits.
pub open spec fn zero_padded(n: nat, width: nat) -> Seq<char> {
    let digits = decimal(n);
    if digits.len() >= width {
        digits
    } else {
        Seq::new((width - digits.len()) as nat, |i: int| '0') + digits
    }
}

/// A numeral of a number of 64 bits has between one and twenty digits.
pub proof fn lemma_decimal_len(n: nat)
    requires
        n <= u64::MAX,
    ensures
        1 <= decimal(n).len() <= 20,
{
    reveal_with_fuel(decimal, 21);
}

fn digit_str(d: u64) -> (digit: &'static str)
    requires
        d < 10,
    ensures
        digit@ == seq![digit_char(d as nat)],
{
    proof {
        reveal_strlit("0");
        reveal_strlit("1");
        reveal_strlit("2");
        reveal_strlit("3");
        reveal_strlit("4");
        reveal_strlit("5");
        reveal_strlit("6");
        reveal_strlit("7");
        reveal_strlit("8");
        reveal_strlit("9");
    }
    let digit = if d == 0 {
        "0"
    } else if d == 1 {
        "1"
    } else if d == 2 {
        "2"
    } else if d == 3 {
        "3"
    } else if d == 4 {
        "4"
    } else if d == 5 {
        "5"
    } else if d == 6 {
        "6"
    } else if d == 7 {
        "7"
    } else if d == 8 {
        "8"
    } else {
        "9"
    };
    assert(digit@ =~= seq![digit_char(d as nat)]);
    digit
}

/// The number of digits of the decimal numeral of `n`.
pub fn decimal_len(n: u64) -> (len: usize)
    ensures
        len == decimal(n as nat).len(),
    decreases n,
{
    proof {
        lemma_decimal_len(n as nat / 10);
    }
    if n < 10 {
        1
    } else {
        decimal_len(n / 10) + 1
    }
}

/// Writes the decimal numeral of `n` at the end of `buffer`.
pub fn push_decimal(buffer: &mut String, n: u64)
    ensures
        final(buffer)@ == old(buffer)@ + decimal(n as nat),
    decreases n,
{
    if n >= 10 {
        push_decimal(buffer, n / 10);
    }
    buffer.append(digit_str(n % 10));
    assert(buffer@ =~= old(buffer)@ + decimal(n as nat));
}

/// Writes the decimal numeral of `n` at the end of `buffer`, after as many zeros as it has
/// fewer than `width` digits.
pub fn push_zero_padded(buffer: &mut String, n: u64, width: usize)
    ensures
        final(buffer)@ == old(buffer)@ + zero_padded(n as nat, width as nat),
{
    let len = decimal_len(n);
    let mut written: usize = len;
    let ghost zeros = |i: int| '0';
    assert(buffer@ =~= old(buffer)@ + Seq::new(0, zeros));
    while written < width
        invariant
            len <= written,
            len < width ==> written <= width,
            len >= width ==> written == len,
            zeros == |i: int| '0',
            buffer@ == old(buffer)@ + Seq::new((written - len) as nat, zeros),
        decreases width - written,
    {
        buffer.append("0");
        proof {
            reveal_strlit("0");
            assert(Seq::new((written - len) as nat, zeros) + "0"@ =~= Seq::new(
                (written + 1 - len) as nat,
                zeros,
            ));
        }
        written += 1;
    }
    let ghost padding = Seq::new((written - len) as nat, zeros);
    push_decimal(buffer, n);
    proof {
        if len >= width {
            assert(padding =~= Seq::<char>::empty());
        } else {
            assert(padding =~= Seq::new((width - len) as nat, |i: int| '0'));
        }
        assert(old(buffer)@ + padding + decimal(n as nat) =~= old(buffer)@ + (padding + decimal(
            n as nat,
        )));
    }
}

} // verus!
