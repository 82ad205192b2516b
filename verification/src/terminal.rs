//! Terminal dimensions from the shell's variables.

use vstd::prelude::*;

use crate::text::dec;
use crate::text::chars_of;

verus! {

/// Columns of a terminal whose width is not known.
pub const FALLBACK_COLS: u16 = 80;

/// Rows of a terminal whose height is not known.
pub const FALLBACK_ROWS: u16 = 24;

/// Whether a character is a decimal digit.
pub open spec fn is_digit(c: char) -> bool {
    '0' <= c && c <= '9'
}

/// The number that decimal digits stand for.
pub open spec fn number_of(digits: Seq<char>) -> nat
    decreases digits.len(),
{
    if digits.len() == 0 {
        0
    } else {
        number_of(digits.drop_last()) * 10 + (digits.last() as nat - '0' as nat) as nat
    }
}

/// The digits of a numeral: all of it but a leading plus sign.
pub open spec fn numeral_digits(text: Seq<char>) -> Seq<char> {
    if text.len() > 0 && text[0] == '+' {
        text.drop_first()
    } else {
        text
    }
}

/// The number that a numeral stands for: decimal digits, at least one, with an
/// optional plus sign, and a value that fits.
pub open spec fn parsed_size(text: Seq<char>) -> Option<u16> {
    let digits = numeral_digits(text);
    if digits.len() > 0 && (forall|i: int| 0 <= i < digits.len() ==> is_digit(#[trigger] digits[i]))
        && number_of(digits) <= u16::MAX {
        Some(number_of(digits) as u16)
    } else {
        None
    }
}

proof fn number_grows(digits: Seq<char>, n: int)
    requires
        0 <= n <= digits.len(),
        forall|i: int| 0 <= i < digits.len() ==> is_digit(#[trigger] digits[i]),
    ensures
        number_of(digits.take(n)) <= number_of(digits),
    decreases digits.len(),
{
    if n == digits.len() {
        assert(digits.take(n) =~= digits);
    } else {
        assert(digits.drop_last().take(n) =~= digits.take(n));
        number_grows(digits.drop_last(), n);
    }
}

fn parse_size(text: &str) -> (size: Option<u16>)
    ensures
        size == parsed_size(text@),
{
    let chars = chars_of(text);
    let start: usize = if chars.len() > 0 && chars[0] == '+' {
        1
    } else {
        0
    };
    let ghost digits = numeral_digits(text@);
    assert(digits =~= chars@.skip(start as int));
    if start == chars.len() {
        return None;
    }
    let mut value: u32 = 0;
    let mut k: usize = start;
    assert(digits.take(0) =~= Seq::<char>::empty());
    while k < chars.len()
        invariant
            start <= k <= chars@.len(),
            digits == chars@.skip(start as int),
            digits == numeral_digits(text@),
            digits.len() > 0,
            value <= u16::MAX,
            value == number_of(digits.take(k - start)),
            forall|i: int| 0 <= i < k - start ==> is_digit(#[trigger] digits[i]),
        decreases chars@.len() - k,
    {
        let c = chars[k];
        assert(digits[k - start] == c);
        if c < '0' || c > '9' {
            assert(!is_digit(digits[k - start]));
            return None;
        }
        assert(digits.take(k - start + 1).drop_last() =~= digits.take(k - start));
        value = value * 10 + (c as u32 - '0' as u32);
        if value > u16::MAX as u32 {
            proof {
                if forall|i: int| 0 <= i < digits.len() ==> is_digit(#[trigger] digits[i]) {
                    number_grows(digits, k - start + 1);
                }
            }
            return None;
        }
        k += 1;
    }
    assert(digits.take(k - start) =~= digits);
    Some(value as u16)
}

/// A dimension from a variable: what it says where that is a positive number,
/// and a fallback otherwise.
pub open spec fn dimension(variable: Option<Seq<char>>, fallback: u16) -> u16 {
    match variable {
        Some(text) => match parsed_size(text) {
            Some(n) => if n > 0 {
                n
            } else {
                fallback
            },
            None => fallback,
        },
        None => fallback,
    }
}

fn dimension_or(variable: Option<&str>, fallback: u16) -> (n: u16)
    ensures
        n == dimension(
            match variable {
                Some(s) => Some(s@),
                None => None,
            },
            fallback,
        ),
{
    if let Some(text) = variable {
        if let Some(n) = parse_size(text) {
            if n > 0 {
                return n;
            }
        }
    }
    fallback
}

/// Terminal dimensions (columns, rows) from the variables that the shell sets,
/// with a fallback for each that is missing or no positive number.
pub fn terminal_size(columns: Option<&str>, lines: Option<&str>) -> (size: (u16, u16))
    ensures
        size.0 == dimension(
            match columns {
                Some(s) => Some(s@),
                None => None,
            },
            FALLBACK_COLS,
        ),
        size.1 == dimension(
            match lines {
                Some(s) => Some(s@),
                None => None,
            },
            FALLBACK_ROWS,
        ),
        size.0 > 0 && size.1 > 0,
{
    (dimension_or(columns, FALLBACK_COLS), dimension_or(lines, FALLBACK_ROWS))
}

proof fn numeral_reads_back(n: nat)
    ensures
        number_of(dec(n)) == n,
        dec(n).len() > 0,
        forall|i: int| 0 <= i < dec(n).len() ==> is_digit(#[trigger] dec(n)[i]),
    decreases n,
{
    if n >= 10 {
        numeral_reads_back(n / 10);
        let rest = dec(n / 10);
        assert(dec(n).drop_last() =~= rest);
        assert forall|i: int| 0 <= i < dec(n).len() implies is_digit(#[trigger] dec(n)[i]) by {
            if i < rest.len() {
                assert(dec(n)[i] == rest[i]);
            }
        }
    } else {
        assert(dec(n).drop_last() =~= seq![]);
        assert(number_of(seq![]) == 0);
    }
    assert(dec(n).last() as nat - '0' as nat == n % 10);
}

/// A size that is written in decimal reads back as it is, with or without a plus sign.
pub proof fn law_sizes_read_back(n: u16)
    ensures
        parsed_size(dec(n as nat)) == Some(n),
        parsed_size(seq!['+'] + dec(n as nat)) == Some(n),
{
    numeral_reads_back(n as nat);
    let digits = dec(n as nat);
    assert(digits[0] != '+') by {
        assert(is_digit(digits[0]));
    }
    assert((seq!['+'] + digits).drop_first() =~= digits);
}

/// What is no numeral is no size, and a size is never zero unless the fallback is.
pub proof fn law_bad_sizes_fall_back(text: Seq<char>, fallback: u16, i: int)
    requires
        0 <= i < text.len(),
        !is_digit(text[i]),
        i > 0 || text[i] != '+',
    ensures
        parsed_size(text) is None,
        dimension(Some(text), fallback) == fallback,
        dimension(None, fallback) == fallback,
{
    let digits = numeral_digits(text);
    if text[0] == '+' {
        assert(digits[i - 1] == text[i]);
    } else {
        assert(digits[i] == text[i]);
    }
}

/// A size that is not told falls back to eighty columns by twenty-four rows, each
/// dimension on its own.
pub proof fn law_untold_sizes_fall_back(
    columns: Option<&str>,
    lines: Option<&str>,
    size: (u16, u16),
    other: (u16, u16),
)
    requires
        call_ensures(terminal_size, (columns, lines), size),
        call_ensures(terminal_size, (columns, None), other),
    ensures
        columns is None ==> size.0 == FALLBACK_COLS,
        lines is None ==> size.1 == FALLBACK_ROWS,
        size.0 == other.0,
        other.1 == FALLBACK_ROWS,
        size.0 > 0 && size.1 > 0,
{
}

} // verus!
