use vstd::prelude::*;
use vstd::string::is_ascii_spec_bytes;

verus! {

/// The character is one of the ten digits.
pub open spec fn is_digit(c: char) -> bool {
    '0' <= c <= '9'
}

/// The number that a digit stands for.
pub open spec fn digit_value(c: char) -> int {
    c as int - '0' as int
}

/// Every character of the text is a digit.
pub open spec fn all_digits(text: Seq<char>) -> bool {
    forall|i: int| 0 <= i < text.len() ==> is_digit(#[trigger] text[i])
}

/// The number that a run of digits writes; the empty run writes 0.
pub open spec fn digits_value(digits: Seq<char>) -> int
    decreases digits.len(),
{
    if digits.len() == 0 {
        0
    } else {
        10 * digits_value(digits.drop_last()) + digit_value(digits.last())
    }
}

/// The text begins with a sign.
pub open spec fn is_signed(text: Seq<char>) -> bool {
    text.len() > 0 && (text[0] == '-' || text[0] == '+')
}

/// The text without its sign, if it has one.
pub open spec fn unsigned_part(text: Seq<char>) -> Seq<char> {
    if is_signed(text) {
        text.subrange(1, text.len() as int)
    } else {
        text
    }
}

/// The integer that a text writes: an optional `+` or `-` and then one digit
/// or more, and nothing else. No other text writes an integer.
pub open spec fn written(text: Seq<char>) -> Option<int> {
    let digits = unsigned_part(text);
    if digits.len() > 0 && all_digits(digits) {
        if text[0] == '-' {
            Some(-digits_value(digits))
        } else {
            Some(digits_value(digits))
        }
    } else {
        None
    }
}

/// The integer that a text writes, where it writes one that 64 bits hold.
pub open spec fn parsed(text: Seq<char>) -> Option<i64> {
    match written(text) {
        Some(number) => if i64::MIN <= number <= i64::MAX {
            Some(number as i64)
        } else {
            None
        },
        None => None,
    }
}

/// A run of digits writes no negative number, and no less than any run that
/// it begins with.
pub proof fn digits_value_grows(digits: Seq<char>, count: int)
    requires
        all_digits(digits),
        0 <= count <= digits.len(),
    ensures
        0 <= digits_value(digits.subrange(0, count)) <= digits_value(digits),
    decreases digits.len() - count,
{
    let head = digits.subrange(0, count);
    if count == digits.len() {
        assert(head =~= digits);
        digits_value_nonnegative(digits);
    } else {
        let next = digits.subrange(0, count + 1);
        digits_value_grows(digits, count + 1);
        assert(next.drop_last() =~= head);
        assert(is_digit(next.last()));
        digits_value_nonnegative(head);
    }
}

/// A run of digits writes no negative number.
pub proof fn digits_value_nonnegative(digits: Seq<char>)
    requires
        all_digits(digits),
    ensures
        0 <= digits_value(digits),
    decreases digits.len(),
{
    if digits.len() > 0 {
        assert(is_digit(digits.last()));
        digits_value_nonnegative(digits.drop_last());
    }
}

/// Reads a text as an integer of 64 bits.
pub fn parse(text: &str) -> (number: Option<i64>)
    ensures
        number == parsed(text@),
{
    if !text.is_ascii() {
        proof {
            let i = choose|i: int|
                0 <= i < text@.len() && !('\0' <= #[trigger] text@[i] <= '\u{7f}');
            let j = if is_signed(text@) {
                i - 1
            } else {
                i
            };
            assert(i > 0 || !is_signed(text@));
            assert(!is_digit(unsigned_part(text@)[j]));
        }
        return None;
    }
    let bytes = text.as_bytes();
    proof {
        is_ascii_spec_bytes(text);
    }
    let length = bytes.len();
    if length == 0 {
        return None;
    }
    let negative = bytes[0] == 45;
    let start: usize = if negative || bytes[0] == 43 {
        1
    } else {
        0
    };
    let ghost digits = unsigned_part(text@);
    assert(negative == (text@[0] == '-') && is_signed(text@) == (start == 1)) by {
        assert(bytes@[0] == text@[0] as u8);
    }
    if start == length {
        return None;
    }
    let mut total: i64 = 0;
    let mut i: usize = start;
    while i < length
        invariant
            start <= i <= length,
            length == bytes@.len() == text@.len(),
            forall|j: int| 0 <= j < length ==> #[trigger] bytes@[j] == text@[j] as u8,
            forall|j: int| 0 <= j < length ==> '\0' <= #[trigger] text@[j] <= '\u{7f}',
            digits == unsigned_part(text@),
            digits.len() == length - start,
            negative == (text@[0] == '-'),
            all_digits(digits.subrange(0, i - start)),
            total == if negative {
                -digits_value(digits.subrange(0, i - start))
            } else {
                digits_value(digits.subrange(0, i - start))
            },
        decreases length - i,
    {
        let byte = bytes[i];
        let ghost head = digits.subrange(0, i - start);
        let ghost next = digits.subrange(0, i - start + 1);
        assert(next.last() == text@[i as int] && next.drop_last() =~= head);
        if byte < 48 || byte > 57 {
            assert(!is_digit(digits[i - start]));
            return None;
        }
        assert(all_digits(next)) by {
            assert forall|j: int| 0 <= j < next.len() implies is_digit(#[trigger] next[j]) by {
                if j < head.len() {
                    assert(next[j] == head[j]);
                }
            }
        }
        let digit: i64 = (byte - 48) as i64;
        assert(digits_value(next) == 10 * digits_value(head) + digit);
        let grown = match total.checked_mul(10) {
            Some(tenfold) => if negative {
                tenfold.checked_sub(digit)
            } else {
                tenfold.checked_add(digit)
            },
            None => None,
        };
        match grown {
            Some(sum) => {
                total = sum;
            },
            None => {
                proof {
                    if all_digits(digits) {
                        digits_value_grows(digits, i - start + 1);
                    }
                }
                return None;
            },
        }
        i += 1;
    }
    assert(digits.subrange(0, i - start) =~= digits);
    Some(total)
}

} // verus!
