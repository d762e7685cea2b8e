//! Written numbers read back.

use crate::text;
use vstd::prelude::*;

verus! {

/// What a digit stands for.
pub open spec fn digit_value(digit: char) -> int {
    if '0' <= digit && digit <= '9' {
        digit as int - '0' as int
    } else {
        digit as int - 'a' as int + 10
    }
}

/// What digits stand for, most significant first.
pub open spec fn digits_value(all: Seq<char>, base: int) -> int
    decreases all.len(),
{
    if all.len() == 0 {
        0
    } else {
        digits_value(all.drop_last(), base) * base + digit_value(all.last())
    }
}

/// A written number stands for the number, with digits below the base alone
/// and no zero in front of others.
pub proof fn written_numbers_read_back(value: int, base: int)
    requires
        0 <= value,
        2 <= base <= 16,
    ensures
        digits_value(text::digits(value, base), base) == value,
        text::digits(value, base).len() > 0,
        forall|i: int|
            0 <= i < text::digits(value, base).len() ==> 0 <= digit_value(
                #[trigger] text::digits(value, base)[i],
            ) < base,
        value > 0 ==> text::digits(value, base)[0] != '0',
    decreases value,
{
    let all = text::digits(value, base);
    reveal_with_fuel(digits_value, 2);
    if value < base {
        assert(all =~= seq![text::digit_char(value)]);
        assert(all.drop_last() =~= Seq::<char>::empty());
        assert(digit_value(all.last()) == value);
        assert(digits_value(all.drop_last(), base) == 0);
    } else {
        assert(0 < value / base < value && (value / base) * base + value % base == value && 0
            <= value % base < base) by (nonlinear_arith)
            requires
                base >= 2,
                value >= base,
        ;
        let front = text::digits(value / base, base);
        written_numbers_read_back(value / base, base);
        assert(all == front.push(text::digit_char(value % base)));
        assert(all.drop_last() =~= front);
        assert(digit_value(all.last()) == value % base);
        assert(all[0] == front[0]);
        assert forall|i: int| 0 <= i < all.len() implies 0 <= digit_value(#[trigger] all[i])
            < base by {
            if i < front.len() {
                assert(all[i] == front[i]);
            }
        }
    }
}

/// Two numbers that are written alike are equal.
pub proof fn numbers_are_written_apart(left: int, right: int, base: int)
    requires
        0 <= left,
        0 <= right,
        2 <= base <= 16,
        text::digits(left, base) == text::digits(right, base),
    ensures
        left == right,
{
    written_numbers_read_back(left, base);
    written_numbers_read_back(right, base);
}

} // verus!
