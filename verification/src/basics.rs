//! Small arithmetic exercises: parity of an integer, and the four basic
//! operations on a pair of integers. The runtime prints the results.

use vstd::prelude::*;

verus! {

/// Whether `number` is even.
pub fn is_even(number: i32) -> (even: bool)
    ensures
        even <==> number % 2 == 0,
{
    number % 2 == 0
}

/// The four basic operations on a pair of integers: their sum, their
/// difference, their product, and the quotient of the first number by
/// itself (which is 1 whenever the first number is not zero).
pub fn calculate(number_1: i32, number_2: i32) -> (operations: (i32, i32, i32, i32))
    requires
        i32::MIN <= number_1 + number_2 <= i32::MAX,
        i32::MIN <= number_1 - number_2 <= i32::MAX,
        i32::MIN <= number_1 * number_2 <= i32::MAX,
        number_1 != 0,
    ensures
        operations.0 == number_1 + number_2,
        operations.1 == number_1 - number_2,
        operations.2 == number_1 * number_2,
        operations.3 == 1,
{
    proof {
        if number_1 < 0 {
            vstd::arithmetic::div_mod::lemma_div_by_self(number_1 as int * -1);
        } else {
            vstd::arithmetic::div_mod::lemma_div_by_self(number_1 as int);
        }
    }
    let quotient: i32 = number_1.checked_div(number_1).unwrap();
    (
        number_1 + number_2,
        number_1 - number_2,
        number_1 * number_2,
        quotient,
    )
}

} // verus!
