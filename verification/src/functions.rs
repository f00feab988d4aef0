//! Small free functions over integers and text.

use vstd::prelude::*;

verus! {

/// Returns whether `input_string` contains the character `'a'` and whether it
/// contains the character `'z'`, in that order.
pub fn alphabets(input_string: &str) -> (result: (bool, bool))
    ensures
        result.0 == input_string@.contains('a'),
        result.1 == input_string@.contains('z'),
{
    (contains_char(input_string, 'a'), contains_char(input_string, 'z'))
}

/// Returns whether `target` occurs among the characters of `input_string`.
pub fn contains_char(input_string: &str, target: char) -> (found: bool)
    ensures
        found == input_string@.contains(target),
{
    let length = input_string.unicode_len();
    let mut i: usize = 0;
    while i < length
        invariant
            i <= length,
            length == input_string@.len(),
            forall|j: int| 0 <= j < i ==> input_string@[j] != target,
        decreases length - i,
    {
        if input_string.get_char(i) == target {
            proof {
                assert(input_string@.contains(target));
            }
            return true;
        }
        i = i + 1;
    }
    proof {
        assert(!input_string@.contains(target));
    }
    false
}

/// Returns whether `input_value` is even.
pub fn is_even(input_value: i32) -> (result: bool)
    ensures
        result == (input_value as int % 2 == 0),
{
    0 == input_value % 2
}

/// Returns the square of `input_value`. The bound on the input keeps the
/// square within `i32`.
pub fn square_value(input_value: i32) -> (result: i32)
    requires
        -46340 <= input_value <= 46340,
    ensures
        result == input_value * input_value,
{
    proof {
        assert(0 <= input_value * input_value <= 46340 * 46340) by (nonlinear_arith)
            requires
                -46340 <= input_value <= 46340,
        ;
    }
    input_value * input_value
}

} // verus!
