//! Functions that take and hand back owned strings.

use vstd::prelude::*;
use vstd::string::StringExecFns;

verus! {

/// Consumes a meal and returns it emptied of all its text.
pub fn eat_meal(meal: String) -> (result: String)
    ensures
        result@ == Seq::<char>::empty(),
{
    let _ = meal;
    String::new()
}

/// Returns a freshly baked cake.
pub fn bake_cake() -> (cake: String)
    ensures
        cake@ == "Chocolate Mousse"@,
{
    let cake = "Chocolate Mousse".to_owned();
    cake
}

/// Appends the flour step to the meal and returns the extended meal.
pub fn add_flour(meal: String) -> (result: String)
    ensures
        result@ == meal@ + "Add Flour\n"@,
{
    let mut extended = meal;
    extended.append("Add Flour\n");
    extended
}

/// Takes ownership of its input and leaves it untouched: the received string
/// is immutable here, so nothing can be added to it.
pub fn add_fries(input_string: String) {
    let _ = input_string;
}

} // verus!
