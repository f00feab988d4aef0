//! Functions that extend a string in place through a mutable reference.

use vstd::prelude::*;
use vstd::string::StringExecFns;

verus! {

/// Begins a travel plan.
pub fn start_trip() -> (plan: String)
    ensures
        plan@ == "The plan is "@,
{
    let plan = "The plan is ".to_owned();
    plan
}

/// Appends Philadelphia to the travel plan.
pub fn visit_philadelphia(input_string: &mut String)
    ensures
        final(input_string)@ == old(input_string)@ + " and Philadelphia"@,
{
    input_string.append(" and Philadelphia");
}

/// Appends New York to the travel plan.
pub fn visit_new_york(input_string: &mut String)
    ensures
        final(input_string)@ == old(input_string)@ + " and New York"@,
{
    input_string.append(" and New York");
}

/// Appends Boston to the travel plan.
pub fn visit_boston(input_string: &mut String)
    ensures
        final(input_string)@ == old(input_string)@ + " and Boston"@,
{
    input_string.append(" and Boston");
}

/// Appends the flour step to the meal and returns the extended meal.
pub fn add_flour(input_meal: String) -> (result: String)
    ensures
        result@ == input_meal@ + "\nAdd Flour"@,
{
    let mut extended = input_meal;
    extended.append("\nAdd Flour");
    extended
}

/// Appends a second flour step to the meal in place.
pub fn add_flour_2(input_meal: &mut String)
    ensures
        final(input_meal)@ == old(input_meal)@ + "\nAdd More Flour"@,
{
    input_meal.append("\nAdd More Flour");
}

} // verus!
