//! Functions whose results are optional values or successes and errors.

use vstd::prelude::*;

verus! {

/// A dish served by a restaurant.
#[derive(Debug)]
pub struct Food {
    pub name: String,
}

/// A restaurant whose service depends on its bookings and its hygiene.
#[derive(Debug)]
pub struct Restaurant {
    pub reservations: u32,
    pub has_mice_infestation: bool,
}

impl Restaurant {
    /// The special of the day: nothing during an infestation, sashimi on a
    /// quiet day, steak on a busy one.
    pub fn chef_special(&self) -> (result: Option<Food>)
        ensures
            self.has_mice_infestation ==> result is None,
            !self.has_mice_infestation && self.reservations < 12 ==> (result matches Some(food)
                && food.name@ == "Uno Sashimi"@),
            !self.has_mice_infestation && self.reservations >= 12 ==> (result matches Some(food)
                && food.name@ == "Strip Steak"@),
    {
        if self.has_mice_infestation {
            None
        } else if self.reservations < 12 {
            Some(Food { name: "Uno Sashimi".to_owned() })
        } else {
            Some(Food { name: "Strip Steak".to_owned() })
        }
    }

    /// Delivers a burger, unless the restaurant is infested or no delivery
    /// address was given; each failure carries its own message.
    pub fn deliver_burger(&self, address: &str) -> (result: Result<Food, String>)
        ensures
            self.has_mice_infestation ==> (result matches Err(message)
                && message@ == "Sorry, we have a mice problem"@),
            !self.has_mice_infestation && address@.len() == 0 ==> (result matches Err(message)
                && message@ == "No Delivery Address Specified"@),
            !self.has_mice_infestation && address@.len() > 0 ==> (result matches Ok(food)
                && food.name@ == "Burger"@),
    {
        if self.has_mice_infestation {
            Err("Sorry, we have a mice problem".to_owned())
        } else if address.is_empty() {
            Err("No Delivery Address Specified".to_owned())
        } else {
            Ok(Food { name: "Burger".to_owned() })
        }
    }
}

/// Reports a great success, or the failure message otherwise.
pub fn operation(great_success: bool) -> (result: Result<String, String>)
    ensures
        great_success ==> (result matches Ok(message)
            && message@ == "Operation was a great success!"@),
        !great_success ==> (result matches Err(message)
            && message@ == "Operation failed."@),
{
    if great_success {
        Ok("Operation was a great success!".to_owned())
    } else {
        Err("Operation failed.".to_owned())
    }
}

/// A home-made optional `i32`, with a variant for a present value and one
/// for a missing value.
#[derive(Debug, Copy, Clone)]
pub enum MyOption {
    Present(i32),
    Missing,
}

impl MyOption {
    /// Extracts the stored value. Callers must know a value is present:
    /// there is nothing to return otherwise.
    pub fn unwrap(self) -> (result: i32)
        requires
            self is Present,
        ensures
            self matches MyOption::Present(value) && result == value,
    {
        match self {
            MyOption::Present(value) => value,
            MyOption::Missing => {
                proof {
                    assert(false);
                }
                0
            },
        }
    }

    /// Extracts the stored value, falling back to `default` when empty.
    pub fn unwrap_or(self, default: i32) -> (result: i32)
        ensures
            self matches MyOption::Present(value) ==> result == value,
            self is Missing ==> result == default,
    {
        match self {
            MyOption::Present(value) => value,
            MyOption::Missing => default,
        }
    }
}

/// `Some(true)` for an item in stock, `Some(false)` for one the catalog
/// knows but has run out of, and `None` for one the catalog does not know.
pub fn is_item_in_stock(item_in_system: bool, item_in_stock: bool) -> (result: Option<bool>)
    ensures
        item_in_system && item_in_stock ==> result == Some(true),
        item_in_system && !item_in_stock ==> result == Some(false),
        !item_in_system ==> result is None,
{
    if item_in_system && item_in_stock {
        Some(true)
    } else if item_in_system {
        Some(false)
    } else {
        None
    }
}

} // verus!
