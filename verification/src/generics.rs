//! Generic containers and functions over a type parameter.

use vstd::prelude::*;
use crate::text::{trim_text, trimmed};

verus! {

/// A captain's treasure of some generic kind.
#[derive(Debug)]
pub struct Treasure<T> {
    pub captain: String,
    pub treasure: T,
}

impl Treasure<String> {
    /// Removes leading and trailing blank characters from the treasure text.
    pub fn clean_treasure(&mut self)
        ensures
            final(self).captain@ == old(self).captain@,
            final(self).treasure@ == trimmed(old(self).treasure@),
    {
        let cleaned = trim_text(self.treasure.as_str());
        self.treasure = cleaned;
    }
}

impl Treasure<i32> {
    /// Sets the treasure to the given bounty amount.
    pub fn set_bounty(&mut self, value_amount: i32)
        ensures
            final(self).captain@ == old(self).captain@,
            final(self).treasure == value_amount,
    {
        self.treasure = value_amount;
    }
}

impl Treasure<[&'static str; 3]> {
    /// Sets the treasure to the three fixed jewels.
    pub fn set_jewels(&mut self)
        ensures
            final(self).captain@ == old(self).captain@,
            final(self).treasure@[0]@ == "Diamond"@,
            final(self).treasure@[1]@ == "Ruby"@,
            final(self).treasure@[2]@ == "Sapphire"@,
    {
        self.treasure = ["Diamond", "Ruby", "Sapphire"];
    }
}

impl<T> Treasure<T> {
    /// Hands the treasure to a new captain.
    pub fn change_captain(&mut self, new_captain: String)
        ensures
            final(self).captain@ == new_captain@,
            final(self).treasure == old(self).treasure,
    {
        self.captain = new_captain;
    }

    /// Consumes the record and returns ownership of the treasure alone.
    pub fn get_treasure(self) -> (result: T)
        ensures
            result == self.treasure,
    {
        self.treasure
    }
}

/// A piece of digital entertainment.
#[derive(Debug)]
pub enum DigitalContent {
    AudioFile,
    VideoFile,
}

/// A message with some generic content and the time it was sent.
#[derive(Debug)]
pub struct ChatMessage<T> {
    pub content: T,
    pub time: String,
}

impl<T> ChatMessage<T> {
    /// A read-only view of the time the message was sent.
    pub fn retrieve_time(&self) -> (result: &String)
        ensures
            result@ == self.time@,
    {
        &self.time
    }
}

/// Pairs a generic first element with an `i32` second element.
pub fn make_tuple<T>(first: T, second: i32) -> (result: (T, i32))
    ensures
        result.0 == first,
        result.1 == second,
{
    (first, second)
}

/// Pairs two elements of one generic type.
pub fn make_tuple_2<T>(first: T, second: T) -> (result: (T, T))
    ensures
        result.0 == first,
        result.1 == second,
{
    (first, second)
}

/// Pairs two elements of two independent generic types.
pub fn make_tuple_3<T, U>(first: T, second: U) -> (result: (T, U))
    ensures
        result.0 == first,
        result.1 == second,
{
    (first, second)
}

/// Returns its argument unchanged.
pub fn identity<T>(value: T) -> (result: T)
    ensures
        result == value,
{
    value
}

} // verus!
