//! Record types with constructor functions and chainable update methods.

use vstd::prelude::*;

verus! {

/// A computer build, updated field by field through chainable methods.
#[derive(Debug)]
pub struct Computer {
    pub cpu: String,
    pub memory: u32,
    pub hard_drive_capacity: u32,
}

impl Computer {
    pub fn new(cpu: String, memory: u32, hard_drive_capacity: u32) -> (computer: Self)
        ensures
            computer.cpu@ == cpu@,
            computer.memory == memory,
            computer.hard_drive_capacity == hard_drive_capacity,
    {
        Self { cpu, memory, hard_drive_capacity }
    }

    /// Replaces the CPU; returning the borrow lets callers chain updates.
    pub fn update_cpu(&mut self, new_cpu: String) -> (result: &mut Self)
        ensures
            result.cpu@ == new_cpu@,
            result.memory == old(self).memory,
            result.hard_drive_capacity == old(self).hard_drive_capacity,
            *final(self) == *final(result),
    {
        self.cpu = new_cpu;
        self
    }

    /// Replaces the amount of memory; chainable like `update_cpu`.
    pub fn update_memory(&mut self, new_amount: u32) -> (result: &mut Self)
        ensures
            result.cpu == old(self).cpu,
            result.memory == new_amount,
            result.hard_drive_capacity == old(self).hard_drive_capacity,
            *final(self) == *final(result),
    {
        self.memory = new_amount;
        self
    }

    /// Replaces the hard-drive capacity; chainable like `update_cpu`.
    pub fn upgrade_capacity(&mut self, new_amount: u32) -> (result: &mut Self)
        ensures
            result.cpu == old(self).cpu,
            result.memory == old(self).memory,
            result.hard_drive_capacity == new_amount,
            *final(self) == *final(result),
    {
        self.hard_drive_capacity = new_amount;
        self
    }
}

/// A song record: title, release year, and duration in seconds.
#[derive(Debug)]
pub struct EminemSong {
    pub title: String,
    pub release_year: u32,
    pub duration_secs: u32,
}

impl EminemSong {
    pub fn new(title: String, release_year: u32, duration_secs: u32) -> (song: Self)
        ensures
            song.title@ == title@,
            song.release_year == release_year,
            song.duration_secs == duration_secs,
    {
        Self { title, release_year, duration_secs }
    }

    /// The number of whole years between the song's release and 2025.
    pub fn calc_years_since_release(&self) -> (years: u32)
        requires
            self.release_year <= 2025,
        ensures
            years == 2025 - self.release_year,
    {
        2025 - self.release_year
    }

    /// Returns whether this song lasts strictly longer than the other one.
    pub fn is_longer_than(&self, other_song: &EminemSong) -> (result: bool)
        ensures
            result == (self.duration_secs > other_song.duration_secs),
    {
        if self.duration_secs > other_song.duration_secs {
            true
        } else {
            false
        }
    }
}

} // verus!
