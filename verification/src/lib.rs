//! A small library of verified exercises, built around one data structure:
//! [`folder::Folder`], an owning, ordered container of named records with
//! append, remove-at-index and lookup-at-index operations.

pub mod borrowing;
pub mod enums;
pub mod folder;
pub mod functions;
pub mod generics;
pub mod outcomes;
pub mod ownership;
pub mod structs;
pub mod text;
pub mod workout;
