//! Decisions of a desktop media browser's filesystem gateway: which directory
//! entries are videos, in what order listings are shown, how a probing tool's
//! report becomes video metadata, and which helper program opens or reveals a
//! file. Reading directories and running programs is left to the caller.

pub mod text;
pub mod error;
pub mod entry;
pub mod sorting;
pub mod listing;
pub mod scan;
pub mod json;
pub mod numbers;
pub mod command;
pub mod probe;
pub mod thumbnail;
pub mod launcher;
pub mod greeting;
