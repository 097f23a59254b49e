//! Shared parts of the SSD16xx ("type A") panels.
pub mod command;
