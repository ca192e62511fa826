//! The restaurant's kitchen garden.

pub mod vegetables;
