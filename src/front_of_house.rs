//! Everything a guest meets before the kitchen.

pub mod hosting;
mod serving;
