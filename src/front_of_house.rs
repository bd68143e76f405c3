//! The part of a restaurant that guests see.

pub mod hosting;
