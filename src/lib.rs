//! Small verified library: a line filter for text search, with the
//! command-line configuration around it, and a set of small value types.

pub mod text;
pub mod search;
pub mod laws;
pub mod config;
pub mod shapes;
pub mod guess;
pub mod numbers;
pub mod coins;
pub mod words;
pub mod shoes;
pub mod shirts;
pub mod summary;
pub mod front_of_house;
pub mod back_of_house;
pub mod restaurant;
