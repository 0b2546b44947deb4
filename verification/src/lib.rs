//! A small demographic-mobility model: a participant is assigned a race
//! category and a starting socioeconomic quintile, then advances through up
//! to five generational transitions drawn from race-conditioned weight
//! tables, with an absorbing incarceration state and a deterministic
//! release rule.

pub mod codec;
pub mod demographic;
pub mod laws;
mod rng;
pub mod tables;

pub use demographic::Class;
pub use demographic::Demo;
pub use demographic::Race;
pub use demographic::assign_race;
pub use demographic::assign_starting_class;
