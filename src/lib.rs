//! Timelines of planned work: when each one runs, what it is worth on a
//! given day, and a randomised forecast of when and at what value it lands.

pub mod date;
pub mod metrics;
pub mod timelines;
