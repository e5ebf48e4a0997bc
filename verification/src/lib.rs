//! A utility-AI decision core.
//!
//! Candidate actions ("choices") aggregate the scores of one or more
//! considerations into a single utility number, and a pluggable selection
//! policy (a "picker") turns an ordered list of choices into a single winner,
//! or no winner, under a configurable threshold.
//!
//! Score values are fixed-point integers; the host picks the scale (for
//! example, thousandths). All utilities are computed exactly.

pub mod choices;
pub mod laws;
pub mod pickers;
pub mod scorers;
