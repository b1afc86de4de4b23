//! Timing of agent turns.
//!
//! A turn is one exchange with the user, in which the agent samples a model, perhaps several times.
//! [`TurnTimingState`](turn_timing::TurnTimingState) records when a turn started, when its first
//! output and its first message were seen, and how its time divides up into sampling and the rest.
//!
//! - [`clock`]: readings of the system's clocks, spans, and the units they are reported in
//! - [`protocol`]: what the model streams back
//! - [`first_output`]: which parts of that count as output
//! - [`turn_timing`]: the record of a turn and the operations on it
//! - [`model`]: the mathematical model that contracts speak of
//! - [`laws`]: what holds of turns as a whole
//! - [`operation_laws`]: what holds of each operation, call by call
//! - [`series_laws`]: what is handed back after a series of events
pub mod clock;
pub mod first_output;
pub mod laws;
pub mod model;
pub mod operation_laws;
pub mod protocol;
pub mod series_laws;
pub mod turn_timing;
