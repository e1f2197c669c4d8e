//! What the operations do, told of their arguments and results alone.
//!
//! Each law speaks of any call of a function: where the call has ended, so much holds of what went
//! in and what came out.

pub mod handles;
pub mod making;
pub mod recording;
pub mod values;
