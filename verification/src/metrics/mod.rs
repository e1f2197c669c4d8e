//! Metrics kept by the `prometheus` crate.

pub mod any;
pub mod delete_on_drop;
pub mod family;
pub mod float_gauge;
pub mod int_counter;
pub mod int_gauge;
pub mod uint_counter;
pub mod uint_gauge;
pub mod vector;
