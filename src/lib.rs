//! A single document moving through an approval workflow, written two ways:
//! `oop` keeps the stage in a field and turns calls that do not fit the stage
//! into no-ops; `rust_way` gives each stage its own type, so that such calls
//! cannot be written at all. `lifecycle` states laws of the first over
//! sequences of calls.
pub mod oop;
pub mod lifecycle;
pub mod rust_way;
