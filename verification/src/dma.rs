//! Direct Memory Access Controller.

pub mod register;
