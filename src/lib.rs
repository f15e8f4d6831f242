//! Constant propagation over a small intermediate language, driven by a
//! generic fixed-point engine, and the x86 register aliasing model that
//! lifts register reads and writes into that language.

pub mod error;
pub mod il;
pub mod constants;
pub mod fixed_point;
pub mod x86register;
