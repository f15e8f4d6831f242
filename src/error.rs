use vstd::prelude::*;

verus! {

/// Errors raised by the library.
#[derive(Clone, Copy, Debug, PartialEq, Eq, Structural)]
pub enum Error {
    /// Operand widths do not fit the operation.
    Sort,
    /// An expression to evaluate still refers to a scalar.
    FreeScalar,
    /// A register identifier is absent from the mode's register table.
    RegisterNotFound,
    /// A location index lies outside the function.
    BadLocation,
}

} // verus!
