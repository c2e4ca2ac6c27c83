use vstd::prelude::*;

verus! {

/// The ways an operation of this library can refuse its arguments.
#[derive(Debug, Clone, Copy, PartialEq, Eq, Structural)]
pub enum MathError {
    /// A vector index outside `0..4`, or a matrix row or column outside its shape.
    IndexOutOfRange,
    /// A square-matrix operation on a matrix whose row and column counts differ.
    NotSquare,
    /// A product of operands whose shapes are not supported together.
    DimensionMismatch,
    /// An inverse of a matrix whose determinant is zero.
    SingularMatrix,
    /// A submatrix or determinant of a matrix with no rows or columns to work on.
    InvalidArgument,
}

} // verus!
