// Exact linear algebra for 3D geometry: homogeneous 4-component vectors and
// dense matrices over `i64`, with determinants by cofactor expansion, exact
// inverses as rational matrices, and decimal rounding of rational values.

pub mod error;
pub mod scalar;
pub mod vector;
pub mod matrix;
pub mod algebra;
mod laplace;
