//! Integer helpers, a greeting and a small table of unary operations, with
//! every result stated over mathematical integers and sequences.
//!
//! All arithmetic follows the 32-bit wraparound rule of [`fixed_width`]:
//! nothing here fails or reports an overflow.

pub mod fixed_width;
pub mod arith;
pub mod dispatch;
pub mod factorial;
pub mod greeting;
pub mod prime;
