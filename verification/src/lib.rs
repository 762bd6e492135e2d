//! Fixed-size vector, matrix, quaternion and transform values for graphics
//! code, with every scalar carried as its IEEE-754 bit pattern.
//!
//! The verified core covers what is exact: construction, component layout,
//! conversion between widths, sizes and plain arrays, transposition and
//! IEEE equality. A `u32` component is the bit pattern of a single-precision
//! number, a `u64` component that of a double-precision number.

pub mod mat;
pub mod precision;
pub mod quat;
pub mod scalar;
pub mod trs;
pub mod vec;

pub use mat::{DMat2, DMat3, DMat4, Mat2, Mat3, Mat4};
pub use quat::{DQuat, Quat};
pub use trs::{DTrs, Trs};
pub use vec::{DVec2, DVec3, DVec4, Vec2, Vec3, Vec4};
