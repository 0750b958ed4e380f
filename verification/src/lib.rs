//! A small 3D math kernel: a four-component homogeneous vector and a 4x4
//! matrix in column-major storage, with the transform and projection
//! constructors of a real-time rendering pipeline.
//!
//! The kernel is generic over its scalar. Every scalar operation carries a
//! specification function naming its result, and every vector and matrix
//! operation is specified exactly in terms of those names, so the layout and
//! composition logic proved here holds for any scalar whose operations meet
//! their contracts. The crate ships a fully verified exact integer scalar;
//! an application may supply an IEEE floating-point scalar of its own, whose
//! arithmetic the verifier does not see.

pub mod laws;
pub mod mat4;
pub mod scalar;
pub mod vec4;

pub use mat4::Mat4;
pub use scalar::Scalar;
pub use vec4::Vec4;
