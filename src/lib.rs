//! Two- and three-component vectors with arithmetic, products, projections
//! and swizzles, generic over the component type.
pub mod interchange;
pub mod laws;
pub mod scalar;
pub mod vector2;
pub mod vector3;

pub use vector2::Vector2;
pub use vector3::Vector3;
