//! Conversion to and from `mint`'s vector records, the plain `{x, y[, z]}`
//! types through which other libraries exchange vectors.
use vstd::prelude::*;
use crate::vector2::Vector2;
use crate::vector3::Vector3;
use mint::Vector2 as MintVector2;
use mint::Vector3 as MintVector3;

verus! {

/// `mint::Vector2`: a record with public fields `x` and `y`.
#[verifier::external_type_specification]
#[verifier::reject_recursive_types(T)]
pub struct ExMintVector2<T>(MintVector2<T>);

/// `mint::Vector3`: a record with public fields `x`, `y` and `z`.
#[verifier::external_type_specification]
#[verifier::reject_recursive_types(T)]
pub struct ExMintVector3<T>(MintVector3<T>);

impl<T> From<Vector2<T>> for MintVector2<T> {
    /// Moves the components into the interchange record.
    fn from(v: Vector2<T>) -> (r: MintVector2<T>)
        ensures
            r.x == v.x && r.y == v.y,
    {
        MintVector2 { x: v.x, y: v.y }
    }
}

impl<T> vstd::std_specs::convert::FromSpecImpl<Vector2<T>> for MintVector2<T> {
    open spec fn obeys_from_spec() -> bool {
        true
    }

    open spec fn from_spec(v: Vector2<T>) -> MintVector2<T> {
        MintVector2 { x: v.x, y: v.y }
    }
}

impl<T> mint::IntoMint for Vector2<T> {
    type MintType = MintVector2<T>;
}

impl<T> From<Vector3<T>> for MintVector3<T> {
    /// Moves the components into the interchange record.
    fn from(v: Vector3<T>) -> (r: MintVector3<T>)
        ensures
            r.x == v.x && r.y == v.y && r.z == v.z,
    {
        MintVector3 { x: v.x, y: v.y, z: v.z }
    }
}

impl<T> vstd::std_specs::convert::FromSpecImpl<Vector3<T>> for MintVector3<T> {
    open spec fn obeys_from_spec() -> bool {
        true
    }

    open spec fn from_spec(v: Vector3<T>) -> MintVector3<T> {
        MintVector3 { x: v.x, y: v.y, z: v.z }
    }
}

impl<T> From<MintVector3<T>> for Vector3<T> {
    /// Takes the components from the interchange record.
    fn from(v: MintVector3<T>) -> (r: Vector3<T>)
        ensures
            r.x == v.x && r.y == v.y && r.z == v.z,
    {
        Vector3 { x: v.x, y: v.y, z: v.z }
    }
}

impl<T> vstd::std_specs::convert::FromSpecImpl<MintVector3<T>> for Vector3<T> {
    open spec fn obeys_from_spec() -> bool {
        true
    }

    open spec fn from_spec(v: MintVector3<T>) -> Vector3<T> {
        Vector3 { x: v.x, y: v.y, z: v.z }
    }
}

impl<T> mint::IntoMint for Vector3<T> {
    type MintType = MintVector3<T>;
}

} // verus!
