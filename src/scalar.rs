//! What the vector operations know of their component type.
//!
//! A vector's components are of any `Copy` type with the arithmetic of
//! `core::ops`. Each predicate below says that `r` is a result that the
//! component type's own operation gives for the operands; the vector
//! operations are stated component by component through them, so one
//! definition serves every component type and both dimensions.
use vstd::prelude::*;

verus! {

/// `r` is what `a + b` gives on the component type.
pub open spec fn sum_of<T: core::ops::Add<Output = T>>(a: T, b: T, r: T) -> bool {
    call_ensures(<T as core::ops::Add>::add, (a, b), r)
}

/// `r` is what `a - b` gives on the component type.
pub open spec fn difference_of<T: core::ops::Sub<Output = T>>(a: T, b: T, r: T) -> bool {
    call_ensures(<T as core::ops::Sub>::sub, (a, b), r)
}

/// `r` is what `a * b` gives on the component type.
pub open spec fn product_of<T: core::ops::Mul<Output = T>>(a: T, b: T, r: T) -> bool {
    call_ensures(<T as core::ops::Mul>::mul, (a, b), r)
}

/// `r` is what `a / b` gives on the component type.
pub open spec fn quotient_of<T: core::ops::Div<Output = T>>(a: T, b: T, r: T) -> bool {
    call_ensures(<T as core::ops::Div>::div, (a, b), r)
}

/// `r` is what `-a` gives on the component type.
pub open spec fn negation_of<T: core::ops::Neg<Output = T>>(a: T, r: T) -> bool {
    call_ensures(<T as core::ops::Neg>::neg, (a,), r)
}

/// `r` is what `a == b` gives on the component type.
pub open spec fn equal_to<T: PartialEq>(a: T, b: T, r: bool) -> bool {
    call_ensures(<T as PartialEq>::eq, (&a, &b), r)
}

/// `r` is what `a < b` gives on the component type.
pub open spec fn less_than<T: PartialOrd>(a: T, b: T, r: bool) -> bool {
    call_ensures(<T as PartialOrd>::lt, (&a, &b), r)
}

/// `r` is what `a <= b` gives on the component type.
pub open spec fn at_most<T: PartialOrd>(a: T, b: T, r: bool) -> bool {
    call_ensures(<T as PartialOrd>::le, (&a, &b), r)
}

/// `r` is the component type's zero, as its `Default` gives it.
pub open spec fn zero_of<T: Default>(r: T) -> bool {
    call_ensures(<T as Default>::default, (), r)
}

} // verus!
