//! A three-component value type: the layout, the index contract and the
//! componentwise evaluation patterns of a 3D vector, generic over the
//! component type so that any scalar arithmetic can be plugged in.

mod axis;
mod laws;
mod vector;

pub use axis::{axis_at, Axis};
pub use laws::{
    commutative2, deterministic1, deterministic2, lemma_cross_anticommutes, lemma_cross_self_is_zero,
    lemma_dot_commutes, lemma_zip_with_commutes, negation_reverses, self_difference_is,
};
pub use vector::{
    cross_by, cross_component_by, dot_by, mapped_by, total1, total2, zipped_by, Vec3,
};
