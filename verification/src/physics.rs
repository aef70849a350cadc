//! Physics descriptors: the plain serialization data model for bodies,
//! colliders and joints.

pub mod desc;
