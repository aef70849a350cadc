//! The serialization data model for physics objects: plain descriptors
//! with stable numeric tags, independent of the physics engine's own
//! types. Scalars are fixed point; converting descriptors to and from
//! live physics objects is the unverified boundary's job.

use vstd::prelude::*;
use crate::fixed::Fx;
use crate::math::{FxVec3, FxVec4};

verus! {

/// The motion type of a rigid body.
#[derive(Clone, Copy, Debug, PartialEq, Eq, Structural)]
pub enum RigidBodyTypeDesc {
    Dynamic,
    Static,
    KinematicPositionBased,
    KinematicVelocityBased,
}

impl RigidBodyTypeDesc {
    /// The default body type.
    pub fn default_value() -> (r: RigidBodyTypeDesc)
        ensures
            r == RigidBodyTypeDesc::Dynamic,
    {
        RigidBodyTypeDesc::Dynamic
    }

    /// The stable numeric tag this type is serialized as.
    pub fn id(self) -> (r: u32)
        ensures
            r == rigid_body_type_id(self),
    {
        match self {
            RigidBodyTypeDesc::Dynamic => 0,
            RigidBodyTypeDesc::Static => 1,
            RigidBodyTypeDesc::KinematicPositionBased => 2,
            RigidBodyTypeDesc::KinematicVelocityBased => 3,
        }
    }

    /// Reads a type back from its tag; fails exactly on tags no variant
    /// carries.
    pub fn from_id(id: u32) -> (r: Result<RigidBodyTypeDesc, InvalidIdError>)
        ensures
            r is Ok <==> id < 4,
            r is Ok ==> rigid_body_type_id(r->Ok_0) == id,
            r is Err ==> r->Err_0 == (InvalidIdError { id }),
    {
        match id {
            0 => Ok(RigidBodyTypeDesc::Dynamic),
            1 => Ok(RigidBodyTypeDesc::Static),
            2 => Ok(RigidBodyTypeDesc::KinematicPositionBased),
            3 => Ok(RigidBodyTypeDesc::KinematicVelocityBased),
            _ => Err(InvalidIdError { id }),
        }
    }
}

/// An unknown numeric tag was read back.
#[derive(Clone, Copy, Debug, PartialEq, Eq, Structural)]
pub struct InvalidIdError {
    pub id: u32,
}

/// Law: the numeric tag identifies the body type — reading a written
/// tag back yields the type that was written.
pub proof fn lemma_rigid_body_type_id_round_trip(t: RigidBodyTypeDesc, u: RigidBodyTypeDesc)
    ensures
        rigid_body_type_id(t) < 4,
        rigid_body_type_id(t) == rigid_body_type_id(u) ==> t == u,
{
}

/// The tag of each body type.
pub open spec fn rigid_body_type_id(t: RigidBodyTypeDesc) -> u32 {
    match t {
        RigidBodyTypeDesc::Dynamic => 0,
        RigidBodyTypeDesc::Static => 1,
        RigidBodyTypeDesc::KinematicPositionBased => 2,
        RigidBodyTypeDesc::KinematicVelocityBased => 3,
    }
}

/// A ball collider.
#[derive(Clone, Copy, Debug, PartialEq, Eq, Structural)]
pub struct BallDesc {
    pub radius: Fx,
}

/// A cylinder collider.
#[derive(Clone, Copy, Debug, PartialEq, Eq, Structural)]
pub struct CylinderDesc {
    pub half_height: Fx,
    pub radius: Fx,
}

/// A round cylinder collider.
#[derive(Clone, Copy, Debug, PartialEq, Eq, Structural)]
pub struct RoundCylinderDesc {
    pub half_height: Fx,
    pub radius: Fx,
    pub border_radius: Fx,
}

/// A cone collider.
#[derive(Clone, Copy, Debug, PartialEq, Eq, Structural)]
pub struct ConeDesc {
    pub half_height: Fx,
    pub radius: Fx,
}

/// A box collider.
#[derive(Clone, Copy, Debug, PartialEq, Eq, Structural)]
pub struct CuboidDesc {
    pub half_extents: FxVec3,
}

/// A capsule collider.
#[derive(Clone, Copy, Debug, PartialEq, Eq, Structural)]
pub struct CapsuleDesc {
    pub begin: FxVec3,
    pub end: FxVec3,
    pub radius: Fx,
}

/// A segment collider.
#[derive(Clone, Copy, Debug, PartialEq, Eq, Structural)]
pub struct SegmentDesc {
    pub begin: FxVec3,
    pub end: FxVec3,
}

/// A triangle collider.
#[derive(Clone, Copy, Debug, PartialEq, Eq, Structural)]
pub struct TriangleDesc {
    pub a: FxVec3,
    pub b: FxVec3,
    pub c: FxVec3,
}

/// A triangle-mesh collider; its data is resolved from the bound mesh,
/// not serialized.
#[derive(Clone, Copy, Debug, PartialEq, Eq, Structural)]
pub struct TrimeshDesc;

/// A heightfield collider; its data is resolved from the bound terrain,
/// not serialized.
#[derive(Clone, Copy, Debug, PartialEq, Eq, Structural)]
pub struct HeightfieldDesc;

/// The collider shapes, as a closed tagged union.
#[derive(Clone, Copy, Debug, PartialEq, Eq, Structural)]
pub enum ColliderShapeDesc {
    Ball(BallDesc),
    Cylinder(CylinderDesc),
    RoundCylinder(RoundCylinderDesc),
    Cone(ConeDesc),
    Cuboid(CuboidDesc),
    Capsule(CapsuleDesc),
    Segment(SegmentDesc),
    Triangle(TriangleDesc),
    Trimesh(TrimeshDesc),
    Heightfield(HeightfieldDesc),
}

/// The tag of each collider shape.
pub open spec fn collider_shape_id(s: ColliderShapeDesc) -> u32 {
    match s {
        ColliderShapeDesc::Ball(_) => 0,
        ColliderShapeDesc::Cylinder(_) => 1,
        ColliderShapeDesc::RoundCylinder(_) => 2,
        ColliderShapeDesc::Cone(_) => 3,
        ColliderShapeDesc::Cuboid(_) => 4,
        ColliderShapeDesc::Capsule(_) => 5,
        ColliderShapeDesc::Segment(_) => 6,
        ColliderShapeDesc::Triangle(_) => 7,
        ColliderShapeDesc::Trimesh(_) => 8,
        ColliderShapeDesc::Heightfield(_) => 9,
    }
}

impl ColliderShapeDesc {
    /// The default shape: a ball of zero radius.
    pub fn default_value() -> (r: ColliderShapeDesc)
        ensures
            r == ColliderShapeDesc::Ball(BallDesc { radius: Fx { raw: 0 } }),
    {
        ColliderShapeDesc::Ball(BallDesc { radius: Fx::zero() })
    }

    /// The stable numeric tag this shape is serialized as.
    pub fn id(&self) -> (r: u32)
        ensures
            r == collider_shape_id(*self),
    {
        match self {
            ColliderShapeDesc::Ball(_) => 0,
            ColliderShapeDesc::Cylinder(_) => 1,
            ColliderShapeDesc::RoundCylinder(_) => 2,
            ColliderShapeDesc::Cone(_) => 3,
            ColliderShapeDesc::Cuboid(_) => 4,
            ColliderShapeDesc::Capsule(_) => 5,
            ColliderShapeDesc::Segment(_) => 6,
            ColliderShapeDesc::Triangle(_) => 7,
            ColliderShapeDesc::Trimesh(_) => 8,
            ColliderShapeDesc::Heightfield(_) => 9,
        }
    }

    /// Reads a default-initialised shape back from its tag; fails
    /// exactly on tags no variant carries.
    pub fn from_id(id: u32) -> (r: Result<ColliderShapeDesc, InvalidIdError>)
        ensures
            r is Ok <==> id < 10,
            r is Ok ==> collider_shape_id(r->Ok_0) == id,
            r is Ok ==> r->Ok_0 == zeroed_collider_shape(id),
            r is Err ==> r->Err_0 == (InvalidIdError { id }),
    {
        let z = Fx::zero();
        let zv = FxVec3 { x: z, y: z, z };
        match id {
            0 => Ok(ColliderShapeDesc::Ball(BallDesc { radius: z })),
            1 => Ok(ColliderShapeDesc::Cylinder(CylinderDesc { half_height: z, radius: z })),
            2 => Ok(
                ColliderShapeDesc::RoundCylinder(
                    RoundCylinderDesc { half_height: z, radius: z, border_radius: z },
                ),
            ),
            3 => Ok(ColliderShapeDesc::Cone(ConeDesc { half_height: z, radius: z })),
            4 => Ok(ColliderShapeDesc::Cuboid(CuboidDesc { half_extents: zv })),
            5 => Ok(ColliderShapeDesc::Capsule(CapsuleDesc { begin: zv, end: zv, radius: z })),
            6 => Ok(ColliderShapeDesc::Segment(SegmentDesc { begin: zv, end: zv })),
            7 => Ok(ColliderShapeDesc::Triangle(TriangleDesc { a: zv, b: zv, c: zv })),
            8 => Ok(ColliderShapeDesc::Trimesh(TrimeshDesc)),
            9 => Ok(ColliderShapeDesc::Heightfield(HeightfieldDesc)),
            _ => Err(InvalidIdError { id }),
        }
    }
}

/// The zero-payload shape each tag reads back as.
pub open spec fn zeroed_collider_shape(id: u32) -> ColliderShapeDesc {
    let z = Fx { raw: 0 };
    let zv = FxVec3 { x: z, y: z, z: z };
    if id == 0 {
        ColliderShapeDesc::Ball(BallDesc { radius: z })
    } else if id == 1 {
        ColliderShapeDesc::Cylinder(CylinderDesc { half_height: z, radius: z })
    } else if id == 2 {
        ColliderShapeDesc::RoundCylinder(
            RoundCylinderDesc { half_height: z, radius: z, border_radius: z },
        )
    } else if id == 3 {
        ColliderShapeDesc::Cone(ConeDesc { half_height: z, radius: z })
    } else if id == 4 {
        ColliderShapeDesc::Cuboid(CuboidDesc { half_extents: zv })
    } else if id == 5 {
        ColliderShapeDesc::Capsule(CapsuleDesc { begin: zv, end: zv, radius: z })
    } else if id == 6 {
        ColliderShapeDesc::Segment(SegmentDesc { begin: zv, end: zv })
    } else if id == 7 {
        ColliderShapeDesc::Triangle(TriangleDesc { a: zv, b: zv, c: zv })
    } else if id == 8 {
        ColliderShapeDesc::Trimesh(TrimeshDesc)
    } else {
        ColliderShapeDesc::Heightfield(HeightfieldDesc)
    }
}

/// The zero-anchor joint each tag reads back as, with identity frames.
pub open spec fn zeroed_joint_params(id: u32) -> JointParamsDesc {
    let z = Fx { raw: 0 };
    let zv = FxVec3 { x: z, y: z, z: z };
    let zq = FxVec4 { x: z, y: z, z: z, w: Fx { raw: crate::fixed::FX_ONE } };
    if id == 0 {
        JointParamsDesc::BallJoint(BallJointDesc { local_anchor1: zv, local_anchor2: zv })
    } else if id == 1 {
        JointParamsDesc::FixedJoint(
            FixedJointDesc {
                local_anchor1_translation: zv,
                local_anchor1_rotation: zq,
                local_anchor2_translation: zv,
                local_anchor2_rotation: zq,
            },
        )
    } else if id == 2 {
        JointParamsDesc::PrismaticJoint(
            PrismaticJointDesc {
                local_anchor1: zv,
                local_axis1: zv,
                local_anchor2: zv,
                local_axis2: zv,
            },
        )
    } else {
        JointParamsDesc::RevoluteJoint(
            RevoluteJointDesc {
                local_anchor1: zv,
                local_axis1: zv,
                local_anchor2: zv,
                local_axis2: zv,
            },
        )
    }
}

/// Collision filtering groups: membership and filter bit masks.
#[derive(Clone, Copy, Debug, PartialEq, Eq, Structural)]
pub struct InteractionGroupsDesc {
    pub memberships: u32,
    pub filter: u32,
}

impl InteractionGroupsDesc {
    /// The default groups: member of everything, filtering nothing out.
    pub fn default_value() -> (r: InteractionGroupsDesc)
        ensures
            r == (InteractionGroupsDesc { memberships: 0xFFFF_FFFF, filter: 0xFFFF_FFFF }),
    {
        InteractionGroupsDesc { memberships: 0xFFFF_FFFF, filter: 0xFFFF_FFFF }
    }
}

/// A rigid body descriptor; `C` is the collider handle type it refers
/// to.
#[derive(Clone, Debug, PartialEq, Eq)]
pub struct RigidBodyDesc<C> {
    pub position: FxVec3,
    pub rotation: FxVec4,
    pub lin_vel: FxVec3,
    pub ang_vel: FxVec3,
    pub sleeping: bool,
    pub status: RigidBodyTypeDesc,
    pub colliders: Vec<C>,
    pub mass: Fx,
    pub x_rotation_locked: bool,
    pub y_rotation_locked: bool,
    pub z_rotation_locked: bool,
    pub translation_locked: bool,
}

impl<C> RigidBodyDesc<C> {
    /// The default body: dynamic, at the origin, of unit mass.
    pub fn default_value() -> (r: RigidBodyDesc<C>)
        ensures
            r.status == RigidBodyTypeDesc::Dynamic,
            r.mass.raw == crate::fixed::FX_ONE,
            r.colliders@.len() == 0,
            !r.sleeping,
            !r.x_rotation_locked && !r.y_rotation_locked && !r.z_rotation_locked
                && !r.translation_locked,
    {
        let z = Fx::zero();
        RigidBodyDesc {
            position: FxVec3 { x: z, y: z, z },
            rotation: FxVec4 { x: z, y: z, z, w: Fx::one() },
            lin_vel: FxVec3 { x: z, y: z, z },
            ang_vel: FxVec3 { x: z, y: z, z },
            sleeping: false,
            status: RigidBodyTypeDesc::Dynamic,
            colliders: Vec::new(),
            mass: Fx::one(),
            x_rotation_locked: false,
            y_rotation_locked: false,
            z_rotation_locked: false,
            translation_locked: false,
        }
    }
}

/// A collider descriptor; `R` is the rigid body handle type it refers
/// to.
#[derive(Clone, Debug, PartialEq, Eq)]
pub struct ColliderDesc<R> {
    pub shape: ColliderShapeDesc,
    pub parent: R,
    pub friction: Fx,
    pub density: Option<Fx>,
    pub restitution: Fx,
    pub is_sensor: bool,
    pub translation: FxVec3,
    pub rotation: FxVec4,
    pub collision_groups: InteractionGroupsDesc,
    pub solver_groups: InteractionGroupsDesc,
}

impl<R> ColliderDesc<R> {
    /// The default collider around a parent: a zero ball with a friction
    /// of one half.
    pub fn default_value(parent: R) -> (r: ColliderDesc<R>)
        ensures
            r.shape == ColliderShapeDesc::Ball(BallDesc { radius: Fx { raw: 0 } }),
            r.friction.raw == crate::fixed::FX_ONE / 2,
            r.density is None,
            r.restitution.raw == 0,
            !r.is_sensor,
    {
        let z = Fx::zero();
        ColliderDesc {
            shape: ColliderShapeDesc::default_value(),
            parent,
            friction: Fx::from_raw(32768),
            density: None,
            restitution: z,
            is_sensor: false,
            translation: FxVec3 { x: z, y: z, z },
            rotation: FxVec4 { x: z, y: z, z, w: Fx::one() },
            collision_groups: InteractionGroupsDesc::default_value(),
            solver_groups: InteractionGroupsDesc::default_value(),
        }
    }
}

/// A ball joint: two local anchors.
#[derive(Clone, Copy, Debug, PartialEq, Eq, Structural)]
pub struct BallJointDesc {
    pub local_anchor1: FxVec3,
    pub local_anchor2: FxVec3,
}

/// A fixed joint: two local frames.
#[derive(Clone, Copy, Debug, PartialEq, Eq, Structural)]
pub struct FixedJointDesc {
    pub local_anchor1_translation: FxVec3,
    pub local_anchor1_rotation: FxVec4,
    pub local_anchor2_translation: FxVec3,
    pub local_anchor2_rotation: FxVec4,
}

/// A prismatic joint: anchors and slide axes.
#[derive(Clone, Copy, Debug, PartialEq, Eq, Structural)]
pub struct PrismaticJointDesc {
    pub local_anchor1: FxVec3,
    pub local_axis1: FxVec3,
    pub local_anchor2: FxVec3,
    pub local_axis2: FxVec3,
}

/// A revolute joint: anchors and hinge axes.
#[derive(Clone, Copy, Debug, PartialEq, Eq, Structural)]
pub struct RevoluteJointDesc {
    pub local_anchor1: FxVec3,
    pub local_axis1: FxVec3,
    pub local_anchor2: FxVec3,
    pub local_axis2: FxVec3,
}

/// The joint kinds, as a closed tagged union.
#[derive(Clone, Copy, Debug, PartialEq, Eq, Structural)]
pub enum JointParamsDesc {
    BallJoint(BallJointDesc),
    FixedJoint(FixedJointDesc),
    PrismaticJoint(PrismaticJointDesc),
    RevoluteJoint(RevoluteJointDesc),
}

/// The tag of each joint kind.
pub open spec fn joint_params_id(j: JointParamsDesc) -> u32 {
    match j {
        JointParamsDesc::BallJoint(_) => 0,
        JointParamsDesc::FixedJoint(_) => 1,
        JointParamsDesc::PrismaticJoint(_) => 2,
        JointParamsDesc::RevoluteJoint(_) => 3,
    }
}

impl JointParamsDesc {
    /// The stable numeric tag this joint kind is serialized as.
    pub fn id(&self) -> (r: u32)
        ensures
            r == joint_params_id(*self),
    {
        match self {
            JointParamsDesc::BallJoint(_) => 0,
            JointParamsDesc::FixedJoint(_) => 1,
            JointParamsDesc::PrismaticJoint(_) => 2,
            JointParamsDesc::RevoluteJoint(_) => 3,
        }
    }

    /// Reads a default-initialised joint back from its tag; fails
    /// exactly on tags no variant carries.
    pub fn from_id(id: u32) -> (r: Result<JointParamsDesc, InvalidIdError>)
        ensures
            r is Ok <==> id < 4,
            r is Ok ==> joint_params_id(r->Ok_0) == id,
            r is Ok ==> r->Ok_0 == zeroed_joint_params(id),
            r is Err ==> r->Err_0 == (InvalidIdError { id }),
    {
        let z = Fx::zero();
        let zv = FxVec3 { x: z, y: z, z };
        let zq = FxVec4 { x: z, y: z, z, w: Fx::one() };
        match id {
            0 => Ok(JointParamsDesc::BallJoint(BallJointDesc { local_anchor1: zv, local_anchor2: zv })),
            1 => Ok(
                JointParamsDesc::FixedJoint(
                    FixedJointDesc {
                        local_anchor1_translation: zv,
                        local_anchor1_rotation: zq,
                        local_anchor2_translation: zv,
                        local_anchor2_rotation: zq,
                    },
                ),
            ),
            2 => Ok(
                JointParamsDesc::PrismaticJoint(
                    PrismaticJointDesc {
                        local_anchor1: zv,
                        local_axis1: zv,
                        local_anchor2: zv,
                        local_axis2: zv,
                    },
                ),
            ),
            3 => Ok(
                JointParamsDesc::RevoluteJoint(
                    RevoluteJointDesc {
                        local_anchor1: zv,
                        local_axis1: zv,
                        local_anchor2: zv,
                        local_axis2: zv,
                    },
                ),
            ),
            _ => Err(InvalidIdError { id }),
        }
    }
}

/// A joint descriptor: the two bodies it connects and its parameters.
#[derive(Clone, Copy, Debug, PartialEq, Eq, Structural)]
pub struct JointDesc<R> {
    pub body1: R,
    pub body2: R,
    pub params: JointParamsDesc,
}

/// The integration parameters of the physics stepper, as serialized.
#[derive(Clone, Copy, Debug, PartialEq, Eq, Structural)]
pub struct IntegrationParametersDesc {
    pub dt: Fx,
    pub erp: Fx,
    pub min_ccd_dt: Fx,
    pub joint_erp: Fx,
    pub warmstart_coeff: Fx,
    pub warmstart_correction_slope: Fx,
    pub velocity_solve_fraction: Fx,
    pub velocity_based_erp: Fx,
    pub allowed_linear_error: Fx,
    pub prediction_distance: Fx,
    pub allowed_angular_error: Fx,
    pub max_linear_correction: Fx,
    pub max_angular_correction: Fx,
    pub max_velocity_iterations: u32,
    pub max_position_iterations: u32,
    pub min_island_size: u32,
    pub max_ccd_substeps: u32,
}

} // verus!
