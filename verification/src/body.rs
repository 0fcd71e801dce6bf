//! Body identifiers, the body kinds a user can request and the rules that
//! turn a body kind into Jolt's motion type and object layer.
use vstd::prelude::*;

use crate::layers::{
    broad_phase_layer_of, layers_may_collide, ObjectLayer,
    BROAD_PHASE_LAYER_DYNAMIC, BROAD_PHASE_LAYER_STATIC, OBJECT_LAYER_DYNAMIC,
    OBJECT_LAYER_STATIC,
};

verus! {

/// The body id Jolt hands back when it could not create a body
/// (`cInvalidBodyID`).
pub const INVALID_BODY_ID: u32 = 0xffff_ffff;

/// An id that names a body in Jolt's body interface.
#[derive(Clone, Copy, Debug, PartialEq, Eq, Structural)]
pub struct BodyId(pub u32);

impl BodyId {
    pub open spec fn spec_is_valid(self) -> bool {
        self.0 != INVALID_BODY_ID
    }

    pub fn new(value: u32) -> (id: BodyId)
        ensures
            id.0 == value,
    {
        BodyId(value)
    }

    pub fn raw(self) -> (value: u32)
        ensures
            value == self.0,
    {
        self.0
    }

    /// Whether the id can name a body at all: every id but the invalid one.
    /// Queries and removals of an invalid id are answered without asking Jolt.
    pub fn is_valid(self) -> (r: bool)
        ensures
            r == self.spec_is_valid(),
    {
        self.0 != INVALID_BODY_ID
    }
}

/// Turns the raw id that Jolt returned for a body creation into the result
/// of a spawn: `None` when Jolt reported failure (body limit reached or
/// invalid settings), the id otherwise.
pub fn spawned_body_id(raw: u32) -> (r: Option<BodyId>)
    ensures
        raw == INVALID_BODY_ID ==> r is None,
        raw != INVALID_BODY_ID ==> r == Some(BodyId(raw)),
        r matches Some(id) ==> id.spec_is_valid(),
{
    if raw == INVALID_BODY_ID {
        None
    } else {
        Some(BodyId(raw))
    }
}

/// Defines the motion type and physical behavior of a body.
#[derive(Clone, Copy, Debug, PartialEq, Eq, Structural)]
pub enum RigidBody {
    /// A dynamic body affected by forces, gravity, and impulses (e.g. crates, debris).
    Dynamic,
    /// A static body that does not move and has infinite mass (e.g. terrain, floors, walls).
    Static,
}

/// Jolt's motion types.
#[derive(Clone, Copy, Debug, PartialEq, Eq, Structural)]
pub enum MotionType {
    Static,
    Kinematic,
    Dynamic,
}

/// A component value for an entity that has a live Jolt body.
#[derive(Clone, Copy, Debug, PartialEq, Eq, Structural)]
pub struct JoltBody(pub BodyId);

pub open spec fn spec_motion_type_of(rigidbody: RigidBody) -> MotionType {
    match rigidbody {
        RigidBody::Dynamic => MotionType::Dynamic,
        RigidBody::Static => MotionType::Static,
    }
}

pub open spec fn spec_object_layer_of(motion: MotionType) -> ObjectLayer {
    if motion == MotionType::Static {
        OBJECT_LAYER_STATIC
    } else {
        OBJECT_LAYER_DYNAMIC
    }
}

/// The Jolt motion type of a body of the given kind.
pub fn motion_type_of(rigidbody: &RigidBody) -> (motion: MotionType)
    ensures
        motion == spec_motion_type_of(*rigidbody),
{
    match rigidbody {
        RigidBody::Dynamic => MotionType::Dynamic,
        RigidBody::Static => MotionType::Static,
    }
}

/// The object layer a new body is placed in: static bodies in the static
/// layer, every other motion type in the dynamic layer.
pub fn object_layer_of(motion: MotionType) -> (layer: ObjectLayer)
    ensures
        layer == spec_object_layer_of(motion),
{
    match motion {
        MotionType::Static => OBJECT_LAYER_STATIC,
        _ => OBJECT_LAYER_DYNAMIC,
    }
}

/// The settings of a new body that do not depend on its shape or pose.
#[derive(Clone, Copy, Debug, PartialEq, Eq, Structural)]
pub struct BodySpawnPlan {
    /// Jolt's motion type for the body.
    pub motion_type: MotionType,
    /// The object layer the body is placed in.
    pub object_layer: ObjectLayer,
    /// The user data stored on the body: the bits of the entity that owns it.
    pub user_data: u64,
}

/// The motion type, object layer and user data of the body spawned for the
/// entity with bits `entity_bits` and kind `rigidbody`.
pub fn plan_body(entity_bits: u64, rigidbody: &RigidBody) -> (plan: BodySpawnPlan)
    ensures
        plan.motion_type == spec_motion_type_of(*rigidbody),
        plan.object_layer == spec_object_layer_of(spec_motion_type_of(*rigidbody)),
        plan.user_data == entity_bits,
{
    let motion_type = motion_type_of(rigidbody);
    let object_layer = object_layer_of(motion_type);
    BodySpawnPlan { motion_type, object_layer, user_data: entity_bits }
}

/// The number of collision sub-steps a simulation step runs: the requested
/// number, but at least one.
pub fn effective_collision_steps(collision_steps: i32) -> (steps: i32)
    ensures
        steps >= 1,
        collision_steps >= 1 ==> steps == collision_steps,
        collision_steps < 1 ==> steps == 1,
{
    if collision_steps < 1 {
        1
    } else {
        collision_steps
    }
}

/// A body of each kind lands in the broad phase tree of its kind: static
/// bodies in the static tree, dynamic bodies in the dynamic tree.
pub proof fn law_body_kind_selects_tree(rigidbody: RigidBody)
    ensures
        broad_phase_layer_of(spec_object_layer_of(spec_motion_type_of(rigidbody))) == (
        match rigidbody {
            RigidBody::Static => BROAD_PHASE_LAYER_STATIC,
            RigidBody::Dynamic => BROAD_PHASE_LAYER_DYNAMIC,
        }),
{
}

/// Two bodies collide unless both are static.
pub proof fn law_bodies_collide_unless_both_static(a: RigidBody, b: RigidBody)
    ensures
        layers_may_collide(
            spec_object_layer_of(spec_motion_type_of(a)),
            spec_object_layer_of(spec_motion_type_of(b)),
        ) == !(a == RigidBody::Static && b == RigidBody::Static),
{
}

} // verus!
