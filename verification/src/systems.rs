//! The decisions of the systems that create Jolt bodies for new entities
//! and copy simulated poses back into the entities' transforms.
use vstd::prelude::*;

verus! {

/// Where the initial pose of a new body is read from.
#[derive(Clone, Copy, Debug, PartialEq, Eq, Structural)]
pub enum PoseSource {
    /// The entity's world-space global transform.
    Global,
    /// The entity's local transform, used when no global transform exists.
    Local,
}

/// Coordinates of a new body are resolved in world space: the global
/// transform when the entity has one, its local transform otherwise.
pub fn spawn_pose_source(has_global_transform: bool) -> (source: PoseSource)
    ensures
        has_global_transform ==> source == PoseSource::Global,
        !has_global_transform ==> source == PoseSource::Local,
{
    if has_global_transform {
        PoseSource::Global
    } else {
        PoseSource::Local
    }
}

/// How a simulated pose is written back into an entity's transform.
#[derive(Clone, Copy, Debug, PartialEq, Eq, Structural)]
pub enum TransformWrite {
    /// The body has no pose in the simulation: the transform is left as it is.
    Keep,
    /// Root entity: the world-space pose is written directly.
    World,
    /// Child entity: the world-space pose is first brought into the parent's
    /// frame with the inverse of the parent's global transform.
    ParentLocal,
}

/// What one synchronisation of an entity does.
#[derive(Clone, Copy, Debug, PartialEq, Eq, Structural)]
pub struct SyncPlan {
    pub transform: TransformWrite,
    /// Whether the entity's velocity components are refreshed from the body.
    pub sync_velocities: bool,
}

/// The synchronisation of one entity, given whether its body has a pose in
/// the simulation and whether the global transform of its parent is known.
/// A child written in its parent's frame is done after the transform; every
/// other entity also has its velocities refreshed.
pub fn plan_sync(body_has_pose: bool, parent_global_known: bool) -> (plan: SyncPlan)
    ensures
        !body_has_pose ==> plan == (SyncPlan { transform: TransformWrite::Keep, sync_velocities: true }),
        body_has_pose && parent_global_known ==> plan == (SyncPlan {
            transform: TransformWrite::ParentLocal,
            sync_velocities: false,
        }),
        body_has_pose && !parent_global_known ==> plan == (SyncPlan {
            transform: TransformWrite::World,
            sync_velocities: true,
        }),
{
    if body_has_pose {
        if parent_global_known {
            SyncPlan { transform: TransformWrite::ParentLocal, sync_velocities: false }
        } else {
            SyncPlan { transform: TransformWrite::World, sync_velocities: true }
        }
    } else {
        SyncPlan { transform: TransformWrite::Keep, sync_velocities: true }
    }
}

} // verus!
