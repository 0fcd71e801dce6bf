use bolt_bevy::systems::{plan_sync, spawn_pose_source, PoseSource, SyncPlan, TransformWrite};

#[test]
fn spawn_uses_global_transform_when_present() {
    assert_eq!(spawn_pose_source(true), PoseSource::Global);
    assert_eq!(spawn_pose_source(false), PoseSource::Local);
}

#[test]
fn sync_plans_for_each_case() {
    assert_eq!(
        plan_sync(false, false),
        SyncPlan { transform: TransformWrite::Keep, sync_velocities: true }
    );
    assert_eq!(
        plan_sync(false, true),
        SyncPlan { transform: TransformWrite::Keep, sync_velocities: true }
    );
    assert_eq!(
        plan_sync(true, false),
        SyncPlan { transform: TransformWrite::World, sync_velocities: true }
    );
    assert_eq!(
        plan_sync(true, true),
        SyncPlan { transform: TransformWrite::ParentLocal, sync_velocities: false }
    );
}
