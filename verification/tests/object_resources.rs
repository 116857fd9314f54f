use goshenite::engine::object::ObjectId;
use goshenite::renderer::object_buffer_manager::ObjectBufferManager;
use goshenite::renderer::object_resource_manager::{
    after_transfer_barrier_dst_masks, upload_submit_plan, BufferBarrier, BufferUploadResources, FenceStatus, ObjectDeltaOperation,
    ObjectResourceManager, UploadSubmitPlan,
};

fn ids<B>(manager: &ObjectBufferManager<B>) -> Vec<u16> {
    manager.per_object_buffers().iter().map(|o| o.id.0).collect()
}

#[test]
fn update_or_push_appends_new_objects_and_replaces_existing() {
    let mut manager = ObjectBufferManager::new();
    manager.update_or_push(ObjectId(3), "a");
    manager.update_or_push(ObjectId(1), "b");
    manager.update_or_push(ObjectId(3), "c");
    assert_eq!(ids(&manager), vec![3, 1]);
    assert_eq!(manager.object_count(), 2);
    assert_eq!(manager.get_index(ObjectId(3)), Some(0));
    assert_eq!(manager.per_object_buffers()[0].buffers, "c");
    assert_eq!(manager.per_object_buffers()[1].buffers, "b");
}

#[test]
fn remove_returns_the_index_and_keeps_order() {
    let mut manager = ObjectBufferManager::new();
    for i in 0..4u16 {
        manager.update_or_push(ObjectId(i), i * 10);
    }
    assert_eq!(manager.remove(ObjectId(1)), Some(1));
    assert_eq!(ids(&manager), vec![0, 2, 3]);
    assert_eq!(manager.remove(ObjectId(1)), None);
    assert_eq!(manager.get_index(ObjectId(1)), None);
    assert_eq!(manager.get_index(ObjectId(3)), Some(2));
}

#[test]
fn removing_a_just_pushed_object_restores_the_manager() {
    let mut manager = ObjectBufferManager::new();
    manager.update_or_push(ObjectId(8), 1);
    manager.update_or_push(ObjectId(9), 2);
    manager.update_or_push(ObjectId(10), 3);
    assert_eq!(manager.remove(ObjectId(10)), Some(2));
    assert_eq!(ids(&manager), vec![8, 9]);
    assert_eq!(manager.per_object_buffers()[1].buffers, 2);
}

#[test]
fn objects_delta_is_applied_in_order() {
    let mut manager: ObjectResourceManager<u32, (), ()> = ObjectResourceManager::new();
    manager.update_objects(vec![
        (ObjectId(1), ObjectDeltaOperation::Add(10)),
        (ObjectId(2), ObjectDeltaOperation::Add(20)),
        (ObjectId(1), ObjectDeltaOperation::Update(11)),
        (ObjectId(3), ObjectDeltaOperation::Remove),
        (ObjectId(2), ObjectDeltaOperation::Remove),
        (ObjectId(4), ObjectDeltaOperation::Update(40)),
    ], BufferUploadResources::new((), 0, 1));
    assert_eq!(ids(&manager.objects_buffers), vec![1, 4]);
    assert_eq!(manager.pending_upload_resources.len(), 1);
    manager.update_objects(Vec::new(), BufferUploadResources::new((), 0, 1));
    assert_eq!(manager.pending_upload_resources.len(), 2);
    assert_eq!(manager.objects_buffers.per_object_buffers()[0].buffers, 11);
    assert_eq!(manager.object_count(), 2);
    assert_eq!(manager.get_index(ObjectId(4)), Some(1));
    assert_eq!(manager.remove(ObjectId(1)), Some(0));
}

fn resources(tag: u32) -> BufferUploadResources<u32, u32> {
    let mut r = BufferUploadResources::new(tag, 0, 1);
    r.push_upload(tag * 100, tag * 100 + 1);
    r
}

#[test]
fn upload_resources_free_their_buffers() {
    let mut r = resources(2);
    assert_eq!(r.staging_buffers, vec![200]);
    assert!(r.queue_ownership_transfer_required());
    r.free_buffers();
    assert!(r.staging_buffers.is_empty() && r.target_buffers.is_empty());
    assert_eq!(r.handles, 2);
    assert!(!BufferUploadResources::<(), ()>::new((), 3, 3).queue_ownership_transfer_required());
}

#[test]
fn completed_uploads_become_available_in_order() {
    let mut manager: ObjectResourceManager<(), u32, u32> = ObjectResourceManager::new();
    for tag in 0..4 {
        manager.push_pending(resources(tag));
    }
    let statuses = vec![FenceStatus::Signalled, FenceStatus::Timeout, FenceStatus::Signalled, FenceStatus::Timeout];
    assert_eq!(manager.check_and_reuse_pending_resources(&statuses), Ok(()));
    let pending: Vec<u32> = manager.pending_upload_resources.iter().map(|r| r.handles).collect();
    let available: Vec<u32> = manager.available_upload_resources.iter().map(|r| r.handles).collect();
    assert_eq!(pending, vec![1, 3]);
    assert_eq!(available, vec![0, 2]);
    assert!(manager.available_upload_resources.iter().all(|r| r.staging_buffers.is_empty()));
    assert_eq!(manager.pending_upload_resources[0].staging_buffers, vec![100]);

    let taken = manager.get_transfer_command_resources().unwrap();
    assert_eq!(taken.handles, 2);
    assert!(taken.target_buffers.is_empty());
    assert_eq!(manager.get_transfer_command_resources().unwrap().handles, 0);
    assert!(manager.get_transfer_command_resources().is_none());
}

#[test]
fn failed_fence_wait_stops_the_reuse() {
    let mut manager: ObjectResourceManager<(), u32, u32> = ObjectResourceManager::new();
    for tag in 0..4 {
        manager.push_pending(resources(tag));
    }
    let statuses = vec![FenceStatus::Signalled, FenceStatus::Failed(-4), FenceStatus::Signalled, FenceStatus::Signalled];
    assert_eq!(manager.check_and_reuse_pending_resources(&statuses), Err(-4));
    let pending: Vec<u32> = manager.pending_upload_resources.iter().map(|r| r.handles).collect();
    assert_eq!(pending, vec![1, 2, 3]);
    assert_eq!(manager.available_upload_resources.len(), 1);
}

#[test]
fn upload_submission_depends_on_queue_families() {
    assert_eq!(
        upload_submit_plan(1, 0),
        UploadSubmitPlan {
            signal_sync_semaphore: true,
            fence_on_transfer_submit: false,
            submit_render_sync: true,
            render_sync_wait_stage: Some(0x80),
        }
    );
    assert_eq!(
        upload_submit_plan(0, 0),
        UploadSubmitPlan {
            signal_sync_semaphore: false,
            fence_on_transfer_submit: true,
            submit_render_sync: false,
            render_sync_wait_stage: None,
        }
    );
}

#[test]
fn release_barrier_has_empty_destination_masks() {
    assert_eq!(after_transfer_barrier_dst_masks(true, 0x80, 0x20), (0, 0));
    assert_eq!(after_transfer_barrier_dst_masks(false, 0x80, 0x20), (0x80, 0x20));
}

#[test]
fn buffer_copy_releases_and_acquires_across_queue_families() {
    let separate: BufferUploadResources<(), ()> = BufferUploadResources::new((), 2, 0);
    let commands = separate.buffer_copy_commands(256, 0x80, 0x20);
    assert_eq!(commands.copy_size, 256);
    let release = BufferBarrier {
        src_stage_mask: 0x1000,
        src_access_mask: 0x1000,
        dst_stage_mask: 0,
        dst_access_mask: 0,
        src_queue_family_index: 2,
        dst_queue_family_index: 0,
        offset: 0,
        size: 256,
    };
    assert_eq!(commands.after_transfer_barrier, release);
    assert_eq!(
        commands.before_render_barrier,
        Some(BufferBarrier { src_stage_mask: 0, src_access_mask: 0, dst_stage_mask: 0x80, dst_access_mask: 0x20, ..release })
    );

    let shared: BufferUploadResources<(), ()> = BufferUploadResources::new((), 1, 1);
    let commands = shared.buffer_copy_commands(64, 0x80, 0x20);
    assert_eq!(commands.before_render_barrier, None);
    assert_eq!(
        commands.after_transfer_barrier,
        BufferBarrier {
            src_stage_mask: 0x1000,
            src_access_mask: 0x1000,
            dst_stage_mask: 0x80,
            dst_access_mask: 0x20,
            src_queue_family_index: 1,
            dst_queue_family_index: 1,
            offset: 0,
            size: 64,
        }
    );
}

#[test]
fn untouched_objects_keep_their_order() {
    let mut manager: ObjectResourceManager<u32, (), ()> = ObjectResourceManager::new();
    manager.update_objects(
        vec![
            (ObjectId(1), ObjectDeltaOperation::Add(1)),
            (ObjectId(2), ObjectDeltaOperation::Add(2)),
            (ObjectId(3), ObjectDeltaOperation::Add(3)),
        ],
        BufferUploadResources::new((), 0, 0),
    );
    manager.update_objects(
        vec![(ObjectId(1), ObjectDeltaOperation::Remove), (ObjectId(4), ObjectDeltaOperation::Add(4)), (ObjectId(2), ObjectDeltaOperation::Update(5))],
        BufferUploadResources::new((), 0, 0),
    );
    assert_eq!(ids(&manager.objects_buffers), vec![2, 3, 4]);
}
