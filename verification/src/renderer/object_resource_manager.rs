//! Per-object resources of the geometry pass, and the recycling of the resources used to
//! upload them.
use crate::engine::object::ObjectId;
use crate::renderer::object_buffer_manager::{
    after_remove, after_update_or_push, buffers_of, contains_id, index_of_id, lemma_read_after_remove,
    lemma_read_after_update_or_push, lemma_remove_keeps_order, lemma_update_or_push_keeps_places, unique_ids,
    ObjectBufferManager, PerObjectBuffers,
};
use crate::renderer::vulkan_init::PIPELINE_STAGE_FRAGMENT_SHADER;
use vstd::prelude::*;

verus! {

/// A change to one object of the scene. `Add` and `Update` carry the resources uploaded for
/// the object's new state.
pub enum ObjectDeltaOperation<B> {
    Add(B),
    Update(B),
    Remove,
}

/// The entries after one change.
pub open spec fn after_delta_operation<B>(s: Seq<PerObjectBuffers<B>>, id: ObjectId, op: ObjectDeltaOperation<B>) -> Seq<PerObjectBuffers<B>> {
    match op {
        ObjectDeltaOperation::Add(buffers) => after_update_or_push(s, id, buffers),
        ObjectDeltaOperation::Update(buffers) => after_update_or_push(s, id, buffers),
        ObjectDeltaOperation::Remove => after_remove(s, id),
    }
}

/// The entries after the changes of `delta`, applied in order.
pub open spec fn after_objects_delta<B>(s: Seq<PerObjectBuffers<B>>, delta: Seq<(ObjectId, ObjectDeltaOperation<B>)>) -> Seq<PerObjectBuffers<B>>
    decreases delta.len(),
{
    if delta.len() == 0 {
        s
    } else {
        after_delta_operation(after_objects_delta(s, delta.drop_last()), delta.last().0, delta.last().1)
    }
}

/// The buffers that the last change to `id` in `delta` leaves it with (`None` when it
/// removes the object), or `None` when `delta` does not change `id`.
pub open spec fn last_change_of<B>(delta: Seq<(ObjectId, ObjectDeltaOperation<B>)>, id: ObjectId) -> Option<Option<B>>
    decreases delta.len(),
{
    if delta.len() == 0 {
        None
    } else if delta.last().0 == id {
        Some(
            match delta.last().1 {
                ObjectDeltaOperation::Add(buffers) => Some(buffers),
                ObjectDeltaOperation::Update(buffers) => Some(buffers),
                ObjectDeltaOperation::Remove => None,
            },
        )
    } else {
        last_change_of(delta.drop_last(), id)
    }
}

/// After a delta, each object holds what the last change to it left: the buffers of its last
/// addition or update, or nothing after a removal; objects that the delta does not change
/// keep their buffers; no object gets two entries.
pub proof fn lemma_read_after_objects_delta<B>(
    s: Seq<PerObjectBuffers<B>>,
    delta: Seq<(ObjectId, ObjectDeltaOperation<B>)>,
    id: ObjectId,
)
    requires
        unique_ids(s),
    ensures
        unique_ids(after_objects_delta(s, delta)),
        buffers_of(after_objects_delta(s, delta), id) == match last_change_of(delta, id) {
            Some(result) => result,
            None => buffers_of(s, id),
        },
    decreases delta.len(),
{
    if delta.len() > 0 {
        let before = after_objects_delta(s, delta.drop_last());
        lemma_read_after_objects_delta(s, delta.drop_last(), id);
        let (changed, op) = delta.last();
        match op {
            ObjectDeltaOperation::Add(buffers) => {
                lemma_read_after_update_or_push(before, changed, buffers);
            },
            ObjectDeltaOperation::Update(buffers) => {
                lemma_read_after_update_or_push(before, changed, buffers);
            },
            ObjectDeltaOperation::Remove => {
                lemma_read_after_remove(before, changed);
            },
        }
    }
}

/// A delta keeps the objects it does not change in their relative order: of two such
/// objects, the one drawn first before the delta is drawn first after it.
pub proof fn lemma_delta_keeps_relative_order<B>(
    s: Seq<PerObjectBuffers<B>>,
    delta: Seq<(ObjectId, ObjectDeltaOperation<B>)>,
    a: ObjectId,
    c: ObjectId,
)
    requires
        unique_ids(s),
        contains_id(s, a),
        contains_id(s, c),
        index_of_id(s, a) < index_of_id(s, c),
        forall|i: int| 0 <= i < delta.len() ==> (#[trigger] delta[i]).0 != a && delta[i].0 != c,
    ensures
        contains_id(after_objects_delta(s, delta), a),
        contains_id(after_objects_delta(s, delta), c),
        index_of_id(after_objects_delta(s, delta), a) < index_of_id(after_objects_delta(s, delta), c),
    decreases delta.len(),
{
    if delta.len() > 0 {
        let prefix = delta.drop_last();
        assert forall|i: int| 0 <= i < prefix.len() implies (#[trigger] prefix[i]).0 != a && prefix[i].0 != c by {
            assert(prefix[i] == delta[i]);
        }
        lemma_delta_keeps_relative_order(s, prefix, a, c);
        lemma_read_after_objects_delta(s, prefix, a);
        let before = after_objects_delta(s, prefix);
        let (changed, op) = delta.last();
        assert(delta[delta.len() - 1].0 == changed);
        match op {
            ObjectDeltaOperation::Add(buffers) => {
                lemma_update_or_push_keeps_places(before, changed, buffers, a);
                lemma_update_or_push_keeps_places(before, changed, buffers, c);
            },
            ObjectDeltaOperation::Update(buffers) => {
                lemma_update_or_push_keeps_places(before, changed, buffers, a);
                lemma_update_or_push_keeps_places(before, changed, buffers, c);
            },
            ObjectDeltaOperation::Remove => {
                lemma_remove_keeps_order(before, changed, a);
                lemma_remove_keeps_order(before, changed, c);
            },
        }
    }
}

/// What the renderer keeps of one batch of uploads: the command buffers, fence and semaphore
/// (`handles`), the queue families involved, and the buffers that must live until the
/// upload has completed.
pub struct BufferUploadResources<H, Bf> {
    pub handles: H,
    pub transfer_queue_family_index: u32,
    pub render_queue_family_index: u32,
    pub staging_buffers: Vec<Bf>,
    pub target_buffers: Vec<Bf>,
}

/// `BufferUploadResources` as values.
pub struct UploadResourcesView<H, Bf> {
    pub handles: H,
    pub transfer_queue_family_index: u32,
    pub render_queue_family_index: u32,
    pub staging_buffers: Seq<Bf>,
    pub target_buffers: Seq<Bf>,
}

impl<H, Bf> View for BufferUploadResources<H, Bf> {
    type V = UploadResourcesView<H, Bf>;

    open spec fn view(&self) -> UploadResourcesView<H, Bf> {
        UploadResourcesView {
            handles: self.handles,
            transfer_queue_family_index: self.transfer_queue_family_index,
            render_queue_family_index: self.render_queue_family_index,
            staging_buffers: self.staging_buffers@,
            target_buffers: self.target_buffers@,
        }
    }
}

/// The resources with their buffers released.
pub open spec fn freed<H, Bf>(r: UploadResourcesView<H, Bf>) -> UploadResourcesView<H, Bf> {
    UploadResourcesView {
        staging_buffers: Seq::empty(),
        target_buffers: Seq::empty(),
        ..r
    }
}

impl<H, Bf> BufferUploadResources<H, Bf> {
    /// Resources for a new batch of uploads, holding no buffers yet.
    pub fn new(handles: H, transfer_queue_family_index: u32, render_queue_family_index: u32) -> (res: Self)
        ensures
            res.handles == handles,
            res.transfer_queue_family_index == transfer_queue_family_index,
            res.render_queue_family_index == render_queue_family_index,
            res.staging_buffers@.len() == 0,
            res.target_buffers@.len() == 0,
    {
        BufferUploadResources {
            handles,
            transfer_queue_family_index,
            render_queue_family_index,
            staging_buffers: Vec::new(),
            target_buffers: Vec::new(),
        }
    }

    /// Releases the buffers of the previous uploads.
    pub fn free_buffers(&mut self)
        ensures
            final(self)@ == freed(old(self)@),
    {
        self.staging_buffers.clear();
        self.target_buffers.clear();
    }

    /// The transfer and render queue families differ, so ownership of the uploaded buffers
    /// must be transferred.
    pub fn queue_ownership_transfer_required(&self) -> (res: bool)
        ensures
            res == (self.render_queue_family_index != self.transfer_queue_family_index),
    {
        self.render_queue_family_index != self.transfer_queue_family_index
    }

    /// Keeps the staging and target buffers of one upload alive until the batch completes.
    pub fn push_upload(&mut self, staging_buffer: Bf, target_buffer: Bf)
        ensures
            final(self)@ == (UploadResourcesView {
                staging_buffers: old(self)@.staging_buffers.push(staging_buffer),
                target_buffers: old(self)@.target_buffers.push(target_buffer),
                ..old(self)@
            }),
    {
        self.staging_buffers.push(staging_buffer);
        self.target_buffers.push(target_buffer);
    }
}

/// The outcome of a short wait on the completion fence of a batch of uploads.
#[derive(Debug, Clone, Copy, PartialEq, Eq, Structural)]
pub enum FenceStatus {
    /// The uploads have completed.
    Signalled,
    /// The commands are still executing.
    Timeout,
    /// The wait failed with this `VkResult`.
    Failed(i32),
}

/// The views of a sequence of resources.
pub open spec fn resources_view<H, Bf>(s: Seq<BufferUploadResources<H, Bf>>) -> Seq<UploadResourcesView<H, Bf>> {
    s.map_values(|r: BufferUploadResources<H, Bf>| r@)
}

/// Of the first `j` pending batches, those still executing, in order.
pub open spec fn still_pending<H, Bf>(p: Seq<UploadResourcesView<H, Bf>>, st: Seq<FenceStatus>, j: int) -> Seq<UploadResourcesView<H, Bf>>
    decreases j,
{
    if j <= 0 {
        Seq::empty()
    } else if st[j - 1] == FenceStatus::Timeout {
        still_pending(p, st, j - 1).push(p[j - 1])
    } else {
        still_pending(p, st, j - 1)
    }
}

/// Of the first `j` pending batches, those completed, freed, in order.
pub open spec fn completed<H, Bf>(p: Seq<UploadResourcesView<H, Bf>>, st: Seq<FenceStatus>, j: int) -> Seq<UploadResourcesView<H, Bf>>
    decreases j,
{
    if j <= 0 {
        Seq::empty()
    } else if st[j - 1] == FenceStatus::Signalled {
        completed(p, st, j - 1).push(freed(p[j - 1]))
    } else {
        completed(p, st, j - 1)
    }
}

/// No wait before `e` failed, and the wait at `e` failed unless `e` is past the last wait.
pub open spec fn is_first_failure(st: Seq<FenceStatus>, e: int) -> bool {
    &&& 0 <= e <= st.len()
    &&& forall|i: int| 0 <= i < e ==> !(#[trigger] st[i] is Failed)
    &&& e < st.len() ==> st[e] is Failed
}

/// The position of the first failed wait, or the number of waits when none failed.
pub open spec fn first_failure(st: Seq<FenceStatus>) -> int {
    choose|e: int| is_first_failure(st, e)
}

/// `first_failure` is the one position with that property.
proof fn lemma_first_failure(st: Seq<FenceStatus>, e: int)
    requires
        is_first_failure(st, e),
    ensures
        first_failure(st) == e,
{
    let c = first_failure(st);
    assert(is_first_failure(st, c));
    if c < e {
        assert(st[c] is Failed);
    } else if c > e {
        assert(st[e] is Failed);
    }
}

/// Reusing completed uploads loses no batch: the pending batches left and those made
/// available number as many as the pending batches before.
pub proof fn lemma_reuse_keeps_every_batch<H, Bf>(p: Seq<UploadResourcesView<H, Bf>>, st: Seq<FenceStatus>)
    requires
        st.len() == p.len(),
    ensures
        (still_pending(p, st, first_failure(st)) + p.skip(first_failure(st))).len()
            + completed(p, st, first_failure(st)).len() == p.len(),
{
    assert(is_first_failure(st, st.len() as int) || exists|e: int| is_first_failure(st, e) && e < st.len()) by {
        if !is_first_failure(st, st.len() as int) {
            let k = choose|k: int| 0 <= k < st.len() && #[trigger] st[k] is Failed;
            lemma_first_failed_exists(st, k);
        }
    }
    let e = first_failure(st);
    assert(is_first_failure(st, e));
    lemma_counts(p, st, e);
}

/// Some position is the first failure once some wait failed.
proof fn lemma_first_failed_exists(st: Seq<FenceStatus>, k: int)
    requires
        0 <= k < st.len(),
        st[k] is Failed,
    ensures
        exists|e: int| is_first_failure(st, e) && e < st.len(),
    decreases k,
{
    if exists|i: int| 0 <= i < k && #[trigger] st[i] is Failed {
        let i = choose|i: int| 0 <= i < k && #[trigger] st[i] is Failed;
        lemma_first_failed_exists(st, i);
    } else {
        assert(is_first_failure(st, k));
    }
}

/// Among the first `j` batches, each is still pending or completed.
proof fn lemma_counts<H, Bf>(p: Seq<UploadResourcesView<H, Bf>>, st: Seq<FenceStatus>, j: int)
    requires
        0 <= j <= st.len(),
        forall|i: int| 0 <= i < j ==> !(#[trigger] st[i] is Failed),
    ensures
        still_pending(p, st, j).len() + completed(p, st, j).len() == j,
    decreases j,
{
    if j > 0 {
        lemma_counts(p, st, j - 1);
        assert(!(st[j - 1] is Failed));
    }
}

/// The entries after uploading each object of `objects` in order.
pub open spec fn after_uploads<B>(s: Seq<PerObjectBuffers<B>>, objects: Seq<(ObjectId, B)>) -> Seq<PerObjectBuffers<B>>
    decreases objects.len(),
{
    if objects.len() == 0 {
        s
    } else {
        after_update_or_push(after_uploads(s, objects.drop_last()), objects.last().0, objects.last().1)
    }
}

/// The buffers of the last upload for `id` in `objects`, if any.
pub open spec fn last_upload_of<B>(objects: Seq<(ObjectId, B)>, id: ObjectId) -> Option<B>
    decreases objects.len(),
{
    if objects.len() == 0 {
        None
    } else if objects.last().0 == id {
        Some(objects.last().1)
    } else {
        last_upload_of(objects.drop_last(), id)
    }
}

/// After uploading a collection, each object holds the buffers of its last upload; the
/// objects not in the collection keep theirs; no object gets two entries.
pub proof fn lemma_read_after_uploads<B>(s: Seq<PerObjectBuffers<B>>, objects: Seq<(ObjectId, B)>, id: ObjectId)
    requires
        unique_ids(s),
    ensures
        unique_ids(after_uploads(s, objects)),
        buffers_of(after_uploads(s, objects), id) == match last_upload_of(objects, id) {
            Some(buffers) => Some(buffers),
            None => buffers_of(s, id),
        },
    decreases objects.len(),
{
    if objects.len() > 0 {
        lemma_read_after_uploads(s, objects.drop_last(), id);
        lemma_read_after_update_or_push(after_uploads(s, objects.drop_last()), objects.last().0, objects.last().1);
    }
}

/// Manages per-object resources for the geometry pass, and the resources of the batches of
/// uploads: those whose commands may still execute and those free to be used again.
pub struct ObjectResourceManager<B, H, Bf> {
    pub objects_buffers: ObjectBufferManager<B>,
    pub pending_upload_resources: Vec<BufferUploadResources<H, Bf>>,
    pub available_upload_resources: Vec<BufferUploadResources<H, Bf>>,
}

impl<B, H, Bf> ObjectResourceManager<B, H, Bf> {
    /// A manager without objects or upload resources.
    pub fn new() -> (res: Self)
        ensures
            res.objects_buffers@.len() == 0,
            res.pending_upload_resources@.len() == 0,
            res.available_upload_resources@.len() == 0,
    {
        ObjectResourceManager {
            objects_buffers: ObjectBufferManager::new(),
            pending_upload_resources: Vec::new(),
            available_upload_resources: Vec::new(),
        }
    }

    /// Stores the resources uploaded for each object of a collection, in order, and keeps
    /// `upload_resources`, the batch that uploaded them and was submitted, pending. An empty
    /// collection uploads nothing: the manager is unchanged and `upload_resources` is handed
    /// back.
    pub fn upload_object_collection(
        &mut self,
        objects: Vec<(ObjectId, B)>,
        upload_resources: BufferUploadResources<H, Bf>,
    ) -> (res: Option<BufferUploadResources<H, Bf>>)
        ensures
            final(self).objects_buffers@ == after_uploads(old(self).objects_buffers@, objects@),
            objects@.len() == 0 ==> final(self).pending_upload_resources@ == old(self).pending_upload_resources@
                && res == Some(upload_resources),
            objects@.len() > 0 ==> final(self).pending_upload_resources@ == old(self).pending_upload_resources@.push(
                upload_resources,
            ) && res is None,
            final(self).available_upload_resources == old(self).available_upload_resources,
    {
        if objects.len() == 0 {
            return Some(upload_resources);
        }
        let ghost all = objects@;
        let ghost start = self.objects_buffers@;
        let mut remaining = objects;
        let mut applied: usize = 0;
        let n = remaining.len();
        while remaining.len() > 0
            invariant
                n == all.len(),
                applied + remaining@.len() == n,
                remaining@ == all.skip(applied as int),
                self.objects_buffers@ == after_uploads(start, all.take(applied as int)),
                self.pending_upload_resources == old(self).pending_upload_resources,
                self.available_upload_resources == old(self).available_upload_resources,
            decreases remaining@.len(),
        {
            let (object_id, buffers) = remaining.remove(0);
            proof {
                assert(all.take(applied + 1).drop_last() =~= all.take(applied as int));
                assert(all[applied as int] == (object_id, buffers));
                assert(remaining@ =~= all.skip(applied + 1));
            }
            self.objects_buffers.update_or_push(object_id, buffers);
            applied += 1;
        }
        proof {
            assert(all.take(n as int) =~= all);
        }
        self.pending_upload_resources.push(upload_resources);
        None
    }

    /// Applies the changes of `objects_delta` in order: added and updated objects get their
    /// new resources, removed objects lose theirs; `upload_resources`, the batch that uploaded
    /// the new resources and was submitted, is kept pending.
    pub fn update_objects(
        &mut self,
        objects_delta: Vec<(ObjectId, ObjectDeltaOperation<B>)>,
        upload_resources: BufferUploadResources<H, Bf>,
    )
        ensures
            final(self).objects_buffers@ == after_objects_delta(old(self).objects_buffers@, objects_delta@),
            final(self).pending_upload_resources@ == old(self).pending_upload_resources@.push(upload_resources),
            final(self).available_upload_resources == old(self).available_upload_resources,
    {
        let ghost delta = objects_delta@;
        let ghost start = self.objects_buffers@;
        let mut remaining = objects_delta;
        let mut applied: usize = 0;
        let n = remaining.len();
        while remaining.len() > 0
            invariant
                n == delta.len(),
                applied + remaining@.len() == n,
                remaining@ == delta.skip(applied as int),
                self.objects_buffers@ == after_objects_delta(start, delta.take(applied as int)),
                self.pending_upload_resources == old(self).pending_upload_resources,
                self.available_upload_resources == old(self).available_upload_resources,
            decreases remaining@.len(),
        {
            let (object_id, object_delta) = remaining.remove(0);
            proof {
                assert(delta.take(applied + 1).drop_last() =~= delta.take(applied as int));
                assert(delta[applied as int] == (object_id, object_delta));
                assert(remaining@ =~= delta.skip(applied + 1));
            }
            match object_delta {
                ObjectDeltaOperation::Add(buffers) => {
                    self.objects_buffers.update_or_push(object_id, buffers);
                },
                ObjectDeltaOperation::Update(buffers) => {
                    self.objects_buffers.update_or_push(object_id, buffers);
                },
                ObjectDeltaOperation::Remove => {
                    let _removed_index = self.objects_buffers.remove(object_id);
                },
            }
            applied += 1;
        }
        proof {
            assert(delta.take(n as int) =~= delta);
        }
        self.pending_upload_resources.push(upload_resources);
    }

    /// Removes the resources of `id`. Returns the vec index if the id was found and removed.
    pub fn remove(&mut self, id: ObjectId) -> (res: Option<usize>)
        ensures
            final(self).objects_buffers@ == after_remove(old(self).objects_buffers@, id),
            match res {
                Some(index) => contains_id(old(self).objects_buffers@, id) && index == index_of_id(old(self).objects_buffers@, id),
                None => !contains_id(old(self).objects_buffers@, id),
            },
            final(self).pending_upload_resources == old(self).pending_upload_resources,
            final(self).available_upload_resources == old(self).available_upload_resources,
    {
        self.objects_buffers.remove(id)
    }

    /// The vec index of the resources of `id`, when it has some.
    pub fn get_index(&self, object_id: ObjectId) -> (res: Option<usize>)
        ensures
            match res {
                Some(index) => contains_id(self.objects_buffers@, object_id) && index == index_of_id(self.objects_buffers@, object_id),
                None => !contains_id(self.objects_buffers@, object_id),
            },
    {
        self.objects_buffers.get_index(object_id)
    }

    /// The number of objects.
    pub fn object_count(&self) -> (res: usize)
        ensures
            res == self.objects_buffers@.len(),
    {
        self.objects_buffers.object_count()
    }

    /// Takes resources for a new batch of uploads from those free to be used again, with
    /// their buffers released; `None` when there are none and new ones must be created.
    pub fn get_transfer_command_resources(&mut self) -> (res: Option<BufferUploadResources<H, Bf>>)
        ensures
            final(self).objects_buffers == old(self).objects_buffers,
            final(self).pending_upload_resources == old(self).pending_upload_resources,
            match res {
                Some(r) => old(self).available_upload_resources@.len() > 0
                    && final(self).available_upload_resources@ == old(self).available_upload_resources@.drop_last()
                    && r@ == freed(old(self).available_upload_resources@.last()@),
                None => old(self).available_upload_resources@.len() == 0
                    && final(self).available_upload_resources@ == old(self).available_upload_resources@,
            },
    {
        let ghost before = self.available_upload_resources@;
        if let Some(mut resources) = self.available_upload_resources.pop() {
            // use existing resources (not the buffers though)
            let ghost taken = resources@;
            assert(taken == before.last()@);
            resources.free_buffers();
            assert(resources@ == freed(taken));
            Some(resources)
        } else {
            None
        }
    }

    /// Records a submitted batch of uploads, whose commands may still execute.
    pub fn push_pending(&mut self, resources: BufferUploadResources<H, Bf>)
        ensures
            final(self).objects_buffers == old(self).objects_buffers,
            final(self).pending_upload_resources@ == old(self).pending_upload_resources@.push(resources),
            final(self).available_upload_resources == old(self).available_upload_resources,
    {
        self.pending_upload_resources.push(resources);
    }

    /// Moves the pending batches whose fence has signalled, with their buffers released, to
    /// the resources free to be used again, in order. `fence_statuses[i]` is the outcome of
    /// the wait on the fence of pending batch `i`. Stops at the first failed wait and returns
    /// its `VkResult`; the batches before it have been moved already.
    pub fn check_and_reuse_pending_resources(&mut self, fence_statuses: &Vec<FenceStatus>) -> (res: Result<(), i32>)
        requires
            fence_statuses@.len() == old(self).pending_upload_resources@.len(),
        ensures
            ({
                let p = resources_view(old(self).pending_upload_resources@);
                let st = fence_statuses@;
                let e = first_failure(st);
                &&& resources_view(final(self).pending_upload_resources@) == still_pending(p, st, e) + p.skip(e)
                &&& resources_view(final(self).available_upload_resources@) == resources_view(old(self).available_upload_resources@)
                    + completed(p, st, e)
                &&& match res {
                    Ok(()) => e == st.len(),
                    Err(code) => e < st.len() && st[e] == FenceStatus::Failed(code),
                }
            }),
            final(self).objects_buffers == old(self).objects_buffers,
    {
        let ghost p = resources_view(self.pending_upload_resources@);
        let ghost avail0 = resources_view(self.available_upload_resources@);
        let ghost st = fence_statuses@;
        let n = fence_statuses.len();
        let mut i: usize = 0;
        let mut j: usize = 0;
        while j < n
            invariant
                n == st.len(),
                n == p.len(),
                fence_statuses@ == st,
                p == resources_view(old(self).pending_upload_resources@),
                avail0 == resources_view(old(self).available_upload_resources@),
                j <= n,
                i <= j,
                forall|k: int| 0 <= k < j ==> !(#[trigger] st[k] is Failed),
                still_pending(p, st, j as int).len() == i,
                resources_view(self.pending_upload_resources@) == still_pending(p, st, j as int) + p.skip(j as int),
                resources_view(self.available_upload_resources@) == avail0 + completed(p, st, j as int),
                self.objects_buffers == old(self).objects_buffers,
            decreases n - j,
        {
            proof {
                assert(resources_view(self.pending_upload_resources@)[i as int] == p[j as int]);
            }
            match fence_statuses[j] {
                FenceStatus::Timeout => {
                    // commands are still executing, can't use this one so we move on
                    proof {
                        assert(still_pending(p, st, j + 1) == still_pending(p, st, j as int).push(p[j as int]));
                        assert(still_pending(p, st, j + 1) + p.skip(j + 1) =~= still_pending(p, st, j as int) + p.skip(j as int));
                    }
                    i = i + 1;
                },
                FenceStatus::Signalled => {
                    // commands finished executing, can reuse these resources
                    let ghost before = self.pending_upload_resources@;
                    let ghost avail_before = self.available_upload_resources@;
                    proof {
                        assert(resources_view(before).len() == before.len());
                        assert(p.skip(j as int).len() == n - j);
                    }
                    let mut command_resources = self.pending_upload_resources.remove(i);
                    command_resources.free_buffers();
                    self.available_upload_resources.push(command_resources);
                    proof {
                        assert(still_pending(p, st, j + 1) == still_pending(p, st, j as int));
                        assert(completed(p, st, j + 1) == completed(p, st, j as int).push(freed(p[j as int])));
                        assert(resources_view(self.pending_upload_resources@) =~= resources_view(before).remove(i as int));
                        assert(resources_view(before).remove(i as int) =~= still_pending(p, st, j + 1) + p.skip(j + 1));
                        assert(command_resources@ == freed(p[j as int]));
                        assert(resources_view(self.available_upload_resources@) =~= resources_view(avail_before).push(command_resources@));
                        assert(resources_view(self.available_upload_resources@) =~= avail0 + completed(p, st, j + 1));
                    }
                },
                FenceStatus::Failed(code) => {
                    proof {
                        assert(st[j as int] == FenceStatus::Failed(code));
                        assert(is_first_failure(st, j as int));
                        lemma_first_failure(st, j as int);
                    }
                    return Err(code);
                },
            }
            j = j + 1;
        }
        proof {
            assert(is_first_failure(st, n as int));
            lemma_first_failure(st, n as int);
        }
        Ok(())
    }
}

/// A failed primitive ops descriptor set allocation is retried in a new descriptor pool
/// when the last pool ran out of memory; other failures are errors.
pub fn allocate_in_new_descriptor_pool(allocation_error: i32) -> (res: bool)
    ensures
        res == (allocation_error == crate::renderer::gui_pass::ERROR_OUT_OF_POOL_MEMORY),
{
    allocation_error == crate::renderer::gui_pass::ERROR_OUT_OF_POOL_MEMORY
}

/// How a batch of uploads is submitted.
#[derive(Debug, Clone, Copy, PartialEq, Eq, Structural)]
pub struct UploadSubmitPlan {
    /// The transfer submission signals the queue sync semaphore.
    pub signal_sync_semaphore: bool,
    /// The transfer submission signals the completion fence.
    pub fence_on_transfer_submit: bool,
    /// A render queue submission waits on the semaphore, acquires ownership of the uploaded
    /// resources and signals the completion fence.
    pub submit_render_sync: bool,
    /// The pipeline stage at which the render queue submission waits on the semaphore, when
    /// there is one: the fragment shader stage.
    pub render_sync_wait_stage: Option<u32>,
}

/// Plans the submission of a batch of uploads recorded for `transfer_queue_family_index`
/// and used on `render_queue_family_index`: when the families differ, the render queue must
/// acquire ownership after the transfer, and its submission signals the completion fence;
/// otherwise the transfer submission alone does, with implicit sync.
pub fn upload_submit_plan(transfer_queue_family_index: u32, render_queue_family_index: u32) -> (res: UploadSubmitPlan)
    ensures
        res.signal_sync_semaphore == (transfer_queue_family_index != render_queue_family_index),
        res.submit_render_sync == (transfer_queue_family_index != render_queue_family_index),
        res.fence_on_transfer_submit == (transfer_queue_family_index == render_queue_family_index),
        res.render_sync_wait_stage == if transfer_queue_family_index != render_queue_family_index {
            Some(PIPELINE_STAGE_FRAGMENT_SHADER)
        } else {
            None::<u32>
        },
{
    let queue_ownership_transfer_required = transfer_queue_family_index != render_queue_family_index;
    UploadSubmitPlan {
        signal_sync_semaphore: queue_ownership_transfer_required,
        fence_on_transfer_submit: !queue_ownership_transfer_required,
        submit_render_sync: queue_ownership_transfer_required,
        render_sync_wait_stage: if queue_ownership_transfer_required { Some(PIPELINE_STAGE_FRAGMENT_SHADER) } else { None },
    }
}

/// Every plan signals the completion fence from exactly one submission, and the semaphore
/// is signalled exactly when a render queue submission waits on it, at a stage the plan
/// names.
pub proof fn lemma_upload_submit_plan_signals_once(transfer_queue_family_index: u32, render_queue_family_index: u32, plan: UploadSubmitPlan)
    requires
        plan.signal_sync_semaphore == (transfer_queue_family_index != render_queue_family_index),
        plan.submit_render_sync == (transfer_queue_family_index != render_queue_family_index),
        plan.fence_on_transfer_submit == (transfer_queue_family_index == render_queue_family_index),
        plan.render_sync_wait_stage == if transfer_queue_family_index != render_queue_family_index {
            Some(PIPELINE_STAGE_FRAGMENT_SHADER)
        } else {
            None::<u32>
        },
    ensures
        plan.fence_on_transfer_submit != plan.submit_render_sync,
        plan.signal_sync_semaphore == plan.submit_render_sync,
        (plan.render_sync_wait_stage is Some) == plan.submit_render_sync,
{
}

/// The destination stage and access masks of the barrier after a transfer: those of the
/// render use, or none when the barrier is a queue family release (the driver ignores them
/// then, and validation expects them empty).
pub fn after_transfer_barrier_dst_masks(
    queue_ownership_transfer_required: bool,
    render_dst_stage: u64,
    render_dst_access: u64,
) -> (res: (u64, u64))
    ensures
        res == if queue_ownership_transfer_required { (0u64, 0u64) } else { (render_dst_stage, render_dst_access) },
{
    let mut dst_stage_mask = render_dst_stage;
    let mut dst_access_mask = render_dst_access;
    if queue_ownership_transfer_required {
        dst_stage_mask = 0;
        dst_access_mask = 0;
    }
    (dst_stage_mask, dst_access_mask)
}


/// `VK_PIPELINE_STAGE_2_TRANSFER_BIT`
pub const PIPELINE_STAGE_2_TRANSFER: u64 = 0x1000;
/// `VK_ACCESS_2_TRANSFER_WRITE_BIT`
pub const ACCESS_2_TRANSFER_WRITE: u64 = 0x1000;
/// `VK_PIPELINE_STAGE_2_FRAGMENT_SHADER_BIT`
pub const PIPELINE_STAGE_2_FRAGMENT_SHADER: u64 = 0x80;
/// `VK_ACCESS_2_SHADER_READ_BIT`
pub const ACCESS_2_SHADER_READ: u64 = 0x20;

/// A memory barrier on the uploaded buffer (`VkBufferMemoryBarrier2`).
#[derive(Debug, Clone, Copy, PartialEq, Eq, Structural)]
pub struct BufferBarrier {
    pub src_stage_mask: u64,
    pub src_access_mask: u64,
    pub dst_stage_mask: u64,
    pub dst_access_mask: u64,
    pub src_queue_family_index: u32,
    pub dst_queue_family_index: u32,
    pub offset: u64,
    pub size: u64,
}

/// The commands recorded for one upload through a staging buffer.
#[derive(Debug, Clone, Copy, PartialEq, Eq, Structural)]
pub struct BufferCopyCommands {
    /// The bytes copied from the staging buffer, from offset 0 to offset 0.
    pub copy_size: u64,
    /// Recorded on the transfer command buffer after the copy: makes the copy visible to the
    /// render use, or releases the buffer to the render queue family.
    pub after_transfer_barrier: BufferBarrier,
    /// Recorded on the render sync command buffer when the queue families differ: the
    /// acquire operation that completes the ownership transfer.
    pub before_render_barrier: Option<BufferBarrier>,
}

/// The commands of an upload of `upload_data_size` bytes whose buffer the renderer then uses
/// at `render_dst_stage` with `render_dst_access`.
pub open spec fn buffer_copy_commands_of(
    transfer_queue_family_index: u32,
    render_queue_family_index: u32,
    upload_data_size: u64,
    render_dst_stage: u64,
    render_dst_access: u64,
) -> BufferCopyCommands {
    let ownership_transfer = render_queue_family_index != transfer_queue_family_index;
    BufferCopyCommands {
        copy_size: upload_data_size,
        after_transfer_barrier: BufferBarrier {
            src_stage_mask: PIPELINE_STAGE_2_TRANSFER,
            src_access_mask: ACCESS_2_TRANSFER_WRITE,
            dst_stage_mask: if ownership_transfer { 0 } else { render_dst_stage },
            dst_access_mask: if ownership_transfer { 0 } else { render_dst_access },
            src_queue_family_index: transfer_queue_family_index,
            dst_queue_family_index: render_queue_family_index,
            offset: 0,
            size: upload_data_size,
        },
        before_render_barrier: if ownership_transfer {
            Some(
                BufferBarrier {
                    src_stage_mask: 0,
                    src_access_mask: 0,
                    dst_stage_mask: render_dst_stage,
                    dst_access_mask: render_dst_access,
                    src_queue_family_index: transfer_queue_family_index,
                    dst_queue_family_index: render_queue_family_index,
                    offset: 0,
                    size: upload_data_size,
                },
            )
        } else {
            None
        },
    }
}

impl<H, Bf> BufferUploadResources<H, Bf> {
    /// The copy and barriers that `record_buffer_copy_commands` records for an upload of
    /// `upload_data_size` bytes used by the renderer at `render_dst_stage` with
    /// `render_dst_access`.
    pub fn buffer_copy_commands(&self, upload_data_size: u64, render_dst_stage: u64, render_dst_access: u64) -> (res:
        BufferCopyCommands)
        ensures
            res == buffer_copy_commands_of(
                self.transfer_queue_family_index,
                self.render_queue_family_index,
                upload_data_size,
                render_dst_stage,
                render_dst_access,
            ),
            res.copy_size == upload_data_size,
            res.after_transfer_barrier.offset == 0 && res.after_transfer_barrier.size == upload_data_size,
            res.after_transfer_barrier.src_queue_family_index == self.transfer_queue_family_index,
            res.after_transfer_barrier.dst_queue_family_index == self.render_queue_family_index,
            res.before_render_barrier matches Some(acquire) ==> acquire.offset == 0 && acquire.size == upload_data_size,
            (res.before_render_barrier is Some) == (self.transfer_queue_family_index != self.render_queue_family_index),
    {
        let ownership_transfer = self.queue_ownership_transfer_required();
        let (dst_stage_mask, dst_access_mask) = after_transfer_barrier_dst_masks(
            ownership_transfer,
            render_dst_stage,
            render_dst_access,
        );
        let after_transfer_barrier = BufferBarrier {
            src_stage_mask: PIPELINE_STAGE_2_TRANSFER,
            src_access_mask: ACCESS_2_TRANSFER_WRITE,
            dst_stage_mask,
            dst_access_mask,
            src_queue_family_index: self.transfer_queue_family_index,
            dst_queue_family_index: self.render_queue_family_index,
            offset: 0,
            size: upload_data_size,
        };
        // an identical queue acquire operation is required to complete the ownership transfer
        let before_render_barrier = if ownership_transfer {
            Some(
                BufferBarrier {
                    src_stage_mask: 0,
                    src_access_mask: 0,
                    dst_stage_mask: render_dst_stage,
                    dst_access_mask: render_dst_access,
                    src_queue_family_index: self.transfer_queue_family_index,
                    dst_queue_family_index: self.render_queue_family_index,
                    offset: 0,
                    size: upload_data_size,
                },
            )
        } else {
            None
        };
        BufferCopyCommands { copy_size: upload_data_size, after_transfer_barrier, before_render_barrier }
    }
}

/// Every upload copies all its bytes: the copy and every barrier cover exactly the
/// `upload_data_size` bytes from the start of the buffer, whatever the size and the queue
/// families; the barriers move the buffer from the transfer to the render queue family.
pub proof fn lemma_upload_copies_every_byte(
    transfer_queue_family_index: u32,
    render_queue_family_index: u32,
    upload_data_size: u64,
    render_dst_stage: u64,
    render_dst_access: u64,
)
    ensures
        ({
            let c = buffer_copy_commands_of(
                transfer_queue_family_index,
                render_queue_family_index,
                upload_data_size,
                render_dst_stage,
                render_dst_access,
            );
            &&& c.copy_size == upload_data_size
            &&& c.after_transfer_barrier.offset == 0
            &&& c.after_transfer_barrier.size == upload_data_size
            &&& c.after_transfer_barrier.src_queue_family_index == transfer_queue_family_index
            &&& c.after_transfer_barrier.dst_queue_family_index == render_queue_family_index
            &&& c.after_transfer_barrier.src_stage_mask == PIPELINE_STAGE_2_TRANSFER
            &&& c.after_transfer_barrier.src_access_mask == ACCESS_2_TRANSFER_WRITE
            &&& c.before_render_barrier matches Some(acquire) ==> acquire.offset == 0 && acquire.size
                == upload_data_size && acquire.src_queue_family_index == transfer_queue_family_index
                && acquire.dst_queue_family_index == render_queue_family_index
        }),
{
}

/// A queue family ownership transfer is complete: when the families differ the release is
/// matched by an acquire with the same families and buffer range, the release leaves the
/// render use to the acquire, and the acquire, with no source stage or access of its own,
/// makes the buffer available to the render use; when they are the same there is
/// no acquire and the single barrier makes the copy visible to the render use. Either way
/// the barriers cover exactly the copied bytes.
pub proof fn lemma_ownership_transfer_matched(
    transfer_queue_family_index: u32,
    render_queue_family_index: u32,
    upload_data_size: u64,
    render_dst_stage: u64,
    render_dst_access: u64,
)
    ensures
        ({
            let c = buffer_copy_commands_of(
                transfer_queue_family_index,
                render_queue_family_index,
                upload_data_size,
                render_dst_stage,
                render_dst_access,
            );
            &&& c.after_transfer_barrier.offset == 0 && c.after_transfer_barrier.size == c.copy_size
            &&& (c.before_render_barrier is Some) == (transfer_queue_family_index != render_queue_family_index)
            &&& c.before_render_barrier matches Some(acquire) ==> {
                &&& acquire.src_queue_family_index == c.after_transfer_barrier.src_queue_family_index
                &&& acquire.dst_queue_family_index == c.after_transfer_barrier.dst_queue_family_index
                &&& acquire.offset == c.after_transfer_barrier.offset
                &&& acquire.size == c.after_transfer_barrier.size
                &&& c.after_transfer_barrier.dst_stage_mask == 0 && c.after_transfer_barrier.dst_access_mask == 0
                &&& acquire.dst_stage_mask == render_dst_stage && acquire.dst_access_mask == render_dst_access
                &&& acquire.src_stage_mask == 0 && acquire.src_access_mask == 0
            }
            &&& c.before_render_barrier is None ==> c.after_transfer_barrier.dst_stage_mask == render_dst_stage
                && c.after_transfer_barrier.dst_access_mask == render_dst_access
        }),
{
}

} // verus!
