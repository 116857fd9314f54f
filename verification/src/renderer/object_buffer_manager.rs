//! Per-object resources of the geometry pass, kept in the order in which the objects are drawn.
use crate::engine::object::ObjectId;
use vstd::prelude::*;

verus! {

/// The resources of one object: `buffers` holds what was uploaded for it (its bounding mesh
/// buffer and vertex count, its primitive op buffer, ...).
pub struct PerObjectBuffers<B> {
    pub id: ObjectId,
    pub buffers: B,
}

/// No two entries belong to the same object.
pub open spec fn unique_ids<B>(s: Seq<PerObjectBuffers<B>>) -> bool {
    forall|i: int, j: int| 0 <= i < s.len() && 0 <= j < s.len() && i != j ==> #[trigger] s[i].id != #[trigger] s[j].id
}

/// Some entry belongs to `id`.
pub open spec fn contains_id<B>(s: Seq<PerObjectBuffers<B>>, id: ObjectId) -> bool {
    exists|k: int| 0 <= k < s.len() && #[trigger] s[k].id == id
}

/// The position of the entry of `id`, when there is one.
pub open spec fn index_of_id<B>(s: Seq<PerObjectBuffers<B>>, id: ObjectId) -> int {
    choose|k: int| 0 <= k < s.len() && #[trigger] s[k].id == id
}

/// The entries after `update_or_push(id, buffers)`: the entry of `id` holds `buffers` in
/// place, or a new entry for `id` is appended.
pub open spec fn after_update_or_push<B>(s: Seq<PerObjectBuffers<B>>, id: ObjectId, buffers: B) -> Seq<PerObjectBuffers<B>> {
    if contains_id(s, id) {
        s.update(index_of_id(s, id), PerObjectBuffers { id, buffers })
    } else {
        s.push(PerObjectBuffers { id, buffers })
    }
}

/// The entries after `remove(id)`: the entry of `id` is taken out, the others keep their order.
pub open spec fn after_remove<B>(s: Seq<PerObjectBuffers<B>>, id: ObjectId) -> Seq<PerObjectBuffers<B>> {
    if contains_id(s, id) {
        s.remove(index_of_id(s, id))
    } else {
        s
    }
}

/// The buffers of `id` in `s`, when it has an entry.
pub open spec fn buffers_of<B>(s: Seq<PerObjectBuffers<B>>, id: ObjectId) -> Option<B> {
    if contains_id(s, id) {
        Some(s[index_of_id(s, id)].buffers)
    } else {
        None
    }
}

/// Manages per-object resources for the geometry pass. The object at position `i` is drawn
/// with object index `i`.
pub struct ObjectBufferManager<B> {
    objects_buffers: Vec<PerObjectBuffers<B>>,
}

impl<B> View for ObjectBufferManager<B> {
    type V = Seq<PerObjectBuffers<B>>;

    closed spec fn view(&self) -> Seq<PerObjectBuffers<B>> {
        self.objects_buffers@
    }
}

impl<B> ObjectBufferManager<B> {
    #[verifier::type_invariant]
    closed spec fn ids_are_unique(self) -> bool {
        unique_ids(self.objects_buffers@)
    }

    /// A manager without objects.
    pub fn new() -> (res: Self)
        ensures
            res@ == Seq::<PerObjectBuffers<B>>::empty(),
            unique_ids(res@),
    {
        ObjectBufferManager { objects_buffers: Vec::new() }
    }

    /// Stores `buffers` as the resources of object `id`: in place of its previous resources
    /// when it has an entry, in a new last entry otherwise.
    pub fn update_or_push(&mut self, id: ObjectId, buffers: B)
        ensures
            final(self)@ == after_update_or_push(old(self)@, id, buffers),
            unique_ids(old(self)@),
            unique_ids(final(self)@),
    {
        proof {
            use_type_invariant(&*self);
        }
        match self.get_index(id) {
            Some(index) => {
                let ghost s = self.objects_buffers@;
                proof {
                    assert(index_of_id(s, id) == index) by {
                        let k = index_of_id(s, id);
                        assert(s[k].id == id);
                    }
                    assert forall|i: int, j: int|
                        0 <= i < s.len() && 0 <= j < s.len() && i != j implies #[trigger] s.update(
                        index as int,
                        PerObjectBuffers { id, buffers },
                    )[i].id != #[trigger] s.update(index as int, PerObjectBuffers { id, buffers })[j].id by {
                        assert(s[i].id != s[j].id);
                    }
                }
                let mut objects_buffers = Vec::new();
                std::mem::swap(&mut objects_buffers, &mut self.objects_buffers);
                objects_buffers.set(index, PerObjectBuffers { id, buffers });
                self.objects_buffers = objects_buffers;
            },
            None => {
                let ghost s = self.objects_buffers@;
                proof {
                    let t = s.push(PerObjectBuffers { id, buffers });
                    assert forall|i: int, j: int|
                        0 <= i < t.len() && 0 <= j < t.len() && i != j implies #[trigger] t[i].id
                        != #[trigger] t[j].id by {
                        if i < s.len() && j < s.len() {
                            assert(s[i].id != s[j].id);
                        } else if i < s.len() {
                            assert(s[i].id != id);
                        } else {
                            assert(s[j].id != id);
                        }
                    }
                }
                let mut objects_buffers = Vec::new();
                std::mem::swap(&mut objects_buffers, &mut self.objects_buffers);
                objects_buffers.push(PerObjectBuffers { id, buffers });
                self.objects_buffers = objects_buffers;
            },
        }
    }

    /// Removes the entry of `id`. Returns the vec index if the id was found and removed.
    pub fn remove(&mut self, id: ObjectId) -> (res: Option<usize>)
        ensures
            final(self)@ == after_remove(old(self)@, id),
            unique_ids(old(self)@),
            unique_ids(final(self)@),
            match res {
                Some(index) => contains_id(old(self)@, id) && index == index_of_id(old(self)@, id),
                None => !contains_id(old(self)@, id),
            },
    {
        proof {
            use_type_invariant(&*self);
        }
        let index_res = self.get_index(id);
        if let Some(index) = index_res {
            let ghost s = self.objects_buffers@;
            proof {
                assert(index_of_id(s, id) == index) by {
                    let k = index_of_id(s, id);
                    assert(s[k].id == id);
                }
                let t = s.remove(index as int);
                assert forall|i: int, j: int|
                    0 <= i < t.len() && 0 <= j < t.len() && i != j implies #[trigger] t[i].id
                    != #[trigger] t[j].id by {
                    let i2 = if i < index { i } else { i + 1 };
                    let j2 = if j < index { j } else { j + 1 };
                    assert(t[i] == s[i2] && t[j] == s[j2]);
                    assert(s[i2].id != s[j2].id);
                }
            }
            let mut objects_buffers = Vec::new();
            std::mem::swap(&mut objects_buffers, &mut self.objects_buffers);
            let _removed = objects_buffers.remove(index);
            self.objects_buffers = objects_buffers;
        }
        index_res
    }

    /// The vec index of the entry of `id`, when it has one.
    pub fn get_index(&self, id: ObjectId) -> (res: Option<usize>)
        ensures
            match res {
                Some(index) => contains_id(self@, id) && index == index_of_id(self@, id),
                None => !contains_id(self@, id),
            },
            unique_ids(self@),
    {
        proof {
            use_type_invariant(self);
        }
        let n = self.objects_buffers.len();
        let mut i: usize = 0;
        while i < n
            invariant
                n == self.objects_buffers@.len(),
                i <= n,
                unique_ids(self.objects_buffers@),
                forall|k: int| 0 <= k < i ==> #[trigger] self.objects_buffers@[k].id != id,
            decreases n - i,
        {
            if self.objects_buffers[i].id == id {
                proof {
                    let s = self.objects_buffers@;
                    let k = index_of_id(s, id);
                    assert(s[i as int].id == id);
                    assert(s[k].id == id);
                    assert(k == i);
                }
                return Some(i);
            }
            i += 1;
        }
        None
    }

    /// The entries, in draw order.
    pub fn per_object_buffers(&self) -> (res: &Vec<PerObjectBuffers<B>>)
        ensures
            res@ == self@,
    {
        &self.objects_buffers
    }

    /// The number of objects.
    pub fn object_count(&self) -> (res: usize)
        ensures
            res == self@.len(),
            unique_ids(self@),
    {
        proof {
            use_type_invariant(self);
        }
        self.objects_buffers.len()
    }
}

/// The position of an object's entry is the one entry with its id.
proof fn lemma_index_of_id<B>(s: Seq<PerObjectBuffers<B>>, id: ObjectId, k: int)
    requires
        unique_ids(s),
        0 <= k < s.len(),
        s[k].id == id,
    ensures
        contains_id(s, id),
        index_of_id(s, id) == k,
{
    let c = index_of_id(s, id);
    assert(s[c].id == id);
}

/// A read after `update_or_push` gives back what it stored; the other objects keep their
/// buffers; an object already present keeps its place and the count, a new one is appended;
/// no object gets two entries.
pub proof fn lemma_read_after_update_or_push<B>(s: Seq<PerObjectBuffers<B>>, id: ObjectId, buffers: B)
    requires
        unique_ids(s),
    ensures
        buffers_of(after_update_or_push(s, id, buffers), id) == Some(buffers),
        forall|other: ObjectId| other != id ==> #[trigger] buffers_of(after_update_or_push(s, id, buffers), other)
            == buffers_of(s, other),
        contains_id(s, id) ==> after_update_or_push(s, id, buffers).len() == s.len()
            && index_of_id(after_update_or_push(s, id, buffers), id) == index_of_id(s, id),
        !contains_id(s, id) ==> after_update_or_push(s, id, buffers).len() == s.len() + 1
            && index_of_id(after_update_or_push(s, id, buffers), id) == s.len(),
        unique_ids(after_update_or_push(s, id, buffers)),
{
    let t = after_update_or_push(s, id, buffers);
    let k = if contains_id(s, id) { index_of_id(s, id) } else { s.len() as int };
    if contains_id(s, id) {
        assert(s[k].id == id);
    }
    assert(t[k].id == id && t[k].buffers == buffers);
    assert(unique_ids(t)) by {
        assert forall|i: int, j: int| 0 <= i < t.len() && 0 <= j < t.len() && i != j implies #[trigger] t[i].id
            != #[trigger] t[j].id by {
            if i != k && j != k {
                assert(t[i] == s[i] && t[j] == s[j]);
            } else if i == k {
                assert(t[j] == s[j]);
                if contains_id(s, id) {
                    assert(s[j].id != s[k].id);
                }
            } else {
                assert(t[i] == s[i]);
                if contains_id(s, id) {
                    assert(s[i].id != s[k].id);
                }
            }
        }
    }
    lemma_index_of_id(t, id, k);
    assert forall|other: ObjectId| other != id implies #[trigger] buffers_of(t, other) == buffers_of(s, other) by {
        if contains_id(s, other) {
            let m = index_of_id(s, other);
            assert(s[m].id == other);
            assert(m != k);
            assert(t[m] == s[m]);
            lemma_index_of_id(t, other, m);
        } else {
            if contains_id(t, other) {
                let m = index_of_id(t, other);
                assert(t[m].id == other);
                assert(m != k);
                assert(t[m] == s[m]);
            }
        }
    }
}

/// After `remove(id)` the object has no entry; the other objects keep their buffers; no
/// object gets two entries.
pub proof fn lemma_read_after_remove<B>(s: Seq<PerObjectBuffers<B>>, id: ObjectId)
    requires
        unique_ids(s),
    ensures
        buffers_of(after_remove(s, id), id) == None::<B>,
        forall|other: ObjectId| other != id ==> #[trigger] buffers_of(after_remove(s, id), other)
            == buffers_of(s, other),
        unique_ids(after_remove(s, id)),
{
    let t = after_remove(s, id);
    if contains_id(s, id) {
        let k = index_of_id(s, id);
        assert(s[k].id == id);
        let shift = |i: int| if i < k { i } else { i + 1 };
        assert forall|i: int| 0 <= i < t.len() implies #[trigger] t[i] == s[shift(i)] by {}
        assert(!contains_id(t, id)) by {
            if contains_id(t, id) {
                let m = index_of_id(t, id);
                assert(t[m].id == id);
                assert(s[shift(m)].id == s[k].id);
            }
        }
        assert(unique_ids(t)) by {
            assert forall|i: int, j: int| 0 <= i < t.len() && 0 <= j < t.len() && i != j implies #[trigger] t[i].id
                != #[trigger] t[j].id by {
                assert(s[shift(i)].id != s[shift(j)].id);
            }
        }
        assert forall|other: ObjectId| other != id implies #[trigger] buffers_of(t, other) == buffers_of(s, other) by {
            if contains_id(s, other) {
                let m = index_of_id(s, other);
                assert(s[m].id == other);
                assert(m != k);
                let m2 = if m < k { m } else { m - 1 };
                assert(t[m2] == s[m]);
                lemma_index_of_id(t, other, m2);
            } else if contains_id(t, other) {
                let m = index_of_id(t, other);
                assert(t[m].id == other);
                assert(s[shift(m)].id == other);
            }
        }
    }
}

/// Removing an object that `update_or_push` has just added gives back the entries as they
/// were before.
pub proof fn lemma_remove_undoes_push<B>(s: Seq<PerObjectBuffers<B>>, id: ObjectId, buffers: B)
    requires
        unique_ids(s),
        !contains_id(s, id),
    ensures
        after_remove(after_update_or_push(s, id, buffers), id) == s,
{
    let t = after_update_or_push(s, id, buffers);
    assert(t == s.push(PerObjectBuffers { id, buffers }));
    lemma_read_after_update_or_push(s, id, buffers);
    assert(t.remove(s.len() as int) =~= s);
}


/// `update_or_push` keeps every other object in its place.
pub proof fn lemma_update_or_push_keeps_places<B>(s: Seq<PerObjectBuffers<B>>, id: ObjectId, buffers: B, other: ObjectId)
    requires
        unique_ids(s),
        other != id,
        contains_id(s, other),
    ensures
        contains_id(after_update_or_push(s, id, buffers), other),
        index_of_id(after_update_or_push(s, id, buffers), other) == index_of_id(s, other),
{
    let t = after_update_or_push(s, id, buffers);
    let m = index_of_id(s, other);
    assert(s[m].id == other);
    lemma_read_after_update_or_push(s, id, buffers);
    if contains_id(s, id) {
        let k = index_of_id(s, id);
        assert(s[k].id == id);
        assert(m != k);
    }
    assert(t[m] == s[m]);
    lemma_index_of_id(t, other, m);
}

/// `remove` keeps the other objects in order: those after the removed object move up by
/// one place, the others keep theirs.
pub proof fn lemma_remove_keeps_order<B>(s: Seq<PerObjectBuffers<B>>, id: ObjectId, other: ObjectId)
    requires
        unique_ids(s),
        other != id,
        contains_id(s, other),
    ensures
        contains_id(after_remove(s, id), other),
        index_of_id(after_remove(s, id), other) == if contains_id(s, id) && index_of_id(s, id) < index_of_id(
            s,
            other,
        ) {
            index_of_id(s, other) - 1
        } else {
            index_of_id(s, other)
        },
{
    let t = after_remove(s, id);
    let m = index_of_id(s, other);
    assert(s[m].id == other);
    lemma_read_after_remove(s, id);
    if contains_id(s, id) {
        let k = index_of_id(s, id);
        assert(s[k].id == id);
        assert(m != k);
        let m2 = if k < m { m - 1 } else { m };
        assert(t[m2] == s[m]);
        lemma_index_of_id(t, other, m2);
    } else {
        lemma_index_of_id(t, other, m);
    }
}

} // verus!
