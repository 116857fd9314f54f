//! The gui textures that exist on the device: for each egui texture id, its descriptor set,
//! its image view and the options its sampler was written with, held in an `AHashMap`; and
//! the descriptor sets of freed textures, kept for reuse.
use crate::renderer::gui_pass::{
    mesh_record_action, process_texture_data_plan, process_texture_data_plan_of, sampler_update_required,
    texture_submissions_required,
    ProcessTextureDataReturn, GuiRendererError, MeshRecordAction, TextureFilter, TextureOptions,
};
use ahash::AHashMap;
use vstd::prelude::*;

verus! {

/// A texture id as the map keys it: whether it is a user texture, and its number.
pub type TextureKey = (bool, u64);

/// A texture as the map holds it: its descriptor set and image view handles, and the
/// magnification and minification `VkFilter` of its sampler.
pub type TextureEntry = (u64, u64, i32, i32);

/// `ahash::AHashMap`, opaque to Verus: what the texture map holds is seen through
/// `texture_map_contents`.
#[verifier::external_type_specification]
#[verifier::external_body]
#[verifier::reject_recursive_types(K)]
#[verifier::reject_recursive_types(V)]
#[verifier::reject_recursive_types(S)]
pub struct ExAHashMap<K, V, S>(AHashMap<K, V, S>);

/// `ahash::RandomState`, the hasher of the texture map, opaque to Verus.
#[verifier::external_type_specification]
#[verifier::external_body]
pub struct ExRandomState(ahash::RandomState);

/// The entries of the texture map, keyed by `texture_key`, each an `entry_of` a record.
pub uninterp spec fn texture_map_contents(map: AHashMap<TextureKey, TextureEntry>) -> Map<TextureKey, TextureEntry>;

/// A map without entries.
pub open spec fn no_textures() -> Map<TextureKey, TextureEntry> {
    Map::empty()
}

/// `AHashMap::default`: a map with no entries.
#[verifier::external_body]
fn new_texture_map() -> (res: AHashMap<TextureKey, TextureEntry>)
    ensures
        texture_map_contents(res) == no_textures(),
{
    AHashMap::default()
}

/// `AHashMap::insert`: the map holds `value` under `key` afterwards, the other entries are
/// unchanged, and the value previously held under `key`, if any, is returned.
#[verifier::external_body]
fn texture_map_insert(
    map: &mut AHashMap<TextureKey, TextureEntry>,
    key: TextureKey,
    value: TextureEntry,
) -> (res: Option<TextureEntry>)
    ensures
        texture_map_contents(*final(map)) == texture_map_contents(*old(map)).insert(key, value),
        res == if texture_map_contents(*old(map)).contains_key(key) {
            Some(texture_map_contents(*old(map))[key])
        } else {
            None
        },
{
    map.insert(key, value)
}

/// `AHashMap::remove`: the entry of `key` is gone afterwards, the other entries are
/// unchanged, and its value, if there was one, is returned.
#[verifier::external_body]
fn texture_map_remove(map: &mut AHashMap<TextureKey, TextureEntry>, key: TextureKey) -> (res: Option<TextureEntry>)
    ensures
        texture_map_contents(*final(map)) == texture_map_contents(*old(map)).remove(key),
        res == if texture_map_contents(*old(map)).contains_key(key) {
            Some(texture_map_contents(*old(map))[key])
        } else {
            None
        },
{
    map.remove(&key)
}

/// `AHashMap::get`: the value held under `key`, if any (copied out of the map).
#[verifier::external_body]
fn texture_map_get(map: &AHashMap<TextureKey, TextureEntry>, key: TextureKey) -> (res: Option<TextureEntry>)
    ensures
        res == if texture_map_contents(*map).contains_key(key) {
            Some(texture_map_contents(*map)[key])
        } else {
            None
        },
{
    map.get(&key).copied()
}


/// `VK_FILTER_NEAREST`
pub const FILTER_NEAREST: i32 = 0;
/// `VK_FILTER_LINEAR`
pub const FILTER_LINEAR: i32 = 1;

/// An egui texture id.
#[derive(Debug, Clone, Copy, PartialEq, Eq, Structural)]
pub enum TextureId {
    /// Textures allocated by egui.
    Managed(u64),
    /// Textures registered by the user.
    User(u64),
}

/// The key of a texture id in the texture map.
pub open spec fn texture_key(texture_id: TextureId) -> TextureKey {
    match texture_id {
        TextureId::Managed(id) => (false, id),
        TextureId::User(id) => (true, id),
    }
}

/// The `VkFilter` of a filter.
pub open spec fn filter_value(filter: TextureFilter) -> i32 {
    match filter {
        TextureFilter::Nearest => FILTER_NEAREST,
        TextureFilter::Linear => FILTER_LINEAR,
    }
}

/// The filter of a `VkFilter` held in the map.
pub open spec fn filter_of_value(value: i32) -> TextureFilter {
    if value == FILTER_LINEAR {
        TextureFilter::Linear
    } else {
        TextureFilter::Nearest
    }
}

/// A texture that exists on the device.
#[derive(Debug, Clone, Copy, PartialEq, Eq, Structural)]
pub struct RegisteredTexture {
    /// The descriptor set the gui shaders sample the texture through.
    pub desc_set: u64,
    pub image_view: u64,
    /// The options whose sampler was written to the descriptor set at registration.
    pub options: TextureOptions,
}

/// How the map holds a texture.
pub open spec fn entry_of(texture: RegisteredTexture) -> TextureEntry {
    (
        texture.desc_set,
        texture.image_view,
        filter_value(texture.options.magnification),
        filter_value(texture.options.minification),
    )
}

/// The texture that an entry of the map holds.
pub open spec fn texture_of_entry(entry: TextureEntry) -> RegisteredTexture {
    RegisteredTexture {
        desc_set: entry.0,
        image_view: entry.1,
        options: TextureOptions { magnification: filter_of_value(entry.2), minification: filter_of_value(entry.3) },
    }
}

/// The gui textures, as values.
pub struct GuiTexturesView {
    pub textures: Map<TextureKey, TextureEntry>,
    /// The descriptor sets of freed textures, the next to reuse last.
    pub unused_texture_desc_sets: Seq<u64>,
}

/// The texture registered under `texture_id`, if any.
pub open spec fn registered_texture(textures: GuiTexturesView, texture_id: TextureId) -> Option<RegisteredTexture> {
    if textures.textures.contains_key(texture_key(texture_id)) {
        Some(texture_of_entry(textures.textures[texture_key(texture_id)]))
    } else {
        None
    }
}

/// The textures after `texture` is registered under `texture_id`, in place of any texture
/// registered under it before.
pub open spec fn after_register(textures: GuiTexturesView, texture_id: TextureId, texture: RegisteredTexture) -> GuiTexturesView {
    GuiTexturesView {
        textures: textures.textures.insert(texture_key(texture_id), entry_of(texture)),
        unused_texture_desc_sets: textures.unused_texture_desc_sets,
    }
}

/// The textures after `texture_id` is freed: its texture, if any, is gone and its descriptor
/// set is kept for reuse.
pub open spec fn after_unregister(textures: GuiTexturesView, texture_id: TextureId) -> GuiTexturesView {
    let key = texture_key(texture_id);
    GuiTexturesView {
        textures: textures.textures.remove(key),
        unused_texture_desc_sets: if textures.textures.contains_key(key) {
            textures.unused_texture_desc_sets.push(textures.textures[key].0)
        } else {
            textures.unused_texture_desc_sets
        },
    }
}

/// The textures after a descriptor set is taken for a new texture: the last kept one, if any.
pub open spec fn after_desc_set_reuse(textures: GuiTexturesView) -> GuiTexturesView {
    if textures.unused_texture_desc_sets.len() > 0 {
        GuiTexturesView {
            textures: textures.textures,
            unused_texture_desc_sets: textures.unused_texture_desc_sets.drop_last(),
        }
    } else {
        textures
    }
}

/// The gui textures that exist on the device.
pub struct GuiTextures {
    texture_desc_sets_and_images: AHashMap<TextureKey, TextureEntry>,
    unused_texture_desc_sets: Vec<u64>,
}

impl View for GuiTextures {
    type V = GuiTexturesView;

    closed spec fn view(&self) -> GuiTexturesView {
        GuiTexturesView {
            textures: texture_map_contents(self.texture_desc_sets_and_images),
            unused_texture_desc_sets: self.unused_texture_desc_sets@,
        }
    }
}

fn key_of(texture_id: TextureId) -> (res: TextureKey)
    ensures
        res == texture_key(texture_id),
{
    match texture_id {
        TextureId::Managed(id) => (false, id),
        TextureId::User(id) => (true, id),
    }
}

fn filter_to_value(filter: TextureFilter) -> (res: i32)
    ensures
        res == filter_value(filter),
{
    match filter {
        TextureFilter::Nearest => FILTER_NEAREST,
        TextureFilter::Linear => FILTER_LINEAR,
    }
}

fn filter_from_value(value: i32) -> (res: TextureFilter)
    ensures
        res == filter_of_value(value),
{
    if value == FILTER_LINEAR {
        TextureFilter::Linear
    } else {
        TextureFilter::Nearest
    }
}

impl GuiTextures {
    /// No textures, no descriptor sets kept.
    pub fn new() -> (res: Self)
        ensures
            res@.textures == no_textures(),
            res@.unused_texture_desc_sets == Seq::<u64>::empty(),
    {
        GuiTextures { texture_desc_sets_and_images: new_texture_map(), unused_texture_desc_sets: Vec::new() }
    }

    /// The texture registered under `texture_id`, if any.
    pub fn registered(&self, texture_id: TextureId) -> (res: Option<RegisteredTexture>)
        ensures
            res == registered_texture(self@, texture_id),
    {
        match texture_map_get(&self.texture_desc_sets_and_images, key_of(texture_id)) {
            Some(entry) => Some(
                RegisteredTexture {
                    desc_set: entry.0,
                    image_view: entry.1,
                    options: TextureOptions {
                        magnification: filter_from_value(entry.2),
                        minification: filter_from_value(entry.3),
                    },
                },
            ),
            None => None,
        }
    }

    /// Stores a texture created for `texture_id`, in place of any texture registered under
    /// it before.
    pub fn register_texture(&mut self, texture_id: TextureId, texture: RegisteredTexture)
        ensures
            final(self)@ == after_register(old(self)@, texture_id, texture),
    {
        let entry: TextureEntry = (
            texture.desc_set,
            texture.image_view,
            filter_to_value(texture.options.magnification),
            filter_to_value(texture.options.minification),
        );
        let _previous = texture_map_insert(&mut self.texture_desc_sets_and_images, key_of(texture_id), entry);
    }

    /// Unregister a texture that is no longer required by the gui: its descriptor set is kept
    /// for the next new texture.
    pub fn unregister_image(&mut self, texture_id: TextureId)
        ensures
            final(self)@ == after_unregister(old(self)@, texture_id),
    {
        let unused_desc_set = texture_map_remove(&mut self.texture_desc_sets_and_images, key_of(texture_id));
        if let Some(entry) = unused_desc_set {
            self.unused_texture_desc_sets.push(entry.0);
        }
    }

    /// The descriptor set for a new texture: the last one kept from a freed texture, taken
    /// out; `None` when none is kept, and one must be allocated.
    pub fn get_new_font_texture_desc_set(&mut self) -> (res: Option<u64>)
        ensures
            res == if old(self)@.unused_texture_desc_sets.len() > 0 {
                Some(old(self)@.unused_texture_desc_sets.last())
            } else {
                None
            },
            final(self)@ == after_desc_set_reuse(old(self)@),
    {
        self.unused_texture_desc_sets.pop()
    }

    /// The texture whose descriptor set must be written again, with the sampler of
    /// `texture_options`: the texture of `texture_id` when its sampler was written with other
    /// options; `None` when it has no texture or the options are those it was registered
    /// with. The registered options are left as they are.
    pub fn check_and_update_sampler(&self, texture_options: TextureOptions, texture_id: TextureId) -> (res: Option<
        RegisteredTexture,
    >)
        ensures
            res == match registered_texture(self@, texture_id) {
                Some(texture) => if texture.options != texture_options {
                    Some(texture)
                } else {
                    None
                },
                None => None,
            },
    {
        let registered = self.registered(texture_id);
        let previous_options = match registered {
            Some(texture) => Some(texture.options),
            None => None,
        };
        if sampler_update_required(previous_options, texture_options) {
            registered
        } else {
            None
        }
    }
}

/// Distinct texture ids have distinct keys.
proof fn lemma_texture_key_injective(a: TextureId, b: TextureId)
    ensures
        texture_key(a) == texture_key(b) ==> a == b,
{
}

/// A texture registered under an id is read back from it as registered; the textures of the
/// other ids, and the descriptor sets kept for reuse, are unchanged.
pub proof fn lemma_read_after_register(
    textures: GuiTexturesView,
    texture_id: TextureId,
    texture: RegisteredTexture,
    other: TextureId,
)
    ensures
        registered_texture(after_register(textures, texture_id, texture), texture_id) == Some(texture),
        other != texture_id ==> registered_texture(after_register(textures, texture_id, texture), other)
            == registered_texture(textures, other),
        after_register(textures, texture_id, texture).unused_texture_desc_sets
            == textures.unused_texture_desc_sets,
{
    lemma_texture_key_injective(texture_id, other);
    assert(texture_of_entry(entry_of(texture)) == texture);
}

/// A freed id has no texture afterwards; the textures of the other ids are unchanged.
pub proof fn lemma_read_after_unregister(textures: GuiTexturesView, texture_id: TextureId, other: TextureId)
    ensures
        registered_texture(after_unregister(textures, texture_id), texture_id) == None::<RegisteredTexture>,
        other != texture_id ==> registered_texture(after_unregister(textures, texture_id), other)
            == registered_texture(textures, other),
{
    lemma_texture_key_injective(texture_id, other);
}

/// The descriptor set of a freed texture is the one the next new texture gets; taking it
/// leaves the kept descriptor sets as they were before the texture was freed.
pub proof fn lemma_freed_desc_set_is_reused(textures: GuiTexturesView, texture_id: TextureId)
    requires
        registered_texture(textures, texture_id) is Some,
    ensures
        after_unregister(textures, texture_id).unused_texture_desc_sets.last() == registered_texture(
            textures,
            texture_id,
        )->0.desc_set,
        after_desc_set_reuse(after_unregister(textures, texture_id)).unused_texture_desc_sets
            == textures.unused_texture_desc_sets,
        after_desc_set_reuse(after_unregister(textures, texture_id)).textures == textures.textures.remove(
            texture_key(texture_id),
        ),
{
    let v = after_unregister(textures, texture_id);
    assert(v.unused_texture_desc_sets.drop_last() =~= textures.unused_texture_desc_sets);
}


/// The textures after the ids of `texture_ids` are freed, in order.
pub open spec fn after_unregister_all(textures: GuiTexturesView, texture_ids: Seq<TextureId>) -> GuiTexturesView
    decreases texture_ids.len(),
{
    if texture_ids.len() == 0 {
        textures
    } else {
        after_unregister(after_unregister_all(textures, texture_ids.drop_last()), texture_ids.last())
    }
}

impl GuiTextures {
    /// Unregisters the textures that egui freed, in order.
    pub fn unregister_images(&mut self, texture_ids: &Vec<TextureId>)
        ensures
            final(self)@ == after_unregister_all(old(self)@, texture_ids@),
    {
        let n = texture_ids.len();
        let mut i: usize = 0;
        while i < n
            invariant
                n == texture_ids@.len(),
                i <= n,
                self@ == after_unregister_all(old(self)@, texture_ids@.take(i as int)),
            decreases n - i,
        {
            self.unregister_image(texture_ids[i]);
            proof {
                assert(texture_ids@.take(i + 1).drop_last() =~= texture_ids@.take(i as int));
            }
            i += 1;
        }
        proof {
            assert(texture_ids@.take(n as int) =~= texture_ids@);
        }
    }
}

/// No descriptor set serves two textures, or a texture while it is kept for reuse, or is kept
/// twice.
pub open spec fn desc_sets_exclusive(textures: GuiTexturesView) -> bool {
    &&& forall|a: TextureKey, b: TextureKey|
        textures.textures.contains_key(a) && textures.textures.contains_key(b) && a != b
            ==> #[trigger] textures.textures[a].0 != #[trigger] textures.textures[b].0
    &&& forall|a: TextureKey, i: int|
        textures.textures.contains_key(a) && 0 <= i < textures.unused_texture_desc_sets.len()
            ==> #[trigger] textures.textures[a].0 != #[trigger] textures.unused_texture_desc_sets[i]
    &&& forall|i: int, j: int|
        0 <= i < textures.unused_texture_desc_sets.len() && 0 <= j < textures.unused_texture_desc_sets.len() && i
            != j ==> #[trigger] textures.unused_texture_desc_sets[i] != #[trigger] textures.unused_texture_desc_sets[j]
}

/// `desc_set` serves no texture but possibly that of `texture_id`, and is not kept for reuse.
pub open spec fn desc_set_free_for(textures: GuiTexturesView, texture_id: TextureId, desc_set: u64) -> bool {
    &&& forall|a: TextureKey|
        textures.textures.contains_key(a) && a != texture_key(texture_id) ==> #[trigger] textures.textures[a].0
            != desc_set
    &&& !textures.unused_texture_desc_sets.contains(desc_set)
}

/// Descriptor sets stay exclusive: freeing a texture, taking a kept descriptor set, and
/// registering a texture with a descriptor set that nothing else holds (such as the one
/// just taken) keep each descriptor set with at most one holder.
pub proof fn lemma_desc_sets_stay_exclusive(textures: GuiTexturesView, texture_id: TextureId, texture: RegisteredTexture)
    requires
        desc_sets_exclusive(textures),
    ensures
        desc_sets_exclusive(after_unregister(textures, texture_id)),
        desc_sets_exclusive(after_desc_set_reuse(textures)),
        desc_set_free_for(textures, texture_id, texture.desc_set) ==> desc_sets_exclusive(
            after_register(textures, texture_id, texture),
        ),
        textures.unused_texture_desc_sets.len() > 0 ==> desc_set_free_for(
            after_desc_set_reuse(textures),
            texture_id,
            textures.unused_texture_desc_sets.last(),
        ),
{
    let key = texture_key(texture_id);
    let m = textures.textures;
    let u = textures.unused_texture_desc_sets;
    // freeing
    let f = after_unregister(textures, texture_id);
    assert(desc_sets_exclusive(f)) by {
        if m.contains_key(key) {
            let d = m[key].0;
            assert forall|a: TextureKey, i: int|
                f.textures.contains_key(a) && 0 <= i < f.unused_texture_desc_sets.len() implies #[trigger] f.textures[a].0
                != #[trigger] f.unused_texture_desc_sets[i] by {
                if i < u.len() {
                    assert(f.unused_texture_desc_sets[i] == u[i]);
                } else {
                    assert(f.unused_texture_desc_sets[i] == d);
                    assert(a != key);
                }
            }
            assert forall|i: int, j: int|
                0 <= i < f.unused_texture_desc_sets.len() && 0 <= j < f.unused_texture_desc_sets.len() && i != j implies #[trigger] f.unused_texture_desc_sets[i]
                != #[trigger] f.unused_texture_desc_sets[j] by {
                if i < u.len() && j < u.len() {
                } else if i < u.len() {
                    assert(m[key].0 != u[i]);
                } else {
                    assert(m[key].0 != u[j]);
                }
            }
        }
    }
    // taking a kept descriptor set
    let r = after_desc_set_reuse(textures);
    if u.len() > 0 {
        assert forall|a: TextureKey, i: int|
            r.textures.contains_key(a) && 0 <= i < r.unused_texture_desc_sets.len() implies #[trigger] r.textures[a].0
            != #[trigger] r.unused_texture_desc_sets[i] by {
            assert(r.unused_texture_desc_sets[i] == u[i]);
        }
        assert forall|i: int, j: int|
            0 <= i < r.unused_texture_desc_sets.len() && 0 <= j < r.unused_texture_desc_sets.len() && i != j implies #[trigger] r.unused_texture_desc_sets[i]
            != #[trigger] r.unused_texture_desc_sets[j] by {
            assert(r.unused_texture_desc_sets[i] == u[i] && r.unused_texture_desc_sets[j] == u[j]);
        }
        let d = u.last();
        assert forall|a: TextureKey| r.textures.contains_key(a) && a != key implies #[trigger] r.textures[a].0 != d by {
            assert(m[a].0 != u[u.len() - 1]);
        }
        assert(!r.unused_texture_desc_sets.contains(d)) by {
            if r.unused_texture_desc_sets.contains(d) {
                let i = choose|i: int| 0 <= i < r.unused_texture_desc_sets.len() && r.unused_texture_desc_sets[i] == d;
                assert(u[i] == u[u.len() - 1]);
            }
        }
    }
    // registering
    if desc_set_free_for(textures, texture_id, texture.desc_set) {
        let g = after_register(textures, texture_id, texture);
        assert forall|a: TextureKey, b: TextureKey|
            g.textures.contains_key(a) && g.textures.contains_key(b) && a != b implies #[trigger] g.textures[a].0
            != #[trigger] g.textures[b].0 by {
            if a == key {
                assert(m[b].0 != texture.desc_set);
            } else if b == key {
                assert(m[a].0 != texture.desc_set);
            }
        }
        assert forall|a: TextureKey, i: int|
            g.textures.contains_key(a) && 0 <= i < g.unused_texture_desc_sets.len() implies #[trigger] g.textures[a].0
            != #[trigger] g.unused_texture_desc_sets[i] by {
            if a == key {
                assert(u[i] != texture.desc_set) by {
                    if u[i] == texture.desc_set {
                        assert(u.contains(texture.desc_set));
                    }
                }
            }
        }
    }
}


impl GuiTextures {
    /// The descriptor set a gui mesh is drawn with: `Ok(None)` when the mesh has no vertices
    /// or no indices (nothing to draw), else the descriptor set of its texture, or an error
    /// when that texture doesn't exist.
    pub fn mesh_desc_set(&self, vertex_count: usize, index_count: usize, texture_id: TextureId) -> (res: Result<
        Option<u64>,
        GuiRendererError,
    >)
        ensures
            res == if vertex_count == 0 || index_count == 0 {
                Ok(None)
            } else {
                match registered_texture(self@, texture_id) {
                    Some(texture) => Ok(Some(texture.desc_set)),
                    None => Err(GuiRendererError::TextureDescSetMissing { id: texture_id }),
                }
            },
            res == mesh_desc_set_of(self@, vertex_count, index_count, texture_id),
    {
        let registered = self.registered(texture_id);
        match mesh_record_action(vertex_count, index_count, registered.is_some()) {
            MeshRecordAction::Skip => Ok(None),
            MeshRecordAction::MissingTexture => Err(GuiRendererError::TextureDescSetMissing { id: texture_id }),
            MeshRecordAction::Draw => match registered {
                Some(texture) => Ok(Some(texture.desc_set)),
                None => Err(GuiRendererError::TextureDescSetMissing { id: texture_id }),
            },
        }
    }
}


/// What one image delta of a textures delta asks for.
#[derive(Debug, Clone, Copy, PartialEq, Eq, Structural)]
pub struct ImageDeltaInfo {
    pub texture_id: TextureId,
    /// The number of texel bytes the delta holds.
    pub byte_count: usize,
    /// The delta gives a position: it updates a region of an existing texture.
    pub update_position_given: bool,
}

/// One change of a textures delta, in the order the gui pass handles them: the frees of a
/// delta, then its image deltas.
#[derive(Debug, Clone, Copy, PartialEq, Eq, Structural)]
pub enum TextureEvent {
    FreeTexture(TextureId),
    SetImage(ImageDeltaInfo),
}

/// The image delta creates a new texture.
pub open spec fn creates_texture(delta: ImageDeltaInfo) -> bool {
    delta.byte_count > 0 && !delta.update_position_given
}

/// Whether `texture_id` has a texture after `events`, starting from `textures`: a free
/// removes it, an image delta that creates a texture registers it, other image deltas leave
/// it as it was.
pub open spec fn registered_after_events(textures: GuiTexturesView, events: Seq<TextureEvent>, texture_id: TextureId) -> bool
    decreases events.len(),
{
    if events.len() == 0 {
        registered_texture(textures, texture_id) is Some
    } else {
        match events.last() {
            TextureEvent::FreeTexture(freed) => if freed == texture_id {
                false
            } else {
                registered_after_events(textures, events.drop_last(), texture_id)
            },
            TextureEvent::SetImage(delta) => if delta.texture_id == texture_id && creates_texture(delta) {
                true
            } else {
                registered_after_events(textures, events.drop_last(), texture_id)
            },
        }
    }
}

/// The plan of event `k`: for an image delta, that of its data given whether its texture
/// exists when it is handled; nothing for a free.
pub open spec fn event_plan(textures: GuiTexturesView, events: Seq<TextureEvent>, k: int) -> ProcessTextureDataReturn {
    match events[k] {
        TextureEvent::FreeTexture(_) => process_texture_data_plan_of(0, false, false),
        TextureEvent::SetImage(delta) => process_texture_data_plan_of(
            delta.byte_count,
            delta.update_position_given,
            registered_after_events(textures, events.take(k), delta.texture_id),
        ),
    }
}

impl GuiTextures {
    /// Whether `texture_id` has a texture once the first `k` events are handled.
    fn registered_before_event(&self, events: &Vec<TextureEvent>, k: usize, texture_id: TextureId) -> (res: bool)
        requires
            k <= events@.len(),
        ensures
            res == registered_after_events(self@, events@.take(k as int), texture_id),
    {
        let mut j: usize = k;
        while j > 0
            invariant
                k <= events@.len(),
                j <= k,
                registered_after_events(self@, events@.take(k as int), texture_id) == registered_after_events(
                    self@,
                    events@.take(j as int),
                    texture_id,
                ),
            decreases j,
        {
            proof {
                assert(events@.take(j as int).drop_last() =~= events@.take(j - 1));
                assert(events@.take(j as int).last() == events@[j - 1]);
            }
            match events[j - 1] {
                TextureEvent::FreeTexture(freed) => {
                    if freed == texture_id {
                        return false;
                    }
                },
                TextureEvent::SetImage(delta) => {
                    if delta.texture_id == texture_id && delta.byte_count > 0 && !delta.update_position_given {
                        return true;
                    }
                },
            }
            j -= 1;
        }
        proof {
            assert(events@.take(0) =~= Seq::<TextureEvent>::empty());
        }
        self.registered(texture_id).is_some()
    }

    /// The plans of a batch of texture changes, handled in order from the current textures:
    /// each image delta is planned as `process_texture_data_plan` plans it, seeing the
    /// textures the earlier changes of the batch freed and created; frees plan nothing.
    pub fn plan_texture_events(&self, events: &Vec<TextureEvent>) -> (res: Vec<ProcessTextureDataReturn>)
        ensures
            res@.len() == events@.len(),
            forall|k: int| 0 <= k < events@.len() ==> #[trigger] res@[k] == event_plan(self@, events@, k),
    {
        let n = events.len();
        let mut plans: Vec<ProcessTextureDataReturn> = Vec::new();
        let mut k: usize = 0;
        while k < n
            invariant
                n == events@.len(),
                k <= n,
                plans@.len() == k,
                forall|i: int| 0 <= i < k ==> #[trigger] plans@[i] == event_plan(self@, events@, i),
            decreases n - k,
        {
            let plan = match events[k] {
                TextureEvent::FreeTexture(_) => process_texture_data_plan(0, false, false),
                TextureEvent::SetImage(delta) => {
                    let registered = self.registered_before_event(events, k, delta.texture_id);
                    process_texture_data_plan(delta.byte_count, delta.update_position_given, registered)
                },
            };
            plans.push(plan);
            k += 1;
        }
        plans
    }
}

/// The work of a texture update for one frame.
#[derive(Debug)]
pub struct UpdateTexturesPlan {
    /// Wait on the previous uploads' fences, free their staging buffers and begin the
    /// command buffers.
    pub begin_upload: bool,
    /// The plan of each change, in order.
    pub plans: Vec<ProcessTextureDataReturn>,
    /// Submit the commands that create new textures.
    pub submit_creation: bool,
    /// Submit the commands that update existing textures.
    pub submit_update: bool,
}

impl GuiTextures {
    /// The work of updating the textures with `textures_delta_count` textures deltas whose
    /// changes are `events`: nothing at all without deltas (no fence is waited on and no
    /// command buffer begun); otherwise the upload begins, each change is planned in order,
    /// and the creation and update commands are submitted when some change recorded them.
    pub fn update_textures_plan(&self, textures_delta_count: usize, events: &Vec<TextureEvent>) -> (res:
        UpdateTexturesPlan)
        ensures
            textures_delta_count == 0 ==> !res.begin_upload && res.plans@.len() == 0 && !res.submit_creation
                && !res.submit_update,
            textures_delta_count > 0 ==> {
                &&& res.begin_upload
                &&& res.plans@.len() == events@.len()
                &&& forall|k: int| 0 <= k < events@.len() ==> #[trigger] res.plans@[k] == event_plan(self@, events@, k)
                &&& res.submit_creation == exists|k: int|
                    0 <= k < res.plans@.len() && (#[trigger] res.plans@[k]).new_image_commands_recorded
                &&& res.submit_update == exists|k: int|
                    0 <= k < res.plans@.len() && (#[trigger] res.plans@[k]).existing_image_commands_recorded
            },
    {
        if textures_delta_count == 0 {
            return UpdateTexturesPlan { begin_upload: false, plans: Vec::new(), submit_creation: false, submit_update: false };
        }
        let plans = self.plan_texture_events(events);
        let (submit_creation, submit_update) = texture_submissions_required(&plans);
        UpdateTexturesPlan { begin_upload: true, plans, submit_creation, submit_update }
    }
}

/// Within a batch of texture changes, a texture that an image delta creates exists for
/// every later change until one frees it, whatever kind of id it has: a later region
/// update of it records update commands through a staging buffer.
pub proof fn lemma_created_texture_seen_later(textures: GuiTexturesView, events: Seq<TextureEvent>, i: int, j: int)
    requires
        0 <= i < j < events.len(),
        events[i] matches TextureEvent::SetImage(d) && creates_texture(d),
        forall|k: int| i < k < j ==> #[trigger] events[k] != TextureEvent::FreeTexture(events[i]->SetImage_0.texture_id),
    ensures
        registered_after_events(textures, events.take(j), events[i]->SetImage_0.texture_id),
        events[j] matches TextureEvent::SetImage(e) && e.texture_id == events[i]->SetImage_0.texture_id
            && e.update_position_given && e.byte_count > 0 ==> {
            &&& event_plan(textures, events, j).existing_image_commands_recorded
            &&& event_plan(textures, events, j).uses_staging_buffer
            &&& !event_plan(textures, events, j).new_image_commands_recorded
        },
{
    lemma_created_prefix(textures, events, i, j);
}

/// Every prefix of such a batch that holds the creating delta registers the texture.
proof fn lemma_created_prefix(textures: GuiTexturesView, events: Seq<TextureEvent>, i: int, m: int)
    requires
        0 <= i < m <= events.len(),
        events[i] matches TextureEvent::SetImage(d) && creates_texture(d),
        forall|k: int| i < k < m ==> #[trigger] events[k] != TextureEvent::FreeTexture(events[i]->SetImage_0.texture_id),
    ensures
        registered_after_events(textures, events.take(m), events[i]->SetImage_0.texture_id),
    decreases m,
{
    let p = events.take(m);
    assert(p.drop_last() =~= events.take(m - 1));
    assert(p.last() == events[m - 1]);
    if m - 1 > i {
        lemma_created_prefix(textures, events, i, m - 1);
    }
}

/// Within a batch of texture changes, a freed texture that no later image delta creates
/// again has no texture after the batch, and no later region update of it records
/// anything or keeps a staging buffer.
pub proof fn lemma_freed_texture_stays_freed(textures: GuiTexturesView, events: Seq<TextureEvent>, i: int)
    requires
        0 <= i < events.len(),
        events[i] is FreeTexture,
        forall|j: int| i < j < events.len() ==> !(#[trigger] events[j] matches TextureEvent::SetImage(d) && d.texture_id
            == events[i]->FreeTexture_0 && creates_texture(d)),
    ensures
        !registered_after_events(textures, events, events[i]->FreeTexture_0),
        forall|j: int|
            i < j < events.len() && (#[trigger] events[j] matches TextureEvent::SetImage(d) && d.texture_id
                == events[i]->FreeTexture_0 && d.update_position_given) ==> event_plan(textures, events, j)
                == process_texture_data_plan_of(0, false, false),
    decreases events.len(),
{
    let id = events[i]->FreeTexture_0;
    lemma_freed_prefix(textures, events, i, events.len() as int);
    assert(events.take(events.len() as int) =~= events);
    assert forall|j: int|
        i < j < events.len() && (#[trigger] events[j] matches TextureEvent::SetImage(d) && d.texture_id == id
            && d.update_position_given) implies event_plan(textures, events, j) == process_texture_data_plan_of(
        0,
        false,
        false,
    ) by {
        lemma_freed_prefix(textures, events, i, j);
        assert(events.take(j).take(i + 1) =~= events.take(i + 1));
    }
}

/// Whether a change frees the texture of `texture_id` or creates one for it.
pub open spec fn event_touches(event: TextureEvent, texture_id: TextureId) -> bool {
    match event {
        TextureEvent::FreeTexture(freed) => freed == texture_id,
        TextureEvent::SetImage(delta) => delta.texture_id == texture_id && creates_texture(delta),
    }
}

/// Within a batch of texture changes, a texture that no earlier change of the batch frees
/// or creates is seen as the textures held it before the batch: a region update of a texture
/// that was registered records update commands through a staging buffer, one of a texture
/// that was not records nothing.
pub proof fn lemma_untouched_texture_keeps_status(textures: GuiTexturesView, events: Seq<TextureEvent>, j: int)
    requires
        0 <= j < events.len(),
        events[j] is SetImage,
        forall|k: int| 0 <= k < j ==> !event_touches(#[trigger] events[k], events[j]->SetImage_0.texture_id),
    ensures
        registered_after_events(textures, events.take(j), events[j]->SetImage_0.texture_id) == (registered_texture(
            textures,
            events[j]->SetImage_0.texture_id,
        ) is Some),
        events[j]->SetImage_0.update_position_given && events[j]->SetImage_0.byte_count > 0 ==> {
            &&& event_plan(textures, events, j).existing_image_commands_recorded == (registered_texture(
                textures,
                events[j]->SetImage_0.texture_id,
            ) is Some)
            &&& event_plan(textures, events, j).uses_staging_buffer == (registered_texture(
                textures,
                events[j]->SetImage_0.texture_id,
            ) is Some)
            &&& !event_plan(textures, events, j).new_image_commands_recorded
        },
{
    lemma_untouched_prefix(textures, events, events[j]->SetImage_0.texture_id, j);
}

/// A prefix with no change that frees or creates `texture_id` leaves its status as it was.
proof fn lemma_untouched_prefix(textures: GuiTexturesView, events: Seq<TextureEvent>, texture_id: TextureId, m: int)
    requires
        0 <= m <= events.len(),
        forall|k: int| 0 <= k < m ==> !event_touches(#[trigger] events[k], texture_id),
    ensures
        registered_after_events(textures, events.take(m), texture_id) == (registered_texture(textures, texture_id) is Some),
    decreases m,
{
    let p = events.take(m);
    if m > 0 {
        assert(p.drop_last() =~= events.take(m - 1));
        assert(p.last() == events[m - 1]);
        assert(!event_touches(events[m - 1], texture_id));
        lemma_untouched_prefix(textures, events, texture_id, m - 1);
    } else {
        assert(p =~= Seq::<TextureEvent>::empty());
    }
}

/// No prefix longer than `i` of such a batch registers the freed texture.
proof fn lemma_freed_prefix(textures: GuiTexturesView, events: Seq<TextureEvent>, i: int, m: int)
    requires
        0 <= i < m <= events.len(),
        events[i] is FreeTexture,
        forall|j: int| i < j < events.len() ==> !(#[trigger] events[j] matches TextureEvent::SetImage(d) && d.texture_id
            == events[i]->FreeTexture_0 && creates_texture(d)),
    ensures
        !registered_after_events(textures, events.take(m), events[i]->FreeTexture_0),
    decreases m,
{
    let p = events.take(m);
    assert(p.drop_last() =~= events.take(m - 1));
    assert(p.last() == events[m - 1]);
    if m - 1 > i {
        lemma_freed_prefix(textures, events, i, m - 1);
    }
}


/// `GuiTextures::mesh_desc_set`'s result.
pub open spec fn mesh_desc_set_of(textures: GuiTexturesView, vertex_count: usize, index_count: usize, texture_id: TextureId) -> Result<
    Option<u64>,
    GuiRendererError,
> {
    if vertex_count == 0 || index_count == 0 {
        Ok(None)
    } else {
        match registered_texture(textures, texture_id) {
            Some(texture) => Ok(Some(texture.desc_set)),
            None => Err(GuiRendererError::TextureDescSetMissing { id: texture_id }),
        }
    }
}

/// A clipped primitive of the gui, as its recording sees it.
#[derive(Debug, Clone, Copy, PartialEq, Eq, Structural)]
pub enum GuiPrimitive {
    Mesh { vertex_count: usize, index_count: usize, texture_id: TextureId },
    /// A paint callback, which the gui pass does not draw.
    Callback,
}

/// The meshes that recording the first `primitives.len()` primitives draws, in order, each
/// as its position and the descriptor set of its texture; or the error of the first mesh
/// whose texture is missing.
pub open spec fn mesh_draws_of(textures: GuiTexturesView, primitives: Seq<GuiPrimitive>) -> Result<
    Seq<(usize, u64)>,
    GuiRendererError,
>
    decreases primitives.len(),
{
    if primitives.len() == 0 {
        Ok(Seq::empty())
    } else {
        match mesh_draws_of(textures, primitives.drop_last()) {
            Err(e) => Err(e),
            Ok(draws) => match primitives.last() {
                GuiPrimitive::Callback => Ok(draws),
                GuiPrimitive::Mesh { vertex_count, index_count, texture_id } => match mesh_desc_set_of(
                    textures,
                    vertex_count,
                    index_count,
                    texture_id,
                ) {
                    Ok(None) => Ok(draws),
                    Ok(Some(desc_set)) => Ok(draws.push(((primitives.len() - 1) as usize, desc_set))),
                    Err(e) => Err(e),
                },
            },
        }
    }
}

impl GuiTextures {
    /// The draws of a frame's gui primitives, in order: each mesh with vertices and indices
    /// is drawn with the descriptor set of its texture; empty meshes and callbacks are
    /// skipped; the recording fails at the first mesh whose texture is missing.
    pub fn mesh_draws(&self, primitives: &Vec<GuiPrimitive>) -> (res: Result<Vec<(usize, u64)>, GuiRendererError>)
        ensures
            match (res, mesh_draws_of(self@, primitives@)) {
                (Ok(draws), Ok(expected)) => draws@ == expected,
                (Err(e), Err(expected)) => e == expected,
                _ => false,
            },
    {
        let n = primitives.len();
        let mut draws: Vec<(usize, u64)> = Vec::new();
        let mut i: usize = 0;
        while i < n
            invariant
                n == primitives@.len(),
                i <= n,
                mesh_draws_of(self@, primitives@.take(i as int)) == Ok::<Seq<(usize, u64)>, GuiRendererError>(draws@),
            decreases n - i,
        {
            proof {
                assert(primitives@.take(i + 1).drop_last() =~= primitives@.take(i as int));
                assert(primitives@.take(i + 1).last() == primitives@[i as int]);
            }
            match primitives[i] {
                GuiPrimitive::Callback => {},
                GuiPrimitive::Mesh { vertex_count, index_count, texture_id } => {
                    match self.mesh_desc_set(vertex_count, index_count, texture_id) {
                        Ok(None) => {},
                        Ok(Some(desc_set)) => {
                            draws.push((i, desc_set));
                        },
                        Err(e) => {
                            proof {
                                lemma_mesh_draws_error_stays(self@, primitives@, i as int + 1);
                            }
                            return Err(e);
                        },
                    }
                },
            }
            i += 1;
        }
        proof {
            assert(primitives@.take(n as int) =~= primitives@);
        }
        Ok(draws)
    }
}

/// Once a prefix fails, every longer prefix fails with the same error.
proof fn lemma_mesh_draws_error_stays(textures: GuiTexturesView, primitives: Seq<GuiPrimitive>, m: int)
    requires
        0 <= m <= primitives.len(),
        mesh_draws_of(textures, primitives.take(m)) is Err,
    ensures
        mesh_draws_of(textures, primitives) == mesh_draws_of(textures, primitives.take(m)),
    decreases primitives.len() - m,
{
    if m < primitives.len() {
        assert(primitives.take(m + 1).drop_last() =~= primitives.take(m));
        lemma_mesh_draws_error_stays(textures, primitives, m + 1);
    } else {
        assert(primitives.take(m) =~= primitives);
    }
}


/// A non-empty mesh: one with vertices and indices.
pub open spec fn is_drawn_mesh(primitive: GuiPrimitive) -> bool {
    primitive matches GuiPrimitive::Mesh { vertex_count, index_count, .. } && vertex_count > 0 && index_count > 0
}

/// When the gui primitives are recorded without error, the draws are exactly the non-empty
/// meshes, in the order of the primitives, each with the descriptor set of its texture;
/// callbacks and empty meshes are not drawn. When recording fails, the failing primitive is
/// a non-empty mesh whose texture does not exist.
pub proof fn lemma_mesh_draws_are_the_meshes(textures: GuiTexturesView, primitives: Seq<GuiPrimitive>)
    requires
        primitives.len() <= usize::MAX,
    ensures
        mesh_draws_of(textures, primitives) matches Ok(draws) ==> {
            &&& forall|m: int|
                0 <= m < draws.len() ==> {
                    let (p, desc_set) = #[trigger] draws[m];
                    &&& 0 <= p < primitives.len()
                    &&& is_drawn_mesh(primitives[p as int])
                    &&& registered_texture(textures, primitives[p as int]->texture_id) matches Some(t)
                        && t.desc_set == desc_set
                }
            &&& forall|m1: int, m2: int| 0 <= m1 < m2 < draws.len() ==> (#[trigger] draws[m1]).0 < (#[trigger] draws[m2]).0
            &&& forall|p: int|
                0 <= p < primitives.len() && is_drawn_mesh(#[trigger] primitives[p]) ==> exists|m: int|
                    0 <= m < draws.len() && (#[trigger] draws[m]).0 == p
        },
        mesh_draws_of(textures, primitives) matches Err(GuiRendererError::TextureDescSetMissing { id }) ==> exists|p: int|
            0 <= p < primitives.len() && is_drawn_mesh(#[trigger] primitives[p]) && primitives[p]->texture_id == id
                && registered_texture(textures, id) is None,
    decreases primitives.len(),
{
    if primitives.len() > 0 {
        let prefix = primitives.drop_last();
        lemma_mesh_draws_are_the_meshes(textures, prefix);
        let n = prefix.len() as int;
        assert(primitives.last() == primitives[n]);
        assert forall|p: int| 0 <= p < n implies #[trigger] primitives[p] == prefix[p] by {}
        match mesh_draws_of(textures, prefix) {
            Err(e) => {
                if let GuiRendererError::TextureDescSetMissing { id } = e {
                    let p = choose|p: int|
                        0 <= p < prefix.len() && is_drawn_mesh(#[trigger] prefix[p]) && prefix[p]->texture_id == id
                            && registered_texture(textures, id) is None;
                    assert(primitives[p] == prefix[p]);
                }
            },
            Ok(draws) => {
                if let Ok(all) = mesh_draws_of(textures, primitives) {
                    if all.len() > draws.len() {
                        assert(all == draws.push((n as usize, all.last().1)));
                        assert(all[draws.len() as int].0 == n);
                    } else {
                        assert(all == draws);
                    }
                    assert forall|p: int|
                        0 <= p < primitives.len() && is_drawn_mesh(#[trigger] primitives[p]) implies exists|m: int|
                        0 <= m < all.len() && (#[trigger] all[m]).0 == p by {
                        if p < n {
                            assert(is_drawn_mesh(prefix[p]));
                            let m = choose|m: int| 0 <= m < draws.len() && (#[trigger] draws[m]).0 == p;
                            assert(all[m] == draws[m]);
                        } else {
                            assert(all[draws.len() as int].0 == p);
                        }
                    }
                    assert forall|m: int| 0 <= m < all.len() implies {
                        let (p, desc_set) = #[trigger] all[m];
                        &&& 0 <= p < primitives.len()
                        &&& is_drawn_mesh(primitives[p as int])
                        &&& registered_texture(textures, primitives[p as int]->texture_id) matches Some(t)
                            && t.desc_set == desc_set
                    } by {
                        if m < draws.len() {
                            assert(all[m] == draws[m]);
                            let (p, d) = draws[m];
                            assert(primitives[p as int] == prefix[p as int]);
                        }
                    }
                    assert forall|m1: int, m2: int| 0 <= m1 < m2 < all.len() implies (#[trigger] all[m1]).0 < (
                    #[trigger] all[m2]).0 by {
                        if m2 < draws.len() {
                            assert(all[m1] == draws[m1] && all[m2] == draws[m2]);
                        } else {
                            assert(all[m1] == draws[m1]);
                        }
                    }
                }
            },
        }
    }
}

} // verus!
