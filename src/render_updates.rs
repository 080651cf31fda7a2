//! The changes a being asks of the renderer, held until the render step applies them.
use vstd::prelude::*;

use crate::draw::{DrawMethod, Index};

verus! {

/// Four queues of pending renderer changes, each entry tagged with the key of the
/// sub-part it applies to. `V` is the vertex type. Entries are appended during a tick and
/// taken out, all at once and in order, by the render step.
pub struct RenderUpdateData<V> {
    vertices: Vec<(u64, Vec<V>)>,
    indices: Vec<(u64, Vec<Index>)>,
    texture: Vec<(u64, &'static [u8])>,
    draw_method: Vec<(u64, DrawMethod)>,
}

impl<V> RenderUpdateData<V> {
    pub closed spec fn pending_vertices(&self) -> Seq<(u64, Vec<V>)> {
        self.vertices@
    }

    pub closed spec fn pending_indices(&self) -> Seq<(u64, Vec<Index>)> {
        self.indices@
    }

    pub closed spec fn pending_textures(&self) -> Seq<(u64, &'static [u8])> {
        self.texture@
    }

    pub closed spec fn pending_draw_methods(&self) -> Seq<(u64, DrawMethod)> {
        self.draw_method@
    }

    /// No change is pending.
    pub open spec fn is_drained(&self) -> bool {
        &&& self.pending_vertices().len() == 0
        &&& self.pending_indices().len() == 0
        &&& self.pending_textures().len() == 0
        &&& self.pending_draw_methods().len() == 0
    }

    /// The same four queues.
    pub open spec fn same_queues(&self, other: &Self) -> bool {
        &&& self.pending_vertices() == other.pending_vertices()
        &&& self.pending_indices() == other.pending_indices()
        &&& self.pending_textures() == other.pending_textures()
        &&& self.pending_draw_methods() == other.pending_draw_methods()
    }

    pub fn new() -> (r: RenderUpdateData<V>)
        ensures
            r.is_drained(),
    {
        RenderUpdateData {
            vertices: Vec::new(),
            indices: Vec::new(),
            texture: Vec::new(),
            draw_method: Vec::new(),
        }
    }

    /// Whether no change is pending.
    pub fn is_empty(&self) -> (r: bool)
        ensures
            r == self.is_drained(),
    {
        self.vertices.len() == 0 && self.indices.len() == 0 && self.texture.len() == 0
            && self.draw_method.len() == 0
    }

    /// Queues new vertices for sub-part `part`.
    pub fn push_vertices(&mut self, part: u64, vertices: Vec<V>)
        ensures
            final(self).pending_vertices() == old(self).pending_vertices().push((part, vertices)),
            final(self).pending_indices() == old(self).pending_indices(),
            final(self).pending_textures() == old(self).pending_textures(),
            final(self).pending_draw_methods() == old(self).pending_draw_methods(),
    {
        self.vertices.push((part, vertices));
    }

    /// Queues new indices for sub-part `part`.
    pub fn push_indices(&mut self, part: u64, indices: Vec<Index>)
        ensures
            final(self).pending_indices() == old(self).pending_indices().push((part, indices)),
            final(self).pending_vertices() == old(self).pending_vertices(),
            final(self).pending_textures() == old(self).pending_textures(),
            final(self).pending_draw_methods() == old(self).pending_draw_methods(),
    {
        self.indices.push((part, indices));
    }

    /// Queues a new texture, as encoded image bytes, for sub-part `part`.
    pub fn push_texture(&mut self, part: u64, image: &'static [u8])
        ensures
            final(self).pending_textures() == old(self).pending_textures().push((part, image)),
            final(self).pending_vertices() == old(self).pending_vertices(),
            final(self).pending_indices() == old(self).pending_indices(),
            final(self).pending_draw_methods() == old(self).pending_draw_methods(),
    {
        self.texture.push((part, image));
    }

    /// Queues a new draw method for sub-part `part`.
    pub fn push_draw_method(&mut self, part: u64, method: DrawMethod)
        ensures
            final(self).pending_draw_methods() == old(self).pending_draw_methods().push(
                (part, method),
            ),
            final(self).pending_vertices() == old(self).pending_vertices(),
            final(self).pending_indices() == old(self).pending_indices(),
            final(self).pending_textures() == old(self).pending_textures(),
    {
        self.draw_method.push((part, method));
    }

    /// Takes out every pending change, leaving all four queues empty.
    pub fn take_all(&mut self) -> (r: RenderUpdateData<V>)
        ensures
            r.same_queues(old(self)),
            final(self).is_drained(),
    {
        let mut r = RenderUpdateData::new();
        std::mem::swap(self, &mut r);
        r
    }

    /// The four queues, in the order vertices, indices, textures, draw methods.
    pub fn into_parts(self) -> (r: (
        Vec<(u64, Vec<V>)>,
        Vec<(u64, Vec<Index>)>,
        Vec<(u64, &'static [u8])>,
        Vec<(u64, DrawMethod)>,
    ))
        ensures
            r.0@ == self.pending_vertices(),
            r.1@ == self.pending_indices(),
            r.2@ == self.pending_textures(),
            r.3@ == self.pending_draw_methods(),
    {
        (self.vertices, self.indices, self.texture, self.draw_method)
    }
}

/// Draining leaves nothing pending, and draining queues that were already drained hands
/// out nothing and changes nothing.
pub proof fn lemma_drain_idempotent<V>(
    before: RenderUpdateData<V>,
    taken: RenderUpdateData<V>,
    after: RenderUpdateData<V>,
)
    requires
        taken.same_queues(&before),
        after.is_drained(),
    ensures
        after.is_drained(),
        before.is_drained() ==> taken.is_drained() && after.same_queues(&before),
{
    if before.is_drained() {
        assert(after.pending_vertices() =~= before.pending_vertices());
        assert(after.pending_indices() =~= before.pending_indices());
        assert(after.pending_textures() =~= before.pending_textures());
        assert(after.pending_draw_methods() =~= before.pending_draw_methods());
    }
}

} // verus!
