//! The bundle of resource identifiers that one sub-part of a being draws with.
use vstd::prelude::*;

use crate::ids::{IDManager, IDType, ID, IDSize, allocated};

verus! {

/// One identifier per resource category. An entity names resources that live in the
/// renderer and in the transform tables; it owns none of them.
#[derive(Copy, Clone, Debug, PartialEq, Eq, Structural)]
pub struct Entity {
    texture_id: ID,
    vertex_id: ID,
    index_id: ID,
    draw_parameters_id: ID,
    perspective_id: ID,
    view_id: ID,
    model_id: ID,
}

/// The counts after one more identifier of every category was handed out.
pub open spec fn allocated_each(counts: Map<IDType, nat>) -> Map<IDType, nat> {
    Map::new(|t: IDType| true, |t: IDType| counts[t] + 1)
}

/// Whether `counts` leaves room for one more identifier of every category.
pub open spec fn room_for_each(counts: Map<IDType, nat>) -> bool {
    forall|t: IDType| #[trigger] counts[t] < IDSize::MAX
}

impl Entity {
    /// The identifier this entity holds for category `t`.
    pub closed spec fn id_of(&self, t: IDType) -> ID {
        match t {
            IDType::Vertex => self.vertex_id,
            IDType::Index => self.index_id,
            IDType::Texture => self.texture_id,
            IDType::DrawParameter => self.draw_parameters_id,
            IDType::Perspective => self.perspective_id,
            IDType::View => self.view_id,
            IDType::Model => self.model_id,
        }
    }

    /// An entity with a fresh identifier of every category.
    pub fn new(manager: &mut IDManager) -> (r: Entity)
        requires
            room_for_each(old(manager).issued()),
        ensures
            forall|t: IDType| #[trigger] r.id_of(t).value() == old(manager).issued()[t] + 1,
            final(manager).issued() == allocated_each(old(manager).issued()),
    {
        let ghost start = manager.issued();
        proof {
            manager.lemma_issued_total();
        }
        let texture_id = ID::new(manager, IDType::Texture);
        let vertex_id = ID::new(manager, IDType::Vertex);
        let index_id = ID::new(manager, IDType::Index);
        let draw_parameters_id = ID::new(manager, IDType::DrawParameter);
        let perspective_id = ID::new(manager, IDType::Perspective);
        let view_id = ID::new(manager, IDType::View);
        let model_id = ID::new(manager, IDType::Model);
        let r = Entity {
            texture_id,
            vertex_id,
            index_id,
            draw_parameters_id,
            perspective_id,
            view_id,
            model_id,
        };
        assert(manager.issued() =~= allocated_each(start));
        r
    }

    /// An entity that names the same resources as `entity`.
    pub fn new_from(entity: &Entity) -> (r: Entity)
        ensures
            r == *entity,
    {
        *entity
    }

    /// The identifier this entity holds for category `t`.
    pub fn id(&self, t: IDType) -> (r: ID)
        ensures
            r == self.id_of(t),
    {
        match t {
            IDType::Vertex => self.vertex_id,
            IDType::Index => self.index_id,
            IDType::Texture => self.texture_id,
            IDType::DrawParameter => self.draw_parameters_id,
            IDType::Perspective => self.perspective_id,
            IDType::View => self.view_id,
            IDType::Model => self.model_id,
        }
    }

    fn set_id(&mut self, t: IDType, id: ID)
        ensures
            forall|u: IDType|
                #[trigger] final(self).id_of(u) == if u == t {
                    id
                } else {
                    old(self).id_of(u)
                },
    {
        match t {
            IDType::Vertex => self.vertex_id = id,
            IDType::Index => self.index_id = id,
            IDType::Texture => self.texture_id = id,
            IDType::DrawParameter => self.draw_parameters_id = id,
            IDType::Perspective => self.perspective_id = id,
            IDType::View => self.view_id = id,
            IDType::Model => self.model_id = id,
        }
    }

    /// Takes the identifier of category `id_type` from `other`; the rest stay.
    pub fn use_old_id(&mut self, other: &Entity, id_type: IDType)
        ensures
            forall|u: IDType|
                #[trigger] final(self).id_of(u) == if u == id_type {
                    other.id_of(u)
                } else {
                    old(self).id_of(u)
                },
    {
        let id = other.id(id_type);
        self.set_id(id_type, id);
    }

    /// Replaces the identifier of category `id_type` by a fresh one; the rest stay.
    pub fn use_new_id(&mut self, manager: &mut IDManager, id_type: IDType)
        requires
            old(manager).issued()[id_type] < IDSize::MAX,
        ensures
            final(self).id_of(id_type).value() == old(manager).issued()[id_type] + 1,
            forall|u: IDType| u != id_type ==> #[trigger] final(self).id_of(u) == old(self).id_of(u),
            final(manager).issued() == allocated(old(manager).issued(), id_type),
    {
        let id = ID::new(manager, id_type);
        self.set_id(id_type, id);
    }
}

} // verus!
