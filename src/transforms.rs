//! The perspective, view and model matrices of entities, each kept with its inverse.
use std::collections::HashMap;
use vstd::prelude::*;

use crate::entity::Entity;
use crate::ids::{IDSize, IDType};

verus! {

broadcast use vstd::std_specs::hash::group_hash_axioms;

/// The matrix of `id` in `table`, if it has one.
pub open spec fn matrix_of<M>(table: Map<IDSize, (M, M)>, id: IDSize) -> Option<M> {
    if table.contains_key(id) {
        Some(table[id].0)
    } else {
        None
    }
}

/// The inverse kept for `id` in `table`, if it has one.
pub open spec fn inverse_of<M>(table: Map<IDSize, (M, M)>, id: IDSize) -> Option<M> {
    if table.contains_key(id) {
        Some(table[id].1)
    } else {
        None
    }
}

fn lookup_matrix<M: Copy>(table: &HashMap<IDSize, (M, M)>, id: IDSize) -> (r: Option<M>)
    ensures
        r == matrix_of(table@, id),
{
    match table.get(&id) {
        Some(pair) => Some(pair.0),
        None => None,
    }
}

fn lookup_inverse<M: Copy>(table: &HashMap<IDSize, (M, M)>, id: IDSize) -> (r: Option<M>)
    ensures
        r == inverse_of(table@, id),
{
    match table.get(&id) {
        Some(pair) => Some(pair.1),
        None => None,
    }
}

/// Three tables from transform identifiers to a matrix and its inverse. `M` is the
/// matrix type. A matrix and its inverse are stored and replaced as one pair, so no
/// reader sees one without the other.
pub struct Transforms<M> {
    perspective: HashMap<IDSize, (M, M)>,
    view: HashMap<IDSize, (M, M)>,
    model: HashMap<IDSize, (M, M)>,
}

impl<M: Copy> Transforms<M> {
    /// Perspective pairs, by perspective identifier.
    pub closed spec fn perspectives(&self) -> Map<IDSize, (M, M)> {
        self.perspective@
    }

    /// View pairs, by view identifier.
    pub closed spec fn views(&self) -> Map<IDSize, (M, M)> {
        self.view@
    }

    /// Model pairs, by model identifier.
    pub closed spec fn models(&self) -> Map<IDSize, (M, M)> {
        self.model@
    }

    pub fn new() -> (r: Transforms<M>)
        ensures
            r.perspectives() == Map::<IDSize, (M, M)>::empty(),
            r.views() == Map::<IDSize, (M, M)>::empty(),
            r.models() == Map::<IDSize, (M, M)>::empty(),
    {
        Transforms { perspective: HashMap::new(), view: HashMap::new(), model: HashMap::new() }
    }

    pub fn get_perspective_matrix(&self, entity: &Entity) -> (r: Option<M>)
        ensures
            r == matrix_of(self.perspectives(), entity.id_of(IDType::Perspective).value()),
    {
        lookup_matrix(&self.perspective, entity.id(IDType::Perspective).get_id())
    }

    pub fn get_perspective_inverse(&self, entity: &Entity) -> (r: Option<M>)
        ensures
            r == inverse_of(self.perspectives(), entity.id_of(IDType::Perspective).value()),
    {
        lookup_inverse(&self.perspective, entity.id(IDType::Perspective).get_id())
    }

    /// Stores `perspective` and its `inverse` under the entity's perspective identifier.
    pub fn set_perspective_matrix(&mut self, entity: &Entity, perspective: M, inverse: M)
        ensures
            final(self).perspectives() == old(self).perspectives().insert(
                entity.id_of(IDType::Perspective).value(),
                (perspective, inverse),
            ),
            final(self).views() == old(self).views(),
            final(self).models() == old(self).models(),
    {
        self.perspective.insert(entity.id(IDType::Perspective).get_id(), (perspective, inverse));
    }

    pub fn get_view_matrix(&self, entity: &Entity) -> (r: Option<M>)
        ensures
            r == matrix_of(self.views(), entity.id_of(IDType::View).value()),
    {
        lookup_matrix(&self.view, entity.id(IDType::View).get_id())
    }

    pub fn get_view_inverse(&self, entity: &Entity) -> (r: Option<M>)
        ensures
            r == inverse_of(self.views(), entity.id_of(IDType::View).value()),
    {
        lookup_inverse(&self.view, entity.id(IDType::View).get_id())
    }

    /// Stores `view` and its `inverse` under the entity's view identifier.
    pub fn set_view_matrix(&mut self, entity: &Entity, view: M, inverse: M)
        ensures
            final(self).views() == old(self).views().insert(
                entity.id_of(IDType::View).value(),
                (view, inverse),
            ),
            final(self).perspectives() == old(self).perspectives(),
            final(self).models() == old(self).models(),
    {
        self.view.insert(entity.id(IDType::View).get_id(), (view, inverse));
    }

    pub fn get_model_matrix(&self, entity: &Entity) -> (r: Option<M>)
        ensures
            r == matrix_of(self.models(), entity.id_of(IDType::Model).value()),
    {
        lookup_matrix(&self.model, entity.id(IDType::Model).get_id())
    }

    pub fn get_model_inverse(&self, entity: &Entity) -> (r: Option<M>)
        ensures
            r == inverse_of(self.models(), entity.id_of(IDType::Model).value()),
    {
        lookup_inverse(&self.model, entity.id(IDType::Model).get_id())
    }

    /// Stores `model` and its `inverse` under the entity's model identifier.
    pub fn set_model_matrix(&mut self, entity: &Entity, model: M, inverse: M)
        ensures
            final(self).models() == old(self).models().insert(
                entity.id_of(IDType::Model).value(),
                (model, inverse),
            ),
            final(self).perspectives() == old(self).perspectives(),
            final(self).views() == old(self).views(),
    {
        self.model.insert(entity.id(IDType::Model).get_id(), (model, inverse));
    }
}

} // verus!
