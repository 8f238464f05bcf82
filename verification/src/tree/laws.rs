//! What holds of every well-formed tree, and of a tree after a change.

use vstd::prelude::*;
use crate::entity::Entity;
use crate::tree::Tree;

verus! {

impl Tree {
    /// A well-formed tree has a root slot, which has no parent, and the
    /// root is the only node of the tree without one.
    pub proof fn lemma_root(&self)
        requires
            self.wf(),
        ensures
            forall|e: Entity|
                self@.present(e) && #[trigger] self@.parent_of(e) is None ==> e.spec_index() == 0,
            self@.present(Entity::spec_root()),
            self@.len() >= 1,
            self@.children.len() == self@.len(),
            self@.ignored.len() == self@.len(),
            self@.lock_focus_within.len() == self@.len(),
            self@.parent_of(Entity::spec_root()) is None,
            Entity::spec_root().spec_index() == 0,
    {
        assert(0u32 & 0x00ff_ffff == 0) by (bit_vector);
    }

    /// Every child names its parent: the child at place `k` of `p` lies in
    /// the tree, is not the root, has a parent with the index of `p`, and
    /// stands at place `k`.
    pub proof fn lemma_child(&self, p: Entity, k: int)
        requires
            self.wf(),
            0 <= k < self@.children_of(p).len(),
        ensures
            self@.in_range(self@.children_of(p)[k]),
            self@.children_of(p)[k].spec_index() != 0,
            self@.parent_of(self@.children_of(p)[k]) is Some,
            self@.parent_of(self@.children_of(p)[k]).unwrap().spec_index() == p.spec_index(),
            self@.place_of(self@.children_of(p)[k]) == k,
    {
    }

    /// Every node with a parent is listed among the children of that parent
    /// exactly once: at its place, and nowhere else.
    pub proof fn lemma_listed_once(&self, e: Entity)
        requires
            self.wf(),
            self@.parent_of(e) is Some,
        ensures
            self@.in_range(self@.parent_of(e).unwrap()),
            0 <= self@.place_of(e) < self@.children_of(self@.parent_of(e).unwrap()).len(),
            self@.children_of(self@.parent_of(e).unwrap())[self@.place_of(e)].spec_index()
                == e.spec_index(),
            forall|k: int|
                0 <= k < self@.children_of(self@.parent_of(e).unwrap()).len() && (
                #[trigger] self@.children_of(self@.parent_of(e).unwrap())[k]).spec_index()
                    == e.spec_index() ==> k == self@.place_of(e),
    {
    }

    /// The sibling chains are doubly linked: the node behind the previous
    /// sibling of `e`, and the node in front of its next sibling, stand in
    /// the slot of `e`.
    pub proof fn lemma_doubly_linked(&self, e: Entity)
        requires
            self.wf(),
        ensures
            self@.prev_sibling_of(e) is Some ==> self@.next_sibling_of(self@.prev_sibling_of(e).unwrap())
                is Some && self@.next_sibling_of(
                self@.prev_sibling_of(e).unwrap(),
            ).unwrap().spec_index() == e.spec_index(),
            self@.next_sibling_of(e) is Some ==> self@.prev_sibling_of(self@.next_sibling_of(e).unwrap())
                is Some && self@.prev_sibling_of(
                self@.next_sibling_of(e).unwrap(),
            ).unwrap().spec_index() == e.spec_index(),
    {
    }

    /// After a node was added, it has the parent it was given and is listed
    /// among that parent's children exactly once, as the last of them.
    pub proof fn lemma_added(&self, before: Tree, e: Entity, p: Entity)
        requires
            before.wf(),
            self.wf(),
            !e.spec_is_null(),
            !p.spec_is_null(),
            before@.in_range(p),
            before@.vacant(e),
            e.spec_index() != p.spec_index(),
            self@ == before@.added(e, p),
        ensures
            self@.parent_of(e) == Some(p),
            self@.children_of(p) == before@.children_of(p).push(e),
            self@.last_child_of(p) == Some(e),
            forall|k: int|
                0 <= k < self@.children_of(p).len() && (#[trigger] self@.children_of(p)[k]) == e
                    ==> k == self@.children_of(p).len() - 1,
    {
    }

    /// After a node other than the root was removed, it has no parent, is
    /// no longer part of the tree, and no child of its former parent stands
    /// in its slot.
    pub proof fn lemma_removed(&self, before: Tree, e: Entity)
        requires
            before.wf(),
            self.wf(),
            !e.spec_is_null(),
            before@.present(e),
            e.spec_index() != 0,
            self@ == before@.removed(e),
        ensures
            self@.parent_of(e) is None,
            !self@.present(e),
            self@.children_of(before@.parent_of(e).unwrap()).len() + 1 == before@.children_of(
                before@.parent_of(e).unwrap(),
            ).len(),
            forall|k: int|
                0 <= k < self@.children_of(before@.parent_of(e).unwrap()).len() ==> (
                #[trigger] self@.children_of(before@.parent_of(e).unwrap())[k]).spec_index()
                    != e.spec_index(),
    {
    }

    /// After `sibling` was moved behind `entity`, it is the next sibling of
    /// `entity`, and their parent has as many children as before.
    pub proof fn lemma_next_sibling_set(&self, before: Tree, entity: Entity, sibling: Entity)
        requires
            before.wf(),
            self.wf(),
            before@.can_reorder(entity, sibling),
            self@ == before@.moved(sibling, before@.place_without(entity, sibling) + 1),
        ensures
            self@.next_sibling_of(entity) == Some(sibling),
            self@.parent_of(entity) == before@.parent_of(entity),
            self@.parent_of(sibling) == before@.parent_of(sibling),
            self@.children_of(self@.parent_of(entity).unwrap()).len() == before@.children_of(
                before@.parent_of(entity).unwrap(),
            ).len(),
    {
    }

    /// After `sibling` was moved in front of `entity`, it is the previous
    /// sibling of `entity`, and their parent has as many children as before.
    pub proof fn lemma_prev_sibling_set(&self, before: Tree, entity: Entity, sibling: Entity)
        requires
            before.wf(),
            self.wf(),
            before@.can_reorder(entity, sibling),
            self@ == before@.moved(sibling, before@.place_without(entity, sibling)),
        ensures
            self@.prev_sibling_of(entity) == Some(sibling),
            self@.parent_of(entity) == before@.parent_of(entity),
            self@.parent_of(sibling) == before@.parent_of(sibling),
            self@.children_of(self@.parent_of(entity).unwrap()).len() == before@.children_of(
                before@.parent_of(entity).unwrap(),
            ).len(),
    {
    }

    /// After a node was given a new parent, it has that parent and is the
    /// last of its children.
    pub proof fn lemma_parent_set(&self, before: Tree, entity: Entity, parent: Entity)
        requires
            before.wf(),
            self.wf(),
            before@.in_range(entity),
            before@.in_range(parent),
            self@ == before@.reparented(entity, parent),
        ensures
            self@.parent_of(entity) == Some(parent),
            self@.last_child_of(parent) == Some(entity),
    {
    }

    /// After a node was made the first child, it is the first child of its
    /// parent, which has as many children as before.
    pub proof fn lemma_first_child_set(&self, before: Tree, e: Entity)
        requires
            before.wf(),
            self.wf(),
            before@.parent_of(e) is Some,
            before@.place_of(e) != 0,
            self@ == before@.moved(e, 0),
        ensures
            self@.parent_of(e) == before@.parent_of(e),
            self@.child_at(self@.parent_of(e).unwrap(), 0) == Some(e),
            self@.children_of(self@.parent_of(e).unwrap()).len() == before@.children_of(
                before@.parent_of(e).unwrap(),
            ).len(),
    {
    }
}

} // verus!
