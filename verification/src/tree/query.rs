//! Reading the tree: links, places, flags and ancestors.

use vstd::prelude::*;
use crate::entity::Entity;
use crate::tree::Tree;

verus! {

impl Tree {
    /// Returns the parent of an entity, or `None` for a node without parent
    /// and for an index outside the tree.
    pub fn get_parent(&self, entity: Entity) -> (r: Option<Entity>)
        requires
            self.wf(),
        ensures
            r == self@.parent_of(entity),
    {
        let index = entity.index();
        if index < self.parent.len() {
            self.parent[index]
        } else {
            None
        }
    }

    /// Returns the first child of an entity, or `None` if it has none.
    pub fn get_first_child(&self, entity: Entity) -> (r: Option<Entity>)
        requires
            self.wf(),
        ensures
            r == self@.child_at(entity, 0),
    {
        let index = entity.index();
        if index < self.first_child.len() {
            self.first_child[index]
        } else {
            None
        }
    }

    /// Returns the sibling that follows an entity, or `None` if there is none.
    pub fn get_next_sibling(&self, entity: Entity) -> (r: Option<Entity>)
        requires
            self.wf(),
        ensures
            r == self@.next_sibling_of(entity),
    {
        let index = entity.index();
        if index < self.next_sibling.len() {
            self.next_sibling[index]
        } else {
            None
        }
    }

    /// Returns the sibling that precedes an entity, or `None` if there is none.
    pub fn get_prev_sibling(&self, entity: Entity) -> (r: Option<Entity>)
        requires
            self.wf(),
        ensures
            r == self@.prev_sibling_of(entity),
    {
        let index = entity.index();
        if index < self.prev_sibling.len() {
            self.prev_sibling[index]
        } else {
            None
        }
    }

    /// Returns the last child of an entity, or `None` if it has none.
    pub fn get_last_child(&self, entity: Entity) -> (r: Option<Entity>)
        requires
            self.wf(),
        ensures
            r == self@.last_child_of(entity),
    {
        let index = entity.index();
        if index < self.first_child.len() {
            let mut f = self.first_child[index];
            let mut r = None;
            let ghost mut k: int = 0;
            while f.is_some()
                invariant
                    self.wf(),
                    index < self.parent@.len(),
                    0 <= k <= self.kids@[index as int].len(),
                    f == self@.child_at(entity, k),
                    r == self@.child_at(entity, k - 1),
                    index == entity.spec_index(),
                decreases self.kids@[index as int].len() - k,
            {
                r = f;
                f = self.next_sibling[f.unwrap().index()];
                proof {
                    k = k + 1;
                }
            }
            r
        } else {
            None
        }
    }

    /// Returns the child at place `n` of an entity, counting from 0, or
    /// `None` if the entity is null or has no such child.
    pub fn get_child(&self, entity: Entity, n: usize) -> (r: Option<Entity>)
        requires
            self.wf(),
        ensures
            r == if entity.spec_is_null() {
                None
            } else {
                self@.child_at(entity, n as int)
            },
    {
        if entity.is_null() {
            return None;
        }
        let index = entity.index();
        if index >= self.first_child.len() {
            return None;
        }
        let mut f = self.first_child[index];
        let mut i: usize = 0;
        while f.is_some()
            invariant_except_break
                f == self@.child_at(entity, i as int),
            invariant
                self.wf(),
                index < self.parent@.len(),
                index == entity.spec_index(),
                0 <= i <= n,
                i <= self.kids@[index as int].len(),
            ensures
                f == self@.child_at(entity, n as int),
            decreases self.kids@[index as int].len() - i,
        {
            if i == n {
                break;
            }
            f = self.next_sibling[f.unwrap().index()];
            i += 1;
        }
        f
    }

    /// Returns the number of children of an entity, or `None` if the entity
    /// is null or outside the tree.
    pub fn get_num_children(&self, entity: Entity) -> (r: Option<u32>)
        requires
            self.wf(),
        ensures
            r == if entity.spec_is_null() || !self@.in_range(entity) {
                None
            } else {
                Some(self@.children_of(entity).len() as u32)
            },
            r is Some ==> r.unwrap() == self@.children_of(entity).len(),
    {
        let index = entity.index();
        if entity.is_null() || index >= self.first_child.len() {
            return None;
        }
        let mut f = self.first_child[index];
        let mut r: u32 = 0;
        proof {
            self.lemma_children_bounded(index as int);
        }
        while f.is_some()
            invariant
                self.wf(),
                index < self.parent@.len(),
                index == entity.spec_index(),
                r <= self.kids@[index as int].len() <= self.parent@.len(),
                f == self@.child_at(entity, r as int),
            decreases self.kids@[index as int].len() - r,
        {
            r += 1;
            f = self.next_sibling[f.unwrap().index()];
        }
        Some(r)
    }

    /// Returns the place of an entity among the children of its parent, or
    /// `None` if it has no parent or is not listed there.
    pub fn get_child_index(&self, entity: Entity) -> (r: Option<usize>)
        requires
            self.wf(),
        ensures
            r == self@.child_index_of(entity),
    {
        match self.get_parent(entity) {
            Some(parent) => {
                let ghost p = parent.spec_index();
                proof {
                    self.lemma_children_bounded(p);
                }
                let mut f = self.first_child[parent.index()];
                let mut index: usize = 0;
                while f.is_some()
                    invariant
                        self.wf(),
                        0 <= p < self.parent@.len(),
                        p == parent.spec_index(),
                        index <= self.kids@[p].len() <= self.parent@.len(),
                        f == self@.child_at(parent, index as int),
                        forall|m: int| 0 <= m < index ==> self.kids@[p][m] != entity,
                        self@.parent_of(entity) == Some(parent),
                        self@.place_of(entity) == self.pos@[entity.spec_index()],
                    decreases self.kids@[p].len() - index,
                {
                    let child = f.unwrap();
                    if child == entity {
                        return Some(index);
                    }
                    f = self.next_sibling[child.index()];
                    index += 1;
                }
                None
            },
            None => None,
        }
    }

    /// Returns true if the entity is the first child of its parent.
    pub fn is_first_child(&self, entity: Entity) -> (r: bool)
        requires
            self.wf(),
        ensures
            r == match self@.parent_of(entity) {
                Some(p) => self@.child_at(p, 0) == Some(entity),
                None => false,
            },
    {
        match self.get_parent(entity) {
            Some(parent) => {
                match self.get_first_child(parent) {
                    Some(first_child) => first_child == entity,
                    None => false,
                }
            },
            None => false,
        }
    }

    /// Returns true if the entity is the last child of its parent.
    pub fn is_last_child(&self, entity: Entity) -> (r: bool)
        requires
            self.wf(),
        ensures
            r == match self@.parent_of(entity) {
                Some(p) => self@.last_child_of(p) == Some(entity),
                None => false,
            },
    {
        match self.get_parent(entity) {
            Some(parent) => {
                match self.get_last_child(parent) {
                    Some(last_child) => last_child == entity,
                    None => false,
                }
            },
            None => false,
        }
    }

    /// Returns true if both entities have a parent and it is the same one.
    pub fn is_sibling(&self, entity1: Entity, entity2: Entity) -> (r: bool)
        requires
            self.wf(),
        ensures
            r == (self@.parent_of(entity1) is Some && self@.parent_of(entity1) == self@.parent_of(
                entity2,
            )),
    {
        match self.get_parent(entity1) {
            Some(parent1) => {
                match self.get_parent(entity2) {
                    Some(parent2) => parent1 == parent2,
                    None => false,
                }
            },
            None => false,
        }
    }

    /// Returns true if the entity has children.
    pub fn has_children(&self, entity: Entity) -> (r: bool)
        requires
            self.wf(),
        ensures
            r == (self@.children_of(entity).len() > 0),
    {
        self.get_first_child(entity).is_some()
    }

    /// Returns true if layout skips the entity; false for an index outside
    /// the tree.
    pub fn is_ignored(&self, entity: Entity) -> (r: bool)
        requires
            self.wf(),
        ensures
            r == (self@.in_range(entity) && self@.ignored[entity.spec_index()]),
    {
        let index = entity.index();
        if index < self.ignored.len() {
            self.ignored[index]
        } else {
            false
        }
    }

    /// Returns the nearest proper ancestor that bounds focus traversal, or
    /// the root if no ancestor does.
    pub fn lock_focus_within(&self, entity: Entity) -> (r: Entity)
        requires
            self.wf(),
        ensures
            r == self.focus_scope(entity.spec_index()),
    {
        let mut index = entity.index();
        loop
            invariant
                self.wf(),
                self.focus_scope(index as int) == self.focus_scope(entity.spec_index()),
            decreases self.climb(index as int),
        {
            if index >= self.parent.len() {
                return Entity::root();
            }
            match self.parent[index] {
                Some(parent) => {
                    if self.lock_focus_within[parent.index()] {
                        return parent;
                    }
                    index = parent.index();
                },
                None => {
                    return Entity::root();
                },
            }
        }
    }

    /// Returns the nearest proper ancestor that layout does not skip, or
    /// `None` if every ancestor is skipped or there is none.
    pub fn get_layout_parent(&self, entity: Entity) -> (r: Option<Entity>)
        requires
            self.wf(),
        ensures
            r == self.layout_parent(entity.spec_index()),
    {
        let mut i = self.get_parent(entity);
        let ghost mut index = entity.spec_index();
        loop
            invariant
                self.wf(),
                self.layout_parent(index) == self.layout_parent(entity.spec_index()),
                i == if 0 <= index < self.parent@.len() {
                    self.parent@[index]
                } else {
                    None
                },
            decreases self.climb(index),
        {
            match i {
                Some(parent) => {
                    if !self.is_ignored(parent) {
                        return Some(parent);
                    }
                    i = self.get_parent(parent);
                    proof {
                        index = parent.spec_index();
                    }
                },
                None => {
                    return None;
                },
            }
        }
    }

    /// Returns true if `entity` is `ancestor` or has it among its ancestors.
    /// Both are told apart by their index, and the null handle descends
    /// from nothing.
    pub fn is_descendant_of(&self, entity: Entity, ancestor: Entity) -> (r: bool)
        requires
            self.wf(),
        ensures
            r == (!entity.spec_is_null() && self.in_subtree(
                entity.spec_index(),
                ancestor.spec_index(),
            )),
    {
        if entity.is_null() {
            return false;
        }
        let target = ancestor.index();
        let mut index = entity.index();
        loop
            invariant
                self.wf(),
                target == ancestor.spec_index(),
                self.in_subtree(index as int, target as int) == self.in_subtree(
                    entity.spec_index(),
                    ancestor.spec_index(),
                ),
                !entity.spec_is_null(),
            decreases self.climb(index as int),
        {
            if index == target {
                return true;
            }
            if index >= self.parent.len() {
                return false;
            }
            match self.parent[index] {
                Some(parent) => {
                    index = parent.index();
                },
                None => {
                    return false;
                },
            }
        }
    }

    /// Returns true if the slot of the entity holds no node, so that the
    /// entity can be added: the slot lies beyond the arrays, or it is not
    /// the root and has neither parent nor children.
    pub fn is_vacant(&self, entity: Entity) -> (r: bool)
        requires
            self.wf(),
        ensures
            r == self@.vacant(entity),
    {
        let index = entity.index();
        if index >= self.parent.len() {
            return true;
        }
        index != 0 && self.parent[index].is_none() && self.first_child[index].is_none()
    }

    /// Returns true if the structure changed since the flag was last cleared.
    pub fn changed(&self) -> (r: bool)
        ensures
            r == self@.changed,
    {
        self.changed
    }
}

} // verus!
