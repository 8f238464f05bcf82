//! Changes to the tree: adding, removing, reordering and reparenting nodes.

use vstd::prelude::*;
use crate::entity::Entity;
use crate::tree::{Tree, TreeError, TreeView};

verus! {

impl Tree {
    /// Adds an entity as the last child of `parent`. The arrays grow to hold
    /// the slot of the entity, and its flags are cleared.
    ///
    /// The slot of the entity must be vacant, and must not be that of the
    /// parent: a node enters the tree once and leaves it through
    /// [`Tree::remove`] before its slot is used again.
    pub fn add(&mut self, entity: Entity, parent: Entity) -> (r: Result<(), TreeError>)
        requires
            old(self).wf(),
            !entity.spec_is_null() && !parent.spec_is_null() && old(self)@.in_range(parent) ==> old(
                self,
            )@.vacant(entity) && entity.spec_index() != parent.spec_index(),
        ensures
            final(self).wf(),
            r == if entity.spec_is_null() || parent.spec_is_null() {
                Err::<(), TreeError>(TreeError::NullEntity)
            } else if !old(self)@.in_range(parent) {
                Err(TreeError::InvalidParent)
            } else {
                Ok(())
            },
            r is Err ==> *final(self) == *old(self),
            r is Ok ==> final(self)@ == old(self)@.added(entity, parent),
    {
        if entity.is_null() || parent.is_null() {
            return Err(TreeError::NullEntity);
        }
        let parent_index = parent.index();
        if parent_index >= self.parent.len() {
            return Err(TreeError::InvalidParent);
        }
        let entity_index = entity.index();
        if entity_index >= self.parent.len() {
            self.grow(entity_index + 1);
        }
        let tail = self.get_last_child(parent);
        let ghost grown = *self;
        let ghost e = entity_index as int;
        let ghost n = self.parent@.len() as int;
        let ghost len = self.kids@[parent_index as int].len() as int;
        self.ignored[entity_index] = false;
        self.lock_focus_within[entity_index] = false;
        self.changed = true;
        proof {
            self.rank@ = Seq::new(n as nat, |i: int| if i == e { 0nat } else { grown.rank@[i] + 1 });
            self.cap@ = grown.cap@ + 1;
        }
        self.attach(entity, parent, tail, Ghost(len));
        proof {
            let siblings = grown.kids@[parent_index as int];
            assert(siblings.insert(len, entity) =~= siblings.push(entity));
        }
        Ok(())
    }

    /// Removes an entity from the children of its parent and clears its flags.
    ///
    /// The children of the entity are left as they are: they stay linked to
    /// its slot until they are removed themselves.
    pub fn remove(&mut self, entity: Entity) -> (r: Result<(), TreeError>)
        requires
            old(self).wf(),
        ensures
            final(self).wf(),
            r == if entity.spec_is_null() {
                Err::<(), TreeError>(TreeError::NullEntity)
            } else if !old(self)@.present(entity) {
                Err(TreeError::NoEntity)
            } else {
                Ok(())
            },
            r is Err ==> *final(self) == *old(self),
            r is Ok ==> final(self)@ == old(self)@.removed(entity),
    {
        if entity.is_null() {
            return Err(TreeError::NullEntity);
        }
        let entity_index = entity.index();
        if entity_index >= self.parent.len() {
            return Err(TreeError::NoEntity);
        }
        if self.parent[entity_index].is_some() {
            self.detach(entity_index);
        } else if entity_index != 0 {
            return Err(TreeError::NoEntity);
        }
        self.ignored[entity_index] = false;
        self.lock_focus_within[entity_index] = false;
        self.changed = true;
        Ok(())
    }

    /// Makes the entity the first child of its parent.
    pub fn set_first_child(&mut self, entity: Entity) -> (r: Result<(), TreeError>)
        requires
            old(self).wf(),
        ensures
            final(self).wf(),
            r == if !old(self)@.in_range(entity) {
                Err::<(), TreeError>(TreeError::InvalidSibling)
            } else if old(self)@.parent_of(entity) is None {
                Err(TreeError::InvalidParent)
            } else if old(self)@.place_of(entity) == 0 {
                Err(TreeError::AlreadyFirstChild)
            } else {
                Ok(())
            },
            r is Err ==> *final(self) == *old(self),
            r is Ok ==> final(self)@ == old(self)@.moved(entity, 0),
    {
        let index = entity.index();
        if index >= self.parent.len() {
            return Err(TreeError::InvalidSibling);
        }
        let parent = match self.parent[index] {
            Some(parent) => parent,
            None => {
                return Err(TreeError::InvalidParent);
            },
        };
        if self.prev_sibling[index].is_none() {
            return Err(TreeError::AlreadyFirstChild);
        }
        self.detach(index);
        self.attach(entity, parent, None, Ghost(0));
        self.changed = true;
        Ok(())
    }

    /// Moves `sibling` to the place right behind `entity` among the children
    /// of their parent.
    pub fn set_next_sibling(&mut self, entity: Entity, sibling: Entity) -> (r: Result<
        (),
        TreeError,
    >)
        requires
            old(self).wf(),
        ensures
            final(self).wf(),
            r == if old(self)@.next_sibling_of(entity) == Some(sibling) {
                Err::<(), TreeError>(TreeError::AlreadySibling)
            } else if !old(self)@.in_range(sibling) {
                Err(TreeError::InvalidSibling)
            } else if old(self)@.parent_of(entity) is None {
                Err(TreeError::InvalidParent)
            } else if !old(self)@.can_reorder(entity, sibling) {
                Err(TreeError::InvalidSibling)
            } else {
                Ok(())
            },
            r is Err ==> *final(self) == *old(self),
            r is Ok ==> final(self)@ == old(self)@.moved(
                sibling,
                old(self)@.place_without(entity, sibling) + 1,
            ),
    {
        let next = self.get_next_sibling(entity);
        if next.is_some() && next.unwrap() == sibling {
            return Err(TreeError::AlreadySibling);
        }
        let sibling_index = sibling.index();
        if sibling_index >= self.parent.len() {
            return Err(TreeError::InvalidSibling);
        }
        let parent = match self.get_parent(entity) {
            Some(parent) => parent,
            None => {
                return Err(TreeError::InvalidParent);
            },
        };
        let entity_index = entity.index();
        let sibling_parent = match self.parent[sibling_index] {
            Some(sibling_parent) => sibling_parent,
            None => {
                return Err(TreeError::InvalidSibling);
            },
        };
        if entity_index == sibling_index || sibling_parent.index() != parent.index() {
            return Err(TreeError::InvalidSibling);
        }
        self.detach(sibling_index);
        let anchor = self.occupant(entity_index);
        self.attach(
            sibling,
            sibling_parent,
            Some(anchor),
            Ghost(old(self)@.place_without(entity, sibling) + 1),
        );
        self.changed = true;
        Ok(())
    }

    /// Moves `sibling` to the place right in front of `entity` among the
    /// children of their parent.
    pub fn set_prev_sibling(&mut self, entity: Entity, sibling: Entity) -> (r: Result<
        (),
        TreeError,
    >)
        requires
            old(self).wf(),
        ensures
            final(self).wf(),
            r == if old(self)@.prev_sibling_of(entity) == Some(sibling) {
                Err::<(), TreeError>(TreeError::InvalidSibling)
            } else if !old(self)@.in_range(sibling) {
                Err(TreeError::InvalidSibling)
            } else if old(self)@.parent_of(entity) is None {
                Err(TreeError::InvalidParent)
            } else if !old(self)@.can_reorder(entity, sibling) {
                Err(TreeError::InvalidSibling)
            } else {
                Ok(())
            },
            r is Err ==> *final(self) == *old(self),
            r is Ok ==> final(self)@ == old(self)@.moved(
                sibling,
                old(self)@.place_without(entity, sibling),
            ),
    {
        let prev = self.get_prev_sibling(entity);
        if prev.is_some() && prev.unwrap() == sibling {
            return Err(TreeError::InvalidSibling);
        }
        let sibling_index = sibling.index();
        if sibling_index >= self.parent.len() {
            return Err(TreeError::InvalidSibling);
        }
        let parent = match self.get_parent(entity) {
            Some(parent) => parent,
            None => {
                return Err(TreeError::InvalidParent);
            },
        };
        let entity_index = entity.index();
        let sibling_parent = match self.parent[sibling_index] {
            Some(sibling_parent) => sibling_parent,
            None => {
                return Err(TreeError::InvalidSibling);
            },
        };
        if entity_index == sibling_index || sibling_parent.index() != parent.index() {
            return Err(TreeError::InvalidSibling);
        }
        self.detach(sibling_index);
        let before = self.prev_sibling[entity_index];
        self.attach(
            sibling,
            sibling_parent,
            before,
            Ghost(old(self)@.place_without(entity, sibling)),
        );
        self.changed = true;
        Ok(())
    }

    /// Makes `entity` the last child of `parent`, taking it out of the
    /// children of its former parent if it had one.
    ///
    /// Both handles must address slots of the tree, the entity must not be
    /// the root, and the new parent must not lie in the subtree of the entity.
    pub fn set_parent(&mut self, entity: Entity, parent: Entity)
        requires
            old(self).wf(),
            old(self)@.in_range(entity),
            old(self)@.in_range(parent),
            entity.spec_index() != 0,
            !old(self).in_subtree(parent.spec_index(), entity.spec_index()),
        ensures
            final(self).wf(),
            final(self)@ == old(self)@.reparented(entity, parent),
    {
        let index = entity.index();
        if self.parent[index].is_some() {
            self.detach(index);
            proof {
                old(self).lemma_subtree_detached(*self, index as int, parent.spec_index());
            }
        }
        let tail = self.get_last_child(parent);
        let ghost mid = *self;
        let ghost e = index as int;
        let ghost n = self.parent@.len() as int;
        let ghost len = self.kids@[parent.spec_index()].len() as int;
        proof {
            let lift = mid.rank@[e] + 1;
            self.rank@ = Seq::new(
                n as nat,
                |x: int|
                    if mid.in_subtree(x, e) {
                        mid.rank@[x]
                    } else {
                        mid.rank@[x] + lift
                    },
            );
            self.cap@ = mid.cap@ + lift;
        }
        self.attach(entity, parent, tail, Ghost(len));
        self.changed = true;
    }

    /// Taking slot `e` out of its parent's children changes no subtree of `e`.
    proof fn lemma_subtree_detached(&self, other: Tree, e: int, x: int)
        requires
            self.wf(),
            other.wf(),
            0 <= e < self.parent@.len(),
            other.parent@ == self.parent@.update(e, None),
            other.rank@ == self.rank@,
            other.cap@ == self.cap@,
        ensures
            other.in_subtree(x, e) == self.in_subtree(x, e),
        decreases self.climb(x),
    {
        if x != e && 0 <= x < self.parent@.len() && self.parent@[x] is Some {
            self.lemma_subtree_detached(other, e, self.parent@[x].unwrap().spec_index());
        }
    }

    /// Sets whether layout skips the entity. Nothing happens for an index
    /// outside the tree.
    pub fn set_ignored(&mut self, entity: Entity, flag: bool)
        requires
            old(self).wf(),
        ensures
            final(self).wf(),
            final(self)@ == if old(self)@.in_range(entity) {
                TreeView { ignored: old(self)@.ignored.update(entity.spec_index(), flag), ..old(self)@ }
            } else {
                old(self)@
            },
    {
        let index = entity.index();
        if index < self.ignored.len() {
            self.ignored[index] = flag;
        }
    }

    /// Sets whether the entity bounds focus traversal. Nothing happens for
    /// an index outside the tree.
    pub fn set_lock_focus_within(&mut self, entity: Entity, flag: bool)
        requires
            old(self).wf(),
        ensures
            final(self).wf(),
            final(self)@ == if old(self)@.in_range(entity) {
                TreeView {
                    lock_focus_within: old(self)@.lock_focus_within.update(entity.spec_index(), flag),
                    ..old(self)@
                }
            } else {
                old(self)@
            },
    {
        let index = entity.index();
        if index < self.lock_focus_within.len() {
            self.lock_focus_within[index] = flag;
        }
    }

    /// Sets or clears the flag that records a change of the structure.
    pub fn set_changed(&mut self, flag: bool)
        requires
            old(self).wf(),
        ensures
            final(self).wf(),
            final(self)@ == (TreeView { changed: flag, ..old(self)@ }),
    {
        self.changed = flag;
    }
}

} // verus!
