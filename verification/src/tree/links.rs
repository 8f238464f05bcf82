//! The pointer surgery on which every change of the tree rests.

use vstd::prelude::*;
use crate::entity::Entity;
use crate::tree::Tree;

verus! {

impl Tree {
    /// Extends every array to at least `len` slots. The new slots are vacant.
    pub(super) fn grow(&mut self, len: usize)
        requires
            old(self).wf(),
            len <= crate::entity::ENTITY_INDEX_MASK + 1,
        ensures
            final(self).wf(),
            final(self)@ == old(self)@.grown(len as nat),
            final(self).parent@.len() == if len > old(self).parent@.len() {
                len as nat
            } else {
                old(self).parent@.len()
            },
    {
        while self.parent.len() < len
            invariant
                self.wf(),
                self@ == old(self)@.grown(self.parent@.len()),
                self.parent@.len() >= old(self).parent@.len(),
                self.parent@.len() <= len || self.parent@.len() == old(self).parent@.len(),
                len <= crate::entity::ENTITY_INDEX_MASK + 1,
            decreases len - self.parent@.len(),
        {
            self.parent.push(None);
            self.first_child.push(None);
            self.next_sibling.push(None);
            self.prev_sibling.push(None);
            self.ignored.push(false);
            self.lock_focus_within.push(false);
            proof {
                self.kids@ = self.kids@.push(Seq::empty());
                self.pos@ = self.pos@.push(0);
                self.rank@ = self.rank@.push(0);
                let a = old(self)@.grown(self.parent@.len());
                assert(self@.parent =~= a.parent);
                assert(self@.children =~= a.children);
                assert(self@.ignored =~= a.ignored);
                assert(self@.lock_focus_within =~= a.lock_focus_within);
            }
        }
    }

    /// The places of all slots once slot `i` has left the children of its
    /// parent: the siblings behind it move down by one.
    pub(super) closed spec fn pos_detached(&self, i: int) -> Seq<int> {
        let p = self.parent@[i].unwrap().spec_index();
        Seq::new(
            self.parent@.len(),
            |j: int|
                if j != i && self.parent@[j] is Some && self.parent@[j].unwrap().spec_index() == p
                    && self.pos@[j] > self.pos@[i] {
                    self.pos@[j] - 1
                } else {
                    self.pos@[j]
                },
        )
    }

    /// Takes the node in slot `index` out of the children of its parent. Its
    /// own children stay with it.
    pub(super) fn detach(&mut self, index: usize)
        requires
            old(self).wf(),
            index < old(self).parent@.len(),
            old(self).parent@[index as int] is Some,
        ensures
            final(self).wf(),
            final(self)@ == old(self)@.detached(
                index as int,
                old(self).parent@[index as int].unwrap().spec_index(),
                old(self).pos@[index as int],
            ),
            final(self).rank@ == old(self).rank@,
            final(self).cap@ == old(self).cap@,
            final(self).pos@ == old(self).pos_detached(index as int),
    {
        let ghost before = *self;
        let ghost p = self.parent@[index as int].unwrap().spec_index();
        let ghost k = self.pos@[index as int];
        let ghost len = self.kids@[p].len() as int;
        let parent = self.parent[index].unwrap();
        let prev = self.prev_sibling[index];
        let next = self.next_sibling[index];
        match prev {
            Some(a) => {
                self.next_sibling[a.index()] = next;
            },
            None => {
                self.first_child[parent.index()] = next;
            },
        }
        match next {
            Some(b) => {
                self.prev_sibling[b.index()] = prev;
            },
            None => {},
        }
        self.next_sibling[index] = None;
        self.prev_sibling[index] = None;
        self.parent[index] = None;
        proof {
            let old_list = before.kids@[p];
            let new_list = old_list.remove(k);
            assert forall|m: int| 0 <= m < k implies #[trigger] new_list[m] == old_list[m] by {}
            assert forall|m: int| k <= m < len - 1 implies #[trigger] new_list[m] == old_list[m + 1] by {}
            self.kids@ = before.kids@.update(p, new_list);
            self.pos@ = before.pos_detached(index as int);
        }
    }

    /// The places of all slots once `entity` has entered the children of
    /// `parent` at place `k`: the children from there on move up by one.
    pub(super) closed spec fn pos_attached(&self, entity: Entity, parent: Entity, k: int) -> Seq<
        int,
    > {
        Seq::new(
            self.parent@.len(),
            |j: int|
                if j == entity.spec_index() {
                    k
                } else if self.parent@[j] is Some && self.parent@[j].unwrap().spec_index()
                    == parent.spec_index() && self.pos@[j] >= k {
                    self.pos@[j] + 1
                } else {
                    self.pos@[j]
                },
        )
    }

    /// Puts a node without parent among the children of `parent`, behind the
    /// child `after`, or in front of all of them where `after` is `None`.
    pub(super) fn attach(
        &mut self,
        entity: Entity,
        parent: Entity,
        after: Option<Entity>,
        Ghost(k): Ghost<int>,
    )
        requires
            old(self).wf(),
            entity.spec_index() < old(self).parent@.len(),
            parent.spec_index() < old(self).parent@.len(),
            entity.spec_index() != 0,
            old(self).parent@[entity.spec_index()] is None,
            old(self).rank@[entity.spec_index()] < old(self).rank@[parent.spec_index()],
            0 <= k <= old(self).kids@[parent.spec_index()].len(),
            after == if k > 0 {
                Some(old(self).kids@[parent.spec_index()][k - 1])
            } else {
                None
            },
        ensures
            final(self).wf(),
            final(self)@ == old(self)@.attached(entity, parent, k),
            final(self).rank@ == old(self).rank@,
            final(self).cap@ == old(self).cap@,
            final(self).pos@ == old(self).pos_attached(entity, parent, k),
    {
        let ghost before = *self;
        let ghost p = parent.spec_index();
        let index = entity.index();
        let parent_index = parent.index();
        let next = match after {
            Some(a) => self.next_sibling[a.index()],
            None => self.first_child[parent_index],
        };
        match after {
            Some(a) => {
                self.next_sibling[a.index()] = Some(entity);
            },
            None => {
                self.first_child[parent_index] = Some(entity);
            },
        }
        match next {
            Some(b) => {
                self.prev_sibling[b.index()] = Some(entity);
            },
            None => {},
        }
        self.next_sibling[index] = next;
        self.prev_sibling[index] = after;
        self.parent[index] = Some(parent);
        proof {
            self.kids@ = before.kids@.update(p, before.kids@[p].insert(k, entity));
            self.pos@ = before.pos_attached(entity, parent, k);
        }
    }

    /// The handle under which the node in slot `index` is listed among the
    /// children of its parent.
    pub(super) fn occupant(&self, index: usize) -> (r: Entity)
        requires
            self.wf(),
            index < self.parent@.len(),
            self.parent@[index as int] is Some,
        ensures
            r == self.kids@[self.parent@[index as int].unwrap().spec_index()][self.pos@[index
                as int]],
    {
        match self.prev_sibling[index] {
            Some(a) => self.next_sibling[a.index()].unwrap(),
            None => self.first_child[self.parent[index].unwrap().index()].unwrap(),
        }
    }
}

} // verus!
