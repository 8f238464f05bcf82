//! Pre-order traversal of the tree.

use vstd::prelude::*;
use crate::entity::Entity;
use crate::tree::Tree;

verus! {

impl Tree {
    /// The children of slot `p` from place `k` on, each followed by its own
    /// descendants in pre-order.
    pub closed spec fn walk(&self, p: int, k: int) -> Seq<Entity>
        decreases self.height(p), self@.children[p].len() - k,
    {
        if self.wf() && 0 <= p < self.parent@.len() && 0 <= k < self.kids@[p].len() {
            let c = self.kids@[p][k];
            seq![c] + self.walk(c.spec_index(), 0) + self.walk(p, k + 1)
        } else {
            Seq::empty()
        }
    }

    /// The traversal of the children of slot `p` from place `k` on visits
    /// the child at place `k`, then the descendants of that child, then
    /// what the later children bring.
    pub proof fn lemma_walk(&self, p: int, k: int)
        requires
            self.wf(),
            0 <= p < self@.len(),
        ensures
            self.walk(p, k) == if 0 <= k < self@.children[p].len() {
                seq![self@.children[p][k]] + self.walk(self@.children[p][k].spec_index(), 0)
                    + self.walk(p, k + 1)
            } else {
                Seq::empty()
            },
    {
    }

    /// The node `e` followed by its descendants in pre-order.
    pub open spec fn subtree_order(&self, e: Entity) -> Seq<Entity> {
        seq![e] + self.walk(e.spec_index(), 0)
    }

    /// The nodes that can be reached from the root, in pre-order: the root
    /// first, and every node before its children and before the siblings
    /// that follow it.
    pub open spec fn preorder(&self) -> Seq<Entity> {
        self.subtree_order(Entity::spec_root())
    }

    /// What a pre-order traversal visits once it has left the subtree of
    /// slot `i`: the later siblings with their descendants, then whatever
    /// follows the parent.
    pub closed spec fn rest_after(&self, i: int) -> Seq<Entity>
        decreases self.climb(i),
    {
        if self.wf() && 0 <= i < self.parent@.len() && self.parent@[i] is Some {
            let p = self.parent@[i].unwrap().spec_index();
            self.walk(p, self.pos@[i] + 1) + self.rest_after(p)
        } else {
            Seq::empty()
        }
    }

    /// What a traversal that stands at `x` has before it: `x`, its
    /// descendants, and what follows its subtree.
    pub closed spec fn order_from(&self, at: Option<Entity>) -> Seq<Entity> {
        match at {
            Some(x) => seq![x] + self.walk(x.spec_index(), 0) + self.rest_after(x.spec_index()),
            None => Seq::empty(),
        }
    }

    /// The node that a pre-order traversal visits after `x`: its first
    /// child, else the next sibling of the nearest node on the way up that
    /// has one.
    fn successor(&self, x: Entity) -> (r: Option<Entity>)
        requires
            self.wf(),
        ensures
            self.order_from(r) == self.walk(x.spec_index(), 0) + self.rest_after(x.spec_index()),
    {
        let ghost rest = self.walk(x.spec_index(), 0) + self.rest_after(x.spec_index());
        let mut index = x.index();
        if index >= self.parent.len() {
            return None;
        }
        match self.first_child[index] {
            Some(c) => {
                return Some(c);
            },
            None => {},
        }
        loop
            invariant
                self.wf(),
                index < self.parent@.len(),
                rest == self.rest_after(index as int),
                rest == self.walk(x.spec_index(), 0) + self.rest_after(x.spec_index()),
            decreases self.climb(index as int),
        {
            let ghost i = index as int;
            match self.next_sibling[index] {
                Some(s) => {
                    proof {
                        let p = self.parent@[i].unwrap().spec_index();
                        assert(self.rest_after(s.spec_index()) == self.walk(p, self.pos@[i] + 2)
                            + self.rest_after(p));
                    }
                    return Some(s);
                },
                None => {},
            }
            match self.parent[index] {
                Some(parent) => {
                    index = parent.index();
                },
                None => {
                    return None;
                },
            }
        }
    }

    /// Starts a traversal of the whole tree at the root.
    pub fn into_iter(&self) -> (it: TreeIterator<'_>)
        requires
            self.wf(),
        ensures
            it.wf(),
            it.tree() == self,
            it.remaining() == self.preorder(),
    {
        TreeIterator::full(self)
    }
}

/// A traversal of a tree in pre-order, one node at a time.
pub struct TreeIterator<'a> {
    tree: &'a Tree,
    current: Option<Entity>,
}

impl<'a> TreeIterator<'a> {
    /// The tree that is traversed.
    pub closed spec fn tree(&self) -> &Tree {
        self.tree
    }

    /// The traversal runs over a well-formed tree.
    pub closed spec fn wf(&self) -> bool {
        self.tree.wf()
    }

    /// The nodes that are still to come, in the order of their visit.
    pub closed spec fn remaining(&self) -> Seq<Entity> {
        self.tree.order_from(self.current)
    }

    /// Starts a traversal of the whole tree at the root.
    pub fn full(tree: &'a Tree) -> (it: Self)
        requires
            tree.wf(),
        ensures
            it.wf(),
            it.tree() == tree,
            it.remaining() == tree.preorder(),
    {
        TreeIterator { tree, current: Some(Entity::root()) }
    }

    /// Returns the next node of the traversal and moves on: to the first
    /// child if there is one, else to the next sibling of the nearest node
    /// on the way up that has one.
    pub fn next(&mut self) -> (r: Option<Entity>)
        requires
            old(self).wf(),
        ensures
            final(self).wf(),
            final(self).tree() == old(self).tree(),
            r == if old(self).remaining().len() > 0 {
                Some(old(self).remaining()[0])
            } else {
                None
            },
            final(self).remaining() == if old(self).remaining().len() > 0 {
                old(self).remaining().subrange(1, old(self).remaining().len() as int)
            } else {
                Seq::empty()
            },
    {
        match self.current {
            Some(x) => {
                self.current = self.tree.successor(x);
                Some(x)
            },
            None => None,
        }
    }

    /// Runs the traversal to its end and returns the nodes in the order of
    /// their visit.
    pub fn collect(self) -> (v: Vec<Entity>)
        requires
            self.wf(),
        ensures
            v@ == self.remaining(),
    {
        let mut it = self;
        let mut v: Vec<Entity> = Vec::new();
        loop
            invariant
                it.wf(),
                v@ + it.remaining() == self.remaining(),
            decreases it.remaining().len(),
        {
            match it.next() {
                Some(x) => {
                    v.push(x);
                },
                None => {
                    return v;
                },
            }
        }
    }
}

} // verus!
