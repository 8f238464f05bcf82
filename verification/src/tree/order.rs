//! What holds of the pre-order traversal of a well-formed tree.

use vstd::prelude::*;
use crate::entity::Entity;
use crate::tree::Tree;

verus! {

impl Tree {
    /// The number of nodes that a traversal of the children of slot `p`
    /// visits before it comes to the child at place `k`.
    spec fn before(&self, p: int, k: int) -> nat
        decreases k,
    {
        if k <= 0 {
            0
        } else {
            self.before(p, k - 1) + 1 + self.walk(self.kids@[p][k - 1].spec_index(), 0).len()
        }
    }

    /// The number of nodes that a traversal from the top of its tree visits
    /// before it comes to slot `i`.
    spec fn order_index(&self, i: int) -> nat
        decreases self.climb(i),
    {
        if self.wf() && 0 <= i < self.parent@.len() && self.parent@[i] is Some {
            let p = self.parent@[i].unwrap().spec_index();
            self.order_index(p) + 1 + self.before(p, self.pos@[i])
        } else {
            0
        }
    }

    /// What lies in the subtree of a node lies in the subtree of its parent.
    proof fn lemma_subtree_step(&self, x: int, c: int)
        requires
            self.wf(),
            0 <= c < self.parent@.len(),
            self.parent@[c] is Some,
            self.in_subtree(x, c),
        ensures
            self.in_subtree(x, self.parent@[c].unwrap().spec_index()),
        decreases self.climb(x),
    {
        let p = self.parent@[c].unwrap().spec_index();
        if x == c {
            assert(self.in_subtree(p, p));
        } else {
            let px = self.parent@[x].unwrap().spec_index();
            self.lemma_subtree_step(px, c);
        }
    }

    /// A node comes before every other node of its subtree.
    proof fn lemma_order_grows(&self, x: int, y: int)
        requires
            self.wf(),
            self.in_subtree(x, y),
            x != y,
        ensures
            self.order_index(x) > self.order_index(y),
        decreases self.climb(x),
    {
        let px = self.parent@[x].unwrap().spec_index();
        if px != y {
            self.lemma_order_grows(px, y);
        }
    }

    /// The traversal of the children of `p` from place `k0` on visits
    /// nodes of the subtree of `p`, each at the place that its order asks for.
    proof fn lemma_walk_order(&self, p: int, k0: int)
        requires
            self.wf(),
            0 <= p < self.parent@.len(),
            0 <= k0 <= self.kids@[p].len(),
        ensures
            forall|j: int|
                0 <= j < self.walk(p, k0).len() ==> {
                    let x = (#[trigger] self.walk(p, k0)[j]).spec_index();
                    &&& 0 <= x < self.parent@.len()
                    &&& self.in_subtree(x, p)
                    &&& self.order_index(x) == self.order_index(p) + 1 + self.before(p, k0) + j
                },
        decreases self.height(p), self.kids@[p].len() - k0,
    {
        self.lemma_walk(p, k0);
        if k0 < self.kids@[p].len() {
            let c = self.kids@[p][k0];
            let ci = c.spec_index();
            self.lemma_walk_order(ci, 0);
            self.lemma_walk_order(p, k0 + 1);
            let inner = self.walk(ci, 0);
            let w = self.walk(p, k0);
            self.lemma_subtree_step(ci, ci);
            assert forall|j: int| 0 <= j < w.len() implies {
                let x = (#[trigger] w[j]).spec_index();
                &&& 0 <= x < self.parent@.len()
                &&& self.in_subtree(x, p)
                &&& self.order_index(x) == self.order_index(p) + 1 + self.before(p, k0) + j
            } by {
                if 0 < j <= inner.len() {
                    self.lemma_subtree_step(inner[j - 1].spec_index(), ci);
                }
            }
        }
    }

    /// A node of the subtree of `c`, other than `c`, lies in the subtree of
    /// one of the children of `c`.
    proof fn lemma_descent(&self, i: int, c: int) -> (m: int)
        requires
            self.wf(),
            0 <= c < self.parent@.len(),
            self.in_subtree(i, c),
            i != c,
        ensures
            0 <= m < self.kids@[c].len(),
            self.in_subtree(i, self.kids@[c][m].spec_index()),
        decreases self.climb(i),
    {
        let pi = self.parent@[i].unwrap().spec_index();
        if pi == c {
            self.pos@[i]
        } else {
            self.lemma_descent(pi, c)
        }
    }

    /// The traversal of the children of `p` from place `k0` on visits every
    /// node in the subtree of each of these children.
    proof fn lemma_walk_covers(&self, p: int, k0: int, m: int, i: int) -> (j: int)
        requires
            self.wf(),
            0 <= p < self.parent@.len(),
            0 <= k0 <= m < self.kids@[p].len(),
            self.in_subtree(i, self.kids@[p][m].spec_index()),
        ensures
            0 <= j < self.walk(p, k0).len(),
            self.walk(p, k0)[j].spec_index() == i,
        decreases self.height(p), self.kids@[p].len() - k0,
    {
        let c = self.kids@[p][k0];
        let ci = c.spec_index();
        self.lemma_walk(p, k0);
        let inner = self.walk(ci, 0);
        if m > k0 {
            let j = self.lemma_walk_covers(p, k0 + 1, m, i);
            1 + inner.len() + j
        } else if i == ci {
            0
        } else {
            let deeper = self.lemma_descent(i, ci);
            let j = self.lemma_walk_covers(ci, 0, deeper, i);
            1 + j
        }
    }

    /// The node at place `k` of the traversal lies in the tree below the
    /// root, and `k` nodes come before it.
    proof fn lemma_preorder_index(&self, k: int)
        requires
            self.wf(),
            0 <= k < self.preorder().len(),
        ensures
            0 <= self.preorder()[k].spec_index() < self.parent@.len(),
            self.in_subtree(self.preorder()[k].spec_index(), 0),
            self.order_index(self.preorder()[k].spec_index()) == k,
    {
        self.lemma_root();
        self.lemma_walk_order(0, 0);
    }

    /// The traversal visits only nodes that can be reached from the root.
    pub proof fn lemma_preorder_reachable(&self, k: int)
        requires
            self.wf(),
            0 <= k < self.preorder().len(),
        ensures
            self@.in_range(self.preorder()[k]),
            self.in_subtree(self.preorder()[k].spec_index(), 0),
    {
        self.lemma_preorder_index(k);
    }

    /// The traversal visits every node that can be reached from the root.
    pub proof fn lemma_preorder_complete(&self, i: int) -> (k: int)
        requires
            self.wf(),
            0 <= i < self@.len(),
            self.in_subtree(i, 0),
        ensures
            0 <= k < self.preorder().len(),
            self.preorder()[k].spec_index() == i,
    {
        self.lemma_root();
        if i == 0 {
            0
        } else {
            let m = self.lemma_descent(i, 0);
            let j = self.lemma_walk_covers(0, 0, m, i);
            1 + j
        }
    }

    /// The traversal visits no node twice.
    pub proof fn lemma_preorder_once(&self, a: int, b: int)
        requires
            self.wf(),
            0 <= a < self.preorder().len(),
            0 <= b < self.preorder().len(),
            a != b,
        ensures
            self.preorder()[a].spec_index() != self.preorder()[b].spec_index(),
    {
        self.lemma_preorder_index(a);
        self.lemma_preorder_index(b);
    }

    /// The traversal visits a node before every other node of its subtree,
    /// and so a parent before each of its descendants.
    pub proof fn lemma_preorder_ancestor_first(&self, a: int, b: int)
        requires
            self.wf(),
            0 <= a < self.preorder().len(),
            0 <= b < self.preorder().len(),
            a != b,
            self.in_subtree(self.preorder()[b].spec_index(), self.preorder()[a].spec_index()),
        ensures
            a < b,
    {
        self.lemma_preorder_index(a);
        self.lemma_preorder_index(b);
        self.lemma_order_grows(self.preorder()[b].spec_index(), self.preorder()[a].spec_index());
    }

    /// A node lies in its own subtree, and a node with a parent lies in
    /// every subtree in which its parent lies.
    pub proof fn lemma_subtree(&self, e: Entity, a: int)
        requires
            self.wf(),
        ensures
            self.in_subtree(e.spec_index(), e.spec_index()),
            self.in_subtree(e.spec_index(), a) <==> e.spec_index() == a || (self@.parent_of(e) is Some
                && self.in_subtree(self@.parent_of(e).unwrap().spec_index(), a)),
    {
    }
}

} // verus!
