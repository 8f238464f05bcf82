//! The scene tree: a forest of entities held in parallel arrays.
//!
//! The arrays are indexed by the slot index of an entity. A slot is in one
//! of three states. It is vacant when it has neither parent nor children;
//! slots that the arrays do not reach yet count as vacant too. It is part
//! of the tree when it has a parent, as is the root in slot 0, which never
//! has one. And it is left behind when its node was removed while it still
//! had children: these stay linked to the slot, out of reach of the root,
//! until they are removed themselves.
//!
//! The tree never looks at the generation of a handle. A handle acts on the
//! node that stands in its slot, a node that is added or moved is listed
//! under the handle that was passed, and the queries that compare handles
//! compare them whole.

use vstd::prelude::*;
use crate::entity::Entity;

pub mod edit;
pub mod laws;
pub mod links;
pub mod order;
pub mod query;
pub mod walk;

verus! {

/// Why a change to the tree was refused.
#[derive(Clone, Copy, Debug, PartialEq, Eq, Structural)]
pub enum TreeError {
    /// The entity is not part of the tree.
    NoEntity,
    /// The parent is missing or lies outside the tree.
    InvalidParent,
    /// The sibling lies outside the tree or cannot be moved as asked.
    InvalidSibling,
    /// The null handle was given where a node was required.
    NullEntity,
    /// The sibling already stands where it was asked to go.
    AlreadySibling,
    /// The entity already is the first child of its parent.
    AlreadyFirstChild,
}

/// The mathematical content of a [`Tree`]: for every slot its parent, its
/// children in order, and its two flags.
pub struct TreeView {
    /// The parent stored for each slot.
    pub parent: Seq<Option<Entity>>,
    /// The children of each slot, first child first.
    pub children: Seq<Seq<Entity>>,
    /// Whether layout skips the node in each slot.
    pub ignored: Seq<bool>,
    /// Whether the node in each slot bounds focus traversal.
    pub lock_focus_within: Seq<bool>,
    /// Whether the structure changed since the flag was last cleared.
    pub changed: bool,
}

impl TreeView {
    /// Number of slots.
    pub open spec fn len(self) -> nat {
        self.parent.len()
    }

    /// Whether the index of `e` addresses a slot.
    pub open spec fn in_range(self, e: Entity) -> bool {
        e.spec_index() < self.parent.len()
    }

    /// The parent stored for the slot of `e`.
    pub open spec fn parent_of(self, e: Entity) -> Option<Entity> {
        if self.in_range(e) {
            self.parent[e.spec_index()]
        } else {
            None
        }
    }

    /// The children of the slot of `e`, in order.
    pub open spec fn children_of(self, e: Entity) -> Seq<Entity> {
        if self.in_range(e) {
            self.children[e.spec_index()]
        } else {
            Seq::empty()
        }
    }

    /// The child at position `k` of the slot of `e`, if there is one.
    pub open spec fn child_at(self, e: Entity, k: int) -> Option<Entity> {
        if 0 <= k < self.children_of(e).len() {
            Some(self.children_of(e)[k])
        } else {
            None
        }
    }

    /// The last child of the slot of `e`, if it has children.
    pub open spec fn last_child_of(self, e: Entity) -> Option<Entity> {
        self.child_at(e, self.children_of(e).len() - 1)
    }

    /// The place of `e` among the children of its parent: the place at which
    /// a child with the index of `e` is listed. In a well-formed tree there
    /// is exactly one such place for every node with a parent.
    pub open spec fn place_of(self, e: Entity) -> int {
        let siblings = self.children_of(self.parent_of(e).unwrap());
        choose|k: int| 0 <= k < siblings.len() && siblings[k].spec_index() == e.spec_index()
    }

    /// The sibling that follows `e` among the children of its parent.
    pub open spec fn next_sibling_of(self, e: Entity) -> Option<Entity> {
        match self.parent_of(e) {
            Some(p) => self.child_at(p, self.place_of(e) + 1),
            None => None,
        }
    }

    /// The sibling that precedes `e` among the children of its parent.
    pub open spec fn prev_sibling_of(self, e: Entity) -> Option<Entity> {
        match self.parent_of(e) {
            Some(p) => self.child_at(p, self.place_of(e) - 1),
            None => None,
        }
    }

    /// The place of `e` among the children of its parent, where it is listed
    /// there under this very handle.
    pub open spec fn child_index_of(self, e: Entity) -> Option<usize> {
        match self.parent_of(e) {
            Some(p) => if self.child_at(p, self.place_of(e)) == Some(e) {
                Some(self.place_of(e) as usize)
            } else {
                None
            },
            None => None,
        }
    }

    /// Whether `a` and `b` are distinct children of one node.
    pub open spec fn can_reorder(self, a: Entity, b: Entity) -> bool {
        &&& self.in_range(b)
        &&& a.spec_index() != b.spec_index()
        &&& self.parent_of(a) is Some
        &&& self.parent_of(b) is Some
        &&& self.parent_of(a).unwrap().spec_index() == self.parent_of(b).unwrap().spec_index()
    }

    /// The place of `anchor` among its siblings once `moving` has left them.
    pub open spec fn place_without(self, anchor: Entity, moving: Entity) -> int {
        if self.place_of(anchor) > self.place_of(moving) {
            self.place_of(anchor) - 1
        } else {
            self.place_of(anchor)
        }
    }

    /// A slot that holds no node: it has neither parent nor children and is
    /// not the root. Slots beyond the arrays are vacant too.
    pub open spec fn vacant(self, e: Entity) -> bool {
        self.in_range(e) ==> {
            &&& e.spec_index() != 0
            &&& self.parent[e.spec_index()] is None
            &&& self.children[e.spec_index()].len() == 0
        }
    }

    /// The content after the arrays have grown to `n` slots, the new slots
    /// being empty; unchanged if there are `n` slots already.
    pub open spec fn grown(self, n: nat) -> TreeView {
        if n <= self.len() {
            self
        } else {
            let m = (n - self.len()) as nat;
            TreeView {
                parent: self.parent + Seq::new(m, |i: int| None),
                children: self.children + Seq::new(m, |i: int| Seq::empty()),
                ignored: self.ignored + Seq::new(m, |i: int| false),
                lock_focus_within: self.lock_focus_within + Seq::new(m, |i: int| false),
                changed: self.changed,
            }
        }
    }

    /// The content after `e` has become the last child of `p`: the arrays
    /// grow to hold the slot of `e`, whose flags are cleared.
    pub open spec fn added(self, e: Entity, p: Entity) -> TreeView {
        let g = self.grown((e.spec_index() + 1) as nat);
        TreeView {
            parent: g.parent.update(e.spec_index(), Some(p)),
            children: g.children.update(p.spec_index(), g.children[p.spec_index()].push(e)),
            ignored: g.ignored.update(e.spec_index(), false),
            lock_focus_within: g.lock_focus_within.update(e.spec_index(), false),
            changed: true,
        }
    }

    /// The content after the node in slot `i`, which stood at place `k`
    /// among the children of slot `p`, has left that list and lost its parent.
    pub open spec fn detached(self, i: int, p: int, k: int) -> TreeView {
        TreeView {
            parent: self.parent.update(i, None),
            children: self.children.update(p, self.children[p].remove(k)),
            ..self
        }
    }

    /// The content after `e` has entered the children of `p` at place `k`.
    pub open spec fn attached(self, e: Entity, p: Entity, k: int) -> TreeView {
        TreeView {
            parent: self.parent.update(e.spec_index(), Some(p)),
            children: self.children.update(
                p.spec_index(),
                self.children[p.spec_index()].insert(k, e),
            ),
            ..self
        }
    }

    /// The content after the node in the slot of `e` has left the children
    /// of its parent and had its flags cleared. The root, which has no
    /// parent, only has its flags cleared.
    pub open spec fn removed(self, e: Entity) -> TreeView {
        let i = e.spec_index();
        let base = match self.parent[i] {
            Some(p) => self.detached(i, p.spec_index(), self.place_of(e)),
            None => self,
        };
        TreeView {
            ignored: base.ignored.update(i, false),
            lock_focus_within: base.lock_focus_within.update(i, false),
            changed: true,
            ..base
        }
    }

    /// The content after the node in the slot of `e` has moved, among the
    /// children of its parent, to place `to` of the list that is left
    /// without it, where it is listed under the handle `e`.
    pub open spec fn moved(self, e: Entity, to: int) -> TreeView {
        let i = e.spec_index();
        let p = self.parent[i].unwrap();
        TreeView {
            changed: true,
            ..self.detached(i, p.spec_index(), self.place_of(e)).attached(e, p, to)
        }
    }

    /// The content after the node in the slot of `e` has left the children
    /// of its parent, if it had one, and has become the last child of `p`.
    pub open spec fn reparented(self, e: Entity, p: Entity) -> TreeView {
        let i = e.spec_index();
        let base = match self.parent[i] {
            Some(q) => self.detached(i, q.spec_index(), self.place_of(e)),
            None => self,
        };
        TreeView {
            changed: true,
            ..base.attached(e, p, base.children[p.spec_index()].len() as int)
        }
    }

    /// A node that is part of the tree: the root, or a slot with a parent.
    pub open spec fn present(self, e: Entity) -> bool {
        self.in_range(e) && (e.spec_index() == 0 || self.parent[e.spec_index()] is Some)
    }
}

/// A forest of entities with ordered children.
///
/// Every slot stores its parent, its first child and both neighbours among
/// its siblings, and two flags. The fields are private: a tree is made by
/// [`Tree::new`] and changed by its methods alone, which keep it
/// well-formed.
pub struct Tree {
    parent: Vec<Option<Entity>>,
    first_child: Vec<Option<Entity>>,
    next_sibling: Vec<Option<Entity>>,
    prev_sibling: Vec<Option<Entity>>,
    ignored: Vec<bool>,
    lock_focus_within: Vec<bool>,
    changed: bool,
    /// The children of each slot, in chain order.
    kids: Ghost<Seq<Seq<Entity>>>,
    /// The place of each slot among the children of its parent.
    pos: Ghost<Seq<int>>,
    /// A measure that strictly grows from child to parent.
    rank: Ghost<Seq<nat>>,
    /// An upper bound of all ranks.
    cap: Ghost<nat>,
}

impl View for Tree {
    type V = TreeView;

    closed spec fn view(&self) -> TreeView {
        TreeView {
            parent: self.parent@,
            children: self.kids@,
            ignored: self.ignored@,
            lock_focus_within: self.lock_focus_within@,
            changed: self.changed,
        }
    }
}

impl Clone for Tree {
    /// A copy with the same content, well-formed if the tree is.
    fn clone(&self) -> (r: Tree)
        ensures
            r@ == self@,
            self.wf() ==> r.wf(),
    {
        Tree {
            parent: self.parent.clone(),
            first_child: self.first_child.clone(),
            next_sibling: self.next_sibling.clone(),
            prev_sibling: self.prev_sibling.clone(),
            ignored: self.ignored.clone(),
            lock_focus_within: self.lock_focus_within.clone(),
            changed: self.changed,
            kids: self.kids,
            pos: self.pos,
            rank: self.rank,
            cap: self.cap,
        }
    }
}

impl Tree {
    /// The nearest proper ancestor of slot `i` that bounds focus traversal,
    /// or the root if there is none.
    pub open spec fn focus_scope(&self, i: int) -> Entity
        decreases self.climb(i),
    {
        if self.wf() && 0 <= i < self@.len() && self@.parent[i] is Some {
            let p = self@.parent[i].unwrap();
            if self@.lock_focus_within[p.spec_index()] {
                p
            } else {
                self.focus_scope(p.spec_index())
            }
        } else {
            Entity::spec_root()
        }
    }

    /// The nearest proper ancestor of slot `i` that layout does not skip.
    pub open spec fn layout_parent(&self, i: int) -> Option<Entity>
        decreases self.climb(i),
    {
        if self.wf() && 0 <= i < self@.len() && self@.parent[i] is Some {
            let p = self@.parent[i].unwrap();
            if !self@.ignored[p.spec_index()] {
                Some(p)
            } else {
                self.layout_parent(p.spec_index())
            }
        } else {
            None
        }
    }

    /// All arrays describe the same slots, and slot 0 exists.
    spec fn wf_shape(&self) -> bool {
        let n = self.parent@.len();
        &&& 1 <= n <= crate::entity::ENTITY_INDEX_MASK + 1
        &&& self.first_child@.len() == n
        &&& self.next_sibling@.len() == n
        &&& self.prev_sibling@.len() == n
        &&& self.ignored@.len() == n
        &&& self.lock_focus_within@.len() == n
        &&& self.kids@.len() == n
        &&& self.pos@.len() == n
        &&& self.rank@.len() == n
    }

    /// Parents and child lists describe the same forest: every child names
    /// its parent, every node with a parent is listed exactly once among
    /// that parent's children, and the root has no parent.
    spec fn wf_forest(&self) -> bool {
        let n = self.parent@.len() as int;
        &&& self.parent@[0] is None
        &&& forall|p: int, k: int|
            0 <= p < n && 0 <= k < self.kids@[p].len() ==> {
                let c = (#[trigger] self.kids@[p][k]).spec_index();
                &&& c < n
                &&& self.parent@[c] is Some
                &&& self.parent@[c].unwrap().spec_index() == p
                &&& self.pos@[c] == k
            }
        &&& forall|i: int|
            0 <= i < n && (#[trigger] self.parent@[i]) is Some ==> {
                let p = self.parent@[i].unwrap().spec_index();
                &&& p < n
                &&& 0 <= self.pos@[i] < self.kids@[p].len()
                &&& self.kids@[p][self.pos@[i]].spec_index() == i
            }
    }

    /// No node is its own ancestor.
    spec fn wf_rank(&self) -> bool {
        let n = self.parent@.len() as int;
        &&& forall|i: int| 0 <= i < n ==> #[trigger] self.rank@[i] <= self.cap@
        &&& forall|i: int|
            0 <= i < n && (#[trigger] self.parent@[i]) is Some ==> self.rank@[i]
                < self.rank@[self.parent@[i].unwrap().spec_index()]
    }

    /// A bound on the number of steps from slot `i` up to a node without
    /// parent. It shrinks with every step from a node to its parent.
    pub closed spec fn climb(&self, i: int) -> nat {
        (self.cap@ - self.rank@[i]) as nat
    }

    /// A bound on the number of steps from slot `i` down to a node without
    /// children. It shrinks with every step from a node to one of its children.
    pub closed spec fn height(&self, i: int) -> nat {
        self.rank@[i]
    }

    /// Whether slot `i` lies in the subtree of slot `a`: it is `a` itself or
    /// has `a` among its ancestors.
    pub closed spec fn in_subtree(&self, i: int, a: int) -> bool
        decreases self.climb(i),
    {
        if i == a {
            true
        } else if self.wf() && 0 <= i < self.parent@.len() && self.parent@[i] is Some {
            self.in_subtree(self.parent@[i].unwrap().spec_index(), a)
        } else {
            false
        }
    }

    /// The first child that the child list of slot `i` asks for.
    spec fn link_first(&self, i: int) -> Option<Entity> {
        if self.kids@[i].len() > 0 {
            Some(self.kids@[i][0])
        } else {
            None
        }
    }

    /// The next sibling that the child list of the parent of slot `i` asks for.
    spec fn link_next(&self, i: int) -> Option<Entity> {
        match self.parent@[i] {
            Some(p) => {
                let s = self.kids@[p.spec_index()];
                if self.pos@[i] + 1 < s.len() {
                    Some(s[self.pos@[i] + 1])
                } else {
                    None
                }
            },
            None => None,
        }
    }

    /// The previous sibling that the child list of the parent of slot `i` asks for.
    spec fn link_prev(&self, i: int) -> Option<Entity> {
        match self.parent@[i] {
            Some(p) => {
                let s = self.kids@[p.spec_index()];
                if self.pos@[i] > 0 {
                    Some(s[self.pos@[i] - 1])
                } else {
                    None
                }
            },
            None => None,
        }
    }

    /// The stored links are those of the child lists.
    spec fn wf_links(&self) -> bool {
        let n = self.parent@.len() as int;
        &&& forall|i: int| 0 <= i < n ==> #[trigger] self.first_child@[i] == self.link_first(i)
        &&& forall|i: int| 0 <= i < n ==> #[trigger] self.next_sibling@[i] == self.link_next(i)
        &&& forall|i: int| 0 <= i < n ==> #[trigger] self.prev_sibling@[i] == self.link_prev(i)
    }

    /// The invariant of the tree: the arrays agree in length, describe a
    /// forest without cycles, and the sibling chains are doubly linked in
    /// the order of the child lists.
    pub closed spec fn wf(&self) -> bool {
        &&& self.wf_shape()
        &&& self.wf_forest()
        &&& self.wf_rank()
        &&& self.wf_links()
    }

    /// Creates a tree that holds the root alone.
    pub fn new() -> (t: Tree)
        ensures
            t.wf(),
            t@ == (TreeView {
                parent: seq![None],
                children: seq![Seq::empty()],
                ignored: seq![false],
                lock_focus_within: seq![true],
                changed: true,
            }),
    {
        let ghost kids: Seq<Seq<Entity>> = seq![Seq::empty()];
        let ghost pos: Seq<int> = seq![0int];
        let ghost rank: Seq<nat> = seq![0nat];
        let t = Tree {
            parent: vec![None],
            first_child: vec![None],
            next_sibling: vec![None],
            prev_sibling: vec![None],
            ignored: vec![false],
            lock_focus_within: vec![true],
            changed: true,
            kids: Ghost(kids),
            pos: Ghost(pos),
            rank: Ghost(rank),
            cap: Ghost(0nat),
        };
        assert(t.parent@ =~= seq![None]);
        assert(t.ignored@ =~= seq![false]);
        assert(t.lock_focus_within@ =~= seq![true]);
        t
    }

    /// A slot has no more children than the tree has slots.
    proof fn lemma_children_bounded(&self, p: int)
        requires
            self.wf(),
            0 <= p < self.parent@.len(),
        ensures
            self.kids@[p].len() <= self.parent@.len(),
    {
        let n = self.parent@.len() as int;
        let s = Seq::new(self.kids@[p].len(), |k: int| self.kids@[p][k].spec_index());
        s.unique_seq_to_set();
        vstd::set_lib::lemma_int_range(0, n);
        vstd::set_lib::lemma_len_subset(s.to_set(), vstd::set_lib::set_int_range(0, n));
    }
}

} // verus!
