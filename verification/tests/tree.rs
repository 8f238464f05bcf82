use vizia_scene::entity::Entity;
use vizia_scene::tree::walk::TreeIterator;
use vizia_scene::tree::{Tree, TreeError};

fn e(index: u32) -> Entity {
    Entity::new(index, 0)
}

/// root -> [1 -> [4, 5], 2, 3 -> [6]]
fn sample() -> Tree {
    let mut tree = Tree::new();
    let root = Entity::root();
    for (child, parent) in [(e(1), root), (e(2), root), (e(3), root), (e(4), e(1)), (e(5), e(1)), (e(6), e(3))] {
        assert_eq!(tree.add(child, parent), Ok(()));
    }
    tree
}

fn children(tree: &Tree, parent: Entity) -> Vec<Entity> {
    let mut out = Vec::new();
    let mut n = 0;
    while let Some(child) = tree.get_child(parent, n) {
        out.push(child);
        n += 1;
    }
    out
}

#[test]
fn new_tree_holds_the_root_alone() {
    let tree = Tree::new();
    let root = Entity::root();
    assert_eq!(tree.get_parent(root), None);
    assert_eq!(tree.get_first_child(root), None);
    assert_eq!(tree.get_last_child(root), None);
    assert_eq!(tree.get_num_children(root), Some(0));
    assert!(!tree.has_children(root));
    assert!(tree.changed());
    assert!(!tree.is_ignored(root));
    assert_eq!(tree.into_iter().collect(), vec![root]);
}

#[test]
fn three_children_keep_their_order() {
    let mut tree = Tree::new();
    let root = Entity::root();
    let (a, b, c) = (e(1), e(2), e(3));
    assert_eq!(tree.add(a, root), Ok(()));
    assert_eq!(tree.add(b, root), Ok(()));
    assert_eq!(tree.add(c, root), Ok(()));
    assert_eq!(tree.get_child(root, 0), Some(a));
    assert_eq!(tree.get_child(root, 1), Some(b));
    assert_eq!(tree.get_child(root, 2), Some(c));
    assert_eq!(tree.get_child(root, 3), None);
    assert_eq!(tree.get_num_children(root), Some(3));
}

#[test]
fn add_sets_parent_and_lists_child_once() {
    let mut tree = Tree::new();
    let root = Entity::root();
    assert_eq!(tree.add(e(1), root), Ok(()));
    assert_eq!(tree.add(e(2), e(1)), Ok(()));
    assert_eq!(tree.get_parent(e(2)), Some(e(1)));
    assert_eq!(children(&tree, e(1)), vec![e(2)]);
    assert_eq!(children(&tree, root), vec![e(1)]);
    assert_eq!(tree.get_child_index(e(2)), Some(0));
}

#[test]
fn add_links_siblings_both_ways() {
    let tree = sample();
    assert_eq!(tree.get_first_child(Entity::root()), Some(e(1)));
    assert_eq!(tree.get_last_child(Entity::root()), Some(e(3)));
    assert_eq!(tree.get_next_sibling(e(1)), Some(e(2)));
    assert_eq!(tree.get_next_sibling(e(2)), Some(e(3)));
    assert_eq!(tree.get_next_sibling(e(3)), None);
    assert_eq!(tree.get_prev_sibling(e(3)), Some(e(2)));
    assert_eq!(tree.get_prev_sibling(e(2)), Some(e(1)));
    assert_eq!(tree.get_prev_sibling(e(1)), None);
}

#[test]
fn add_grows_past_unused_slots() {
    let mut tree = Tree::new();
    assert_eq!(tree.add(e(10), Entity::root()), Ok(()));
    assert_eq!(tree.get_parent(e(10)), Some(Entity::root()));
    assert_eq!(tree.get_parent(e(5)), None);
    assert_eq!(tree.get_num_children(e(5)), Some(0));
    assert_eq!(tree.get_num_children(e(11)), None);
    assert_eq!(tree.add(e(5), e(10)), Ok(()));
    assert_eq!(children(&tree, e(10)), vec![e(5)]);
}

#[test]
fn add_sets_changed_and_clears_flags() {
    let mut tree = Tree::new();
    tree.set_changed(false);
    assert!(!tree.changed());
    assert_eq!(tree.add(e(1), Entity::root()), Ok(()));
    assert!(tree.changed());
    assert!(!tree.is_ignored(e(1)));
}

#[test]
fn null_handles_are_refused() {
    let mut tree = Tree::new();
    assert_eq!(tree.remove(Entity::null()), Err(TreeError::NullEntity));
    assert_eq!(tree.add(Entity::null(), Entity::root()), Err(TreeError::NullEntity));
    assert_eq!(tree.add(e(1), Entity::null()), Err(TreeError::NullEntity));
    assert_eq!(tree.add(Entity::null(), Entity::null()), Err(TreeError::NullEntity));
    assert_eq!(tree.get_child(Entity::null(), 0), None);
    assert_eq!(tree.get_num_children(Entity::null()), None);
}

#[test]
fn add_under_a_parent_outside_the_tree_is_refused() {
    let mut tree = Tree::new();
    assert_eq!(tree.add(e(1), e(7)), Err(TreeError::InvalidParent));
    assert_eq!(tree.get_parent(e(1)), None);
    assert_eq!(tree.get_num_children(Entity::root()), Some(0));
}

#[test]
fn failed_add_leaves_the_tree_as_it_was() {
    let mut tree = sample();
    tree.set_changed(false);
    assert_eq!(tree.add(e(9), e(40)), Err(TreeError::InvalidParent));
    assert!(!tree.changed());
    assert_eq!(tree.get_parent(e(9)), None);
    assert_eq!(children(&tree, Entity::root()), vec![e(1), e(2), e(3)]);
}

#[test]
fn remove_unlinks_the_entity() {
    let mut tree = sample();
    assert_eq!(tree.remove(e(2)), Ok(()));
    assert_eq!(tree.get_parent(e(2)), None);
    assert_eq!(children(&tree, Entity::root()), vec![e(1), e(3)]);
    assert_eq!(tree.get_next_sibling(e(1)), Some(e(3)));
    assert_eq!(tree.get_prev_sibling(e(3)), Some(e(1)));
    assert_eq!(tree.get_next_sibling(e(2)), None);
    assert_eq!(tree.get_prev_sibling(e(2)), None);
}

#[test]
fn remove_first_and_last_child() {
    let mut tree = sample();
    assert_eq!(tree.remove(e(1)), Ok(()));
    assert_eq!(tree.get_first_child(Entity::root()), Some(e(2)));
    assert_eq!(tree.get_prev_sibling(e(2)), None);
    assert_eq!(tree.remove(e(3)), Ok(()));
    assert_eq!(tree.get_last_child(Entity::root()), Some(e(2)));
    assert_eq!(tree.get_next_sibling(e(2)), None);
    assert_eq!(tree.remove(e(2)), Ok(()));
    assert_eq!(tree.get_first_child(Entity::root()), None);
    assert_eq!(tree.get_num_children(Entity::root()), Some(0));
}

#[test]
fn remove_twice_or_never_added_gives_no_entity() {
    let mut tree = sample();
    assert_eq!(tree.remove(e(2)), Ok(()));
    assert_eq!(tree.remove(e(2)), Err(TreeError::NoEntity));
    assert_eq!(tree.remove(e(50)), Err(TreeError::NoEntity));
    let mut sparse = Tree::new();
    assert_eq!(sparse.add(e(4), Entity::root()), Ok(()));
    assert_eq!(sparse.remove(e(2)), Err(TreeError::NoEntity));
}

#[test]
fn remove_leaves_descendants_linked_to_the_slot() {
    let mut tree = sample();
    assert_eq!(tree.remove(e(1)), Ok(()));
    assert_eq!(tree.get_parent(e(4)), Some(e(1)));
    assert_eq!(children(&tree, e(1)), vec![e(4), e(5)]);
    assert_eq!(tree.into_iter().collect(), vec![Entity::root(), e(2), e(3), e(6)]);
    assert_eq!(tree.remove(e(4)), Ok(()));
    assert_eq!(tree.remove(e(5)), Ok(()));
    assert_eq!(tree.get_first_child(e(1)), None);
}

#[test]
fn remove_clears_flags_and_sets_changed() {
    let mut tree = sample();
    tree.set_ignored(e(2), true);
    tree.set_lock_focus_within(e(2), true);
    tree.set_changed(false);
    assert_eq!(tree.remove(e(2)), Ok(()));
    assert!(!tree.is_ignored(e(2)));
    assert!(tree.changed());
    assert_eq!(tree.add(e(2), Entity::root()), Ok(()));
    assert_eq!(tree.add(e(7), e(2)), Ok(()));
    assert_eq!(tree.lock_focus_within(e(7)), Entity::root());
}

#[test]
fn removed_slot_can_be_used_again() {
    let mut tree = sample();
    assert_eq!(tree.remove(e(2)), Ok(()));
    let again = Entity::new(2, 1);
    assert_eq!(tree.add(again, e(3)), Ok(()));
    assert_eq!(tree.get_parent(again), Some(e(3)));
    assert_eq!(children(&tree, e(3)), vec![e(6), again]);
}

#[test]
fn set_first_child_moves_to_the_front() {
    let mut tree = sample();
    assert_eq!(tree.set_first_child(e(3)), Ok(()));
    assert_eq!(tree.get_first_child(Entity::root()), Some(e(3)));
    assert_eq!(children(&tree, Entity::root()), vec![e(3), e(1), e(2)]);
    assert_eq!(tree.get_num_children(Entity::root()), Some(3));
    assert_eq!(tree.get_prev_sibling(e(1)), Some(e(3)));
    assert_eq!(tree.get_prev_sibling(e(3)), None);
    assert_eq!(tree.get_next_sibling(e(2)), None);
    assert_eq!(tree.set_first_child(e(1)), Ok(()));
    assert_eq!(children(&tree, Entity::root()), vec![e(1), e(3), e(2)]);
}

#[test]
fn set_first_child_errors() {
    let mut tree = sample();
    assert_eq!(tree.set_first_child(e(1)), Err(TreeError::AlreadyFirstChild));
    assert_eq!(tree.set_first_child(e(30)), Err(TreeError::InvalidSibling));
    assert_eq!(tree.set_first_child(Entity::root()), Err(TreeError::InvalidParent));
    assert_eq!(tree.remove(e(2)), Ok(()));
    assert_eq!(tree.set_first_child(e(2)), Err(TreeError::InvalidParent));
    assert_eq!(children(&tree, Entity::root()), vec![e(1), e(3)]);
}

#[test]
fn set_next_sibling_moves_behind() {
    let mut tree = sample();
    assert_eq!(tree.set_next_sibling(e(1), e(3)), Ok(()));
    assert_eq!(children(&tree, Entity::root()), vec![e(1), e(3), e(2)]);
    assert_eq!(tree.get_prev_sibling(e(2)), Some(e(3)));
    assert_eq!(tree.get_next_sibling(e(2)), None);
    assert_eq!(tree.set_next_sibling(e(2), e(1)), Ok(()));
    assert_eq!(children(&tree, Entity::root()), vec![e(3), e(2), e(1)]);
    assert_eq!(tree.get_first_child(Entity::root()), Some(e(3)));
    assert_eq!(tree.get_last_child(Entity::root()), Some(e(1)));
    assert_eq!(tree.get_prev_sibling(e(3)), None);
}

#[test]
fn set_next_sibling_errors() {
    let mut tree = sample();
    assert_eq!(tree.set_next_sibling(e(1), e(2)), Err(TreeError::AlreadySibling));
    assert_eq!(tree.set_next_sibling(e(1), e(30)), Err(TreeError::InvalidSibling));
    assert_eq!(tree.set_next_sibling(Entity::root(), e(1)), Err(TreeError::InvalidParent));
    assert_eq!(tree.set_next_sibling(e(30), e(1)), Err(TreeError::InvalidParent));
    assert_eq!(tree.set_next_sibling(e(1), e(6)), Err(TreeError::InvalidSibling));
    assert_eq!(tree.set_next_sibling(e(1), e(1)), Err(TreeError::InvalidSibling));
    assert_eq!(tree.set_next_sibling(e(1), Entity::root()), Err(TreeError::InvalidSibling));
    assert_eq!(children(&tree, Entity::root()), vec![e(1), e(2), e(3)]);
}

#[test]
fn set_prev_sibling_moves_in_front() {
    let mut tree = sample();
    assert_eq!(tree.set_prev_sibling(e(1), e(3)), Ok(()));
    assert_eq!(children(&tree, Entity::root()), vec![e(3), e(1), e(2)]);
    assert_eq!(tree.get_first_child(Entity::root()), Some(e(3)));
    assert_eq!(tree.set_prev_sibling(e(2), e(3)), Ok(()));
    assert_eq!(children(&tree, Entity::root()), vec![e(1), e(3), e(2)]);
    assert_eq!(tree.get_prev_sibling(e(3)), Some(e(1)));
    assert_eq!(tree.get_next_sibling(e(3)), Some(e(2)));
}

#[test]
fn set_prev_sibling_errors() {
    let mut tree = sample();
    assert_eq!(tree.set_prev_sibling(e(2), e(1)), Err(TreeError::InvalidSibling));
    assert_eq!(tree.set_prev_sibling(e(1), e(30)), Err(TreeError::InvalidSibling));
    assert_eq!(tree.set_prev_sibling(Entity::root(), e(1)), Err(TreeError::InvalidParent));
    assert_eq!(tree.set_prev_sibling(e(4), e(2)), Err(TreeError::InvalidSibling));
    assert_eq!(tree.set_prev_sibling(e(2), e(2)), Err(TreeError::InvalidSibling));
    assert_eq!(children(&tree, Entity::root()), vec![e(1), e(2), e(3)]);
}

#[test]
fn set_parent_moves_a_subtree() {
    let mut tree = sample();
    tree.set_changed(false);
    tree.set_parent(e(1), e(3));
    assert!(tree.changed());
    assert_eq!(tree.get_parent(e(1)), Some(e(3)));
    assert_eq!(children(&tree, Entity::root()), vec![e(2), e(3)]);
    assert_eq!(children(&tree, e(3)), vec![e(6), e(1)]);
    assert_eq!(children(&tree, e(1)), vec![e(4), e(5)]);
    assert_eq!(tree.get_next_sibling(e(1)), None);
    assert_eq!(tree.get_prev_sibling(e(1)), Some(e(6)));
    assert_eq!(tree.get_prev_sibling(e(2)), None);
    assert_eq!(
        tree.into_iter().collect(),
        vec![Entity::root(), e(2), e(3), e(6), e(1), e(4), e(5)]
    );
}

#[test]
fn set_parent_to_a_childless_node_and_within_one_parent() {
    let mut tree = sample();
    tree.set_parent(e(5), e(2));
    assert_eq!(children(&tree, e(2)), vec![e(5)]);
    assert_eq!(children(&tree, e(1)), vec![e(4)]);
    assert_eq!(tree.get_prev_sibling(e(5)), None);
    assert_eq!(tree.get_next_sibling(e(5)), None);
    tree.set_parent(e(1), Entity::root());
    assert_eq!(children(&tree, Entity::root()), vec![e(2), e(3), e(1)]);
}

#[test]
fn child_index_and_sibling_queries() {
    let tree = sample();
    assert_eq!(tree.get_child_index(e(1)), Some(0));
    assert_eq!(tree.get_child_index(e(3)), Some(2));
    assert_eq!(tree.get_child_index(e(5)), Some(1));
    assert_eq!(tree.get_child_index(Entity::root()), None);
    assert_eq!(tree.get_child_index(e(40)), None);
    assert_eq!(tree.get_child_index(Entity::new(3, 1)), None);
    assert!(tree.is_first_child(e(1)));
    assert!(!tree.is_first_child(e(2)));
    assert!(!tree.is_first_child(Entity::root()));
    assert!(tree.is_last_child(e(3)));
    assert!(tree.is_last_child(e(6)));
    assert!(!tree.is_last_child(e(1)));
    assert!(!tree.is_last_child(Entity::root()));
    assert!(tree.is_sibling(e(1), e(3)));
    assert!(tree.is_sibling(e(4), e(5)));
    assert!(!tree.is_sibling(e(1), e(4)));
    assert!(!tree.is_sibling(Entity::root(), e(1)));
    assert!(tree.has_children(e(3)));
    assert!(!tree.has_children(e(2)));
    assert!(!tree.has_children(e(40)));
}

#[test]
fn reads_outside_the_tree_give_nothing() {
    let tree = sample();
    let far = e(1000);
    assert_eq!(tree.get_parent(far), None);
    assert_eq!(tree.get_first_child(far), None);
    assert_eq!(tree.get_last_child(far), None);
    assert_eq!(tree.get_next_sibling(far), None);
    assert_eq!(tree.get_prev_sibling(far), None);
    assert_eq!(tree.get_child(far, 0), None);
    assert_eq!(tree.get_num_children(far), None);
    assert_eq!(tree.get_layout_parent(far), None);
    assert_eq!(tree.lock_focus_within(far), Entity::root());
    assert!(!tree.is_ignored(far));
    assert!(!tree.is_first_child(far));
    assert!(!tree.is_last_child(far));
}

#[test]
fn flags_outside_the_tree_are_not_set() {
    let mut tree = sample();
    tree.set_ignored(e(1000), true);
    tree.set_lock_focus_within(e(1000), true);
    assert!(!tree.is_ignored(e(1000)));
    assert_eq!(tree.get_num_children(e(1000)), None);
}

#[test]
fn layout_parent_skips_ignored_ancestors() {
    let mut tree = sample();
    assert_eq!(tree.get_layout_parent(e(4)), Some(e(1)));
    tree.set_ignored(e(1), true);
    assert!(tree.is_ignored(e(1)));
    assert_eq!(tree.get_layout_parent(e(4)), Some(Entity::root()));
    tree.set_ignored(Entity::root(), true);
    assert_eq!(tree.get_layout_parent(e(4)), None);
    assert_eq!(tree.get_layout_parent(Entity::root()), None);
    tree.set_ignored(e(1), false);
    assert_eq!(tree.get_layout_parent(e(4)), Some(e(1)));
    tree.set_ignored(e(4), true);
    assert_eq!(tree.get_layout_parent(e(4)), Some(e(1)));
}

#[test]
fn focus_scope_is_the_nearest_locking_ancestor() {
    let mut tree = sample();
    assert_eq!(tree.lock_focus_within(e(4)), Entity::root());
    tree.set_lock_focus_within(e(1), true);
    assert_eq!(tree.lock_focus_within(e(4)), e(1));
    assert_eq!(tree.lock_focus_within(e(1)), Entity::root());
    tree.set_lock_focus_within(Entity::root(), false);
    assert_eq!(tree.lock_focus_within(e(6)), Entity::root());
    assert_eq!(tree.lock_focus_within(Entity::root()), Entity::root());
}

#[test]
fn descendants_are_told_by_the_parent_chain() {
    let tree = sample();
    assert!(tree.is_descendant_of(e(4), e(1)));
    assert!(tree.is_descendant_of(e(4), Entity::root()));
    assert!(tree.is_descendant_of(e(4), e(4)));
    assert!(!tree.is_descendant_of(e(4), e(3)));
    assert!(!tree.is_descendant_of(e(1), e(4)));
    assert!(!tree.is_descendant_of(Entity::null(), Entity::root()));
}

#[test]
fn traversal_is_pre_order() {
    let tree = sample();
    let order = tree.into_iter().collect();
    assert_eq!(order, vec![Entity::root(), e(1), e(4), e(5), e(2), e(3), e(6)]);
}

#[test]
fn traversal_visits_each_node_once_and_parents_first() {
    let mut tree = Tree::new();
    let root = Entity::root();
    let parents = [0u32, 0, 1, 1, 2, 0, 5, 6, 6, 3];
    for (i, parent) in parents.iter().enumerate() {
        let parent = if *parent == 0 { root } else { e(*parent) };
        assert_eq!(tree.add(e(i as u32 + 1), parent), Ok(()));
    }
    assert_eq!(tree.remove(e(9)), Ok(()));
    let order = tree.into_iter().collect();
    assert_eq!(order.len(), 10);
    for i in 0..=10u32 {
        let node = if i == 0 { root } else { e(i) };
        let count = order.iter().filter(|x| **x == node).count();
        assert_eq!(count, if i == 9 { 0 } else { 1 });
    }
    for (place, node) in order.iter().enumerate() {
        if let Some(parent) = tree.get_parent(*node) {
            let parent_place = order.iter().position(|x| *x == parent).unwrap();
            assert!(parent_place < place);
        }
    }
}

#[test]
fn traversal_ignores_no_node_and_starts_anew() {
    let mut tree = sample();
    tree.set_ignored(e(1), true);
    let first = tree.into_iter().collect();
    let second = tree.into_iter().collect();
    assert_eq!(first, second);
    assert!(first.contains(&e(1)));
    let mut it = tree.into_iter();
    assert_eq!(it.next(), Some(Entity::root()));
    assert_eq!(it.next(), Some(e(1)));
    assert_eq!(it.next(), Some(e(4)));
    let mut rest = 0;
    while it.next().is_some() {
        rest += 1;
    }
    assert_eq!(rest, 4);
    assert_eq!(it.next(), None);
}

#[test]
fn a_clone_is_a_tree_of_its_own() {
    let tree = sample();
    let mut copy = tree.clone();
    assert_eq!(copy.into_iter().collect(), tree.into_iter().collect());
    assert_eq!(copy.remove(e(3)), Ok(()));
    assert_eq!(children(&copy, Entity::root()), vec![e(1), e(2)]);
    assert_eq!(children(&tree, Entity::root()), vec![e(1), e(2), e(3)]);
    assert_eq!(TreeIterator::full(&tree).collect().len(), 7);
    assert_eq!(TreeIterator::full(&copy).collect().len(), 5);
}

#[test]
fn vacant_slots_take_new_entities() {
    let mut tree = sample();
    assert!(tree.is_vacant(e(7)));
    assert!(tree.is_vacant(e(500)));
    assert!(!tree.is_vacant(e(2)));
    assert!(!tree.is_vacant(Entity::root()));
    assert_eq!(tree.remove(e(2)), Ok(()));
    assert!(tree.is_vacant(e(2)));
    assert_eq!(tree.remove(e(1)), Ok(()));
    assert!(!tree.is_vacant(e(1)));
    assert_eq!(tree.remove(e(4)), Ok(()));
    assert_eq!(tree.remove(e(5)), Ok(()));
    assert!(tree.is_vacant(e(1)));
    assert_eq!(tree.add(e(1), e(3)), Ok(()));
    assert!(!tree.is_vacant(e(1)));
}

#[test]
fn entity_parts() {
    let x = Entity::new(5, 3);
    assert_eq!(x.index(), 5);
    assert_eq!(x.generation(), 3);
    assert!(!x.is_null());
    assert!(Entity::null().is_null());
    assert_eq!(Entity::root().index(), 0);
    assert_eq!(Entity::root(), Entity::new(0, 0));
    assert_ne!(Entity::new(5, 3), Entity::new(5, 4));
    assert_eq!(Entity::null().index(), 0x00ff_ffff);
}

#[test]
fn handles_are_resolved_by_index() {
    let mut tree = sample();
    let stale = Entity::new(2, 7);
    assert_eq!(tree.get_parent(stale), Some(Entity::root()));
    assert_eq!(tree.get_child_index(stale), None);
    assert!(!tree.is_first_child(Entity::new(1, 7)));
    assert_eq!(tree.set_first_child(Entity::new(1, 7)), Err(TreeError::AlreadyFirstChild));
    assert_eq!(tree.set_first_child(stale), Ok(()));
    assert_eq!(children(&tree, Entity::root()), vec![stale, e(1), e(3)]);
    assert_eq!(tree.get_prev_sibling(e(1)), Some(stale));
    assert_eq!(tree.remove(e(2)), Ok(()));
    assert_eq!(children(&tree, Entity::root()), vec![e(1), e(3)]);
    assert_eq!(tree.set_next_sibling(Entity::new(3, 9), Entity::new(1, 4)), Ok(()));
    assert_eq!(children(&tree, Entity::root()), vec![e(3), Entity::new(1, 4)]);
    assert_eq!(tree.get_prev_sibling(e(1)), Some(e(3)));
    assert_eq!(tree.get_next_sibling(e(3)), Some(Entity::new(1, 4)));
}

#[test]
fn moving_a_neighbour_keeps_the_chain_whole() {
    let mut tree = Tree::new();
    let root = Entity::root();
    for i in 1..=5 {
        assert_eq!(tree.add(e(i), root), Ok(()));
    }
    assert_eq!(tree.set_next_sibling(e(3), e(2)), Ok(()));
    assert_eq!(children(&tree, root), vec![e(1), e(3), e(2), e(4), e(5)]);
    assert_eq!(tree.set_prev_sibling(e(3), e(2)), Ok(()));
    assert_eq!(children(&tree, root), vec![e(1), e(2), e(3), e(4), e(5)]);
    assert_eq!(tree.set_prev_sibling(e(1), e(5)), Ok(()));
    assert_eq!(children(&tree, root), vec![e(5), e(1), e(2), e(3), e(4)]);
    assert_eq!(tree.set_next_sibling(e(4), e(5)), Ok(()));
    assert_eq!(children(&tree, root), vec![e(1), e(2), e(3), e(4), e(5)]);
    let mut back = Vec::new();
    let mut at = tree.get_last_child(root);
    while let Some(x) = at {
        back.push(x);
        at = tree.get_prev_sibling(x);
    }
    assert_eq!(back, vec![e(5), e(4), e(3), e(2), e(1)]);
}

/// A tree kept as plain lists, against which the real one is held.
struct Model {
    parent: Vec<Option<u32>>,
    children: Vec<Vec<u32>>,
}

impl Model {
    fn new(slots: usize) -> Self {
        Model { parent: vec![None; slots], children: vec![Vec::new(); slots] }
    }

    fn detach(&mut self, i: u32) {
        if let Some(p) = self.parent[i as usize].take() {
            self.children[p as usize].retain(|c| *c != i);
        }
    }

    fn in_subtree(&self, mut i: u32, a: u32) -> bool {
        loop {
            if i == a {
                return true;
            }
            match self.parent[i as usize] {
                Some(p) => i = p,
                None => return false,
            }
        }
    }

    fn preorder(&self, at: u32, out: &mut Vec<u32>) {
        out.push(at);
        for c in &self.children[at as usize] {
            self.preorder(*c, out);
        }
    }
}

fn handle(i: u32) -> Entity {
    if i == 0 {
        Entity::root()
    } else {
        e(i)
    }
}

#[test]
fn random_changes_agree_with_a_plain_model() {
    const SLOTS: u32 = 12;
    let mut tree = Tree::new();
    let mut model = Model::new(SLOTS as usize);
    let mut seed: u64 = 0x2545_f491_4f6c_dd1d;
    let mut next = |bound: u32| {
        seed ^= seed << 13;
        seed ^= seed >> 7;
        seed ^= seed << 17;
        (seed % bound as u64) as u32
    };
    for _ in 0..4000 {
        let a = next(SLOTS);
        let b = next(SLOTS);
        let in_range = |i: u32| tree.get_num_children(handle(i)).is_some();
        match next(6) {
            0 => {
                let vacant = a != 0 && model.parent[a as usize].is_none() && model.children[a as usize].is_empty();
                if vacant && a != b {
                    let expected = if in_range(b) { Ok(()) } else { Err(TreeError::InvalidParent) };
                    assert_eq!(tree.add(handle(a), handle(b)), expected);
                    if expected.is_ok() {
                        model.parent[a as usize] = Some(b);
                        model.children[b as usize].push(a);
                    }
                }
            }
            1 => {
                let present = in_range(a) && (a == 0 || model.parent[a as usize].is_some());
                let expected = if present { Ok(()) } else { Err(TreeError::NoEntity) };
                assert_eq!(tree.remove(handle(a)), expected);
                if present {
                    model.detach(a);
                }
            }
            2 => {
                let expected = if !in_range(a) {
                    Err(TreeError::InvalidSibling)
                } else if model.parent[a as usize].is_none() {
                    Err(TreeError::InvalidParent)
                } else if model.children[model.parent[a as usize].unwrap() as usize][0] == a {
                    Err(TreeError::AlreadyFirstChild)
                } else {
                    Ok(())
                };
                assert_eq!(tree.set_first_child(handle(a)), expected);
                if expected.is_ok() {
                    let p = model.parent[a as usize].unwrap();
                    model.detach(a);
                    model.parent[a as usize] = Some(p);
                    model.children[p as usize].insert(0, a);
                }
            }
            3 | 4 => {
                let after = next(2) == 0;
                let pa = if in_range(a) { model.parent[a as usize] } else { None };
                let pb = if in_range(b) { model.parent[b as usize] } else { None };
                let adjacent = pa.is_some() && pa == pb && {
                    let list = &model.children[pa.unwrap() as usize];
                    let ia = list.iter().position(|c| *c == a).unwrap();
                    let ib = list.iter().position(|c| *c == b).unwrap();
                    if after { ib == ia + 1 } else { ib + 1 == ia }
                };
                let expected = if adjacent {
                    Err(if after { TreeError::AlreadySibling } else { TreeError::InvalidSibling })
                } else if !in_range(b) {
                    Err(TreeError::InvalidSibling)
                } else if pa.is_none() {
                    Err(TreeError::InvalidParent)
                } else if a == b || pa != pb {
                    Err(TreeError::InvalidSibling)
                } else {
                    Ok(())
                };
                let got = if after {
                    tree.set_next_sibling(handle(a), handle(b))
                } else {
                    tree.set_prev_sibling(handle(a), handle(b))
                };
                assert_eq!(got, expected);
                if expected.is_ok() {
                    let p = pa.unwrap();
                    model.detach(b);
                    model.parent[b as usize] = Some(p);
                    let ia = model.children[p as usize].iter().position(|c| *c == a).unwrap();
                    model.children[p as usize].insert(if after { ia + 1 } else { ia }, b);
                }
            }
            _ => {
                if a != 0 && in_range(a) && in_range(b) && !model.in_subtree(b, a) {
                    assert!(!tree.is_descendant_of(handle(b), handle(a)));
                    tree.set_parent(handle(a), handle(b));
                    model.detach(a);
                    model.parent[a as usize] = Some(b);
                    model.children[b as usize].push(a);
                }
            }
        }
        for i in 0..SLOTS {
            let expected: Vec<Entity> = model.children[i as usize].iter().map(|c| handle(*c)).collect();
            assert_eq!(children(&tree, handle(i)), expected);
            assert_eq!(tree.get_parent(handle(i)), model.parent[i as usize].map(handle));
            assert_eq!(tree.get_last_child(handle(i)), expected.last().copied());
            for (k, c) in expected.iter().enumerate() {
                assert_eq!(tree.get_child_index(*c), Some(k));
                assert_eq!(tree.get_prev_sibling(*c), if k > 0 { Some(expected[k - 1]) } else { None });
                assert_eq!(tree.get_next_sibling(*c), expected.get(k + 1).copied());
            }
        }
        let mut order = Vec::new();
        model.preorder(0, &mut order);
        let expected: Vec<Entity> = order.into_iter().map(handle).collect();
        assert_eq!(tree.into_iter().collect(), expected);
    }
}
