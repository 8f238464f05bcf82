//! Scene tree and style selector core of a retained-mode GUI toolkit.
//!
//! The [`tree::Tree`] keeps entities in a forest of sibling-linked children,
//! and a [`selector::Selector`] decides which style rules apply to an entity.

pub mod actions;
pub mod class_set;
pub mod entity;
pub mod pseudo_class;
pub mod selector;
pub mod specificity;
pub mod tree;
