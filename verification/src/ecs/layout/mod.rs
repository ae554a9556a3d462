//! Layout: the mapping between entities and the nodes of the layout tree.

pub mod layout_tree;
pub mod monitors;

pub use self::layout_tree::TaffyLayoutResource;
