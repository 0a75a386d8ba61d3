//! Form and layout components described as markup trees with verified shapes.
//!
//! `markup` holds the tree model; `ui` builds each component's tree.

pub mod markup;
pub mod ui;
