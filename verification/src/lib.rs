//! An order-preserving JSON value model, the tree of collapsible sections and
//! text lines that displays it, and the state of a viewer that loads one
//! document at a time.

pub mod error;
pub mod model;
pub mod parse;
pub mod render;
pub mod state;
pub mod text;
pub mod value;
