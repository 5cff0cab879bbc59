//! A small library for turning a grid-and-components circuit description
//! into CircuiTikZ document source, and for driving the compile/open/cleanup
//! pipeline around an external document compiler.

pub mod numeral;
pub mod pipeline;
pub mod render;
pub mod scene;
pub mod ui;
