pub mod action;
pub mod buffer;
pub mod editor;
pub mod input;
pub mod laws;
pub mod model;
