//! A to-do list: tasks with dense ids, the operations on them, and the text a
//! session shows.

pub mod laws;
pub mod render;
pub mod shell;
pub mod text;
pub mod todo;
