//! Client-side logic: argument forms, the bounded history stack, the
//! widgets' state and the key-driven state machine of the editor.

pub mod args;
pub mod stack;
pub mod widgets;
pub mod content;
pub mod screen;
pub mod app;
pub mod tally;
pub mod render;
pub mod cells;
