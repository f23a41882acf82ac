//! A minimal desktop shell: the window it asks the runtime for, and the
//! widgets it lays out on every frame.

pub mod shell;
pub mod window;
