//! A todo list kept as JSON text and driven by a menu of five actions.
//!
//! The list and its changes are in [`todo`], the numbered lines that show it
//! in [`display`], the stored text in [`store`], and the run of the program
//! as a machine of states in [`session`]. Reading and writing the file and
//! talking to the terminal are left to the caller: it hands over what the
//! file held and what the user answered, and is told what to print and
//! whether to write.

pub mod display;
pub mod json;
pub mod number;
pub mod session;
pub mod store;
pub mod todo;

pub use crate::session::{Action, Pending, Prompt, Reaction, Session};
pub use crate::store::{load_todos, save_todos};
pub use crate::todo::{Todo, TodoList};
