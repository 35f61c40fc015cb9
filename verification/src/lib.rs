//! Tasks: the contextual information of a thread of execution, and the code that deals with it.

pub mod address;
pub mod bootstrap;
pub mod callable_laws;
pub mod cells;
pub mod current;
pub mod current_laws;
pub mod exit;
pub mod hashing;
pub mod laws;
pub mod life_laws;
pub mod lifecycle;
pub mod panic_info;
pub mod reference_laws;
pub mod run_state;
pub mod switch;
pub mod switch_laws;
pub mod system;
pub mod task;
pub mod task_laws;
pub mod task_ref;
pub mod text;
pub mod text_laws;
