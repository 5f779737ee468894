//! Skills, projects and employees kept in three in-memory stores, with the
//! operations that link an employee to a project or to a skill.

pub mod cli;
pub mod dates;
pub mod employees;
pub mod error;
pub mod ident;
pub mod in_memory;
pub mod projects;
pub mod screen;
pub mod skills;
pub mod store;

pub use error::Error;
