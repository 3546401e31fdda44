//! A recipe runner's core: argument arities, the binding of positional tokens
//! to a recipe's arguments, and the expansion of a command template into the
//! argument vector to execute.

pub mod arguments;
pub mod cli;
pub mod component;
pub mod error;
pub mod expander;
pub mod laws;
pub mod recipe;
pub mod resolver;
pub mod style;
pub mod text;

pub use cli::Action;
pub use recipe::{Config, Recipe};
