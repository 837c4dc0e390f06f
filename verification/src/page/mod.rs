//! Page and frame logic: navigation, evaluation, queries and input.
pub mod frame;
pub mod page;
