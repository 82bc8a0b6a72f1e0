//! A task list: tasks with a title and a completion flag, kept in a
//! repository that holds no two tasks with the same title or identifier.
//!
//! - [`validation`] judges candidate titles and coerces what arrives in
//!   place of one.
//! - [`repository`] owns the collection of tasks and offers the operations
//!   that list, create, update, toggle and delete them.
//! - [`handlers`] turns requests into calls of the repository and results
//!   into responses.
//! - [`durable`] holds the decisions of the same service where the tasks
//!   live in a store outside the process.
//! - [`laws`] proves what holds of all of these whatever the inputs.
//!
//! Titles are compared with the case of letters ignored: two titles are the
//! same where they are equal once each character is replaced by its
//! lowercase mapping.

pub mod durable;
pub mod handlers;
pub mod identifier;
pub mod laws;
pub mod models;
pub mod repository;
pub mod text;
pub mod validation;
