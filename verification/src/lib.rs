//! Branch naming for tracker tickets: derives the canonical branch name of an
//! issue and decides which remote branch a new branch is based on.

pub mod client;
pub mod issue;
pub mod outside;
pub mod resolver;
pub mod text;
