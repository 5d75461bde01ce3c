//! Fixture construction and filesystem-state assertions for UTF-8 temporary
//! directories.
//!
//! The crate models a fixture as a tree of UTF-8 paths under a temporary
//! root. Setting a fixture up is described by a plan of filesystem steps
//! ([`tools::FsStep`]) that a thin driver executes; asserting on a fixture
//! goes through predicate adapters that evaluate a condition against a path.

pub mod asserts;
pub mod child;
pub mod copy;
pub mod errors;
pub mod paths;
pub mod tools;
