//! Checks an `impl Interface for Type` block against the interface it names:
//! every required method provided once with an agreeing signature, `Self`
//! replaced by the implementing type, the interface's own methods merged in,
//! and every defect reported rather than stopping at the first.

pub mod types;
pub mod decl;
pub mod error;
pub mod matcher;
pub mod namespace;
pub mod impl_trait;
pub mod laws;
