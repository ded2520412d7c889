//! Analyzer for parsed API-description documents: classifies reusable
//! components as simple or complex, tracks which components the operation
//! paths actually reference, and reports the ones that are never used.

pub mod pointer;
pub mod schema;
pub mod document;
pub mod collect;
pub mod walk;
pub mod report;

pub use pointer::parse_reference;
pub use schema::is_complex;
