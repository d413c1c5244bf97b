//! Verified transformations of fixed-shape records and of collections of
//! records, as exchanged by value across a component boundary.
//!
//! Every operation is a pure function from fully materialised inputs to a
//! freshly built result. Contracts are stated over the mathematical views of
//! the data types. Integer arithmetic follows signed 32-bit wraparound and is
//! never an error; the one input that is rejected is a collection without
//! codes, which has no first code to drop.
//!
//! - `wrapping`: signed 32-bit wraparound over mathematical integers.
//! - `record`: flat, nested and deeply nested records and their operations.
//! - `collection`: the collection record, its transformation and summation.
//! - `laws`: what holds across operations, proved over their models.

pub mod wrapping;
pub mod record;
pub mod collection;
pub mod laws;
