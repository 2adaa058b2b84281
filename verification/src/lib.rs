//! Aggregates of named fields, mapped onto a hierarchical store of groups, datasets and
//! attributes, such as an HDF5 file.
//!
//! A scalar field lives in an attribute, an array in a dataset, a nested aggregate in a child
//! group, and an array too large for memory stays in its dataset and is reached through a
//! handle. [`aggregate`] says what the fields of an aggregate are and [`policy`] how each is
//! named and treated in the store.
//!
//! The store is not part of the library. Reading and writing are passes ([`read`], [`write`])
//! that hand out one request at a time ([`store`]); whoever holds the store carries the request
//! out and hands the answer back, and the pass decides what follows: the next request, the
//! end, or the error ([`error`]) that ends the pass at once.
//!
//! [`model`] is the store that the passes are designed against, and [`laws`] holds what is
//! proved of the passes on it: what was written is read back, names and transposition pair up
//! as declared, and a refused request ends a pass without undoing what was done.

pub mod aggregate;
pub mod array;
pub mod error;
pub mod laws;
pub mod lazy_array;
pub mod model;
pub mod policy;
pub mod read;
pub mod scalar;
pub mod store;
pub mod text;
pub mod write;
