//! The HTTP service's logic: its request and response shapes, its shared
//! graph store, and what each endpoint computes. Serving HTTP is left to
//! the program around the library.
pub mod graph;
pub mod handlers;
pub mod models;
pub mod state;
