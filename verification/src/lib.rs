//! Batch conversion of CAN database (`.dbc`) description files into generated
//! Rust modules: deterministic unit discovery, per-unit code generation with
//! failure isolation, and an optional aggregating module index.

pub mod batch;
pub mod discovery;
pub mod engine;
pub mod index;
pub mod naming;
