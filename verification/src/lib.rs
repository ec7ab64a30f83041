//! Batch conversion pipeline for bitmap skins whose dimensions must satisfy a
//! divisibility constraint (width a multiple of 8, height a multiple of 4).
//!
//! The library holds the decision logic of the pipeline: the padding policy on
//! image dimensions, resolution of glob-expansion results into a concrete input
//! list, planning of per-file output targets, aggregation of per-file outcomes,
//! and the mapping of a run's result to a process exit code. Filesystem
//! enumeration, the image codec and the worker pool are external collaborators
//! that hand this library plain values and take plain values back.

pub mod aggregate;
pub mod dims;
pub mod outcome;
pub mod plan;
pub mod resolve;
