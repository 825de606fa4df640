//! Rust-side support for Halide-generated kernels.
//!
//! The heart of the crate is the buffer-descriptor builder in [`runtime`]:
//! it turns a flat pixel array plus width/height/channel metadata into the
//! three-dimensional descriptor that a generated kernel entry point expects,
//! with the row-major, interleaved-channel stride layout proved correct.
//!
//! Around it, [`gen_build`] and [`halide_build`] compute the paths and
//! command lines of the generator build flow, [`runtime_control`] tracks the
//! runtime's host-side configuration, and [`paths`] holds the string model
//! of paths they share. Spawning compilers, running generators and making
//! the foreign calls belong to the program around the library, which feeds
//! the computed values to the commands it runs.

#![allow(non_camel_case_types)]
#![allow(non_snake_case)]

pub mod gen_build;
pub mod halide_build;
pub mod paths;
pub mod runtime;
pub mod runtime_control;
