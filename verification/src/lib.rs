//! Verified core of `nvoc`, a GPU overclocking utility for NVIDIA GPUs on Linux.

pub mod text;
pub mod cli;
pub mod output;
pub mod error;
pub mod gpu;
pub mod report;
pub mod batch;
