//! Turns one command-line argument into the fixed-size report data of a TDX
//! attestation, and decides, step by step, what a quote generator does with
//! what the attestation primitive and the file system hand back.
//!
//! The library makes no request and writes no file itself. A driver starts
//! a run with [`workflow::begin`], carries out each [`workflow::Step`] and
//! hands back how it went, until the run is over.

pub mod attestation;
pub mod constants;
pub mod error;
pub mod output;
pub mod report_data;
pub mod workflow;

pub use attestation::{create_quote, create_tdx_report};
pub use error::QuoteGeneratorError;
pub use report_data::create_report_data;
