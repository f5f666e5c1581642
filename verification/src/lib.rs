//! Publication pipeline for content-addressed assets linked to on-chain token
//! records.
//!
//! The library covers the decision logic of the pipeline: matching metadata
//! descriptors to binary asset files, planning uploads to a content-addressed
//! pinning network (an authenticated provider with an unauthenticated
//! fallback), assembling a descriptor's publication, driving one transaction
//! through submission and finalization as an explicit state machine, and
//! orchestrating a whole batch of items with sequential identifiers.
//!
//! All input and output (file reads, HTTP, the chain connection) is left to
//! the surrounding program: the library receives plain values (directory
//! listings, response bodies, watch events) and returns the next action to
//! perform, so that every decision in between is verified.

pub mod batch;
pub mod config;
pub mod descriptor;
pub mod error;
pub mod linker;
pub mod pinning;
pub mod submit;
pub mod text;
