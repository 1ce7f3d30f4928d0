//! A typed client library for the v2 REST protocol of an inference server.
//!
//! Callers describe named, shaped, typed tensors, have them encoded into the
//! JSON payloads of the protocol, and get typed tensors back from the
//! payloads of a reply. The logic of this crate is verified. What it takes
//! on trust from `serde_json` and `reqwest` is stated where it is used, in
//! `client::json` and `utils::errors`. The transport itself is left to the
//! program that drives the client.
pub mod client;
pub mod utils;

pub use client::io::{DataType, InferInput, InferOutput, InferResults};
pub use client::triton_client::TritonRestClient;
pub use utils::errors::TrustonError;
