//! The client: tensors, wire payloads, the codec between them, and the
//! decisions taken on a server's replies.
pub mod codec;
pub mod io;
pub mod json;
pub mod laws;
pub mod narrow;
pub mod triton_client;
