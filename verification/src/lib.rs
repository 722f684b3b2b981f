//! Response-encoding layer of a JSON-RPC 2.0 server: the response envelope,
//! the error taxonomy, and a builder that turns one request's outcome into a
//! transport-ready reply, with the wire format pinned down by contracts.

pub mod json;
pub mod laws;
pub mod res;
pub mod text;

pub use json::Json;
pub use res::Builder;
pub use res::Content;
pub use res::Error;
pub use res::Reply;
pub use res::Response;
pub use res::Version;
