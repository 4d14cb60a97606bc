//! Typed client surface for a remote secret-management service's database
//! secrets engine.
//!
//! The library builds validated request descriptors for the engine's
//! operations (connection configuration, role and static-role definitions,
//! credential generation), decodes the service's responses into typed
//! records, and models the engine itself with an in-memory service against
//! which whole request/response rounds can be exercised.  The network
//! transport is deliberately out of scope: a caller hands a finished
//! descriptor to whatever dispatcher it uses and feeds the wire-level answer
//! back into the decoders here.

pub mod connection;
pub mod digits;
pub mod engine;
pub mod error;
pub mod request;
pub mod role;
pub mod static_role;
pub mod value;
pub mod wire;
