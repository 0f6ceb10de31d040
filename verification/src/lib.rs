//! Strongly-typed, validated JSON-RPC 2.0 message objects.
//!
//! The crate models the three JSON-RPC envelopes (Request, Notification,
//! Response) together with their component values: the `jsonrpc` version tag,
//! the `id` correlation value, the structured `params` payload and the
//! success/error status of a response.  Untrusted JSON text is parsed into a
//! generic JSON tree, validated field by field into an envelope, and a valid
//! envelope serializes back to exact wire-compatible text.  Staged builders
//! let callers assemble envelopes so that a message cannot be built before
//! every spec-mandated field has been supplied.

pub mod error;
pub mod id;
pub mod json;
pub mod notification;
pub mod params;
pub mod request;
pub mod response;
pub mod version;
pub mod wire;

pub use error::Error as JsonRpcError;
pub use notification::Notification as JsonRpcNotification;
pub use request::Request as JsonRpcRequest;
pub use response::Response as JsonRpcResponse;
