//! How the agent talks to the hub: the file events it sends over gRPC,
//! the HTTP connection it opens, and the request records it builds.
pub mod grpc;
pub mod hub;
pub mod protocol;
pub mod request;
