//! Connection-scoped service factories.
//!
//! A server that has accepted a connection asks a factory for the service
//! that will answer the requests of that connection. The factory hands back
//! a construction: a value that resolves, in its own time, to the service or
//! to the error that ended the attempt.
//!
//! - [`service::NewService`] constructs without looking at the connection.
//! - [`service::MakeService`] is handed a context of the connection.
//! - [`service::make_service_fn`] turns a callable into a factory.
//! - [`error::ErasedError`] is what every error is turned into on its way
//!   to the server loop.
pub mod body;
pub mod error;
pub mod service;
