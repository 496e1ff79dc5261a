//! Services and the factories that construct them.
use vstd::prelude::*;
use crate::body::Payload;
use crate::error::{erase, ErasedError};

pub mod new_service;

pub use self::new_service::{make_service_fn, MakeService, MakeServiceFn, NewService};

verus! {

/// What answers the requests of one connection, one after the other.
///
/// A service declares the payload of the requests it takes, the payload of
/// the responses it gives, and the error with which a single request may
/// fail. How it is invoked is up to the transport that drives the connection.
pub trait Service {
    /// The body of the requests.
    type ReqBody: Payload;

    /// The body of the responses.
    type ResBody: Payload;

    /// The error that handling one request may end in.
    type Error: Into<ErasedError>;
}

/// A construction under way: the value that a factory hands back.
///
/// It resolves once, either to the service or to the error that ended the
/// attempt, never to both and never to a service that is half built.
pub trait Construction {
    /// The service that a successful construction resolves to.
    type Service: Service;

    /// The error that a failed construction resolves to.
    type Error: Into<ErasedError>;
}

/// A construction that has resolved before it is handed back.
impl<S, E> Construction for Result<S, E> where S: Service, E: Into<ErasedError> {
    type Service = S;

    type Error = E;
}

/// What the server loop is left with once a construction has resolved to
/// `outcome`.
///
/// A service is handed over as it is. An error is handed over erased, and
/// then there is no service: the attempt is over and the connection with it.
pub fn conclude<S, E>(outcome: Result<S, E>) -> (handed: Result<S, ErasedError>) where
    S: Service,
    E: Into<ErasedError>,

    ensures
        outcome matches Ok(service) ==> handed == Ok::<S, ErasedError>(service),
        outcome matches Err(error) ==> handed matches Err(erased) && erased@.len() > 0
            && call_ensures(<E as Into<ErasedError>>::into, (error,), erased),
{
    match outcome {
        Ok(service) => Ok(service),
        Err(error) => Err(erase(error)),
    }
}

} // verus!
