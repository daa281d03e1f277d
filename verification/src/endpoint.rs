//! Connecting to the TCE service.

use crate::error::Error;
use crate::target::{endpoint_from_shared, is_endpoint_address, TceEndpoint};
use tonic::transport::Error as TransportError;
use vstd::prelude::*;

verus! {

/// Whether a failed attempt to connect is the last.
pub enum AttemptFailure {
    /// Try again after a while.
    Transient { source: TransportError },
    /// Give up.
    Permanent { source: TransportError },
}

/// What an attempt to connect starts with: the endpoint at the address of the TCE service. An
/// address that cannot be read fails the attempt in the same way as a connection that cannot be
/// made.
pub fn connect_attempt(endpoint: &String) -> (target: Result<TceEndpoint, AttemptFailure>)
    ensures
        target is Ok <==> is_endpoint_address(endpoint@),
        target matches Ok(target) ==> target.address() == endpoint@,
        target matches Err(failure) ==> failure is Transient,
{
    match endpoint_from_shared(endpoint.clone()) {
        Ok(target) => Ok(target),
        Err(source) => Err(attempt_failed(source)),
    }
}

/// What a failed attempt to connect means: whatever the failure was, the attempt is made again.
pub fn attempt_failed(source: TransportError) -> (failure: AttemptFailure)
    ensures
        failure == (AttemptFailure::Transient { source }),
{
    AttemptFailure::Transient { source }
}

/// What the attempts to connect come to.
pub open spec fn connection<G>(attempts: Result<G, TransportError>) -> Result<G, Error> {
    match attempts {
        Ok(client) => Ok(client),
        Err(source) => Err(Error::TonicTransportError { source }),
    }
}

/// What the attempts to connect came to.
pub fn connect_outcome<G>(attempts: Result<G, TransportError>) -> (outcome: Result<G, Error>)
    ensures
        outcome == connection(attempts),
{
    match attempts {
        Ok(client) => Ok(client),
        Err(source) => Err(Error::from(source)),
    }
}

} // verus!
