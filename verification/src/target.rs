//! The endpoint at an address.

use tonic::transport::Error as TransportError;
use vstd::prelude::*;

verus! {

/// `tonic::transport::Endpoint`, carried as it is.
#[verifier::external_type_specification]
#[verifier::external_body]
pub struct ExEndpoint(tonic::transport::Endpoint);

/// Whether `tonic::transport::Endpoint::from_shared` reads an address as a URI.
pub uninterp spec fn is_endpoint_address(address: Seq<char>) -> bool;

/// The endpoint that stands at some address.
pub struct TceEndpoint {
    endpoint: tonic::transport::Endpoint,
    address: Ghost<Seq<char>>,
}

impl TceEndpoint {
    /// The address that the endpoint was made from.
    pub closed spec fn address(&self) -> Seq<char> {
        self.address@
    }

    /// The endpoint itself.
    pub closed spec fn target(&self) -> tonic::transport::Endpoint {
        self.endpoint
    }

    /// The endpoint, to connect to.
    pub fn into_endpoint(self) -> (endpoint: tonic::transport::Endpoint)
        ensures
            endpoint == self.target(),
    {
        self.endpoint
    }
}

/// `Endpoint::from_shared`: the endpoint at `address`, if `address` can be read as a URI. What the
/// error says is not stated.
#[verifier::external_body]
pub(crate) fn endpoint_from_shared(address: String) -> (endpoint: Result<
    TceEndpoint,
    TransportError,
>)
    ensures
        endpoint is Ok <==> is_endpoint_address(address@),
        endpoint matches Ok(endpoint) ==> endpoint.address() == address@,
{
    let from = Ghost(address@);
    let endpoint = tonic::transport::Endpoint::from_shared(address)?;
    Ok(TceEndpoint { endpoint, address: from })
}

/// What is said of an endpoint is said of the one that it holds.
proof fn law_an_endpoint_is_what_it_holds(endpoint: TceEndpoint)
    ensures
        endpoint.target() == endpoint.endpoint,
        endpoint.address() == endpoint.address@,
{
}

} // verus!
