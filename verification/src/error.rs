//! What can go wrong between the proxy and the TCE node.

use crate::types::SubnetId;
use tonic::transport::Error as TransportError;
use vstd::prelude::*;
use vstd::std_specs::convert::FromSpecImpl;

verus! {

/// `tonic::transport::Error`, carried as it is.
#[verifier::external_type_specification]
#[verifier::external_body]
pub struct ExTransportError(TransportError);

/// `tonic::Status`, carried as it is.
#[verifier::external_type_specification]
#[verifier::external_body]
pub struct ExStatus(tonic::Status);

/// `hex::FromHexError`, carried as it is.
#[verifier::external_type_specification]
#[verifier::external_body]
pub struct ExFromHexError(hex::FromHexError);

/// The errors of the proxy.
#[allow(inconsistent_fields)]
#[derive(Debug)]
pub enum Error {
    /// The connection to the TCE service could not be made.
    TonicTransportError { source: TransportError },
    /// The TCE service answered with an error status.
    TonicStatusError { source: tonic::Status },
    /// The task on the other end of a channel is gone.
    InvalidChannelError,
    /// No endpoint of a TCE node was set.
    InvalidTceEndpoint,
    /// No subnet id was set.
    InvalidSubnetId,
    /// A certificate of the TCE node could not be read.
    InvalidCertificate,
    /// A text is not hexadecimal.
    HexConversionError { source: hex::FromHexError },
    /// The TCE node did not say what the source head of the subnet is.
    UnableToGetSourceHeadCertificate { subnet_id: SubnetId, details: String },
    /// The TCE node has no certificate of the subnet.
    SourceHeadEmpty { subnet_id: SubnetId },
}

impl From<TransportError> for Error {
    fn from(source: TransportError) -> (error: Self) {
        Error::TonicTransportError { source }
    }
}

impl FromSpecImpl<TransportError> for Error {
    open spec fn obeys_from_spec() -> bool {
        true
    }

    open spec fn from_spec(source: TransportError) -> Self {
        Error::TonicTransportError { source }
    }
}

impl From<tonic::Status> for Error {
    fn from(source: tonic::Status) -> (error: Self) {
        Error::TonicStatusError { source }
    }
}

impl FromSpecImpl<tonic::Status> for Error {
    open spec fn obeys_from_spec() -> bool {
        true
    }

    open spec fn from_spec(source: tonic::Status) -> Self {
        Error::TonicStatusError { source }
    }
}

impl From<hex::FromHexError> for Error {
    fn from(source: hex::FromHexError) -> (error: Self) {
        Error::HexConversionError { source }
    }
}

impl FromSpecImpl<hex::FromHexError> for Error {
    open spec fn obeys_from_spec() -> bool {
        true
    }

    open spec fn from_spec(source: hex::FromHexError) -> Self {
        Error::HexConversionError { source }
    }
}

} // verus!
