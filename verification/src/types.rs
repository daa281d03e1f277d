//! The values that the application, the proxy and the TCE node exchange.
//!
//! A certificate is of a type `C` and a position in a certificate stream of a type `P` that the
//! proxy never looks into: it hands them on as they are.

use crate::error::Error;
use tokio::sync::oneshot;
use vstd::prelude::*;

verus! {

/// The number of bytes in the id of a subnet.
pub const SUBNET_ID_LENGTH: usize = 32;

/// The id of a subnet.
#[derive(Clone, Copy, Debug, PartialEq, Eq, Hash)]
pub struct SubnetId {
    pub id: [u8; SUBNET_ID_LENGTH],
}

/// From where the certificates for some target subnets are wanted.
#[derive(Debug, PartialEq, Eq)]
pub struct TargetCheckpoint<P> {
    /// The subnets that the certificates are addressed to.
    pub target_subnet_ids: Vec<SubnetId>,
    /// The positions up to which the certificates are known already.
    pub positions: Vec<P>,
}

/// What the application asks of the proxy.
#[verifier::reject_recursive_types(C)]
pub enum TceProxyCommand<C> {
    /// Submit a new certificate to the TCE node.
    SubmitCertificate(Box<C>),
    /// Shut the proxy down, and say so through the sender.
    Shutdown(oneshot::Sender<()>),
}

/// What the proxy tells the application.
#[derive(Debug, PartialEq, Eq)]
pub enum TceProxyEvent<C> {
    /// The TCE node delivered new certificates.
    NewDeliveredCerts(Vec<C>),
    /// The stream of certificates from the TCE node failed.
    WatchCertificatesChannelFailed,
}

/// An event, by what it holds.
pub enum TceProxyEventView<C> {
    NewDeliveredCerts(Seq<C>),
    WatchCertificatesChannelFailed,
}

impl<C> View for TceProxyEvent<C> {
    type V = TceProxyEventView<C>;

    open spec fn view(&self) -> TceProxyEventView<C> {
        match self {
            TceProxyEvent::NewDeliveredCerts(certs) => TceProxyEventView::NewDeliveredCerts(certs@),
            TceProxyEvent::WatchCertificatesChannelFailed =>
                TceProxyEventView::WatchCertificatesChannelFailed,
        }
    }
}

/// What the proxy asks of its client of the TCE node.
#[verifier::reject_recursive_types(C)]
pub enum TceClientCommand<C, P> {
    /// Get the head certificate that was sent to the TCE node for this subnet.
    GetSourceHead { subnet_id: SubnetId, sender: oneshot::Sender<Result<C, Error>> },
    /// Open the stream to the TCE node, from the position that the checkpoint marks.
    OpenStream { target_checkpoint: TargetCheckpoint<P> },
    /// Send a generated certificate to the TCE node.
    SendCertificate { cert: Box<C> },
    /// Finish.
    Shutdown,
}

/// The request that opens the stream of certificates. It names no source checkpoint.
#[derive(Debug, PartialEq, Eq)]
pub struct OpenStream<P> {
    pub target_checkpoint: TargetCheckpoint<P>,
}

/// A certificate as it came over the wire.
#[derive(Debug, PartialEq, Eq)]
pub enum ReceivedCertificate<C> {
    /// It could be read.
    Valid(C),
    /// It could not be read.
    Invalid,
}

/// What the TCE node says on the stream of certificates.
#[derive(Debug, PartialEq, Eq)]
pub enum WatchEvent<C> {
    /// A certificate was pushed. The message may lack the certificate.
    CertificatePushed { certificate: Option<ReceivedCertificate<C>> },
    /// The stream has been opened.
    StreamOpened,
}

/// A message on the stream of certificates. It may be empty.
#[derive(Debug, PartialEq, Eq)]
pub struct WatchCertificatesResponse<C> {
    pub event: Option<WatchEvent<C>>,
}

} // verus!
