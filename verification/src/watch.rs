//! The task that takes what the TCE node says on the stream of certificates.

use crate::channel::{UnboundedRx, UnboundedTx};
use crate::types::{
    ReceivedCertificate, TceProxyEvent, TceProxyEventView, WatchCertificatesResponse, WatchEvent,
};
use tokio::sync::mpsc;
use vstd::prelude::*;

verus! {

/// The state of the watch task.
#[verifier::reject_recursive_types(C)]
pub struct WatchTask<C> {
    /// Where the certificates that came in go, until the task finishes.
    pub inbound_certificate_sender: Option<mpsc::Sender<C>>,
    /// Where the task is told to finish.
    pub inbound_shutdown_receiver: UnboundedRx<()>,
    /// Where the failures of the stream are reported, if anywhere.
    pub tce_proxy_event_sender: Option<UnboundedTx<TceProxyEvent<C>>>,
    /// Whether the stream is still watched.
    pub running: bool,
}

/// What is to be done about a message on the stream.
pub enum WatchAction<C> {
    /// Pass the certificate to the application. Whether it can be passed or not, the task goes on.
    Deliver(C),
    /// Wait for the next message.
    Wait,
}

/// What comes in on the stream: a message, or an error.
pub type WatchResponse<C> = Result<WatchCertificatesResponse<C>, tonic::Status>;

/// The certificate that a message brings, if it brings one that can be read.
pub open spec fn certificate_brought<C>(response: WatchResponse<C>) -> Option<C> {
    match response {
        Ok(WatchCertificatesResponse {
            event: Some(
                WatchEvent::CertificatePushed {
                    certificate: Some(ReceivedCertificate::Valid(certificate)),
                },
            ),
        }) => Some(certificate),
        _ => None,
    }
}

/// What is to be done about a message on the stream.
pub open spec fn watch_action<C>(response: WatchResponse<C>) -> WatchAction<C> {
    match certificate_brought(response) {
        Some(certificate) => WatchAction::Deliver(certificate),
        None => WatchAction::Wait,
    }
}

/// The events that the application is told on account of a message on the stream.
pub open spec fn watch_events<C>(response: WatchResponse<C>) -> Seq<TceProxyEventView<C>> {
    match response {
        Ok(_) => Seq::empty(),
        Err(_) => seq![TceProxyEventView::WatchCertificatesChannelFailed],
    }
}

/// What was handed to the application through `sender`.
pub open spec fn events_offered<C>(sender: UnboundedTx<TceProxyEvent<C>>) -> Seq<
    TceProxyEventView<C>,
> {
    sender.offered().map_values(|event: TceProxyEvent<C>| event@)
}

/// One failure of the stream was handed to the application, which took it or not.
pub open spec fn is_report<C>(
    before: UnboundedTx<TceProxyEvent<C>>,
    after: UnboundedTx<TceProxyEvent<C>>,
) -> bool {
    let failed = TceProxyEvent::<C>::WatchCertificatesChannelFailed;
    &&& after.offered() == before.offered().push(failed)
    &&& after.taken() == before.taken() || after.taken() == before.taken().push(failed)
}

/// How a message on the stream changes the task: the application is told what it has to be told,
/// if there is anywhere to tell it, and takes it or not; either way the task goes on.
pub open spec fn watch_step<C>(
    before: WatchTask<C>,
    response: WatchResponse<C>,
    after: WatchTask<C>,
) -> bool {
    &&& after.events() =~= if before.tce_proxy_event_sender is Some {
        before.events() + watch_events(response)
    } else {
        before.events()
    }
    &&& after.events_heard() =~= before.events_heard() || (before.tce_proxy_event_sender is Some
        && after.events_heard() =~= before.events_heard() + watch_events(response))
    &&& after.running
    &&& after.same_ends(&before)
}

/// How the word to finish changes the task: it ends and lets go of the sender of the certificates,
/// and nothing else changes.
pub open spec fn watch_finish_step<C>(before: WatchTask<C>, after: WatchTask<C>) -> bool {
    &&& !after.running
    &&& after.inbound_certificate_sender is None
    &&& after.inbound_shutdown_receiver.same_channel(&before.inbound_shutdown_receiver)
    &&& after.tce_proxy_event_sender == before.tce_proxy_event_sender
}

/// Those of the events that the application was there to take.
pub open spec fn events_taken<C>(sender: UnboundedTx<TceProxyEvent<C>>) -> Seq<
    TceProxyEventView<C>,
> {
    sender.taken().map_values(|event: TceProxyEvent<C>| event@)
}

impl<C> WatchTask<C> {
    /// The ends of channels that the task holds are those of `other`.
    pub open spec fn same_ends(&self, other: &Self) -> bool {
        &&& self.inbound_certificate_sender == other.inbound_certificate_sender
        &&& self.inbound_shutdown_receiver.same_channel(&other.inbound_shutdown_receiver)
        &&& match (self.tce_proxy_event_sender, other.tce_proxy_event_sender) {
            (Some(sender), Some(other_sender)) => sender.same_handle(&other_sender),
            (None, None) => true,
            _ => false,
        }
    }

    /// The events that the task has told so far.
    pub open spec fn events(&self) -> Seq<TceProxyEventView<C>> {
        match self.tce_proxy_event_sender {
            Some(sender) => events_offered(sender),
            None => Seq::empty(),
        }
    }

    /// Those of the events that the application was there to take.
    pub open spec fn events_heard(&self) -> Seq<TceProxyEventView<C>> {
        match self.tce_proxy_event_sender {
            Some(sender) => events_taken(sender),
            None => Seq::empty(),
        }
    }

    /// Takes a message from the stream, or an error of it. An error is told to the application, if
    /// there is anywhere to tell it; a certificate that can be read is to be delivered. Nothing
    /// that comes in ends the task.
    pub fn on_response(&mut self, response: WatchResponse<C>) -> (action: WatchAction<C>)
        requires
            old(self).running,
        ensures
            action == watch_action(response),
            watch_step(*old(self), response, *final(self)),
            response is Ok || old(self).tce_proxy_event_sender is None ==> *final(self) == *old(
                self,
            ),
            response is Err && old(self).tce_proxy_event_sender is Some ==> is_report(
                old(self).tce_proxy_event_sender->0,
                final(self).tce_proxy_event_sender->0,
            ),
            final(self).inbound_shutdown_receiver == old(self).inbound_shutdown_receiver,
    {
        match response {
            Ok(watch_certificate_response) => match watch_certificate_response.event {
                Some(WatchEvent::CertificatePushed { certificate }) => match certificate {
                    Some(ReceivedCertificate::Valid(certificate)) => WatchAction::Deliver(
                        certificate,
                    ),
                    Some(ReceivedCertificate::Invalid) => WatchAction::Wait,
                    None => WatchAction::Wait,
                },
                Some(WatchEvent::StreamOpened) => WatchAction::Wait,
                None => WatchAction::Wait,
            },
            Err(_) => {
                if let Some(sender) = &mut self.tce_proxy_event_sender {
                    let _ = sender.send(TceProxyEvent::WatchCertificatesChannelFailed);
                }
                WatchAction::Wait
            },
        }
    }

    /// Takes the word to finish. No certificate can be passed on after that: the stream of the
    /// application has lost its sender.
    pub fn on_shutdown(&mut self)
        requires
            old(self).running,
        ensures
            watch_finish_step(*old(self), *final(self)),
            *final(self) == (WatchTask {
                inbound_certificate_sender: None,
                running: false,
                ..*old(self)
            }),
            final(self).inbound_shutdown_receiver == old(self).inbound_shutdown_receiver,
    {
        self.inbound_certificate_sender = None;
        self.running = false;
    }
}

} // verus!
