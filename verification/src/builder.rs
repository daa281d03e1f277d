//! Making a client of the TCE node, stage by stage.
//!
//! Between the stages lies what only the outside can do: connecting to the TCE service, and asking
//! it for the stream of certificates.

use crate::channel::{bounded_channel, unbounded_channel, BoundedRx, UnboundedTx};
use crate::client::TceClient;
use crate::commands::CommandTask;
use crate::error::Error;
use crate::types::{OpenStream, SubnetId, TceProxyEvent};
use crate::watch::WatchTask;
use tokio::sync::mpsc;
use vstd::prelude::*;

verus! {

/// How many requests to the stream of certificates may wait.
pub const CERTIFICATE_OUTBOUND_CHANNEL_SIZE: usize = 100;

/// How many certificates from the TCE node may wait.
pub const CERTIFICATE_INBOUND_CHANNEL_SIZE: usize = 100;

/// How many commands to the client may wait.
pub const TCE_PROXY_COMMAND_CHANNEL_SIZE: usize = 100;

/// What is known of a client before it is made.
#[verifier::reject_recursive_types(C)]
pub struct TceClientBuilder<C> {
    tce_endpoint: Option<String>,
    subnet_id: Option<SubnetId>,
    tce_proxy_event_sender: Option<UnboundedTx<TceProxyEvent<C>>>,
}

/// What a builder stands for.
#[verifier::reject_recursive_types(C)]
pub struct TceClientBuilderView<C> {
    pub tce_endpoint: Option<Seq<char>>,
    pub subnet_id: Option<SubnetId>,
    pub tce_proxy_event_sender: Option<UnboundedTx<TceProxyEvent<C>>>,
}

impl<C> View for TceClientBuilder<C> {
    type V = TceClientBuilderView<C>;

    closed spec fn view(&self) -> TceClientBuilderView<C> {
        TceClientBuilderView {
            tce_endpoint: match self.tce_endpoint {
                Some(endpoint) => Some(endpoint@),
                None => None,
            },
            subnet_id: self.subnet_id,
            tce_proxy_event_sender: self.tce_proxy_event_sender,
        }
    }
}

/// A client that waits for the connection to the TCE service.
#[verifier::reject_recursive_types(C)]
pub struct Connecting<C> {
    pub tce_endpoint: String,
    pub subnet_id: Option<SubnetId>,
    pub tce_proxy_event_sender: Option<UnboundedTx<TceProxyEvent<C>>>,
    /// Where the watch task passes the certificates that come in.
    pub inbound_certificate_sender: mpsc::Sender<C>,
    /// Where the application takes them.
    pub certificates: BoundedRx<C>,
}

/// A client that waits for the stream of certificates.
#[verifier::reject_recursive_types(C)]
#[verifier::reject_recursive_types(P)]
pub struct Subscribing<C, P> {
    pub connecting: Connecting<C>,
    /// Where the command task puts the requests to the stream.
    pub outbound: mpsc::Sender<OpenStream<P>>,
}

/// What a connection to the TCE service brings.
#[verifier::reject_recursive_types(C)]
#[verifier::reject_recursive_types(P)]
pub struct Connected<G, C, P> {
    /// The connection.
    pub service: G,
    /// The requests to be sent on the stream.
    pub requests: BoundedRx<OpenStream<P>>,
    /// The stage that comes next.
    pub subscribing: Subscribing<C, P>,
}

/// A client and its tasks.
#[verifier::reject_recursive_types(C)]
#[verifier::reject_recursive_types(P)]
pub struct Launched<S, C, P> {
    /// The stream of what the TCE node says.
    pub responses: S,
    /// The task that watches the stream.
    pub watch_task: WatchTask<C>,
    /// The task that carries out the commands.
    pub command_task: CommandTask<C, P>,
    /// The handle on the client.
    pub client: TceClient<C, P>,
    /// The certificates that come in.
    pub certificates: BoundedRx<C>,
}

/// A client that cannot be made: why, and the sender of events, to which nothing was handed on the
/// way.
#[verifier::reject_recursive_types(C)]
pub struct Refused<C> {
    pub error: Error,
    pub tce_proxy_event_sender: Option<UnboundedTx<TceProxyEvent<C>>>,
}

/// How the making of a client starts: with something to connect to, or not at all. Whether there
/// is a subnet id does not matter yet.
pub open spec fn build_stage<C>(
    builder: TceClientBuilderView<C>,
    stage: Result<Connecting<C>, Refused<C>>,
) -> bool {
    match builder.tce_endpoint {
        None => stage == Err::<Connecting<C>, Refused<C>>(
            Refused {
                error: Error::InvalidTceEndpoint,
                tce_proxy_event_sender: builder.tce_proxy_event_sender,
            },
        ),
        Some(tce_endpoint) => stage matches Ok(connecting) && {
            &&& connecting.tce_endpoint@ == tce_endpoint
            &&& connecting.subnet_id == builder.subnet_id
            &&& connecting.tce_proxy_event_sender == builder.tce_proxy_event_sender
            &&& connecting.certificates.channel() == connecting.inbound_certificate_sender
            &&& connecting.certificates.capacity() == CERTIFICATE_INBOUND_CHANNEL_SIZE
            &&& connecting.certificates.is_fresh()
        },
    }
}

/// How it goes on once the attempts to connect came to an end.
pub open spec fn connect_stage<G, C, P>(
    connecting: Connecting<C>,
    connection: Result<G, Error>,
    stage: Result<Connected<G, C, P>, Refused<C>>,
) -> bool {
    match connection {
        Err(error) => stage == Err::<Connected<G, C, P>, Refused<C>>(
            Refused { error, tce_proxy_event_sender: connecting.tce_proxy_event_sender },
        ),
        Ok(service) => stage matches Ok(connected) && {
            &&& connected.service == service
            &&& connected.subscribing.connecting == connecting
            &&& connected.requests.channel() == connected.subscribing.outbound
            &&& connected.requests.capacity() == CERTIFICATE_OUTBOUND_CHANNEL_SIZE
            &&& connected.requests.is_fresh()
        },
    }
}

/// How it ends once the TCE service has answered the request for the stream of certificates.
pub open spec fn subscribe_stage<S, C, P>(
    subscribing: Subscribing<C, P>,
    stream: Result<S, tonic::Status>,
    stage: Result<Launched<S, C, P>, Refused<C>>,
) -> bool {
    let connecting = subscribing.connecting;
    let tce_proxy_event_sender = connecting.tce_proxy_event_sender;
    match (stream, connecting.subnet_id) {
        (Err(source), _) => stage == Err::<Launched<S, C, P>, Refused<C>>(
            Refused { error: Error::TonicStatusError { source }, tce_proxy_event_sender },
        ),
        (Ok(_), None) => stage == Err::<Launched<S, C, P>, Refused<C>>(
            Refused { error: Error::InvalidSubnetId, tce_proxy_event_sender },
        ),
        (Ok(responses), Some(subnet_id)) => stage matches Ok(launched) && {
            &&& launched.is_wired()
            &&& launched.responses == responses
            &&& launched.certificates == connecting.certificates
            &&& launched.client@.subnet_id == subnet_id
            &&& launched.client@.tce_endpoint == connecting.tce_endpoint@
            &&& launched.watch_task.inbound_certificate_sender == Some(
                connecting.inbound_certificate_sender,
            )
            &&& launched.watch_task.tce_proxy_event_sender == connecting.tce_proxy_event_sender
            &&& launched.command_task.outbound == subscribing.outbound
        },
    }
}

impl<C> Default for TceClientBuilder<C> {
    fn default() -> (builder: Self)
        ensures
            builder@ == (TceClientBuilderView::<C> {
                tce_endpoint: None,
                subnet_id: None,
                tce_proxy_event_sender: None,
            }),
    {
        TceClientBuilder { tce_endpoint: None, subnet_id: None, tce_proxy_event_sender: None }
    }
}

impl<C> TceClientBuilder<C> {
    /// Sets the endpoint of the TCE node.
    pub fn set_tce_endpoint(self, endpoint: &str) -> (builder: Self)
        ensures
            builder@ == (TceClientBuilderView { tce_endpoint: Some(endpoint@), ..self@ }),
    {
        TceClientBuilder { tce_endpoint: Some(endpoint.to_string()), ..self }
    }

    /// Sets the subnet on whose behalf the client works.
    pub fn set_subnet_id(self, subnet_id: SubnetId) -> (builder: Self)
        ensures
            builder@ == (TceClientBuilderView { subnet_id: Some(subnet_id), ..self@ }),
    {
        TceClientBuilder { subnet_id: Some(subnet_id), ..self }
    }

    /// Sets where the failures of the stream of certificates are reported.
    pub fn set_proxy_event_sender(
        self,
        tce_proxy_event_sender: UnboundedTx<TceProxyEvent<C>>,
    ) -> (builder: Self)
        ensures
            builder@ == (TceClientBuilderView {
                tce_proxy_event_sender: Some(tce_proxy_event_sender),
                ..self@
            }),
    {
        TceClientBuilder { tce_proxy_event_sender: Some(tce_proxy_event_sender), ..self }
    }

    /// Starts to make the client. Without an endpoint there is nothing to connect to; whether
    /// there is a subnet id does not matter yet.
    pub fn build_and_launch(self) -> (stage: Result<Connecting<C>, Refused<C>>)
        ensures
            build_stage(self@, stage),
    {
        let (inbound_certificate_sender, certificates) = bounded_channel(
            CERTIFICATE_INBOUND_CHANNEL_SIZE,
        );
        match self.tce_endpoint {
            Some(tce_endpoint) => Ok(
                Connecting {
                    tce_endpoint,
                    subnet_id: self.subnet_id,
                    tce_proxy_event_sender: self.tce_proxy_event_sender,
                    inbound_certificate_sender,
                    certificates,
                },
            ),
            None => Err(
                Refused {
                    error: Error::InvalidTceEndpoint,
                    tce_proxy_event_sender: self.tce_proxy_event_sender,
                },
            ),
        }
    }
}

impl<C> Connecting<C> {
    /// Takes what the attempts to connect to the TCE service came to. A failure is the end.
    pub fn connected<G, P>(self, connection: Result<G, Error>) -> (stage: Result<
        Connected<G, C, P>,
        Refused<C>,
    >)
        ensures
            connect_stage(self, connection, stage),
    {
        match connection {
            Ok(service) => {
                let (outbound, requests) = bounded_channel(CERTIFICATE_OUTBOUND_CHANNEL_SIZE);
                Ok(
                    Connected {
                        service,
                        requests,
                        subscribing: Subscribing { connecting: self, outbound },
                    },
                )
            },
            Err(error) => Err(
                Refused { error, tce_proxy_event_sender: self.tce_proxy_event_sender },
            ),
        }
    }
}

impl<C, P> Subscribing<C, P> {
    /// Takes the answer of the TCE service to the request for the stream of certificates. An error
    /// status is the end, and so is a missing subnet id.
    pub fn subscribed<S>(self, stream: Result<S, tonic::Status>) -> (stage: Result<
        Launched<S, C, P>,
        Refused<C>,
    >)
        ensures
            subscribe_stage(self, stream, stage),
    {
        let responses = match stream {
            Ok(responses) => responses,
            Err(source) => {
                return Err(
                    Refused {
                        error: Error::from(source),
                        tce_proxy_event_sender: self.connecting.tce_proxy_event_sender,
                    },
                );
            },
        };
        let (inbound_shutdown_sender, inbound_shutdown_receiver) = unbounded_channel();
        let subnet_id = match self.connecting.subnet_id {
            Some(subnet_id) => subnet_id,
            None => {
                return Err(
                    Refused {
                        error: Error::InvalidSubnetId,
                        tce_proxy_event_sender: self.connecting.tce_proxy_event_sender,
                    },
                );
            },
        };
        let watch_task = WatchTask {
            inbound_certificate_sender: Some(self.connecting.inbound_certificate_sender),
            inbound_shutdown_receiver,
            tce_proxy_event_sender: self.connecting.tce_proxy_event_sender,
            running: true,
        };
        let (command_sender, commands) = bounded_channel(TCE_PROXY_COMMAND_CHANNEL_SIZE);
        let command_task = CommandTask {
            commands,
            outbound: self.outbound,
            inbound_shutdown_sender,
            running: true,
        };
        Ok(
            Launched {
                responses,
                watch_task,
                command_task,
                client: TceClient::new(subnet_id, self.connecting.tce_endpoint, command_sender),
                certificates: self.connecting.certificates,
            },
        )
    }
}

impl<S, C, P> Launched<S, C, P> {
    /// Both tasks run, the command task takes the commands of the client, and the watch task
    /// hears when the command task tells it to finish, which it has not done yet.
    pub open spec fn is_wired(&self) -> bool {
        &&& self.watch_task.running
        &&& self.command_task.running
        &&& self.command_task.commands.channel() == self.client@.command_sender
        &&& self.command_task.commands.capacity() == TCE_PROXY_COMMAND_CHANNEL_SIZE
        &&& self.command_task.commands.is_fresh()
        &&& self.watch_task.inbound_shutdown_receiver.is_fresh()
        &&& self.watch_task.inbound_shutdown_receiver.channel()
            == self.command_task.inbound_shutdown_sender.channel()
        &&& self.command_task.inbound_shutdown_sender.offered() == Seq::<()>::empty()
        &&& self.command_task.inbound_shutdown_sender.taken() == Seq::<()>::empty()
        &&& self.command_task.inbound_shutdown_sender.handles() == 0
    }
}

/// What a builder stands for is what it holds.
proof fn law_a_builder_is_what_it_holds<C>(builder: TceClientBuilder<C>)
    ensures
        builder@.tce_endpoint is Some == builder.tce_endpoint is Some,
        builder.tce_endpoint matches Some(endpoint) ==> builder@.tce_endpoint == Some(endpoint@),
        builder@.subnet_id == builder.subnet_id,
        builder@.tce_proxy_event_sender == builder.tce_proxy_event_sender,
{
}

} // verus!
