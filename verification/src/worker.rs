//! The proxy itself: how it starts, what its loop does, and the handle that the application has
//! on it.

use crate::builder::{TceClientBuilder, TceClientBuilderView};
use crate::channel::{
    recv_error_text, reply_channel, send_error_text, unbounded_channel, BoundedRx, Reply, ReplyRx,
    UnboundedRx, UnboundedTx,
};
use crate::client::{command_outcome, is_open_stream, TceClient};
use crate::error::Error;
use crate::types::{
    SubnetId, TceClientCommand, TceProxyCommand, TceProxyEvent, TceProxyEventView,
};
use crate::watch::{events_offered, events_taken};
use tokio::sync::mpsc;
use tokio::sync::oneshot;
use vstd::prelude::*;

verus! {

/// How the proxy is set up.
pub struct TceProxyConfig<P> {
    /// The subnet of the sequencer.
    pub subnet_id: SubnetId,
    /// Where the TCE node is.
    pub base_tce_api_url: String,
    /// From where certificates are wanted.
    pub positions: Vec<P>,
}

/// Proxy with the TCE
///
/// 1) Fetch the delivered certificates from the TCE
/// 2) Submit the new certificate to the TCE
#[verifier::reject_recursive_types(C)]
pub struct TceProxyWorker<C, P> {
    pub config: TceProxyConfig<P>,
    commands: UnboundedTx<TceProxyCommand<C>>,
    events: UnboundedRx<TceProxyEvent<C>>,
}

/// What the handle on a proxy stands for.
#[verifier::reject_recursive_types(C)]
pub struct TceProxyWorkerView<C, P> {
    pub config: TceProxyConfig<P>,
    /// Where the commands of the application go.
    pub commands: UnboundedTx<TceProxyCommand<C>>,
    /// Where the events for the application come from.
    pub events: UnboundedRx<TceProxyEvent<C>>,
}

impl<C, P> View for TceProxyWorker<C, P> {
    type V = TceProxyWorkerView<C, P>;

    closed spec fn view(&self) -> TceProxyWorkerView<C, P> {
        TceProxyWorkerView { config: self.config, commands: self.commands, events: self.events }
    }
}

/// A proxy that waits for its client.
#[verifier::reject_recursive_types(C)]
pub struct Starting<C, P> {
    pub config: TceProxyConfig<P>,
    pub commands: UnboundedTx<TceProxyCommand<C>>,
    pub command_rcv: UnboundedRx<TceProxyCommand<C>>,
    pub evt_sender: UnboundedTx<TceProxyEvent<C>>,
    pub events: UnboundedRx<TceProxyEvent<C>>,
}

/// A proxy that waits until its client has taken the command to open the stream, or that waits
/// for the source head.
#[verifier::reject_recursive_types(C)]
#[verifier::reject_recursive_types(P)]
pub struct WithClient<C, P> {
    pub starting: Starting<C, P>,
    pub tce_client: TceClient<C, P>,
    /// The certificates that come in from the TCE node.
    pub certificates: BoundedRx<C>,
}

/// The command to open the stream, and the proxy that waits until its client has taken it.
#[verifier::reject_recursive_types(C)]
#[verifier::reject_recursive_types(P)]
pub struct OpeningStream<C, P> {
    /// The command to the client.
    pub command: TceClientCommand<C, P>,
    /// The stage that comes next.
    pub proxy: WithClient<C, P>,
}

/// The command to get the source head, and the proxy that waits until its client has taken it.
#[verifier::reject_recursive_types(C)]
#[verifier::reject_recursive_types(P)]
pub struct StreamOpened<C, P> {
    /// The command to the client.
    pub command: TceClientCommand<C, P>,
    /// The stage that comes next.
    pub asking: AskingSourceHead<C, P>,
}

/// The proxy that asks for the source head, and the end at which the reply comes.
#[verifier::reject_recursive_types(C)]
#[verifier::reject_recursive_types(P)]
pub struct AskingSourceHead<C, P> {
    /// Where the reply comes.
    pub reply: ReplyRx<Result<C, Error>>,
    /// The proxy.
    pub proxy: WithClient<C, P>,
}

/// A proxy that has started.
#[verifier::reject_recursive_types(C)]
#[verifier::reject_recursive_types(P)]
pub struct Started<C, P> {
    /// The handle of the application.
    pub worker: TceProxyWorker<C, P>,
    /// The loop of the proxy.
    pub proxy_loop: ProxyLoop<C, P>,
    /// The last certificate of the subnet that the TCE node knows.
    pub source_head: Option<C>,
}

/// The state of the loop of the proxy.
#[verifier::reject_recursive_types(C)]
#[verifier::reject_recursive_types(P)]
pub struct ProxyLoop<C, P> {
    /// The client of the TCE node.
    pub tce_client: TceClient<C, P>,
    /// Where the commands of the application come from.
    pub command_rcv: UnboundedRx<TceProxyCommand<C>>,
    /// Where the certificates of the TCE node come from.
    pub certificates: BoundedRx<C>,
    /// Where the events for the application go.
    pub evt_sender: UnboundedTx<TceProxyEvent<C>>,
    /// Whether further commands and certificates are taken.
    pub running: bool,
}

/// What is to be done about a command of the application.
#[verifier::reject_recursive_types(C)]
pub enum ProxyAction<C, P> {
    /// Send the command to the client. Whether it can be sent or not, the loop goes on.
    Forward(TceClientCommand<C, P>),
    /// Send the command to the client. Report what came of it, and reply then: the loop is over.
    Close { command: TceClientCommand<C, P>, closing: Closing },
}

/// A shutdown that waits until its client was told to finish.
pub struct Closing {
    /// Where the reply to the shutdown goes.
    pub sender: oneshot::Sender<()>,
}

impl Closing {
    /// Takes what came of telling the client to finish. Whatever it was, the shutdown gets its
    /// reply.
    pub fn client_closed(self, closed: Result<(), Error>) -> (reply: Reply<()>)
        ensures
            reply == closing_reply(self, closed),
    {
        let _ = closed;
        Reply { sender: self.sender, value: () }
    }
}

/// The reply to a shutdown: the same whether the client was there to be told or not.
pub open spec fn closing_reply(closing: Closing, closed: Result<(), Error>) -> Reply<()> {
    Reply { sender: closing.sender, value: () }
}

/// What is to be done about a command of the application.
pub open spec fn proxy_action<C, P>(command: TceProxyCommand<C>) -> ProxyAction<C, P> {
    match command {
        TceProxyCommand::SubmitCertificate(cert) => ProxyAction::Forward(
            TceClientCommand::SendCertificate { cert },
        ),
        TceProxyCommand::Shutdown(sender) => ProxyAction::Close {
            command: TceClientCommand::Shutdown,
            closing: Closing { sender },
        },
    }
}

/// The event that tells the application of a certificate.
pub open spec fn delivery<C>(cert: C) -> TceProxyEventView<C> {
    TceProxyEventView::NewDeliveredCerts(seq![cert])
}

/// What the application gets if a message could not be handed over.
pub open spec fn is_closed<T>(result: Result<T, String>) -> bool {
    result matches Err(text) && text@ == "channel closed"@
}

/// `copies` holds a clone of each of `items`, in the same order.
pub open spec fn is_copy<P: Clone>(items: Seq<P>, copies: Seq<P>) -> bool {
    &&& copies.len() == items.len()
    &&& forall|i: int| 0 <= i < items.len() ==> cloned(items[i], #[trigger] copies[i])
}

/// How the proxy begins: the builder of its client is set up from the configuration and reports
/// to the application, as the proxy itself will. Nobody else has a handle to report to it, and
/// nobody else but the application has one to command the proxy.
pub open spec fn begin_stage<C, P>(
    config: TceProxyConfig<P>,
    builder: TceClientBuilderView<C>,
    starting: Starting<C, P>,
) -> bool {
    &&& builder.subnet_id == Some(config.subnet_id)
    &&& builder.tce_endpoint == Some(config.base_tce_api_url@)
    &&& builder.tce_proxy_event_sender matches Some(sender) && {
        &&& sender.channel() == starting.events.channel()
        &&& sender.offered() == Seq::<TceProxyEvent<C>>::empty()
        &&& sender.taken() == Seq::<TceProxyEvent<C>>::empty()
        &&& sender.handles() == 0
    }
    &&& starting.config == config
    &&& starting.command_rcv.is_fresh()
    &&& starting.events.is_fresh()
    &&& starting.commands.channel() == starting.command_rcv.channel()
    &&& starting.commands.offered() == Seq::<TceProxyCommand<C>>::empty()
    &&& starting.commands.taken() == Seq::<TceProxyCommand<C>>::empty()
    &&& starting.commands.handles() == 0
    &&& starting.evt_sender.channel() == starting.events.channel()
    &&& starting.evt_sender.offered() == Seq::<TceProxyEvent<C>>::empty()
    &&& starting.evt_sender.taken() == Seq::<TceProxyEvent<C>>::empty()
    &&& starting.evt_sender.handles() == 1
}

/// How the start goes on once the launch of the client came to an end. A failure of the launch is
/// the failure of the start; a client is to open the stream for its subnet, from the positions of
/// the configuration on.
pub open spec fn launch_stage<C, P: Clone>(
    starting: Starting<C, P>,
    launch: Result<(TceClient<C, P>, BoundedRx<C>), Error>,
    stage: Result<OpeningStream<C, P>, Error>,
) -> bool {
    match launch {
        Err(error) => stage == Err::<OpeningStream<C, P>, Error>(error),
        Ok((tce_client, certificates)) => stage matches Ok(opening) && {
            &&& opening.command matches TceClientCommand::OpenStream { target_checkpoint }
                && is_copy(starting.config.positions@, target_checkpoint.positions@)
                && is_open_stream(
                opening.command,
                tce_client@.subnet_id,
                target_checkpoint.positions@,
            )
            &&& opening.proxy == (WithClient { starting, tce_client, certificates })
        },
    }
}

/// How it goes on once the command to open the stream was sent, or could not be sent.
pub open spec fn open_stage<C, P>(
    proxy: WithClient<C, P>,
    sent: Result<(), mpsc::error::SendError<TceClientCommand<C, P>>>,
    stage: Result<StreamOpened<C, P>, Error>,
) -> bool {
    match command_outcome(sent) {
        Err(error) => stage == Err::<StreamOpened<C, P>, Error>(error),
        Ok(_) => stage matches Ok(opened) && {
            &&& opened.command == (TceClientCommand::<C, P>::GetSourceHead {
                subnet_id: proxy.tce_client@.subnet_id,
                sender: opened.asking.reply.channel(),
            })
            &&& opened.asking.proxy == proxy
        },
    }
}

/// How it goes on once the command to get the source head was sent, or could not be sent.
pub open spec fn ask_stage<C, P>(
    asking: AskingSourceHead<C, P>,
    sent: Result<(), mpsc::error::SendError<TceClientCommand<C, P>>>,
    stage: Result<AskingSourceHead<C, P>, Error>,
) -> bool {
    match command_outcome(sent) {
        Err(error) => stage == Err::<AskingSourceHead<C, P>, Error>(error),
        Ok(_) => stage == Ok::<AskingSourceHead<C, P>, Error>(asking),
    }
}

/// What the source head that the TCE node gave means for the start. That there is none is no
/// failure: the subnet starts from scratch.
pub open spec fn starting_head<C>(head: Result<C, Error>) -> Result<Option<C>, Error> {
    match head {
        Ok(certificate) => Ok(Some(certificate)),
        Err(Error::SourceHeadEmpty { subnet_id: _ }) => Ok(None),
        Err(error) => Err(error),
    }
}

/// How the start ends.
pub open spec fn finish_stage<C, P>(
    proxy: WithClient<C, P>,
    head: Result<C, Error>,
    stage: Result<Started<C, P>, Error>,
) -> bool {
    match starting_head(head) {
        Err(error) => stage == Err::<Started<C, P>, Error>(error),
        Ok(source_head) => stage matches Ok(started) && {
            &&& started.source_head == source_head
            &&& started.worker@ == (TceProxyWorkerView {
                config: proxy.starting.config,
                commands: proxy.starting.commands,
                events: proxy.starting.events,
            })
            &&& started.proxy_loop == (ProxyLoop {
                tce_client: proxy.tce_client,
                command_rcv: proxy.starting.command_rcv,
                certificates: proxy.certificates,
                evt_sender: proxy.starting.evt_sender,
                running: true,
            })
        },
    }
}

/// How handing a command to the loop changes the handle: the command was offered, and it was taken
/// if and only if `taken`. Nothing else changes.
pub open spec fn hand_over<C, P>(
    before: TceProxyWorkerView<C, P>,
    cmd: TceProxyCommand<C>,
    taken: bool,
    after: TceProxyWorkerView<C, P>,
) -> bool {
    &&& after.commands.offered() == before.commands.offered().push(cmd)
    &&& after.commands.taken() == if taken {
        before.commands.taken().push(cmd)
    } else {
        before.commands.taken()
    }
    &&& after.commands.same_handle(&before.commands)
    &&& after.config == before.config
    &&& after.events == before.events
}

/// How a shutdown begins: a command with the sender of a new reply is handed to the loop. If the
/// loop took it, that reply is to be awaited; if not, the channel is closed.
pub open spec fn shutdown_stage<C, P>(
    before: TceProxyWorkerView<C, P>,
    after: TceProxyWorkerView<C, P>,
    result: Result<ReplyRx<()>, String>,
) -> bool {
    match result {
        Ok(reply) => hand_over(
            before,
            TceProxyCommand::Shutdown(reply.channel()),
            true,
            after,
        ),
        Err(_) => {
            &&& is_closed(result)
            &&& after.commands.offered().last() is Shutdown
            &&& hand_over(before, after.commands.offered().last(), false, after)
        },
    }
}

/// How a shutdown ends once the reply was awaited.
pub open spec fn shutdown_outcome<E>(received: Result<(), E>, result: Result<(), String>) -> bool {
    match received {
        Ok(_) => result == Ok::<(), String>(()),
        Err(_) => is_closed(result),
    }
}

impl<C, P> TceProxyWorker<C, P> {
    /// Begins to start a proxy: the builder of its client is to be launched first.
    pub fn new(config: TceProxyConfig<P>) -> (stage: (TceClientBuilder<C>, Starting<C, P>))
        ensures
            begin_stage(config, stage.0@, stage.1),
    {
        let (commands, command_rcv) = unbounded_channel();
        let (mut evt_sender, events) = unbounded_channel();
        let builder = TceClientBuilder::default().set_subnet_id(config.subnet_id).set_tce_endpoint(
            config.base_tce_api_url.as_str(),
        ).set_proxy_event_sender(evt_sender.another());
        (builder, Starting { config, commands, command_rcv, evt_sender, events })
    }

    /// Send commands to TCE
    ///
    /// The command is handed to the loop of the proxy; the result says whether the loop was still
    /// there to take it.
    pub fn send_command(&mut self, cmd: TceProxyCommand<C>) -> (result: Result<(), String>)
        ensures
            hand_over(old(self)@, cmd, result is Ok, final(self)@),
            result is Ok || is_closed(result),
    {
        let sent = self.commands.send(cmd);
        Self::handed_over(sent)
    }

    /// What came of handing over a command.
    pub fn handed_over(sent: Result<(), mpsc::error::SendError<TceProxyCommand<C>>>) -> (result:
        Result<(), String>)
        ensures
            match sent {
                Ok(_) => result == Ok::<(), String>(()),
                Err(_) => is_closed(result),
            },
    {
        match sent {
            Ok(()) => Ok(()),
            Err(error) => Err(send_error_text(error)),
        }
    }

    /// Where the events for the application come from, to wait on.
    pub fn events(&mut self) -> (receiver: &mut mpsc::UnboundedReceiver<TceProxyEvent<C>>)
        ensures
            *receiver == old(self)@.events.half(),
            final(self)@.events.half() == *final(receiver),
            final(self)@.events.same_channel(&old(self)@.events),
            final(self)@.commands == old(self)@.commands,
            final(self)@.config == old(self)@.config,
    {
        self.events.receiver()
    }

    /// The event that was received. Something can always be received while the proxy runs.
    pub fn next_event(&mut self, received: Option<TceProxyEvent<C>>) -> (event: Result<
        TceProxyEvent<C>,
        String,
    >)
        requires
            received is Some,
        ensures
            event == Ok::<TceProxyEvent<C>, String>(received->0),
            final(self)@ == old(self)@,
    {
        Ok(received.unwrap())
    }

    /// Shut down TCE proxy
    ///
    /// Hands the command to shut down to the loop of the proxy. If the loop was still there to
    /// take it, its reply comes on the channel whose sender the command carries.
    pub fn shutdown(&mut self) -> (result: Result<ReplyRx<()>, String>)
        ensures
            shutdown_stage(old(self)@, final(self)@, result),
    {
        let (sender, receiver) = reply_channel();
        let sent = self.commands.send(TceProxyCommand::Shutdown(sender));
        Self::shutdown_sent(sent, receiver)
    }

    /// What came of handing over the command to shut down: the reply is to be awaited if the loop
    /// took the command.
    pub fn shutdown_sent(
        sent: Result<(), mpsc::error::SendError<TceProxyCommand<C>>>,
        reply: ReplyRx<()>,
    ) -> (result: Result<ReplyRx<()>, String>)
        ensures
            match sent {
                Ok(_) => result == Ok::<ReplyRx<()>, String>(reply),
                Err(_) => is_closed(result),
            },
    {
        match sent {
            Ok(()) => Ok(reply),
            Err(error) => Err(send_error_text(error)),
        }
    }

    /// What came of waiting for the reply to a shutdown.
    pub fn shutdown_replied(received: Result<(), oneshot::error::RecvError>) -> (result: Result<
        (),
        String,
    >)
        ensures
            shutdown_outcome(received, result),
    {
        match received {
            Ok(()) => Ok(()),
            Err(error) => Err(recv_error_text(error)),
        }
    }
}

impl<C, P: Clone> Starting<C, P> {
    /// Takes what the launch of the client came to: the client and the certificates that come in,
    /// or why there is none. A client is to open the stream, from the positions of the
    /// configuration on.
    pub fn client_launched(
        self,
        launch: Result<(TceClient<C, P>, BoundedRx<C>), Error>,
    ) -> (stage: Result<OpeningStream<C, P>, Error>)
        ensures
            launch_stage(self, launch, stage),
    {
        match launch {
            Ok((tce_client, certificates)) => {
                let positions = self.config.positions.clone();
                let command = tce_client.open_stream(positions);
                let proxy = WithClient { starting: self, tce_client, certificates };
                Ok(OpeningStream { command, proxy })
            },
            Err(error) => Err(error),
        }
    }
}

impl<C, P> WithClient<C, P> {
    /// Takes what came of sending the command to open the stream. If the client is there, the
    /// source head is to be asked for, to know from where to start creating certificates.
    pub fn stream_opened(
        self,
        sent: Result<(), mpsc::error::SendError<TceClientCommand<C, P>>>,
    ) -> (stage: Result<StreamOpened<C, P>, Error>)
        ensures
            open_stage(self, sent, stage),
    {
        match TceClient::command_sent(sent) {
            Ok(()) => {
                let mut tce_client = self.tce_client;
                let (command, reply) = tce_client.get_source_head();
                let proxy = WithClient { tce_client, ..self };
                Ok(StreamOpened { command, asking: AskingSourceHead { reply, proxy } })
            },
            Err(error) => Err(error),
        }
    }

    /// Takes the source head. The proxy has started, unless the source head could not be had.
    pub fn source_head(self, head: Result<C, Error>) -> (stage: Result<Started<C, P>, Error>)
        ensures
            finish_stage(self, head, stage),
    {
        let source_head = match head {
            Ok(certificate) => Some(certificate),
            Err(Error::SourceHeadEmpty { subnet_id: _ }) => None,
            Err(error) => {
                return Err(error);
            },
        };
        let Starting { config, commands, command_rcv, evt_sender, events } = self.starting;
        Ok(
            Started {
                worker: TceProxyWorker { config, commands, events },
                proxy_loop: ProxyLoop {
                    tce_client: self.tce_client,
                    command_rcv,
                    certificates: self.certificates,
                    evt_sender,
                    running: true,
                },
                source_head,
            },
        )
    }
}

impl<C, P> AskingSourceHead<C, P> {
    /// Takes what came of sending the command to get the source head. If the client is there, the
    /// reply is to be awaited.
    pub fn asked(
        self,
        sent: Result<(), mpsc::error::SendError<TceClientCommand<C, P>>>,
    ) -> (stage: Result<Self, Error>)
        ensures
            ask_stage(self, sent, stage),
    {
        match TceClient::source_head_asked(sent, self.reply) {
            Ok(reply) => Ok(AskingSourceHead { reply, proxy: self.proxy }),
            Err(error) => Err(error),
        }
    }
}

/// How a command changes the loop: a shutdown ends it, and nothing else changes.
pub open spec fn proxy_command_step<C, P>(
    before: ProxyLoop<C, P>,
    cmd: TceProxyCommand<C>,
    after: ProxyLoop<C, P>,
) -> bool {
    &&& after.running == !(cmd is Shutdown)
    &&& after.evt_sender == before.evt_sender
    &&& after.same_ends(&before)
}

/// How a certificate changes the loop: the event is handed to the application, and the loop goes on
/// if and only if the application was there to take it.
pub open spec fn proxy_certificate_step<C, P>(
    before: ProxyLoop<C, P>,
    cert: C,
    after: ProxyLoop<C, P>,
) -> bool {
    &&& events_offered(after.evt_sender) =~= events_offered(before.evt_sender).push(delivery(cert))
    &&& events_taken(after.evt_sender) =~= if after.running {
        events_taken(before.evt_sender).push(delivery(cert))
    } else {
        events_taken(before.evt_sender)
    }
    &&& after.same_ends(&before)
}

impl<C, P> ProxyLoop<C, P> {
    /// The client and the ends of channels that the loop holds are those of `other`.
    pub open spec fn same_ends(&self, other: &Self) -> bool {
        &&& self.tce_client@ == other.tce_client@
        &&& self.command_rcv.same_channel(&other.command_rcv)
        &&& self.certificates.same_channel(&other.certificates)
        &&& self.evt_sender.same_handle(&other.evt_sender)
    }

    /// Takes a command of the application. The loop ends with a shutdown, and only then.
    pub fn on_command(&mut self, cmd: TceProxyCommand<C>) -> (action: ProxyAction<C, P>)
        requires
            old(self).running,
        ensures
            action == proxy_action::<C, P>(cmd),
            proxy_command_step(*old(self), cmd, *final(self)),
            *final(self) == (ProxyLoop { running: !(cmd is Shutdown), ..*old(self) }),
            final(self).command_rcv == old(self).command_rcv,
            final(self).certificates == old(self).certificates,
    {
        match cmd {
            TceProxyCommand::SubmitCertificate(cert) => ProxyAction::Forward(
                self.tce_client.send_certificate(*cert),
            ),
            TceProxyCommand::Shutdown(sender) => {
                self.running = false;
                ProxyAction::Close {
                    command: self.tce_client.close(),
                    closing: Closing { sender },
                }
            },
        }
    }

    /// Takes a certificate that the TCE node delivered, and tells the application of it. If the
    /// application is not there any more, the loop ends.
    pub fn on_certificate(&mut self, cert: C) -> (told: Result<
        (),
        mpsc::error::SendError<TceProxyEvent<C>>,
    >)
        requires
            old(self).running,
        ensures
            proxy_certificate_step(*old(self), cert, *final(self)),
            final(self).running == (told is Ok),
            final(self).evt_sender.offered() == old(self).evt_sender.offered().push(
                final(self).evt_sender.offered().last(),
            ),
            final(self).evt_sender.taken() == if told is Ok {
                old(self).evt_sender.taken().push(final(self).evt_sender.offered().last())
            } else {
                old(self).evt_sender.taken()
            },
            *final(self) == (ProxyLoop {
                evt_sender: final(self).evt_sender,
                running: told is Ok,
                ..*old(self)
            }),
            final(self).command_rcv == old(self).command_rcv,
            final(self).certificates == old(self).certificates,
    {
        let certs = vec![cert];
        assert(certs@ =~= seq![cert]);
        let told = self.evt_sender.send(TceProxyEvent::NewDeliveredCerts(certs));
        if told.is_err() {
            self.running = false;
        }
        told
    }
}

/// What the handle on a proxy stands for is what it holds.
proof fn law_a_handle_is_what_it_holds<C, P>(worker: TceProxyWorker<C, P>)
    ensures
        worker@.config == worker.config,
        worker@.commands == worker.commands,
        worker@.events == worker.events,
{
}

} // verus!
