//! What the operations of the proxy do.
//!
//! Each law speaks of calls: `call_ensures(f, arguments, result)` says that the call of `f` with
//! these arguments gave this result. A law relates the results of one call, or of calls that
//! follow each other, to what went in.

use crate::builder::{
    Connected, Connecting, Launched, Refused, Subscribing, TceClientBuilder,
};
use crate::channel::{BoundedRx, Reply, ReplyRx, UnboundedRx, UnboundedTx};
use crate::client::TceClient;
use crate::commands::{CommandAction, CommandTask, SourceHeadResponse, Unanswered};
use crate::endpoint::{attempt_failed, connect_attempt, connect_outcome, AttemptFailure};
use crate::error::Error;
use crate::replied::Replied;
use crate::target::{is_endpoint_address, TceEndpoint};
use crate::types::{
    ReceivedCertificate, SubnetId, TceClientCommand, TceProxyCommand, TceProxyEvent,
    WatchCertificatesResponse, WatchEvent,
};
use crate::watch::{WatchAction, WatchResponse, WatchTask};
use crate::worker::{
    AskingSourceHead, Closing, OpeningStream, ProxyAction, ProxyLoop, Started, Starting,
    StreamOpened, TceProxyConfig, TceProxyWorker, WithClient,
};
use tokio::sync::mpsc;
use tokio::sync::oneshot;
use tonic::transport::Error as TransportError;
use vstd::prelude::*;

verus! {

// ---- From the application to the TCE node ----

/// A certificate that the application submits is the one that the TCE node is given: the loop of
/// the proxy forwards it, the command task submits it, and both go on as they were.
pub proof fn law_a_submitted_certificate_is_given_to_the_tce_node<C, P>(
    cert: C,
    proxy: &mut ProxyLoop<C, P>,
    first: ProxyAction<C, P>,
    task: &mut CommandTask<C, P>,
    second: CommandAction<C, P>,
)
    requires
        call_ensures(
            ProxyLoop::<C, P>::on_command,
            (proxy, TceProxyCommand::SubmitCertificate(Box::new(cert))),
            first,
        ),
        first matches ProxyAction::Forward(forwarded) ==> call_ensures(
            CommandTask::<C, P>::on_command,
            (task, forwarded),
            second,
        ),
        old(proxy).running,
        old(task).running,
    ensures
        first is Forward,
        second == CommandAction::<C, P>::Submit(cert),
        *final(proxy) == *old(proxy),
        *final(task) == *old(task),
        final(proxy).running,
        final(task).running,
{
}

/// Whatever the application asks for, the loop of the proxy sends one command to its client: the
/// certificate that was submitted, or the word to shut down. It goes on unless it was shut down.
pub proof fn law_the_loop_passes_on_what_it_is_asked<C, P>(
    proxy: &mut ProxyLoop<C, P>,
    cmd: TceProxyCommand<C>,
    action: ProxyAction<C, P>,
)
    requires
        call_ensures(ProxyLoop::<C, P>::on_command, (proxy, cmd), action),
        old(proxy).running,
    ensures
        match cmd {
            TceProxyCommand::SubmitCertificate(cert) => {
                &&& action matches ProxyAction::Forward(TceClientCommand::SendCertificate {
                    cert: sent,
                })
                &&& sent == cert
                &&& final(proxy).running
            },
            TceProxyCommand::Shutdown(sender) => {
                &&& action matches ProxyAction::Close { command, closing }
                &&& command is Shutdown
                &&& closing.sender == sender
                &&& !final(proxy).running
            },
        },
        final(proxy).tce_client == old(proxy).tce_client,
        final(proxy).command_rcv == old(proxy).command_rcv,
        final(proxy).certificates == old(proxy).certificates,
        final(proxy).evt_sender == old(proxy).evt_sender,
{
}

/// The command task does what each command asks for. A shutdown ends it, and nothing else does:
/// after a certificate, a request to open the stream or a request for the source head it is as it
/// was before.
pub proof fn law_the_command_task_does_what_it_is_asked<C, P>(
    task: &mut CommandTask<C, P>,
    command: TceClientCommand<C, P>,
    action: CommandAction<C, P>,
)
    requires
        call_ensures(CommandTask::<C, P>::on_command, (task, command), action),
        old(task).running,
    ensures
        match command {
            TceClientCommand::SendCertificate { cert } => {
                &&& action == CommandAction::<C, P>::Submit(*cert)
                &&& *final(task) == *old(task)
                &&& final(task).running
            },
            TceClientCommand::OpenStream { target_checkpoint } => {
                &&& action matches CommandAction::Open(request)
                &&& request.target_checkpoint == target_checkpoint
                &&& *final(task) == *old(task)
                &&& final(task).running
            },
            TceClientCommand::GetSourceHead { subnet_id, sender } => {
                &&& action == (CommandAction::<C, P>::FetchSourceHead { subnet_id, sender })
                &&& *final(task) == *old(task)
                &&& final(task).running
            },
            TceClientCommand::Shutdown => {
                &&& action is Finish || action is WatchTaskLost
                &&& !final(task).running
            },
        },
{
}

/// On a shutdown the command task hands the watch task one word to finish, and says whether it was
/// taken. Its other ends stay as they were.
pub proof fn law_a_shutdown_tells_the_watch_task_once<C, P>(
    task: &mut CommandTask<C, P>,
    action: CommandAction<C, P>,
)
    requires
        call_ensures(
            CommandTask::<C, P>::on_command,
            (task, TceClientCommand::<C, P>::Shutdown),
            action,
        ),
        old(task).running,
    ensures
        ({
            let before = old(task).inbound_shutdown_sender;
            let after = final(task).inbound_shutdown_sender;
            &&& after.offered() == before.offered().push(())
            &&& action is Finish ==> after.taken() == before.taken().push(())
            &&& action is WatchTaskLost ==> after.taken() == before.taken()
            &&& after.channel() == before.channel()
            &&& after.half() == before.half()
            &&& after.handles() == before.handles()
        }),
        action is Finish || action is WatchTaskLost,
        !final(task).running,
        final(task).commands == old(task).commands,
        final(task).outbound == old(task).outbound,
{
}

/// A word to finish that was taken ends the command task in order; one that was not shows that the
/// watch task is lost.
pub proof fn law_a_lost_watch_task_is_noticed<C, P>(
    told: Result<(), mpsc::error::SendError<()>>,
    action: CommandAction<C, P>,
)
    requires
        call_ensures(CommandTask::<C, P>::shutdown_action, (told,), action),
    ensures
        told is Ok ==> action is Finish,
        told is Err ==> action is WatchTaskLost,
{
}

/// A command of the application is handed to the loop, unchanged and once. The result says whether
/// it was taken, and nothing else of the handle changes.
pub proof fn law_a_command_is_handed_to_the_loop<C, P>(
    worker: &mut TceProxyWorker<C, P>,
    cmd: TceProxyCommand<C>,
    result: Result<(), String>,
)
    requires
        call_ensures(TceProxyWorker::<C, P>::send_command, (worker, cmd), result),
    ensures
        ({
            let before = old(worker)@;
            let after = final(worker)@;
            &&& after.commands.offered() == before.commands.offered().push(cmd)
            &&& result is Ok ==> after.commands.taken() == before.commands.taken().push(cmd)
            &&& result is Err ==> after.commands.taken() == before.commands.taken()
            &&& after.commands.channel() == before.commands.channel()
            &&& after.commands.half() == before.commands.half()
            &&& after.commands.handles() == before.commands.handles()
            &&& after.events == before.events
            &&& after.config == before.config
        }),
        result matches Err(text) ==> text@ == "channel closed"@,
{
}

/// What came of handing over a command: an error if and only if the loop was gone.
pub proof fn law_a_command_fails_if_the_loop_is_gone<C, P>(
    sent: Result<(), mpsc::error::SendError<TceProxyCommand<C>>>,
    result: Result<(), String>,
)
    requires
        call_ensures(TceProxyWorker::<C, P>::handed_over, (sent,), result),
    ensures
        sent is Ok <==> result is Ok,
        result matches Err(text) ==> text@ == "channel closed"@,
{
}

// ---- Shutting down ----

/// The one who shuts the proxy down is the one who is replied to: the command that the loop takes
/// carries the sender of the reply that is awaited, and the loop replies to that sender whatever
/// came of telling the client, which is told to shut down.
pub proof fn law_a_shutdown_is_replied_to_the_one_who_asked<C, P>(
    worker: &mut TceProxyWorker<C, P>,
    awaited: ReplyRx<()>,
    proxy: &mut ProxyLoop<C, P>,
    action: ProxyAction<C, P>,
    closed: Result<(), Error>,
    reply: Reply<()>,
)
    requires
        call_ensures(
            TceProxyWorker::<C, P>::shutdown,
            (worker,),
            Ok::<ReplyRx<()>, String>(awaited),
        ),
        call_ensures(
            ProxyLoop::<C, P>::on_command,
            (proxy, final(worker)@.commands.taken().last()),
            action,
        ),
        old(proxy).running,
        action matches ProxyAction::Close { command: _, closing } ==> call_ensures(
            Closing::client_closed,
            (closing, closed),
            reply,
        ),
    ensures
        final(worker)@.commands.taken() == old(worker)@.commands.taken().push(
            TceProxyCommand::Shutdown(awaited.channel()),
        ),
        final(worker)@.commands.offered() == old(worker)@.commands.offered().push(
            TceProxyCommand::Shutdown(awaited.channel()),
        ),
        final(worker)@.commands.handles() == old(worker)@.commands.handles(),
        final(worker)@.events == old(worker)@.events,
        final(worker)@.config == old(worker)@.config,
        action matches ProxyAction::Close { command, closing: _ } && command is Shutdown,
        !final(proxy).running,
        reply.sender == awaited.channel(),
{
}

/// A shutdown that the loop did not take was a shutdown that was offered, and gives the error of a
/// channel that is closed.
pub proof fn law_a_shutdown_fails_if_the_loop_is_gone<C, P>(
    worker: &mut TceProxyWorker<C, P>,
    text: String,
)
    requires
        call_ensures(
            TceProxyWorker::<C, P>::shutdown,
            (worker,),
            Err::<ReplyRx<()>, String>(text),
        ),
    ensures
        text@ == "channel closed"@,
        final(worker)@.commands.taken() == old(worker)@.commands.taken(),
        final(worker)@.commands.offered().len() == old(worker)@.commands.offered().len() + 1,
        final(worker)@.commands.offered().drop_last() == old(worker)@.commands.offered(),
        final(worker)@.commands.offered().last() is Shutdown,
        final(worker)@.events == old(worker)@.events,
        final(worker)@.config == old(worker)@.config,
{
    assert(final(worker)@.commands.offered().drop_last() =~= old(worker)@.commands.offered());
}

/// A shutdown that was handed over is awaited at the reply that belongs to it.
pub proof fn law_a_shutdown_that_was_taken_is_awaited<C, P>(
    sent: Result<(), mpsc::error::SendError<TceProxyCommand<C>>>,
    reply: ReplyRx<()>,
    result: Result<ReplyRx<()>, String>,
)
    requires
        call_ensures(TceProxyWorker::<C, P>::shutdown_sent, (sent, reply), result),
    ensures
        sent is Ok ==> result == Ok::<ReplyRx<()>, String>(reply),
        sent is Err ==> result is Err,
        result matches Err(text) ==> text@ == "channel closed"@,
{
}

/// A shutdown has succeeded if and only if the reply came.
pub proof fn law_a_shutdown_succeeds_with_the_reply<C, P>(
    received: Result<(), oneshot::error::RecvError>,
    result: Result<(), String>,
)
    requires
        call_ensures(TceProxyWorker::<C, P>::shutdown_replied, (received,), result),
    ensures
        received is Ok <==> result is Ok,
        result matches Err(text) ==> text@ == "channel closed"@,
{
}

/// A reply is handed to the sender that it is for, unchanged.
pub proof fn law_a_reply_goes_to_its_sender<T>(reply: Reply<T>, replied: Replied<T>)
    requires
        call_ensures(Reply::<T>::send, (reply,), replied),
    ensures
        replied.sender() == reply.sender,
        replied.value() == reply.value,
        replied.outcome() matches Err(returned) ==> returned == reply.value,
{
}

// ---- From the TCE node to the application ----

/// A certificate that the TCE node pushes and that can be read is the one that the application is
/// told of, in one event of its own and in no other. The watch task goes on as it was; the loop
/// goes on if the application took the event.
pub proof fn law_a_pushed_certificate_is_told_to_the_application<C, P>(
    cert: C,
    task: &mut WatchTask<C>,
    action: WatchAction<C>,
    proxy: &mut ProxyLoop<C, P>,
    told: Result<(), mpsc::error::SendError<TceProxyEvent<C>>>,
)
    requires
        call_ensures(
            WatchTask::<C>::on_response,
            (
                task,
                Ok::<WatchCertificatesResponse<C>, tonic::Status>(
                    WatchCertificatesResponse {
                        event: Some(
                            WatchEvent::CertificatePushed {
                                certificate: Some(ReceivedCertificate::Valid(cert)),
                            },
                        ),
                    },
                ),
            ),
            action,
        ),
        action matches WatchAction::Deliver(delivered) ==> call_ensures(
            ProxyLoop::<C, P>::on_certificate,
            (proxy, delivered),
            told,
        ),
        old(task).running,
        old(proxy).running,
    ensures
        action == WatchAction::Deliver(cert),
        *final(task) == *old(task),
        ({
            let before = old(proxy).evt_sender;
            let after = final(proxy).evt_sender;
            &&& after.offered().len() == before.offered().len() + 1
            &&& after.offered().drop_last() == before.offered()
            &&& after.offered().last() matches TceProxyEvent::NewDeliveredCerts(certs)
            &&& certs@.len() == 1
            &&& certs@[0] == cert
            &&& told is Ok ==> after.taken() == before.taken().push(after.offered().last())
            &&& told is Err ==> after.taken() == before.taken()
            &&& after.channel() == before.channel()
            &&& after.half() == before.half()
            &&& after.handles() == before.handles()
        }),
        final(proxy).running == (told is Ok),
        final(proxy).tce_client == old(proxy).tce_client,
        final(proxy).command_rcv == old(proxy).command_rcv,
        final(proxy).certificates == old(proxy).certificates,
{
    let before = old(proxy).evt_sender;
    let after = final(proxy).evt_sender;
    let views = |event: TceProxyEvent<C>| event@;
    assert(after.offered().drop_last() =~= before.offered());
    assert(after.offered().map_values(views).last() == after.offered().last()@);
}

/// Nothing else that the TCE node says is delivered, and nothing at all that it says ends the watch
/// task or costs it the sender of the certificates or the end at which it is told to finish.
pub proof fn law_nothing_else_on_the_stream_is_delivered<C>(
    task: &mut WatchTask<C>,
    response: WatchResponse<C>,
    action: WatchAction<C>,
)
    requires
        call_ensures(WatchTask::<C>::on_response, (task, response), action),
        old(task).running,
    ensures
        match response {
            Err(_) => action is Wait,
            Ok(message) => match message.event {
                None => action is Wait,
                Some(WatchEvent::StreamOpened) => action is Wait,
                Some(WatchEvent::CertificatePushed { certificate: None }) => action is Wait,
                Some(
                    WatchEvent::CertificatePushed {
                        certificate: Some(ReceivedCertificate::Invalid),
                    },
                ) => action is Wait,
                Some(
                    WatchEvent::CertificatePushed {
                        certificate: Some(ReceivedCertificate::Valid(cert)),
                    },
                ) => action == WatchAction::Deliver(cert),
            },
        },
        response is Ok ==> *final(task) == *old(task),
        final(task).running,
        final(task).inbound_certificate_sender == old(task).inbound_certificate_sender,
        final(task).inbound_shutdown_receiver == old(task).inbound_shutdown_receiver,
{
}

/// An error of the stream is reported to the application, in one event and by that event alone, if
/// there is anywhere to report it; if not, nothing happens.
pub proof fn law_a_stream_error_is_reported_once<C>(
    task: &mut WatchTask<C>,
    status: tonic::Status,
    action: WatchAction<C>,
)
    requires
        call_ensures(
            WatchTask::<C>::on_response,
            (task, Err::<WatchCertificatesResponse<C>, tonic::Status>(status)),
            action,
        ),
        old(task).running,
    ensures
        action is Wait,
        final(task).running,
        old(task).tce_proxy_event_sender is None ==> *final(task) == *old(task),
        old(task).tce_proxy_event_sender matches Some(before) ==> {
            &&& final(task).tce_proxy_event_sender matches Some(after)
            &&& after.offered() == before.offered().push(
                TceProxyEvent::WatchCertificatesChannelFailed,
            )
            &&& after.taken() == before.taken() || after.taken() == after.taken().drop_last().push(
                TceProxyEvent::WatchCertificatesChannelFailed,
            ) && after.taken().drop_last() == before.taken()
            &&& after.channel() == before.channel()
            &&& after.half() == before.half()
            &&& after.handles() == before.handles()
        },
{
    if old(task).tce_proxy_event_sender is Some {
        let before = old(task).tce_proxy_event_sender->0;
        let failed = TceProxyEvent::<C>::WatchCertificatesChannelFailed;
        assert(before.taken().push(failed).drop_last() =~= before.taken());
    }
}

/// The word to finish ends the watch task, which lets go of the sender of the certificates and of
/// nothing else.
pub proof fn law_the_word_to_finish_ends_the_watch_task<C>(task: &mut WatchTask<C>)
    requires
        call_ensures(WatchTask::<C>::on_shutdown, (task,), ()),
        old(task).running,
    ensures
        !final(task).running,
        final(task).inbound_certificate_sender is None,
        final(task).inbound_shutdown_receiver == old(task).inbound_shutdown_receiver,
        final(task).tce_proxy_event_sender == old(task).tce_proxy_event_sender,
{
}

/// The application gets the event that was received, and the handle stays as it is.
pub proof fn law_the_event_received_is_the_next_event<C, P>(
    worker: &mut TceProxyWorker<C, P>,
    event: TceProxyEvent<C>,
    next: Result<TceProxyEvent<C>, String>,
)
    requires
        call_ensures(TceProxyWorker::<C, P>::next_event, (worker, Some(event)), next),
    ensures
        next == Ok::<TceProxyEvent<C>, String>(event),
        final(worker)@ == old(worker)@,
{
}

// ---- The source head ----

/// The source head that the TCE node is asked for is that of the client's own subnet, and its
/// answer goes to the reply that the caller awaits: the request for it carries the sender of that
/// reply to the TCE service and back.
pub proof fn law_the_own_source_head_is_asked_for<C, P>(
    client: &mut TceClient<C, P>,
    subnet_id: SubnetId,
    request: (TceClientCommand<C, P>, ReplyRx<Result<C, Error>>),
    task: &mut CommandTask<C, P>,
    action: CommandAction<C, P>,
)
    requires
        call_ensures(TceClient::<C, P>::subnet_id, (&*old(client),), subnet_id),
        call_ensures(TceClient::<C, P>::get_source_head, (client,), request),
        call_ensures(CommandTask::<C, P>::on_command, (task, request.0), action),
        old(task).running,
    ensures
        action == (CommandAction::<C, P>::FetchSourceHead {
            subnet_id,
            sender: request.1.channel(),
        }),
        *final(client) == *old(client),
        *final(task) == *old(task),
{
}

/// What the TCE service answers about the source head is what the one who asked is replied: the
/// certificate, that there is none, or the text of the error, each about the subnet that was asked
/// for. To a certificate that cannot be read there is no reply: the sender comes back, and the
/// command task ends with that error. It ends in no other case.
pub proof fn law_the_answer_of_the_tce_node_is_the_reply<C, P>(
    task: &mut CommandTask<C, P>,
    subnet_id: SubnetId,
    sender: oneshot::Sender<Result<C, Error>>,
    response: SourceHeadResponse<C>,
    outcome: Result<Reply<Result<C, Error>>, Unanswered<C>>,
)
    requires
        call_ensures(
            CommandTask::<C, P>::on_source_head,
            (task, subnet_id, sender, response),
            outcome,
        ),
        old(task).running,
    ensures
        match response {
            Ok(Some(ReceivedCertificate::Valid(certificate))) => {
                &&& outcome matches Ok(reply)
                &&& reply.sender == sender
                &&& reply.value == Ok::<C, Error>(certificate)
                &&& final(task).running
            },
            Ok(None) => {
                &&& outcome matches Ok(reply)
                &&& reply.sender == sender
                &&& reply.value == Err::<C, Error>(Error::SourceHeadEmpty { subnet_id })
                &&& final(task).running
            },
            Err(details) => {
                &&& outcome matches Ok(reply)
                &&& reply.sender == sender
                &&& reply.value == Err::<C, Error>(
                    Error::UnableToGetSourceHeadCertificate { subnet_id, details },
                )
                &&& final(task).running
            },
            Ok(Some(ReceivedCertificate::Invalid)) => {
                &&& outcome matches Err(unanswered)
                &&& unanswered.sender == sender
                &&& unanswered.error == Error::InvalidCertificate
                &&& !final(task).running
            },
        },
        final(task).commands == old(task).commands,
        final(task).outbound == old(task).outbound,
        final(task).inbound_shutdown_sender == old(task).inbound_shutdown_sender,
{
}

/// Whoever asked for the source head gets the reply as it came, and the error of a channel that is
/// gone if none came.
pub proof fn law_the_reply_is_what_the_caller_gets<C, P>(
    received: Result<Result<C, Error>, oneshot::error::RecvError>,
    head: Result<C, Error>,
)
    requires
        call_ensures(TceClient::<C, P>::source_head_received, (received,), head),
    ensures
        received matches Ok(reply) ==> head == reply,
        received is Err ==> head == Err::<C, Error>(Error::InvalidChannelError),
{
}

/// The reply is awaited, at the end that was given, if and only if the request could be sent.
pub proof fn law_a_request_that_was_sent_is_awaited<C, P>(
    sent: Result<(), mpsc::error::SendError<TceClientCommand<C, P>>>,
    reply: ReplyRx<Result<C, Error>>,
    outcome: Result<ReplyRx<Result<C, Error>>, Error>,
)
    requires
        call_ensures(TceClient::<C, P>::source_head_asked, (sent, reply), outcome),
    ensures
        sent is Ok ==> outcome == Ok::<ReplyRx<Result<C, Error>>, Error>(reply),
        sent is Err ==> outcome == Err::<ReplyRx<Result<C, Error>>, Error>(
            Error::InvalidChannelError,
        ),
{
}

// ---- The client ----

/// A client asks for the certificates of its own subnet and of no other, from all the positions
/// that it is given, in their order.
pub proof fn law_the_stream_is_opened_for_the_own_subnet<C, P>(
    client: &TceClient<C, P>,
    subnet_id: SubnetId,
    positions: Vec<P>,
    command: TceClientCommand<C, P>,
    task: &mut CommandTask<C, P>,
    action: CommandAction<C, P>,
)
    requires
        call_ensures(TceClient::<C, P>::subnet_id, (client,), subnet_id),
        call_ensures(TceClient::<C, P>::open_stream, (client, positions), command),
        call_ensures(CommandTask::<C, P>::on_command, (task, command), action),
        old(task).running,
    ensures
        action matches CommandAction::Open(request) && {
            &&& request.target_checkpoint.target_subnet_ids@.len() == 1
            &&& request.target_checkpoint.target_subnet_ids@[0] == subnet_id
            &&& request.target_checkpoint.positions@ == positions@
        },
        final(task).running,
{
}

/// The commands of a client say what was asked of it, and asking changes nothing of it.
pub proof fn law_a_client_commands_what_it_is_asked<C, P>(
    client: &mut TceClient<C, P>,
    cert: C,
    send: TceClientCommand<C, P>,
    other: &mut TceClient<C, P>,
    close: TceClientCommand<C, P>,
)
    requires
        call_ensures(TceClient::<C, P>::send_certificate, (client, cert), send),
        call_ensures(TceClient::<C, P>::close, (other,), close),
    ensures
        send matches TceClientCommand::SendCertificate { cert: sent } && *sent == cert,
        close is Shutdown,
        *final(client) == *old(client),
        *final(other) == *old(other),
{
}

/// A command fails if and only if it could not be sent, with the error of a channel that is gone.
pub proof fn law_a_command_to_a_client_fails_if_it_is_gone<C, P>(
    sent: Result<(), mpsc::error::SendError<TceClientCommand<C, P>>>,
    outcome: Result<(), Error>,
)
    requires
        call_ensures(TceClient::<C, P>::command_sent, (sent,), outcome),
    ensures
        sent is Ok ==> outcome == Ok::<(), Error>(()),
        sent is Err ==> outcome == Err::<(), Error>(Error::InvalidChannelError),
{
}

// ---- Connecting ----

/// Whatever fails an attempt to connect, an address that cannot be read included, the attempt is
/// made again; only when the attempts are over is the failure an error, and then it is the
/// failure itself. An endpoint is at the address that was asked for.
pub proof fn law_every_failed_attempt_is_made_again<G>(
    address: &String,
    target: Result<TceEndpoint, AttemptFailure>,
    source: TransportError,
    failure: AttemptFailure,
    attempts: Result<G, TransportError>,
    outcome: Result<G, Error>,
)
    requires
        call_ensures(connect_attempt, (address,), target),
        call_ensures(attempt_failed, (source,), failure),
        call_ensures(connect_outcome::<G>, (attempts,), outcome),
    ensures
        target is Ok <==> is_endpoint_address(address@),
        target matches Ok(endpoint) ==> endpoint.address() == address@,
        target matches Err(failed) ==> failed is Transient,
        failure is Transient,
        failure->Transient_source == source,
        attempts matches Ok(service) ==> outcome == Ok::<G, Error>(service),
        attempts matches Err(error) ==> outcome == Err::<G, Error>(
            Error::TonicTransportError { source: error },
        ),
{
}

// ---- Making a client ----

/// A builder starts out empty. Setting one thing sets it to what is given and leaves the others.
pub proof fn law_a_setting_changes_that_setting_alone<C>(
    empty: TceClientBuilder<C>,
    builder: TceClientBuilder<C>,
    endpoint: &str,
    with_endpoint: TceClientBuilder<C>,
    subnet_id: SubnetId,
    with_subnet_id: TceClientBuilder<C>,
    sender: UnboundedTx<TceProxyEvent<C>>,
    with_sender: TceClientBuilder<C>,
)
    requires
        call_ensures(TceClientBuilder::<C>::default, (), empty),
        call_ensures(
            TceClientBuilder::<C>::set_tce_endpoint,
            (builder, endpoint),
            with_endpoint,
        ),
        call_ensures(TceClientBuilder::<C>::set_subnet_id, (builder, subnet_id), with_subnet_id),
        call_ensures(
            TceClientBuilder::<C>::set_proxy_event_sender,
            (builder, sender),
            with_sender,
        ),
    ensures
        empty@.tce_endpoint is None,
        empty@.subnet_id is None,
        empty@.tce_proxy_event_sender is None,
        with_endpoint@.tce_endpoint == Some(endpoint@),
        with_endpoint@.subnet_id == builder@.subnet_id,
        with_endpoint@.tce_proxy_event_sender == builder@.tce_proxy_event_sender,
        with_subnet_id@.tce_endpoint == builder@.tce_endpoint,
        with_subnet_id@.subnet_id == Some(subnet_id),
        with_subnet_id@.tce_proxy_event_sender == builder@.tce_proxy_event_sender,
        with_sender@.tce_endpoint == builder@.tce_endpoint,
        with_sender@.subnet_id == builder@.subnet_id,
        with_sender@.tce_proxy_event_sender == Some(sender),
{
}

/// A launch goes on from an endpoint, with everything that was set, and is refused without one. A
/// refusal hands the sender of events back as it was.
pub proof fn law_a_launch_needs_an_endpoint<C>(
    builder: TceClientBuilder<C>,
    stage: Result<Connecting<C>, Refused<C>>,
)
    requires
        call_ensures(TceClientBuilder::<C>::build_and_launch, (builder,), stage),
    ensures
        stage is Ok <==> builder@.tce_endpoint is Some,
        stage matches Err(refused) ==> refused.error == Error::InvalidTceEndpoint
            && refused.tce_proxy_event_sender == builder@.tce_proxy_event_sender,
        stage matches Ok(connecting) ==> {
            &&& Some(connecting.tce_endpoint@) == builder@.tce_endpoint
            &&& connecting.subnet_id == builder@.subnet_id
            &&& connecting.tce_proxy_event_sender == builder@.tce_proxy_event_sender
            &&& connecting.certificates.channel() == connecting.inbound_certificate_sender
            &&& connecting.certificates.capacity() == 100
            &&& connecting.certificates.half() == connecting.certificates.made()
        },
{
}

/// A launch goes on from a connection, with that connection, and is refused with the error of the
/// attempts otherwise. A refusal hands the sender of events back as it was.
pub proof fn law_a_launch_needs_a_connection<G, C, P>(
    connecting: Connecting<C>,
    connection: Result<G, Error>,
    stage: Result<Connected<G, C, P>, Refused<C>>,
)
    requires
        call_ensures(Connecting::<C>::connected::<G, P>, (connecting, connection), stage),
    ensures
        stage is Ok <==> connection is Ok,
        connection matches Err(error) ==> stage == Err::<Connected<G, C, P>, Refused<C>>(
            Refused { error, tce_proxy_event_sender: connecting.tce_proxy_event_sender },
        ),
        connection matches Ok(service) ==> {
            &&& stage matches Ok(connected)
            &&& connected.service == service
            &&& connected.subscribing.connecting == connecting
            &&& connected.requests.channel() == connected.subscribing.outbound
            &&& connected.requests.capacity() == 100
            &&& connected.requests.half() == connected.requests.made()
        },
{
}

/// A launch ends in a client if the TCE service gave the stream and there is a subnet id. It is
/// refused with the status of the TCE service, and only then for want of a subnet id. A refusal
/// hands the sender of events back as it was. Of a client, both tasks run; the command task takes
/// the client's commands, the watch task hears the command task, and everything that was set or
/// made before is in its place.
pub proof fn law_a_launch_needs_the_stream_and_a_subnet_id<S, C, P>(
    subscribing: Subscribing<C, P>,
    stream: Result<S, tonic::Status>,
    stage: Result<Launched<S, C, P>, Refused<C>>,
)
    requires
        call_ensures(Subscribing::<C, P>::subscribed::<S>, (subscribing, stream), stage),
    ensures
        stage is Ok <==> stream is Ok && subscribing.connecting.subnet_id is Some,
        stage matches Err(refused) ==> {
            &&& refused.error == match stream {
                Err(source) => Error::TonicStatusError { source },
                Ok(_) => Error::InvalidSubnetId,
            }
            &&& refused.tce_proxy_event_sender == subscribing.connecting.tce_proxy_event_sender
        },
        stage matches Ok(launched) ==> {
            let connecting = subscribing.connecting;
            let word = launched.command_task.inbound_shutdown_sender;
            &&& launched.responses == stream->Ok_0
            &&& launched.client@.subnet_id == connecting.subnet_id->0
            &&& launched.client@.tce_endpoint == connecting.tce_endpoint@
            &&& launched.client@.command_sender == launched.command_task.commands.channel()
            &&& launched.certificates == connecting.certificates
            &&& launched.watch_task.running
            &&& launched.watch_task.inbound_certificate_sender == Some(
                connecting.inbound_certificate_sender,
            )
            &&& launched.watch_task.tce_proxy_event_sender == connecting.tce_proxy_event_sender
            &&& launched.watch_task.inbound_shutdown_receiver.channel() == word.channel()
            &&& launched.watch_task.inbound_shutdown_receiver.half()
                == launched.watch_task.inbound_shutdown_receiver.made()
            &&& launched.command_task.running
            &&& launched.command_task.outbound == subscribing.outbound
            &&& launched.command_task.commands.capacity() == 100
            &&& launched.command_task.commands.half() == launched.command_task.commands.made()
            &&& word.offered().len() == 0
            &&& word.taken().len() == 0
            &&& word.handles() == 0
        },
{
}

/// What a client says of itself is what the launch was given: its subnet, its endpoint, and the
/// sender whose commands the command task takes.
pub proof fn law_a_client_works_for_what_was_set<S, C, P>(
    subscribing: Subscribing<C, P>,
    responses: S,
    launched: Launched<S, C, P>,
    subnet_id: SubnetId,
    tce_endpoint: &str,
    sender: &mpsc::Sender<TceClientCommand<C, P>>,
)
    requires
        call_ensures(
            Subscribing::<C, P>::subscribed::<S>,
            (subscribing, Ok::<S, tonic::Status>(responses)),
            Ok::<Launched<S, C, P>, Refused<C>>(launched),
        ),
        call_ensures(TceClient::<C, P>::subnet_id, (&launched.client,), subnet_id),
        call_ensures(TceClient::<C, P>::tce_endpoint, (&launched.client,), tce_endpoint),
        call_ensures(TceClient::<C, P>::command_sender, (&launched.client,), sender),
    ensures
        subscribing.connecting.subnet_id == Some(subnet_id),
        tce_endpoint@ == subscribing.connecting.tce_endpoint@,
        *sender == launched.command_task.commands.channel(),
{
}

// ---- Starting the proxy ----

/// A proxy begins with a builder for its own subnet and its own endpoint, which reports to the
/// application as the proxy will. The application has the only handle to command the loop; nothing
/// was commanded and nothing reported yet.
pub proof fn law_a_proxy_begins_from_its_configuration<C, P>(
    config: TceProxyConfig<P>,
    builder: TceClientBuilder<C>,
    starting: Starting<C, P>,
    stage: Result<Connecting<C>, Refused<C>>,
)
    requires
        call_ensures(TceProxyWorker::<C, P>::new, (config,), (builder, starting)),
        call_ensures(TceClientBuilder::<C>::build_and_launch, (builder,), stage),
    ensures
        starting.config == config,
        stage matches Ok(connecting) && {
            &&& connecting.tce_endpoint@ == config.base_tce_api_url@
            &&& connecting.subnet_id == Some(config.subnet_id)
            &&& connecting.tce_proxy_event_sender matches Some(sender)
            &&& sender.channel() == starting.events.channel()
            &&& sender.offered().len() == 0
            &&& sender.taken().len() == 0
            &&& sender.handles() == 0
        },
        starting.commands.channel() == starting.command_rcv.channel(),
        starting.commands.offered().len() == 0,
        starting.commands.taken().len() == 0,
        starting.commands.handles() == 0,
        starting.evt_sender.channel() == starting.events.channel(),
        starting.evt_sender.offered().len() == 0,
        starting.evt_sender.taken().len() == 0,
        starting.evt_sender.handles() == 1,
        starting.command_rcv.half() == starting.command_rcv.made(),
        starting.events.half() == starting.events.made(),
{
}

/// A launch that failed fails the start with its error. A client that was launched is to open the
/// stream for its own subnet and from every position of the configuration, each in its place.
pub proof fn law_the_stream_is_opened_from_every_position<C, P: Clone>(
    starting: Starting<C, P>,
    launch: Result<(TceClient<C, P>, BoundedRx<C>), Error>,
    stage: Result<OpeningStream<C, P>, Error>,
)
    requires
        call_ensures(Starting::<C, P>::client_launched, (starting, launch), stage),
    ensures
        launch matches Err(error) ==> stage == Err::<OpeningStream<C, P>, Error>(error),
        launch matches Ok((tce_client, certificates)) ==> {
            &&& stage matches Ok(opening)
            &&& opening.proxy.starting == starting
            &&& opening.proxy.tce_client == tce_client
            &&& opening.proxy.certificates == certificates
            &&& opening.command matches TceClientCommand::OpenStream { target_checkpoint }
            &&& target_checkpoint.target_subnet_ids@.len() == 1
            &&& target_checkpoint.target_subnet_ids@[0] == tce_client@.subnet_id
            &&& target_checkpoint.positions@.len() == starting.config.positions@.len()
            &&& forall|i: int|
                0 <= i < starting.config.positions@.len() ==> cloned(
                    starting.config.positions@[i],
                    #[trigger] target_checkpoint.positions@[i],
                )
        },
{
}

/// Once the stream was opened, the source head of the client's own subnet is asked for, to be
/// replied where the proxy waits for it. A stream that could not be opened fails the start.
pub proof fn law_the_own_source_head_is_asked_for_next<C, P>(
    proxy: WithClient<C, P>,
    sent: Result<(), mpsc::error::SendError<TceClientCommand<C, P>>>,
    stage: Result<StreamOpened<C, P>, Error>,
)
    requires
        call_ensures(WithClient::<C, P>::stream_opened, (proxy, sent), stage),
    ensures
        sent is Err ==> stage == Err::<StreamOpened<C, P>, Error>(Error::InvalidChannelError),
        sent is Ok ==> {
            &&& stage matches Ok(opened)
            &&& opened.asking.proxy == proxy
            &&& opened.command matches TceClientCommand::GetSourceHead { subnet_id, sender }
            &&& subnet_id == proxy.tce_client@.subnet_id
            &&& sender == opened.asking.reply.channel()
        },
{
}

/// A source head that could be asked for is awaited; one that could not fails the start.
pub proof fn law_the_source_head_that_was_asked_for_is_awaited<C, P>(
    asking: AskingSourceHead<C, P>,
    sent: Result<(), mpsc::error::SendError<TceClientCommand<C, P>>>,
    stage: Result<AskingSourceHead<C, P>, Error>,
)
    requires
        call_ensures(AskingSourceHead::<C, P>::asked, (asking, sent), stage),
    ensures
        sent is Ok ==> stage == Ok::<AskingSourceHead<C, P>, Error>(asking),
        sent is Err ==> stage == Err::<AskingSourceHead<C, P>, Error>(Error::InvalidChannelError),
{
}

/// With a source head, and without one if the TCE node has none, the proxy has started, and its
/// loop runs on what the proxy had before. Every other error is the error of the start.
pub proof fn law_a_proxy_that_has_started_runs<C, P>(
    proxy: WithClient<C, P>,
    head: Result<C, Error>,
    stage: Result<Started<C, P>, Error>,
)
    requires
        call_ensures(WithClient::<C, P>::source_head, (proxy, head), stage),
    ensures
        head matches Ok(certificate) ==> {
            &&& stage matches Ok(started)
            &&& started.source_head == Some(certificate)
        },
        head matches Err(error) ==> if error is SourceHeadEmpty {
            &&& stage matches Ok(started)
            &&& started.source_head is None
        } else {
            stage == Err::<Started<C, P>, Error>(error)
        },
        stage matches Ok(started) ==> {
            &&& started.proxy_loop.running
            &&& started.proxy_loop.tce_client == proxy.tce_client
            &&& started.proxy_loop.command_rcv == proxy.starting.command_rcv
            &&& started.proxy_loop.certificates == proxy.certificates
            &&& started.proxy_loop.evt_sender == proxy.starting.evt_sender
            &&& started.worker@.config == proxy.starting.config
            &&& started.worker@.commands == proxy.starting.commands
            &&& started.worker@.events == proxy.starting.events
        },
{
}

/// From the configuration on, a start asks the TCE node for what was configured, and the proxy that
/// comes of it serves the application. The stream is opened for the configured subnet and from each
/// configured position; the source head of that subnet is fetched; and in the end the loop runs. It
/// takes the commands that the application hands over and the certificates that the watch task
/// passes on, and the application hears the loop and the watch task.
pub proof fn law_a_start_follows_the_configuration<G, S, C, P: Clone>(
    config: TceProxyConfig<P>,
    builder: TceClientBuilder<C>,
    starting: Starting<C, P>,
    connecting: Connecting<C>,
    service: G,
    connected: Connected<G, C, P>,
    responses: S,
    launched: Launched<S, C, P>,
    opening: OpeningStream<C, P>,
    opened: StreamOpened<C, P>,
    asked: AskingSourceHead<C, P>,
    head: Result<C, Error>,
    started: Started<C, P>,
    task: &mut CommandTask<C, P>,
    first: CommandAction<C, P>,
    later_task: &mut CommandTask<C, P>,
    second: CommandAction<C, P>,
)
    requires
        call_ensures(TceProxyWorker::<C, P>::new, (config,), (builder, starting)),
        call_ensures(
            TceClientBuilder::<C>::build_and_launch,
            (builder,),
            Ok::<Connecting<C>, Refused<C>>(connecting),
        ),
        call_ensures(
            Connecting::<C>::connected::<G, P>,
            (connecting, Ok::<G, Error>(service)),
            Ok::<Connected<G, C, P>, Refused<C>>(connected),
        ),
        call_ensures(
            Subscribing::<C, P>::subscribed::<S>,
            (connected.subscribing, Ok::<S, tonic::Status>(responses)),
            Ok::<Launched<S, C, P>, Refused<C>>(launched),
        ),
        call_ensures(
            Starting::<C, P>::client_launched,
            (
                starting,
                Ok::<(TceClient<C, P>, BoundedRx<C>), Error>(
                    (launched.client, launched.certificates),
                ),
            ),
            Ok::<OpeningStream<C, P>, Error>(opening),
        ),
        call_ensures(CommandTask::<C, P>::on_command, (task, opening.command), first),
        old(task).running,
        call_ensures(
            WithClient::<C, P>::stream_opened,
            (opening.proxy, Ok::<(), mpsc::error::SendError<TceClientCommand<C, P>>>(())),
            Ok::<StreamOpened<C, P>, Error>(opened),
        ),
        call_ensures(CommandTask::<C, P>::on_command, (later_task, opened.command), second),
        old(later_task).running,
        call_ensures(
            AskingSourceHead::<C, P>::asked,
            (opened.asking, Ok::<(), mpsc::error::SendError<TceClientCommand<C, P>>>(())),
            Ok::<AskingSourceHead<C, P>, Error>(asked),
        ),
        call_ensures(
            WithClient::<C, P>::source_head,
            (asked.proxy, head),
            Ok::<Started<C, P>, Error>(started),
        ),
    ensures
        first matches CommandAction::Open(request) && {
            &&& request.target_checkpoint.target_subnet_ids@.len() == 1
            &&& request.target_checkpoint.target_subnet_ids@[0] == config.subnet_id
            &&& request.target_checkpoint.positions@.len() == config.positions@.len()
            &&& forall|i: int|
                0 <= i < config.positions@.len() ==> cloned(
                    config.positions@[i],
                    #[trigger] request.target_checkpoint.positions@[i],
                )
        },
        second matches CommandAction::FetchSourceHead { subnet_id, sender } && subnet_id
            == config.subnet_id && sender == asked.reply.channel(),
        final(task).running,
        final(later_task).running,
        started.proxy_loop.running,
        head matches Ok(certificate) ==> started.source_head == Some(certificate),
        head is Err ==> started.source_head is None,
        started.worker@.config == config,
        started.worker@.commands.channel() == started.proxy_loop.command_rcv.channel(),
        started.worker@.commands.offered().len() == 0,
        started.worker@.commands.handles() == 0,
        started.worker@.events.channel() == started.proxy_loop.evt_sender.channel(),
        started.proxy_loop.evt_sender.offered().len() == 0,
        started.proxy_loop.evt_sender.handles() == 1,
        launched.watch_task.tce_proxy_event_sender matches Some(sender) && sender.channel()
            == started.worker@.events.channel(),
        launched.watch_task.inbound_certificate_sender == Some(
            started.proxy_loop.certificates.channel(),
        ),
        started.proxy_loop.certificates.capacity() == 100,
        started.proxy_loop.tce_client@.subnet_id == config.subnet_id,
        started.proxy_loop.tce_client@.tce_endpoint == config.base_tce_api_url@,
        started.proxy_loop.tce_client@.command_sender
            == launched.command_task.commands.channel(),
        launched.command_task.outbound == connected.requests.channel(),
        launched.watch_task.running,
        launched.command_task.running,
{
}

// ---- The ends of channels ----

/// A handle that was made of a sender is a handle on it, with nothing on record.
pub proof fn law_a_new_handle_has_no_record<T>(
    sender: mpsc::UnboundedSender<T>,
    handle: UnboundedTx<T>,
)
    requires
        call_ensures(UnboundedTx::<T>::new, (sender,), handle),
    ensures
        handle.half() == sender,
        handle.channel() == sender,
        handle.offered().len() == 0,
        handle.taken().len() == 0,
        handle.handles() == 0,
{
}

/// Whoever waits gets the receiver itself. Giving it out changes neither which channel the end was
/// made for nor anything beside it.
pub proof fn law_the_receiver_is_what_is_waited_on<C, P, T>(
    unbounded: &mut UnboundedRx<T>,
    first: &mut mpsc::UnboundedReceiver<T>,
    bounded: &mut BoundedRx<T>,
    second: &mut mpsc::Receiver<T>,
    worker: &mut TceProxyWorker<C, P>,
    third: &mut mpsc::UnboundedReceiver<TceProxyEvent<C>>,
)
    requires
        call_ensures(UnboundedRx::<T>::receiver, (unbounded,), first),
        call_ensures(BoundedRx::<T>::receiver, (bounded,), second),
        call_ensures(TceProxyWorker::<C, P>::events, (worker,), third),
    ensures
        *old(first) == old(unbounded).half(),
        final(unbounded).half() == *final(first),
        final(unbounded).channel() == old(unbounded).channel(),
        final(unbounded).made() == old(unbounded).made(),
        *old(second) == old(bounded).half(),
        final(bounded).half() == *final(second),
        final(bounded).channel() == old(bounded).channel(),
        final(bounded).capacity() == old(bounded).capacity(),
        final(bounded).made() == old(bounded).made(),
        *old(third) == old(worker)@.events.half(),
        final(worker)@.events.half() == *final(third),
        final(worker)@.events.channel() == old(worker)@.events.channel(),
        final(worker)@.commands == old(worker)@.commands,
        final(worker)@.config == old(worker)@.config,
{
}

/// An end that is given up gives the receiver itself.
pub proof fn law_the_receiver_is_what_is_given_up<T>(
    bounded: BoundedRx<T>,
    first: mpsc::Receiver<T>,
    reply: ReplyRx<T>,
    second: oneshot::Receiver<T>,
)
    requires
        call_ensures(BoundedRx::<T>::into_receiver, (bounded,), first),
        call_ensures(ReplyRx::<T>::into_receiver, (reply,), second),
    ensures
        first == bounded.half(),
        second == reply.half(),
{
}

// ---- Errors ----

/// Each error from outside becomes the error of the proxy that is named after it, and carries it.
pub proof fn law_an_outside_error_is_carried(
    transport: TransportError,
    first: Error,
    status: tonic::Status,
    second: Error,
    text: hex::FromHexError,
    third: Error,
)
    requires
        call_ensures(<Error as From<TransportError>>::from, (transport,), first),
        call_ensures(<Error as From<tonic::Status>>::from, (status,), second),
        call_ensures(<Error as From<hex::FromHexError>>::from, (text,), third),
    ensures
        first == (Error::TonicTransportError { source: transport }),
        second == (Error::TonicStatusError { source: status }),
        third == (Error::HexConversionError { source: text }),
{
}

/// What came of a reply, and the endpoint to connect to, are given out as they are.
pub proof fn law_what_is_held_is_given_out<T>(
    replied: Replied<T>,
    outcome: Result<(), T>,
    target: TceEndpoint,
    endpoint: tonic::transport::Endpoint,
)
    requires
        call_ensures(Replied::<T>::into_outcome, (replied,), outcome),
        call_ensures(TceEndpoint::into_endpoint, (target,), endpoint),
    ensures
        outcome == replied.outcome(),
        endpoint == target.target(),
{
}

} // verus!
