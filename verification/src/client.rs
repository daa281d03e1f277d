//! The client of the TCE node: the handle through which the proxy commands it.

use crate::channel::{reply_channel, ReplyRx};
use crate::error::Error;
use crate::types::{SubnetId, TargetCheckpoint, TceClientCommand};
use tokio::sync::mpsc;
use tokio::sync::oneshot;
use vstd::prelude::*;

verus! {

/// The handle on a client of the TCE node.
#[verifier::reject_recursive_types(C)]
#[verifier::reject_recursive_types(P)]
pub struct TceClient<C, P> {
    subnet_id: SubnetId,
    tce_endpoint: String,
    command_sender: mpsc::Sender<TceClientCommand<C, P>>,
}

/// What a client handle stands for.
#[verifier::reject_recursive_types(C)]
#[verifier::reject_recursive_types(P)]
pub struct TceClientView<C, P> {
    /// The subnet on whose behalf the client works.
    pub subnet_id: SubnetId,
    /// The endpoint of the TCE node.
    pub tce_endpoint: Seq<char>,
    /// Where the commands go.
    pub command_sender: mpsc::Sender<TceClientCommand<C, P>>,
}

impl<C, P> View for TceClient<C, P> {
    type V = TceClientView<C, P>;

    closed spec fn view(&self) -> TceClientView<C, P> {
        TceClientView {
            subnet_id: self.subnet_id,
            tce_endpoint: self.tce_endpoint@,
            command_sender: self.command_sender,
        }
    }
}

/// The command that opens the stream of certificates for one subnet.
pub open spec fn is_open_stream<C, P>(
    command: TceClientCommand<C, P>,
    subnet_id: SubnetId,
    positions: Seq<P>,
) -> bool {
    command matches TceClientCommand::OpenStream { target_checkpoint }
        && target_checkpoint.target_subnet_ids@ == seq![subnet_id]
        && target_checkpoint.positions@ == positions
}

/// What the caller of a command gets: an error if and only if the command task is gone.
pub open spec fn command_outcome<E>(sent: Result<(), E>) -> Result<(), Error> {
    match sent {
        Ok(_) => Ok(()),
        Err(_) => Err(Error::InvalidChannelError),
    }
}

/// What the caller of `get_source_head` gets: the reply, or an error if none came.
pub open spec fn source_head_outcome<C, E>(received: Result<Result<C, Error>, E>) -> Result<
    C,
    Error,
> {
    match received {
        Ok(reply) => reply,
        Err(_) => Err(Error::InvalidChannelError),
    }
}

impl<C, P> TceClient<C, P> {
    /// The handle that sends its commands to `command_sender`.
    pub(crate) fn new(
        subnet_id: SubnetId,
        tce_endpoint: String,
        command_sender: mpsc::Sender<TceClientCommand<C, P>>,
    ) -> (client: Self)
        ensures
            client@ == (TceClientView {
                subnet_id,
                tce_endpoint: tce_endpoint@,
                command_sender,
            }),
    {
        TceClient { subnet_id, tce_endpoint, command_sender }
    }

    /// The command to open the stream of the certificates that are addressed to the subnet of
    /// this client, from `positions` on.
    pub fn open_stream(&self, positions: Vec<P>) -> (command: TceClientCommand<C, P>)
        ensures
            is_open_stream(command, self@.subnet_id, positions@),
    {
        let target_subnet_ids = vec![self.subnet_id];
        assert(target_subnet_ids@ =~= seq![self@.subnet_id]);
        TceClientCommand::OpenStream {
            target_checkpoint: TargetCheckpoint { target_subnet_ids, positions },
        }
    }

    /// The command to send `cert` to the TCE node.
    pub fn send_certificate(&mut self, cert: C) -> (command: TceClientCommand<C, P>)
        ensures
            command == (TceClientCommand::<C, P>::SendCertificate { cert: Box::new(cert) }),
            *final(self) == *old(self),
            final(self)@ == old(self)@,
    {
        TceClientCommand::SendCertificate { cert: Box::new(cert) }
    }

    /// The command to finish.
    pub fn close(&mut self) -> (command: TceClientCommand<C, P>)
        ensures
            command is Shutdown,
            *final(self) == *old(self),
            final(self)@ == old(self)@,
    {
        TceClientCommand::Shutdown
    }

    /// The command to get the source head of the subnet of this client, and the end of a new
    /// channel on which the reply to this command is awaited.
    pub fn get_source_head(&mut self) -> (request: (
        TceClientCommand<C, P>,
        ReplyRx<Result<C, Error>>,
    ))
        ensures
            request.0 == (TceClientCommand::<C, P>::GetSourceHead {
                subnet_id: old(self)@.subnet_id,
                sender: request.1.channel(),
            }),
            *final(self) == *old(self),
            final(self)@ == old(self)@,
    {
        let (sender, receiver) = reply_channel();
        (TceClientCommand::GetSourceHead { subnet_id: self.subnet_id, sender }, receiver)
    }

    /// What came of sending a command.
    pub fn command_sent(
        sent: Result<(), mpsc::error::SendError<TceClientCommand<C, P>>>,
    ) -> (outcome: Result<(), Error>)
        ensures
            outcome == command_outcome(sent),
    {
        match sent {
            Ok(()) => Ok(()),
            Err(_) => Err(Error::InvalidChannelError),
        }
    }

    /// What came of sending the command to get the source head: the reply is to be awaited if the
    /// command task is there.
    pub fn source_head_asked(
        sent: Result<(), mpsc::error::SendError<TceClientCommand<C, P>>>,
        reply: ReplyRx<Result<C, Error>>,
    ) -> (outcome: Result<ReplyRx<Result<C, Error>>, Error>)
        ensures
            match command_outcome(sent) {
                Ok(_) => outcome == Ok::<ReplyRx<Result<C, Error>>, Error>(reply),
                Err(error) => outcome == Err::<ReplyRx<Result<C, Error>>, Error>(error),
            },
    {
        match Self::command_sent(sent) {
            Ok(()) => Ok(reply),
            Err(error) => Err(error),
        }
    }

    /// What came of waiting for the source head.
    pub fn source_head_received(
        received: Result<Result<C, Error>, oneshot::error::RecvError>,
    ) -> (outcome: Result<C, Error>)
        ensures
            outcome == source_head_outcome(received),
    {
        match received {
            Ok(reply) => reply,
            Err(_) => Err(Error::InvalidChannelError),
        }
    }

    /// Where the commands of this client go.
    pub fn command_sender(&self) -> (sender: &mpsc::Sender<TceClientCommand<C, P>>)
        ensures
            *sender == self@.command_sender,
    {
        &self.command_sender
    }

    /// The subnet that this client works for.
    pub fn subnet_id(&self) -> (subnet_id: SubnetId)
        ensures
            subnet_id == self@.subnet_id,
    {
        self.subnet_id
    }

    /// The endpoint of the TCE node.
    pub fn tce_endpoint(&self) -> (endpoint: &str)
        ensures
            endpoint@ == self@.tce_endpoint,
    {
        self.tce_endpoint.as_str()
    }
}

/// What a client handle stands for is what it holds.
proof fn law_a_client_is_what_it_holds<C, P>(client: TceClient<C, P>)
    ensures
        client@.subnet_id == client.subnet_id,
        client@.tce_endpoint == client.tce_endpoint@,
        client@.command_sender == client.command_sender,
{
}

} // verus!
