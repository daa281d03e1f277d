//! The task that carries out the commands of the client at the TCE node.

use crate::channel::{BoundedRx, Reply, UnboundedTx};
use crate::error::Error;
use crate::types::{OpenStream, ReceivedCertificate, SubnetId, TceClientCommand};
use tokio::sync::mpsc;
use tokio::sync::oneshot;
use vstd::prelude::*;

verus! {

/// The state of the command task.
#[verifier::reject_recursive_types(C)]
#[verifier::reject_recursive_types(P)]
pub struct CommandTask<C, P> {
    /// Where the commands come from.
    pub commands: BoundedRx<TceClientCommand<C, P>>,
    /// Where the requests to the stream of certificates go.
    pub outbound: mpsc::Sender<OpenStream<P>>,
    /// Where the watch task is told to finish.
    pub inbound_shutdown_sender: UnboundedTx<()>,
    /// Whether further commands are taken.
    pub running: bool,
}

/// What is to be done about a command.
#[verifier::reject_recursive_types(C)]
pub enum CommandAction<C, P> {
    /// Submit the certificate to the TCE service. Whether the service takes it or not, the task
    /// goes on.
    Submit(C),
    /// Send the request on the stream of certificates. Whether it can be sent or not, the task
    /// goes on.
    Open(OpenStream<P>),
    /// Ask the TCE service for the source head of the subnet, and report its answer.
    FetchSourceHead { subnet_id: SubnetId, sender: oneshot::Sender<Result<C, Error>> },
    /// Finish: the watch task was told to finish.
    Finish,
    /// Finish: the watch task is gone already.
    WatchTaskLost,
}

/// What the TCE service answers when it is asked for a source head: a certificate, or none, or
/// the text of an error status.
pub type SourceHeadResponse<C> = Result<Option<ReceivedCertificate<C>>, String>;

/// What is to be done about `command`. A watch task that has to be told to finish is there to hear
/// it if and only if `told`.
pub open spec fn command_action<C, P>(
    command: TceClientCommand<C, P>,
    told: bool,
) -> CommandAction<C, P> {
    match command {
        TceClientCommand::SendCertificate { cert } => CommandAction::Submit(*cert),
        TceClientCommand::OpenStream { target_checkpoint } =>
            CommandAction::Open(OpenStream { target_checkpoint }),
        TceClientCommand::Shutdown => if told {
            CommandAction::Finish
        } else {
            CommandAction::WatchTaskLost
        },
        TceClientCommand::GetSourceHead { subnet_id, sender } =>
            CommandAction::FetchSourceHead { subnet_id, sender },
    }
}

/// The reply to a request for the source head of `subnet_id`. There is none if the certificate
/// of the TCE service could not be read.
pub open spec fn source_head_reply<C>(
    subnet_id: SubnetId,
    response: SourceHeadResponse<C>,
) -> Option<Result<C, Error>> {
    match response {
        Ok(Some(ReceivedCertificate::Valid(certificate))) => Some(Ok(certificate)),
        Ok(Some(ReceivedCertificate::Invalid)) => None,
        Ok(None) => Some(Err(Error::SourceHeadEmpty { subnet_id })),
        Err(details) =>
            Some(Err(Error::UnableToGetSourceHeadCertificate { subnet_id, details })),
    }
}

/// A request for the source head that gets no reply: its sender, which was not used, and the error
/// with which the command task ends.
#[verifier::reject_recursive_types(C)]
pub struct Unanswered<C> {
    /// Where the reply would have gone.
    pub sender: oneshot::Sender<Result<C, Error>>,
    /// Why there is none.
    pub error: Error,
}

/// What becomes of a request for the source head of `subnet_id` that has come with `sender`.
pub open spec fn source_head_answer<C>(
    subnet_id: SubnetId,
    sender: oneshot::Sender<Result<C, Error>>,
    response: SourceHeadResponse<C>,
) -> Result<Reply<Result<C, Error>>, Unanswered<C>> {
    match source_head_reply(subnet_id, response) {
        Some(value) => Ok(Reply { sender, value }),
        None => Err(Unanswered { sender, error: Error::InvalidCertificate }),
    }
}

/// How a command changes the task: on a shutdown the word to finish is handed to the watch task,
/// which takes it if and only if `told`, and the task ends; every other command leaves it as it is.
pub open spec fn command_step<C, P>(
    before: CommandTask<C, P>,
    command: TceClientCommand<C, P>,
    told: bool,
    after: CommandTask<C, P>,
) -> bool {
    &&& after.running == !(command is Shutdown)
    &&& after.inbound_shutdown_sender.offered() == if command is Shutdown {
        before.inbound_shutdown_sender.offered().push(())
    } else {
        before.inbound_shutdown_sender.offered()
    }
    &&& after.inbound_shutdown_sender.taken() == if command is Shutdown && told {
        before.inbound_shutdown_sender.taken().push(())
    } else {
        before.inbound_shutdown_sender.taken()
    }
    &&& after.same_ends(&before)
}

/// How the answer of the TCE service to a request for a source head changes the task: it ends if
/// there is nothing to reply, and nothing else changes.
pub open spec fn source_head_step<C, P>(
    before: CommandTask<C, P>,
    subnet_id: SubnetId,
    response: SourceHeadResponse<C>,
    after: CommandTask<C, P>,
) -> bool {
    &&& after.running == source_head_reply(subnet_id, response) is Some
    &&& after.inbound_shutdown_sender == before.inbound_shutdown_sender
    &&& after.same_ends(&before)
}

impl<C, P> CommandTask<C, P> {
    /// The ends of channels that the task holds are those of `other`.
    pub open spec fn same_ends(&self, other: &Self) -> bool {
        &&& self.commands.same_channel(&other.commands)
        &&& self.outbound == other.outbound
        &&& self.inbound_shutdown_sender.same_handle(&other.inbound_shutdown_sender)
    }

    /// Takes a command. The watch task is told to finish on a shutdown, and only then; the task
    /// goes on after every other command.
    pub fn on_command(&mut self, command: TceClientCommand<C, P>) -> (action: CommandAction<C, P>)
        requires
            old(self).running,
        ensures
            action == command_action(command, !(action is WatchTaskLost)),
            command_step(*old(self), command, !(action is WatchTaskLost), *final(self)),
            !(command is Shutdown) ==> *final(self) == *old(self),
            final(self).commands == old(self).commands,
    {
        match command {
            TceClientCommand::SendCertificate { cert } => CommandAction::Submit(*cert),
            TceClientCommand::OpenStream { target_checkpoint } => {
                CommandAction::Open(OpenStream { target_checkpoint })
            },
            TceClientCommand::Shutdown => {
                self.running = false;
                let told = self.inbound_shutdown_sender.send(());
                Self::shutdown_action(told)
            },
            TceClientCommand::GetSourceHead { subnet_id, sender } => {
                CommandAction::FetchSourceHead { subnet_id, sender }
            },
        }
    }

    /// What is to be done about a shutdown, once the watch task was told to finish.
    pub fn shutdown_action(told: Result<(), mpsc::error::SendError<()>>) -> (action:
        CommandAction<C, P>)
        ensures
            action == command_action(TceClientCommand::<C, P>::Shutdown, told is Ok),
    {
        match told {
            Ok(()) => CommandAction::Finish,
            Err(_) => CommandAction::WatchTaskLost,
        }
    }

    /// Takes the answer of the TCE service to a request for a source head. The reply for the one
    /// who asked comes back; if the certificate of the TCE service could not be read, there is no
    /// reply: the sender comes back unused, with the error with which the task ends.
    pub fn on_source_head(
        &mut self,
        subnet_id: SubnetId,
        sender: oneshot::Sender<Result<C, Error>>,
        response: SourceHeadResponse<C>,
    ) -> (outcome: Result<Reply<Result<C, Error>>, Unanswered<C>>)
        requires
            old(self).running,
        ensures
            outcome == source_head_answer(subnet_id, sender, response),
            source_head_step(*old(self), subnet_id, response, *final(self)),
            *final(self) == (CommandTask { running: outcome is Ok, ..*old(self) }),
            final(self).commands == old(self).commands,
    {
        let value = match response {
            Ok(Some(ReceivedCertificate::Valid(certificate))) => Ok(certificate),
            Ok(Some(ReceivedCertificate::Invalid)) => {
                self.running = false;
                return Err(Unanswered { sender, error: Error::InvalidCertificate });
            },
            Ok(None) => Err(Error::SourceHeadEmpty { subnet_id }),
            Err(details) => Err(Error::UnableToGetSourceHeadCertificate { subnet_id, details }),
        };
        Ok(Reply { sender, value })
    }
}

} // verus!
