//! What holds of the proxy as a whole.
//!
//! The tasks of the proxy pass messages to each other in order. Each function here says what a
//! task does about a whole sequence of messages, by the rules that its steps follow; the laws then
//! relate what goes into the proxy on one side to what comes out on the other. The
//! states of a run are those in which a step begins: between two steps a task waits for what comes
//! next, and that keeps the channels of its ends.

use crate::builder::{
    build_stage, connect_stage, subscribe_stage, Connected, Connecting, Launched, Refused,
    TceClientBuilderView,
};
use crate::channel::{BoundedRx, Reply, ReplyRx};
use crate::client::{is_open_stream, source_head_outcome, TceClient};
use crate::commands::{
    command_action, command_step, source_head_answer, source_head_reply, source_head_step,
    CommandAction, CommandTask, SourceHeadResponse, Unanswered,
};
use crate::endpoint::connection;
use crate::error::Error;
use crate::types::{
    OpenStream, ReceivedCertificate, SubnetId, TceClientCommand, TceProxyCommand, TceProxyEventView,
};
use crate::watch::{
    certificate_brought, events_offered, events_taken, watch_action, watch_finish_step, watch_step,
    WatchAction, WatchResponse, WatchTask,
};
use crate::worker::{
    ask_stage, begin_stage, closing_reply, delivery, finish_stage, launch_stage, open_stage,
    proxy_action, proxy_certificate_step, proxy_command_step, shutdown_outcome, shutdown_stage,
    starting_head, AskingSourceHead, OpeningStream, ProxyAction, ProxyLoop, Started, Starting,
    StreamOpened, TceProxyConfig, TceProxyWorkerView,
};
use tokio::sync::mpsc;
use tokio::sync::oneshot;
use tonic::transport::Error as TransportError;
use vstd::prelude::*;

verus! {

// ---- From the application to the TCE node ----

/// The commands that the loop of the proxy sends to the client on account of `commands`.
pub open spec fn forwarded<C, P>(commands: Seq<TceProxyCommand<C>>) -> Seq<TceClientCommand<C, P>>
    decreases commands.len(),
{
    if commands.len() == 0 {
        Seq::empty()
    } else {
        match proxy_action::<C, P>(commands[0]) {
            ProxyAction::Forward(command) => seq![command] + forwarded(commands.drop_first()),
            ProxyAction::Close { command, closing: _ } => seq![command],
        }
    }
}

/// The certificates that the application submits before it shuts the proxy down.
pub open spec fn submitted<C>(commands: Seq<TceProxyCommand<C>>) -> Seq<C>
    decreases commands.len(),
{
    if commands.len() == 0 {
        Seq::empty()
    } else {
        match commands[0] {
            TceProxyCommand::SubmitCertificate(cert) => seq![*cert] + submitted(
                commands.drop_first(),
            ),
            TceProxyCommand::Shutdown(_) => Seq::empty(),
        }
    }
}

/// A command to the client, and what the TCE service would answer if the command asked it for a
/// source head.
#[verifier::reject_recursive_types(C)]
pub struct ClientStep<C, P> {
    pub command: TceClientCommand<C, P>,
    pub answer: SourceHeadResponse<C>,
}

impl<C, P> ClientStep<C, P> {
    /// Whether the command task goes on after this step.
    pub open spec fn goes_on(self) -> bool {
        match self.command {
            TceClientCommand::Shutdown => false,
            TceClientCommand::GetSourceHead { subnet_id, sender: _ } => source_head_reply(
                subnet_id,
                self.answer,
            ) is Some,
            _ => true,
        }
    }
}

/// The commands of some steps.
pub open spec fn commands_of<C, P>(steps: Seq<ClientStep<C, P>>) -> Seq<TceClientCommand<C, P>> {
    steps.map_values(|step: ClientStep<C, P>| step.command)
}

/// What the command task does about `steps`, until it ends.
pub open spec fn carried_out<C, P>(steps: Seq<ClientStep<C, P>>, told: bool) -> Seq<
    CommandAction<C, P>,
>
    decreases steps.len(),
{
    if steps.len() == 0 {
        Seq::empty()
    } else {
        seq![command_action(steps[0].command, told)] + if steps[0].goes_on() {
            carried_out(steps.drop_first(), told)
        } else {
            Seq::empty()
        }
    }
}

/// The certificates that `actions` submit to the TCE service.
pub open spec fn submissions<C, P>(actions: Seq<CommandAction<C, P>>) -> Seq<C>
    decreases actions.len(),
{
    if actions.len() == 0 {
        Seq::empty()
    } else {
        match actions[0] {
            CommandAction::Submit(cert) => seq![cert] + submissions(actions.drop_first()),
            _ => submissions(actions.drop_first()),
        }
    }
}

/// How often `actions` tell the watch task to finish.
pub open spec fn words_to_finish<C, P>(actions: Seq<CommandAction<C, P>>) -> nat
    decreases actions.len(),
{
    if actions.len() == 0 {
        0
    } else {
        words_to_finish(actions.drop_first()) + if actions[0] is Finish || actions[0]
            is WatchTaskLost {
            1nat
        } else {
            0nat
        }
    }
}

/// How one step changes the command task.
pub open spec fn client_step<C, P>(
    before: CommandTask<C, P>,
    step: ClientStep<C, P>,
    told: bool,
    after: CommandTask<C, P>,
) -> bool {
    match step.command {
        TceClientCommand::GetSourceHead { subnet_id, sender: _ } => exists|
            asking: CommandTask<C, P>,
        | #[trigger]
            command_step(before, step.command, told, asking) && source_head_step(
                asking,
                subnet_id,
                step.answer,
                after,
            ),
        _ => command_step(before, step.command, told, after),
    }
}

/// Step `i` of a run of the command task.
pub open spec fn command_task_run_step<C, P>(
    tasks: Seq<CommandTask<C, P>>,
    steps: Seq<ClientStep<C, P>>,
    actions: Seq<CommandAction<C, P>>,
    told: bool,
    i: int,
) -> bool {
    &&& tasks[i].running
    &&& client_step(tasks[i], steps[i], told, tasks[i + 1])
    &&& actions[i] == command_action(steps[i].command, told)
}

/// A run of the command task: `tasks` are the states that it goes through, each running but
/// perhaps the last, and `actions` is what it does on the way.
pub open spec fn is_command_task_run<C, P>(
    tasks: Seq<CommandTask<C, P>>,
    steps: Seq<ClientStep<C, P>>,
    actions: Seq<CommandAction<C, P>>,
    told: bool,
) -> bool {
    &&& tasks.len() == steps.len() + 1
    &&& actions.len() == steps.len()
    &&& forall|i: int|
        0 <= i < steps.len() ==> #[trigger] command_task_run_step(tasks, steps, actions, told, i)
}

/// Waiting for the next command is no step of the command task: whatever the wait does to the
/// receiver, the steps before and after it make a run.
pub proof fn law_the_command_task_may_wait<C, P>(
    before: CommandTask<C, P>,
    step: ClientStep<C, P>,
    told: bool,
    after: CommandTask<C, P>,
    waited: CommandTask<C, P>,
)
    requires
        client_step(before, step, told, after),
        waited == (CommandTask { commands: waited.commands, ..after }),
        waited.commands.same_channel(&after.commands),
    ensures
        client_step(before, step, told, waited),
{
    if let TceClientCommand::GetSourceHead { subnet_id, sender: _ } = step.command {
        let asking = choose|asking: CommandTask<C, P>| #[trigger]
            command_step(before, step.command, told, asking) && source_head_step(
                asking,
                subnet_id,
                step.answer,
                after,
            );
        assert(source_head_step(asking, subnet_id, step.answer, waited));
    }
}

/// The command task does what `carried_out` says, and hands the word to finish to the watch task
/// as often as that says; the watch task takes it if and only if it is there. The command task runs
/// on if and only if its last step lets it.
pub proof fn law_command_task_carries_out<C, P>(
    tasks: Seq<CommandTask<C, P>>,
    steps: Seq<ClientStep<C, P>>,
    actions: Seq<CommandAction<C, P>>,
    told: bool,
)
    requires
        is_command_task_run(tasks, steps, actions, told),
    ensures
        actions == carried_out(steps, told),
        tasks.last().inbound_shutdown_sender.offered().len()
            == tasks[0].inbound_shutdown_sender.offered().len() + words_to_finish(actions),
        tasks.last().inbound_shutdown_sender.taken().len()
            == tasks[0].inbound_shutdown_sender.taken().len() + if told {
            words_to_finish(actions)
        } else {
            0
        },
        steps.len() > 0 ==> tasks.last().running == steps.last().goes_on(),
        tasks.last().same_ends(&tasks[0]),
    decreases steps.len(),
{
    if steps.len() == 0 {
        assert(actions =~= carried_out(steps, told));
    } else {
        let later_tasks = tasks.drop_first();
        let later_steps = steps.drop_first();
        let later_actions = actions.drop_first();
        assert(command_task_run_step(tasks, steps, actions, told, 0));
        assert(tasks[1].running == steps[0].goes_on());
        assert forall|i: int| 0 <= i < later_steps.len() implies #[trigger] command_task_run_step(
            later_tasks,
            later_steps,
            later_actions,
            told,
            i,
        ) by {
            assert(command_task_run_step(tasks, steps, actions, told, i + 1));
        }
        law_command_task_carries_out(later_tasks, later_steps, later_actions, told);
        if later_steps.len() > 0 {
            assert(command_task_run_step(tasks, steps, actions, told, 1));
        }
        lemma_first_action(steps, told);
        assert(actions[0] == carried_out(steps, told)[0]);
        assert(actions =~= carried_out(steps, told)) by {
            assert(actions =~= seq![actions[0]] + later_actions);
            assert(carried_out(steps, told) =~= seq![actions[0]] + carried_out(
                steps,
                told,
            ).drop_first());
            if !steps[0].goes_on() {
                assert(later_steps.len() == 0);
            }
        }
    }
}

/// The command task takes nothing after a shutdown: it is not there any more to find that its
/// client is gone.
pub proof fn law_a_shutdown_is_the_last_command<C, P>(
    tasks: Seq<CommandTask<C, P>>,
    steps: Seq<ClientStep<C, P>>,
    actions: Seq<CommandAction<C, P>>,
    told: bool,
    i: int,
)
    requires
        is_command_task_run(tasks, steps, actions, told),
        0 <= i < steps.len(),
        steps[i].command is Shutdown,
    ensures
        i == steps.len() - 1,
        !tasks.last().running,
{
    assert(command_task_run_step(tasks, steps, actions, told, i));
    if i + 1 < steps.len() {
        assert(command_task_run_step(tasks, steps, actions, told, i + 1));
    }
}

/// Only a shutdown and a source head that cannot be read end the command task. Whatever else it
/// takes, in whatever order, it runs on, holds what it held, and has told the watch task nothing.
pub proof fn law_the_command_task_runs_on<C, P>(
    tasks: Seq<CommandTask<C, P>>,
    steps: Seq<ClientStep<C, P>>,
    actions: Seq<CommandAction<C, P>>,
    told: bool,
)
    requires
        is_command_task_run(tasks, steps, actions, told),
        tasks[0].running,
        forall|i: int|
            0 <= i < steps.len() ==> match (#[trigger] steps[i]).command {
                TceClientCommand::Shutdown => false,
                TceClientCommand::GetSourceHead { subnet_id: _, sender: _ } => !(
                steps[i].answer matches Ok(Some(ReceivedCertificate::Invalid))),
                TceClientCommand::OpenStream { target_checkpoint: _ } => true,
                TceClientCommand::SendCertificate { cert: _ } => true,
            },
    ensures
        tasks.last().running,
        tasks.last().outbound == tasks[0].outbound,
        tasks.last().commands.channel() == tasks[0].commands.channel(),
        tasks.last().inbound_shutdown_sender.channel()
            == tasks[0].inbound_shutdown_sender.channel(),
        tasks.last().inbound_shutdown_sender.offered()
            == tasks[0].inbound_shutdown_sender.offered(),
        forall|i: int|
            0 <= i < steps.len() ==> match steps[i].command {
                TceClientCommand::SendCertificate { cert } => #[trigger] actions[i]
                    == CommandAction::<C, P>::Submit(*cert),
                TceClientCommand::OpenStream { target_checkpoint } => actions[i]
                    == CommandAction::<C, P>::Open(OpenStream { target_checkpoint }),
                TceClientCommand::GetSourceHead { subnet_id, sender } => actions[i] == (
                CommandAction::<C, P>::FetchSourceHead { subnet_id, sender }),
                TceClientCommand::Shutdown => false,
            },
    decreases steps.len(),
{
    if steps.len() > 0 {
        let last = steps.len() - 1;
        let earlier_tasks = tasks.drop_last();
        let earlier_steps = steps.drop_last();
        let earlier_actions = actions.drop_last();
        assert(command_task_run_step(tasks, steps, actions, told, last));
        assert forall|i: int| 0 <= i < earlier_steps.len() implies #[trigger] command_task_run_step(
            earlier_tasks,
            earlier_steps,
            earlier_actions,
            told,
            i,
        ) by {
            assert(command_task_run_step(tasks, steps, actions, told, i));
        }
        assert forall|i: int| 0 <= i < earlier_steps.len() implies match (
        #[trigger] earlier_steps[i]).command {
            TceClientCommand::Shutdown => false,
            TceClientCommand::GetSourceHead { subnet_id: _, sender: _ } => !(
            earlier_steps[i].answer matches Ok(Some(ReceivedCertificate::Invalid))),
            TceClientCommand::OpenStream { target_checkpoint: _ } => true,
            TceClientCommand::SendCertificate { cert: _ } => true,
        } by {
            assert(earlier_steps[i] == steps[i]);
        }
        law_the_command_task_runs_on(earlier_tasks, earlier_steps, earlier_actions, told);
        assert(tasks[0] == earlier_tasks[0]);
        assert(steps[last].goes_on());
        assert forall|i: int| 0 <= i < steps.len() implies match steps[i].command {
            TceClientCommand::SendCertificate { cert } => #[trigger] actions[i]
                == CommandAction::<C, P>::Submit(*cert),
            TceClientCommand::OpenStream { target_checkpoint } => actions[i] == CommandAction::<
                C,
                P,
            >::Open(OpenStream { target_checkpoint }),
            TceClientCommand::GetSourceHead { subnet_id, sender } => actions[i] == (
            CommandAction::<C, P>::FetchSourceHead { subnet_id, sender }),
            TceClientCommand::Shutdown => false,
        } by {
            assert(command_task_run_step(tasks, steps, actions, told, i));
            assert(match steps[i].command {
                TceClientCommand::Shutdown => false,
                _ => true,
            });
        }
    }
}

/// The steps of a client that was started in order, and then got the commands that the loop of
/// the proxy forwards: at first nothing is submitted and nothing ends the command task.
pub open spec fn is_client_run<C, P>(
    start: Seq<ClientStep<C, P>>,
    steps: Seq<ClientStep<C, P>>,
    commands: Seq<TceProxyCommand<C>>,
) -> bool {
    &&& forall|i: int|
        0 <= i < start.len() ==> (#[trigger] start[i]).goes_on() && !(start[i].command
            is SendCertificate)
    &&& commands_of(steps) == forwarded::<C, P>(commands)
}

/// What the application submits is submitted to the TCE node: the same certificates, unchanged and
/// in the same order, each once, up to the shutdown of the proxy.
pub proof fn law_submitted_certificates_reach_the_tce_node<C, P>(
    start: Seq<ClientStep<C, P>>,
    steps: Seq<ClientStep<C, P>>,
    commands: Seq<TceProxyCommand<C>>,
    told: bool,
)
    requires
        is_client_run(start, steps, commands),
    ensures
        submissions(carried_out(start + steps, told)) == submitted(commands),
    decreases start.len() + steps.len(),
{
    let all = start + steps;
    if start.len() > 0 {
        lemma_rest_of_start(start, steps, commands);
        law_submitted_certificates_reach_the_tce_node(start.drop_first(), steps, commands, told);
        lemma_first_action(all, told);
    } else if commands.len() == 0 {
        assert(all.len() == commands_of(steps).len());
    } else {
        assert(all =~= steps);
        assert(steps.len() == commands_of(steps).len());
        assert(steps[0].command == commands_of(steps)[0]);
        lemma_first_action(all, told);
        match commands[0] {
            TceProxyCommand::SubmitCertificate(_) => {
                lemma_rest_of_forwarded(steps, commands);
                assert(start + steps.drop_first() =~= steps.drop_first());
                law_submitted_certificates_reach_the_tce_node(
                    start,
                    steps.drop_first(),
                    commands.drop_first(),
                    told,
                );
            },
            TceProxyCommand::Shutdown(_) => {
                let rest = carried_out(all, told).drop_first();
                assert(rest.len() == 0);
                assert(submissions(rest) == Seq::<C>::empty());
            },
        }
    }
}

/// A client that first opens the stream and then gets the source head, which can be read or is
/// missing or comes as an error, then submits what the application submits: the same certificates,
/// unchanged and in the same order, each once, up to the shutdown of the proxy.
pub proof fn law_what_is_submitted_after_the_start_reaches_the_tce_node<C, P>(
    open: ClientStep<C, P>,
    ask: ClientStep<C, P>,
    steps: Seq<ClientStep<C, P>>,
    commands: Seq<TceProxyCommand<C>>,
    told: bool,
)
    requires
        open.command is OpenStream,
        ask.command is GetSourceHead,
        !(ask.answer matches Ok(Some(ReceivedCertificate::Invalid))),
        commands_of(steps) == forwarded::<C, P>(commands),
    ensures
        submissions(carried_out(seq![open, ask] + steps, told)) == submitted(commands),
{
    law_submitted_certificates_reach_the_tce_node(seq![open, ask], steps, commands, told);
}

/// What is left of a run after the first step of its start.
proof fn lemma_rest_of_start<C, P>(
    start: Seq<ClientStep<C, P>>,
    steps: Seq<ClientStep<C, P>>,
    commands: Seq<TceProxyCommand<C>>,
)
    requires
        is_client_run(start, steps, commands),
        start.len() > 0,
    ensures
        is_client_run(start.drop_first(), steps, commands),
        (start + steps).drop_first() == start.drop_first() + steps,
        start[0].goes_on(),
        !(start[0].command is SendCertificate),
{
    let rest = start.drop_first();
    assert((start + steps).drop_first() =~= rest + steps);
    assert forall|i: int| 0 <= i < rest.len() implies (#[trigger] rest[i]).goes_on() && !(
    rest[i].command is SendCertificate) by {
        assert(start[i + 1].goes_on());
    }
}

/// The first of the actions, and the others.
proof fn lemma_first_action<C, P>(steps: Seq<ClientStep<C, P>>, told: bool)
    requires
        steps.len() > 0,
    ensures
        carried_out(steps, told).len() > 0,
        carried_out(steps, told)[0] == command_action(steps[0].command, told),
        carried_out(steps, told).drop_first() == if steps[0].goes_on() {
            carried_out(steps.drop_first(), told)
        } else {
            Seq::empty()
        },
{
    assert(carried_out(steps, told).drop_first() =~= if steps[0].goes_on() {
        carried_out(steps.drop_first(), told)
    } else {
        Seq::empty()
    });
}

/// The steps that come after the one for a submitted certificate.
proof fn lemma_rest_of_forwarded<C, P>(
    steps: Seq<ClientStep<C, P>>,
    commands: Seq<TceProxyCommand<C>>,
)
    requires
        commands.len() > 0,
        commands[0] is SubmitCertificate,
        commands_of(steps) == forwarded::<C, P>(commands),
    ensures
        steps.len() > 0,
        commands_of(steps.drop_first()) == forwarded::<C, P>(commands.drop_first()),
{
    assert(commands_of(steps).len() == steps.len());
    assert(commands_of(steps.drop_first()) =~= commands_of(steps).drop_first());
    assert(commands_of(steps).drop_first() =~= forwarded::<C, P>(commands.drop_first()));
}

/// Whether the application shuts the proxy down.
pub open spec fn shuts_down<C>(commands: Seq<TceProxyCommand<C>>) -> bool {
    exists|i: int| 0 <= i < commands.len() && #[trigger] commands[i] is Shutdown
}

/// A shutdown of the proxy ends it all: the watch task is told to finish exactly once, as the last
/// thing that the command task does. Without a shutdown it is never told.
pub proof fn law_shutdown_reaches_the_watch_task<C, P>(
    start: Seq<ClientStep<C, P>>,
    steps: Seq<ClientStep<C, P>>,
    commands: Seq<TceProxyCommand<C>>,
    told: bool,
)
    requires
        is_client_run(start, steps, commands),
    ensures
        ({
            let actions = carried_out(start + steps, told);
            if shuts_down(commands) {
                &&& words_to_finish(actions) == 1
                &&& actions.last() == command_action(TceClientCommand::<C, P>::Shutdown, told)
            } else {
                words_to_finish(actions) == 0
            }
        }),
    decreases start.len() + steps.len(),
{
    let all = start + steps;
    let actions = carried_out(all, told);
    if start.len() > 0 {
        lemma_rest_of_start(start, steps, commands);
        law_shutdown_reaches_the_watch_task(start.drop_first(), steps, commands, told);
        lemma_first_action(all, told);
        if shuts_down(commands) {
            assert(actions.drop_first().len() > 0);
            assert(actions.last() == actions.drop_first().last());
        }
    } else if commands.len() == 0 {
        assert(all.len() == commands_of(steps).len());
    } else {
        assert(all =~= steps);
        assert(steps.len() == commands_of(steps).len());
        assert(steps[0].command == commands_of(steps)[0]);
        lemma_first_action(all, told);
        match commands[0] {
            TceProxyCommand::SubmitCertificate(_) => {
                lemma_rest_of_forwarded(steps, commands);
                assert(start + steps.drop_first() =~= steps.drop_first());
                let rest = commands.drop_first();
                law_shutdown_reaches_the_watch_task(start, steps.drop_first(), rest, told);
                if shuts_down(commands) {
                    let i = choose|i: int|
                        0 <= i < commands.len() && #[trigger] commands[i] is Shutdown;
                    assert(rest[i - 1] is Shutdown);
                    assert(shuts_down(rest));
                    assert(actions.drop_first().len() > 0);
                    assert(actions.last() == actions.drop_first().last());
                } else {
                    assert forall|i: int| 0 <= i < rest.len() implies !(
                    #[trigger] rest[i] is Shutdown) by {
                        assert(!(commands[i + 1] is Shutdown));
                    }
                }
            },
            TceProxyCommand::Shutdown(_) => {
                assert(commands[0] is Shutdown);
                assert(shuts_down(commands));
                assert(actions.drop_first().len() == 0);
                assert(words_to_finish(actions.drop_first()) == 0);
                assert(actions.len() == 1);
            },
        }
    }
}

/// Nothing that the application asks for after a shutdown is done.
pub proof fn law_nothing_is_done_after_a_shutdown<C, P>(
    before: Seq<TceProxyCommand<C>>,
    shutdown: TceProxyCommand<C>,
    after: Seq<TceProxyCommand<C>>,
)
    requires
        shutdown is Shutdown,
    ensures
        forwarded::<C, P>(before.push(shutdown) + after) == forwarded::<C, P>(
            before.push(shutdown),
        ),
    decreases before.len(),
{
    let all = before.push(shutdown) + after;
    if before.len() > 0 {
        assert(all.drop_first() =~= before.drop_first().push(shutdown) + after);
        assert(before.push(shutdown).drop_first() =~= before.drop_first().push(shutdown));
        law_nothing_is_done_after_a_shutdown::<C, P>(before.drop_first(), shutdown, after);
    }
}

// ---- The loop of the proxy ----

/// What the loop of the proxy takes.
#[verifier::reject_recursive_types(C)]
pub enum ProxyInput<C> {
    /// A command of the application.
    Command(TceProxyCommand<C>),
    /// A certificate that the TCE node delivered.
    Certificate(C),
}

/// The commands among `inputs`.
pub open spec fn commands_among<C>(inputs: Seq<ProxyInput<C>>) -> Seq<TceProxyCommand<C>>
    decreases inputs.len(),
{
    if inputs.len() == 0 {
        Seq::empty()
    } else {
        match inputs[0] {
            ProxyInput::Command(cmd) => seq![cmd] + commands_among(inputs.drop_first()),
            ProxyInput::Certificate(_) => commands_among(inputs.drop_first()),
        }
    }
}

/// The certificates among `inputs`.
pub open spec fn certificates_among<C>(inputs: Seq<ProxyInput<C>>) -> Seq<C>
    decreases inputs.len(),
{
    if inputs.len() == 0 {
        Seq::empty()
    } else {
        match inputs[0] {
            ProxyInput::Command(_) => certificates_among(inputs.drop_first()),
            ProxyInput::Certificate(cert) => seq![cert] + certificates_among(inputs.drop_first()),
        }
    }
}

/// The command that the loop of the proxy sends to the client to carry out an action.
pub open spec fn command_for_client<C, P>(action: ProxyAction<C, P>) -> TceClientCommand<C, P> {
    match action {
        ProxyAction::Forward(command) => command,
        ProxyAction::Close { command, closing: _ } => command,
    }
}

/// How one input changes the loop of the proxy.
pub open spec fn proxy_step<C, P>(
    before: ProxyLoop<C, P>,
    input: ProxyInput<C>,
    after: ProxyLoop<C, P>,
) -> bool {
    match input {
        ProxyInput::Command(cmd) => proxy_command_step(before, cmd, after),
        ProxyInput::Certificate(cert) => proxy_certificate_step(before, cert, after),
    }
}

/// Waiting for the next command or certificate is no step of the loop of the proxy: whatever the
/// wait does to the receivers, the steps before and after it make a run.
pub proof fn law_the_loop_may_wait<C, P>(
    before: ProxyLoop<C, P>,
    input: ProxyInput<C>,
    after: ProxyLoop<C, P>,
    waited: ProxyLoop<C, P>,
)
    requires
        proxy_step(before, input, after),
        waited == (ProxyLoop {
            command_rcv: waited.command_rcv,
            certificates: waited.certificates,
            ..after
        }),
        waited.command_rcv.same_channel(&after.command_rcv),
        waited.certificates.same_channel(&after.certificates),
    ensures
        proxy_step(before, input, waited),
{
}

/// Step `i` of a run of the loop of the proxy.
pub open spec fn proxy_run_step<C, P>(
    loops: Seq<ProxyLoop<C, P>>,
    inputs: Seq<ProxyInput<C>>,
    i: int,
) -> bool {
    loops[i].running && proxy_step(loops[i], inputs[i], loops[i + 1])
}

/// A run of the loop of the proxy: `loops` are the states that it goes through, each running but
/// perhaps the last.
pub open spec fn is_proxy_run<C, P>(
    loops: Seq<ProxyLoop<C, P>>,
    inputs: Seq<ProxyInput<C>>,
) -> bool {
    &&& loops.len() == inputs.len() + 1
    &&& forall|i: int| 0 <= i < inputs.len() ==> #[trigger] proxy_run_step(loops, inputs, i)
}

/// Whether an input is the command to shut down.
pub open spec fn is_shutdown_input<C>(input: ProxyInput<C>) -> bool {
    input matches ProxyInput::Command(cmd) && cmd is Shutdown
}

/// However often the application asks for a shutdown, the loop takes one at most, and it is the
/// last thing that it takes.
pub proof fn law_the_loop_takes_one_shutdown<C, P>(
    loops: Seq<ProxyLoop<C, P>>,
    inputs: Seq<ProxyInput<C>>,
    i: int,
)
    requires
        is_proxy_run(loops, inputs),
        0 <= i < inputs.len(),
        is_shutdown_input(inputs[i]),
    ensures
        i == inputs.len() - 1,
        !loops.last().running,
        forall|j: int| 0 <= j < inputs.len() && #[trigger] is_shutdown_input(inputs[j]) ==> j == i,
{
    assert(proxy_run_step(loops, inputs, i));
    if i + 1 < inputs.len() {
        assert(proxy_run_step(loops, inputs, i + 1));
    }
    assert forall|j: int|
        0 <= j < inputs.len() && #[trigger] is_shutdown_input(inputs[j]) implies j == i by {
        assert(proxy_run_step(loops, inputs, j));
        if j < i {
            assert(proxy_run_step(loops, inputs, j + 1));
        }
    }
}

/// The loop goes on after every certificate that the application submits; when it is over, it was
/// shut down or the application was not there to be told of a certificate. Until then, and after,
/// it holds the client and the ends that it started with.
pub proof fn law_the_loop_runs_on<C, P>(loops: Seq<ProxyLoop<C, P>>, inputs: Seq<ProxyInput<C>>)
    requires
        is_proxy_run(loops, inputs),
        loops[0].running,
    ensures
        !loops.last().running ==> inputs.len() > 0 && match inputs.last() {
            ProxyInput::Command(TceProxyCommand::Shutdown(_)) => true,
            ProxyInput::Command(TceProxyCommand::SubmitCertificate(_)) => false,
            ProxyInput::Certificate(_) => true,
        },
        loops.last().tce_client@ == loops[0].tce_client@,
        loops.last().command_rcv.channel() == loops[0].command_rcv.channel(),
        loops.last().certificates.channel() == loops[0].certificates.channel(),
        loops.last().evt_sender.channel() == loops[0].evt_sender.channel(),
{
    law_the_loop_keeps_both_directions_apart(loops, inputs);
    if inputs.len() > 0 {
        assert(proxy_run_step(loops, inputs, inputs.len() - 1));
    }
}

/// Whether the application was there to take every event of a run: the loop only ends otherwise if
/// it was not.
pub open spec fn application_stayed<C, P>(
    loops: Seq<ProxyLoop<C, P>>,
    inputs: Seq<ProxyInput<C>>,
) -> bool {
    loops.last().running || (inputs.len() > 0 && inputs.last() is Command)
}

/// However commands and certificates alternate, the application is told of the certificates, in
/// order and each in an event of its own, and of nothing else, through this handle or one made from
/// it, and it takes them all if it is there; and the client is sent what `forwarded` says of the
/// commands.
pub proof fn law_the_loop_keeps_both_directions_apart<C, P>(
    loops: Seq<ProxyLoop<C, P>>,
    inputs: Seq<ProxyInput<C>>,
)
    requires
        is_proxy_run(loops, inputs),
    ensures
        events_offered(loops.last().evt_sender) == events_offered(loops[0].evt_sender)
            + deliveries(certificates_among(inputs)),
        application_stayed(loops, inputs) ==> events_taken(loops.last().evt_sender)
            == events_taken(loops[0].evt_sender) + deliveries(certificates_among(inputs)),
        commands_among(inputs).map_values(
            |cmd: TceProxyCommand<C>| command_for_client(proxy_action::<C, P>(cmd)),
        ) == forwarded::<C, P>(commands_among(inputs)),
        loops.last().evt_sender.handles() == loops[0].evt_sender.handles(),
        loops.last().same_ends(&loops[0]),
    decreases inputs.len(),
{
    let sent = |cmd: TceProxyCommand<C>| command_for_client(proxy_action::<C, P>(cmd));
    let all = deliveries(certificates_among(inputs));
    if inputs.len() == 0 {
        assert(all =~= Seq::empty());
        assert(commands_among(inputs).map_values(sent) =~= Seq::empty());
        assert(events_offered(loops.last().evt_sender) =~= events_offered(loops[0].evt_sender)
            + all);
        assert(events_taken(loops.last().evt_sender) =~= events_taken(loops[0].evt_sender) + all);
    } else {
        let later_loops = loops.drop_first();
        let later_inputs = inputs.drop_first();
        let later = deliveries(certificates_among(later_inputs));
        assert(proxy_run_step(loops, inputs, 0));
        assert forall|i: int| 0 <= i < later_inputs.len() implies #[trigger] proxy_run_step(
            later_loops,
            later_inputs,
            i,
        ) by {
            assert(proxy_run_step(loops, inputs, i + 1));
        }
        law_the_loop_keeps_both_directions_apart(later_loops, later_inputs);
        if later_inputs.len() > 0 {
            assert(proxy_run_step(loops, inputs, 1));
            assert(later_inputs.last() == inputs.last());
        } else {
            assert(later =~= Seq::empty());
            assert(loops.last() == loops[1]);
        }
        match inputs[0] {
            ProxyInput::Certificate(cert) => {
                assert(all =~= seq![delivery(cert)] + later);
                assert(events_offered(loops.last().evt_sender) =~= events_offered(
                    loops[0].evt_sender,
                ) + all);
                if application_stayed(loops, inputs) {
                    assert(events_taken(loops.last().evt_sender) =~= events_taken(
                        loops[0].evt_sender,
                    ) + all);
                }
            },
            ProxyInput::Command(cmd) => {
                let commands = commands_among(inputs);
                assert(all == later);
                assert(commands.drop_first() =~= commands_among(later_inputs));
                assert(commands.map_values(sent) =~= seq![sent(cmd)] + commands_among(
                    later_inputs,
                ).map_values(sent));
                if later_inputs.len() == 0 {
                    assert(events_taken(loops.last().evt_sender) =~= events_taken(
                        loops[0].evt_sender,
                    ) + all);
                }
                if cmd is Shutdown {
                    assert(commands_among(later_inputs) =~= Seq::empty());
                    assert(commands.map_values(sent) =~= forwarded::<C, P>(commands));
                }
            },
        }
    }
}

/// A shutdown that the loop takes ends in success: once the client was told to finish, whatever
/// came of that, the loop replies to the one who waits, and with that reply the shutdown is over.
pub proof fn law_a_shutdown_that_is_taken_succeeds<C, P, E>(
    before: TceProxyWorkerView<C, P>,
    after: TceProxyWorkerView<C, P>,
    awaited: ReplyRx<()>,
    closed: Result<(), Error>,
    result: Result<(), String>,
)
    requires
        shutdown_stage(before, after, Ok(awaited)),
        shutdown_outcome(Ok::<(), E>(()), result),
    ensures
        after.commands.taken() == before.commands.taken().push(
            TceProxyCommand::Shutdown(awaited.channel()),
        ),
        proxy_action::<C, P>(after.commands.taken().last()) matches ProxyAction::Close {
            command,
            closing,
        } && command is Shutdown && closing_reply(closing, closed) == (Reply {
            sender: awaited.channel(),
            value: (),
        }),
        result == Ok::<(), String>(()),
{
}

// ---- From the TCE node to the application ----

/// The certificates that the watch task delivers on account of `responses`.
pub open spec fn delivered<C>(responses: Seq<WatchResponse<C>>) -> Seq<C>
    decreases responses.len(),
{
    if responses.len() == 0 {
        Seq::empty()
    } else {
        match watch_action(responses.last()) {
            WatchAction::Deliver(certificate) => delivered(responses.drop_last()).push(certificate),
            WatchAction::Wait => delivered(responses.drop_last()),
        }
    }
}

/// The events with which the loop of the proxy tells the application of `certificates`.
pub open spec fn deliveries<C>(certificates: Seq<C>) -> Seq<TceProxyEventView<C>> {
    certificates.map_values(|certificate: C| delivery(certificate))
}

/// Whether a message brings a certificate that can be read.
pub open spec fn brings_certificate<C>(response: WatchResponse<C>) -> bool {
    certificate_brought(response) is Some
}

/// The application is told of every certificate that the TCE node pushes and that can be read:
/// unchanged, in the order in which they came, each once and in an event of its own. It is told of
/// no other.
pub proof fn law_pushed_certificates_reach_the_application<C, P>(
    responses: Seq<WatchResponse<C>>,
    loops: Seq<ProxyLoop<C, P>>,
    inputs: Seq<ProxyInput<C>>,
)
    requires
        is_proxy_run(loops, inputs),
        certificates_among(inputs) == delivered(responses),
    ensures
        events_offered(loops.last().evt_sender) == events_offered(loops[0].evt_sender)
            + responses.filter(
            |response: WatchResponse<C>| brings_certificate(response),
        ).map_values(|response: WatchResponse<C>| delivery(certificate_brought(response)->0)),
        application_stayed(loops, inputs) ==> events_taken(loops.last().evt_sender)
            == events_taken(loops[0].evt_sender) + responses.filter(
            |response: WatchResponse<C>| brings_certificate(response),
        ).map_values(|response: WatchResponse<C>| delivery(certificate_brought(response)->0)),
{
    law_the_loop_keeps_both_directions_apart(loops, inputs);
    lemma_deliveries(responses);
}

/// The certificates that are delivered are those that can be read.
proof fn lemma_deliveries<C>(responses: Seq<WatchResponse<C>>)
    ensures
        deliveries(delivered(responses)) == responses.filter(
            |response: WatchResponse<C>| brings_certificate(response),
        ).map_values(|response: WatchResponse<C>| delivery(certificate_brought(response)->0)),
    decreases responses.len(),
{
    reveal(Seq::filter);
    let brings = |response: WatchResponse<C>| brings_certificate(response);
    let told = |response: WatchResponse<C>| delivery(certificate_brought(response)->0);
    if responses.len() > 0 {
        let others = responses.drop_last();
        lemma_deliveries(others);
        match certificate_brought(responses.last()) {
            Some(certificate) => {
                assert(deliveries(delivered(responses)) =~= deliveries(delivered(others)).push(
                    delivery(certificate),
                ));
                assert(responses.filter(brings).map_values(told) =~= others.filter(
                    brings,
                ).map_values(told).push(delivery(certificate)));
            },
            None => {},
        }
    } else {
        assert(deliveries(delivered(responses)) =~= responses.filter(brings).map_values(told));
    }
}

/// Step `i` of a run of the watch task.
pub open spec fn watch_run_step<C>(
    tasks: Seq<WatchTask<C>>,
    responses: Seq<WatchResponse<C>>,
    i: int,
) -> bool {
    tasks[i].running && watch_step(tasks[i], responses[i], tasks[i + 1])
}

/// A run of the watch task: `tasks` are the states that it goes through on account of `responses`.
pub open spec fn is_watch_run<C>(
    tasks: Seq<WatchTask<C>>,
    responses: Seq<WatchResponse<C>>,
) -> bool {
    &&& tasks.len() == responses.len() + 1
    &&& forall|i: int| 0 <= i < responses.len() ==> #[trigger] watch_run_step(tasks, responses, i)
}

/// Every error of the stream is reported to the application, once each, if there is anywhere to
/// report it; nothing else is reported, and nothing on the stream ends the watch task. What the
/// application takes of it are such reports, and no more than were made.
pub proof fn law_every_stream_error_is_reported<C>(
    tasks: Seq<WatchTask<C>>,
    responses: Seq<WatchResponse<C>>,
)
    requires
        is_watch_run(tasks, responses),
        tasks[0].running,
    ensures
        tasks.last().events() == tasks[0].events() + Seq::new(
            if tasks[0].tce_proxy_event_sender is Some {
                responses.filter(|response: WatchResponse<C>| response is Err).len()
            } else {
                0
            },
            |i: int| TceProxyEventView::<C>::WatchCertificatesChannelFailed,
        ),
        tasks[0].events_heard().len() <= tasks.last().events_heard().len(),
        tasks.last().events_heard().len() - tasks[0].events_heard().len()
            <= tasks.last().events().len() - tasks[0].events().len(),
        tasks.last().events_heard() == tasks[0].events_heard() + Seq::new(
            (tasks.last().events_heard().len() - tasks[0].events_heard().len()) as nat,
            |i: int| TceProxyEventView::<C>::WatchCertificatesChannelFailed,
        ),
        tasks.last().running,
        tasks.last().same_ends(&tasks[0]),
    decreases responses.len(),
{
    reveal(Seq::filter);
    if responses.len() > 0 {
        let earlier_tasks = tasks.drop_last();
        let earlier_responses = responses.drop_last();
        assert(watch_run_step(tasks, responses, responses.len() - 1));
        assert forall|i: int| 0 <= i < earlier_responses.len() implies #[trigger] watch_run_step(
            earlier_tasks,
            earlier_responses,
            i,
        ) by {
            assert(watch_run_step(tasks, responses, i));
        }
        law_every_stream_error_is_reported(earlier_tasks, earlier_responses);
    }
    assert(tasks.last().events() =~= tasks[0].events() + Seq::new(
        if tasks[0].tce_proxy_event_sender is Some {
            responses.filter(|response: WatchResponse<C>| response is Err).len()
        } else {
            0
        },
        |i: int| TceProxyEventView::<C>::WatchCertificatesChannelFailed,
    ));
}

/// Whatever the TCE node says, and however much of it, the watch task runs on and holds what it was
/// launched with: the sender of the certificates, and the end at which it is told to finish.
pub proof fn law_the_watch_task_keeps_its_sender<C>(
    tasks: Seq<WatchTask<C>>,
    responses: Seq<WatchResponse<C>>,
)
    requires
        is_watch_run(tasks, responses),
        tasks[0].running,
    ensures
        tasks.last().running,
        tasks.last().inbound_certificate_sender == tasks[0].inbound_certificate_sender,
        tasks.last().inbound_shutdown_receiver.channel()
            == tasks[0].inbound_shutdown_receiver.channel(),
        tasks.last().tce_proxy_event_sender is Some == tasks[0].tce_proxy_event_sender is Some,
        tasks[0].tce_proxy_event_sender is Some ==> {
            let before = tasks[0].tce_proxy_event_sender->0;
            let after = tasks.last().tce_proxy_event_sender->0;
            &&& after.channel() == before.channel()
            &&& after.half() == before.half()
            &&& after.handles() == before.handles()
        },
    decreases responses.len(),
{
    if responses.len() > 0 {
        let earlier_tasks = tasks.drop_last();
        let earlier_responses = responses.drop_last();
        assert(watch_run_step(tasks, responses, responses.len() - 1));
        assert forall|i: int| 0 <= i < earlier_responses.len() implies #[trigger] watch_run_step(
            earlier_tasks,
            earlier_responses,
            i,
        ) by {
            assert(watch_run_step(tasks, responses, i));
        }
        law_the_watch_task_keeps_its_sender(earlier_tasks, earlier_responses);
        assert(earlier_tasks.last() == tasks[responses.len() - 1]);
    }
}

/// What the watch task takes.
pub enum WatchInput<C> {
    /// A message from the stream, or an error of it.
    Message(WatchResponse<C>),
    /// The word to finish.
    Word,
}

/// How many words to finish are among `inputs`.
pub open spec fn words_among<C>(inputs: Seq<WatchInput<C>>) -> nat
    decreases inputs.len(),
{
    if inputs.len() == 0 {
        0
    } else {
        words_among(inputs.drop_last()) + if inputs.last() is Word {
            1nat
        } else {
            0nat
        }
    }
}

/// How one input changes the watch task.
pub open spec fn watch_task_step<C>(
    before: WatchTask<C>,
    input: WatchInput<C>,
    after: WatchTask<C>,
) -> bool {
    match input {
        WatchInput::Message(response) => watch_step(before, response, after),
        WatchInput::Word => watch_finish_step(before, after),
    }
}

/// Waiting for the next message or for the word to finish is no step of the watch task: whatever
/// the wait does to the receiver, the steps before and after it make a run.
pub proof fn law_the_watch_task_may_wait<C>(
    before: WatchTask<C>,
    input: WatchInput<C>,
    after: WatchTask<C>,
    waited: WatchTask<C>,
)
    requires
        watch_task_step(before, input, after),
        waited == (WatchTask {
            inbound_shutdown_receiver: waited.inbound_shutdown_receiver,
            ..after
        }),
        waited.inbound_shutdown_receiver.same_channel(&after.inbound_shutdown_receiver),
    ensures
        watch_task_step(before, input, waited),
{
}

/// Step `i` of a run of the watch task that may be told to finish.
pub open spec fn watch_task_run_step<C>(
    tasks: Seq<WatchTask<C>>,
    inputs: Seq<WatchInput<C>>,
    i: int,
) -> bool {
    tasks[i].running && watch_task_step(tasks[i], inputs[i], tasks[i + 1])
}

/// A run of the watch task that may be told to finish.
pub open spec fn is_watch_task_run<C>(
    tasks: Seq<WatchTask<C>>,
    inputs: Seq<WatchInput<C>>,
) -> bool {
    &&& tasks.len() == inputs.len() + 1
    &&& forall|i: int| 0 <= i < inputs.len() ==> #[trigger] watch_task_run_step(tasks, inputs, i)
}

/// Without a word to finish the watch task goes on.
proof fn lemma_watch_task_goes_on<C>(tasks: Seq<WatchTask<C>>, inputs: Seq<WatchInput<C>>)
    requires
        is_watch_task_run(tasks, inputs),
        tasks[0].running,
        words_among(inputs) == 0,
    ensures
        tasks.last().running,
        tasks.last().same_ends(&tasks[0]),
    decreases inputs.len(),
{
    if inputs.len() > 0 {
        assert(watch_task_run_step(tasks, inputs, inputs.len() - 1));
        assert forall|i: int| 0 <= i < inputs.drop_last().len() implies
            #[trigger] watch_task_run_step(tasks.drop_last(), inputs.drop_last(), i) by {
            assert(watch_task_run_step(tasks, inputs, i));
        }
        lemma_watch_task_goes_on(tasks.drop_last(), inputs.drop_last());
    }
}

/// Until the command task takes a shutdown, no word to finish was handed to the watch task, so it
/// still runs and holds the end at which the word will come: the word finds it. It is told no more
/// often than the word was taken.
pub proof fn law_the_word_to_finish_finds_the_watch_task<S, C, P>(
    launched: Launched<S, C, P>,
    watch_tasks: Seq<WatchTask<C>>,
    inputs: Seq<WatchInput<C>>,
    command_tasks: Seq<CommandTask<C, P>>,
    steps: Seq<ClientStep<C, P>>,
    actions: Seq<CommandAction<C, P>>,
    told: bool,
    after: CommandTask<C, P>,
)
    requires
        launched.is_wired(),
        is_watch_task_run(watch_tasks, inputs),
        watch_tasks[0] == launched.watch_task,
        is_command_task_run(command_tasks, steps, actions, told),
        command_tasks[0] == launched.command_task,
        forall|i: int| 0 <= i < steps.len() ==> !((#[trigger] steps[i]).command is Shutdown),
        words_among(inputs) <= command_tasks.last().inbound_shutdown_sender.taken().len(),
        command_step(command_tasks.last(), TceClientCommand::Shutdown, told, after),
    ensures
        command_tasks.last().inbound_shutdown_sender.offered() == Seq::<()>::empty(),
        words_among(inputs) == 0,
        watch_tasks.last().running,
        watch_tasks.last().same_ends(&launched.watch_task),
        watch_tasks.last().inbound_shutdown_receiver.channel()
            == after.inbound_shutdown_sender.channel(),
        after.inbound_shutdown_sender.offered() == seq![()],
{
    law_command_task_carries_out(command_tasks, steps, actions, told);
    lemma_no_words(steps, told);
    assert(command_tasks.last().inbound_shutdown_sender.offered() =~= Seq::<()>::empty());
    lemma_watch_task_goes_on(watch_tasks, inputs);
    assert(after.inbound_shutdown_sender.offered() =~= seq![()]);
}

/// Without a shutdown the watch task is never told to finish.
proof fn lemma_no_words<C, P>(steps: Seq<ClientStep<C, P>>, told: bool)
    requires
        forall|i: int| 0 <= i < steps.len() ==> !((#[trigger] steps[i]).command is Shutdown),
    ensures
        words_to_finish(carried_out(steps, told)) == 0,
    decreases steps.len(),
{
    if steps.len() > 0 {
        lemma_first_action(steps, told);
        assert(!(steps[0].command is Shutdown));
        assert forall|i: int| 0 <= i < steps.drop_first().len() implies !((
        #[trigger] steps.drop_first()[i]).command is Shutdown) by {
            assert(!(steps[i + 1].command is Shutdown));
        }
        lemma_no_words(steps.drop_first(), told);
        if !steps[0].goes_on() {
            assert(words_to_finish(carried_out(steps, told).drop_first()) == 0);
        }
    }
}

/// A word to finish ends a run of the watch task.
proof fn lemma_a_word_is_the_last_input<C>(tasks: Seq<WatchTask<C>>, inputs: Seq<WatchInput<C>>)
    requires
        is_watch_task_run(tasks, inputs),
        words_among(inputs) > 0,
    ensures
        inputs.last() is Word,
        !tasks.last().running,
        tasks.last().inbound_certificate_sender is None,
    decreases inputs.len(),
{
    let last = inputs.len() - 1;
    assert(watch_task_run_step(tasks, inputs, last));
    if !(inputs.last() is Word) {
        let earlier_tasks = tasks.drop_last();
        let earlier_inputs = inputs.drop_last();
        assert forall|i: int| 0 <= i < earlier_inputs.len() implies
            #[trigger] watch_task_run_step(earlier_tasks, earlier_inputs, i) by {
            assert(watch_task_run_step(tasks, inputs, i));
        }
        lemma_a_word_is_the_last_input(earlier_tasks, earlier_inputs);
        assert(earlier_tasks.last() == tasks[last]);
    }
}

/// After a close both tasks have ended. The command task first did, in order, what each command
/// queued before it asks for. It then told the watch task to finish, once, and the watch task took
/// nothing more after that word: it has let go of the sender of the certificates, so that nothing
/// more can come in after those that were passed on before.
pub proof fn law_after_a_close_both_tasks_have_ended<S, C, P>(
    launched: Launched<S, C, P>,
    watch_tasks: Seq<WatchTask<C>>,
    inputs: Seq<WatchInput<C>>,
    command_tasks: Seq<CommandTask<C, P>>,
    steps: Seq<ClientStep<C, P>>,
    actions: Seq<CommandAction<C, P>>,
)
    requires
        launched.is_wired(),
        is_command_task_run(command_tasks, steps, actions, true),
        command_tasks[0] == launched.command_task,
        steps.len() > 0,
        steps.last().command is Shutdown,
        is_watch_task_run(watch_tasks, inputs),
        watch_tasks[0] == launched.watch_task,
        words_among(inputs) == command_tasks.last().inbound_shutdown_sender.taken().len(),
    ensures
        !command_tasks.last().running,
        !watch_tasks.last().running,
        forall|i: int|
            0 <= i < steps.len() ==> #[trigger] actions[i] == command_action(
                steps[i].command,
                true,
            ),
        actions.last() is Finish,
        command_tasks.last().inbound_shutdown_sender.taken() == seq![()],
        words_among(inputs) == 1,
        inputs.last() is Word,
        watch_tasks.last().inbound_certificate_sender is None,
{
    let last = steps.len() - 1;
    let earlier_tasks = command_tasks.drop_last();
    let earlier_steps = steps.drop_last();
    let earlier_actions = actions.drop_last();
    law_a_shutdown_is_the_last_command(command_tasks, steps, actions, true, last);
    assert forall|i: int| 0 <= i < steps.len() implies #[trigger] actions[i] == command_action(
        steps[i].command,
        true,
    ) by {
        assert(command_task_run_step(command_tasks, steps, actions, true, i));
    }
    assert forall|i: int| 0 <= i < earlier_steps.len() implies #[trigger] command_task_run_step(
        earlier_tasks,
        earlier_steps,
        earlier_actions,
        true,
        i,
    ) by {
        assert(command_task_run_step(command_tasks, steps, actions, true, i));
    }
    assert forall|i: int| 0 <= i < earlier_steps.len() implies !((
    #[trigger] earlier_steps[i]).command is Shutdown) by {
        if earlier_steps[i].command is Shutdown {
            law_a_shutdown_is_the_last_command(command_tasks, steps, actions, true, i);
        }
    }
    law_command_task_carries_out(earlier_tasks, earlier_steps, earlier_actions, true);
    lemma_no_words(earlier_steps, true);
    assert(command_task_run_step(command_tasks, steps, actions, true, last));
    assert(actions[last] == command_action(steps[last].command, true));
    assert(command_tasks.last().inbound_shutdown_sender.taken() =~= seq![()]);
    lemma_a_word_is_the_last_input(watch_tasks, inputs);
}

// ---- Starting ----

/// Opening the stream asks the TCE node for the certificates of the one subnet of the client, from
/// the positions that were given.
pub proof fn law_open_stream_asks_for_the_own_subnet<C, P>(
    command: TceClientCommand<C, P>,
    subnet_id: SubnetId,
    positions: Seq<P>,
    told: bool,
)
    requires
        is_open_stream(command, subnet_id, positions),
    ensures
        command_action(command, told) matches CommandAction::Open(request) && {
            &&& request.target_checkpoint.target_subnet_ids@ == seq![subnet_id]
            &&& request.target_checkpoint.positions@ == positions
        },
{
}

/// What the one who asked for a source head receives: the reply, if there is one. A sender that is
/// let go unused leaves them with an error.
pub open spec fn is_received<C, E>(
    answer: Result<Reply<Result<C, Error>>, Unanswered<C>>,
    received: Result<Result<C, Error>, E>,
) -> bool {
    match answer {
        Ok(reply) => received == Ok::<Result<C, Error>, E>(reply.value),
        Err(_) => received is Err,
    }
}

/// Whether the source head could not be had for the reason that the TCE node has none.
pub open spec fn is_empty_head<C>(head: Result<C, Error>) -> bool {
    head matches Err(Error::SourceHeadEmpty { subnet_id: _ })
}

/// Whether the source head could not be had for the reason that the TCE node answered with an
/// error.
pub open spec fn is_failed_head<C>(head: Result<C, Error>) -> bool {
    head matches Err(Error::UnableToGetSourceHeadCertificate { subnet_id: _, details: _ })
}

/// The one who asks for the source head gets what the TCE node has, and each error for its own
/// reason only: `SourceHeadEmpty` if and only if the TCE node has none, and
/// `UnableToGetSourceHeadCertificate` if and only if it answers with an error. If its certificate
/// cannot be read, there is no reply, the sender is not used, and the error is that of a channel
/// that is gone.
pub proof fn law_the_source_head_is_what_the_tce_node_has<C, E>(
    subnet_id: SubnetId,
    sender: oneshot::Sender<Result<C, Error>>,
    response: SourceHeadResponse<C>,
    received: Result<Result<C, Error>, E>,
)
    requires
        is_received(source_head_answer(subnet_id, sender, response), received),
    ensures
        source_head_outcome(received) == match response {
            Ok(Some(ReceivedCertificate::Valid(certificate))) => Ok(certificate),
            Ok(Some(ReceivedCertificate::Invalid)) => Err(Error::InvalidChannelError),
            Ok(None) => Err(Error::SourceHeadEmpty { subnet_id }),
            Err(details) => Err(Error::UnableToGetSourceHeadCertificate { subnet_id, details }),
        },
        is_empty_head(source_head_outcome(received)) <==> response matches Ok(None),
        is_failed_head(source_head_outcome(received)) <==> response is Err,
        match source_head_answer(subnet_id, sender, response) {
            Ok(reply) => reply.sender == sender,
            Err(unanswered) => unanswered.sender == sender && unanswered.error
                is InvalidCertificate,
        },
{
}

/// The proxy starts with the source head that the TCE node has. It starts without one if the TCE
/// node has none. If the TCE node answers with an error, that is the error; if its certificate
/// cannot be read, the command task is gone and no reply comes.
pub proof fn law_start_depends_on_the_source_head<C, E>(
    subnet_id: SubnetId,
    sender: oneshot::Sender<Result<C, Error>>,
    response: SourceHeadResponse<C>,
    received: Result<Result<C, Error>, E>,
)
    requires
        is_received(source_head_answer(subnet_id, sender, response), received),
    ensures
        starting_head(source_head_outcome(received)) == match response {
            Ok(Some(ReceivedCertificate::Valid(certificate))) => Ok(Some(certificate)),
            Ok(Some(ReceivedCertificate::Invalid)) => Err(Error::InvalidChannelError),
            Ok(None) => Ok(None),
            Err(details) => Err(Error::UnableToGetSourceHeadCertificate { subnet_id, details }),
        },
{
}

/// A client is launched if and only if it has an endpoint, the connection was made, the stream was
/// given and it has a subnet id. What is missing is reported in that order; a launched client
/// works for the subnet and at the endpoint that were set. A launch that is refused reports
/// nothing: the sender of events is as it was.
pub proof fn law_what_is_missing_is_reported_in_order<G, S, C, P>(
    builder: TceClientBuilderView<C>,
    first: Result<Connecting<C>, Refused<C>>,
    connection: Result<G, Error>,
    second: Result<Connected<G, C, P>, Refused<C>>,
    stream: Result<S, tonic::Status>,
    third: Result<Launched<S, C, P>, Refused<C>>,
)
    requires
        build_stage(builder, first),
        first matches Ok(connecting) ==> connect_stage(connecting, connection, second),
        first is Ok && second is Ok ==> subscribe_stage(second->Ok_0.subscribing, stream, third),
    ensures
        ({
            let tce_proxy_event_sender = builder.tce_proxy_event_sender;
            match (builder.tce_endpoint, connection, stream, builder.subnet_id) {
                (None, _, _, _) => first == Err::<Connecting<C>, Refused<C>>(
                    Refused { error: Error::InvalidTceEndpoint, tce_proxy_event_sender },
                ),
                (Some(_), Err(error), _, _) => first is Ok && second == Err::<
                    Connected<G, C, P>,
                    Refused<C>,
                >(Refused { error, tce_proxy_event_sender }),
                (Some(_), Ok(_), Err(source), _) => first is Ok && second is Ok && third == Err::<
                    Launched<S, C, P>,
                    Refused<C>,
                >(Refused { error: Error::TonicStatusError { source }, tce_proxy_event_sender }),
                (Some(_), Ok(_), Ok(_), None) => first is Ok && second is Ok && third == Err::<
                    Launched<S, C, P>,
                    Refused<C>,
                >(Refused { error: Error::InvalidSubnetId, tce_proxy_event_sender }),
                (Some(tce_endpoint), Ok(_), Ok(_), Some(subnet_id)) => first is Ok && second is Ok
                    && third is Ok && third->Ok_0.client@.tce_endpoint == tce_endpoint
                    && third->Ok_0.client@.subnet_id == subnet_id,
            }
        }),
{
}

/// The stages of a start, with what the outside brought between them.
#[verifier::reject_recursive_types(C)]
#[verifier::reject_recursive_types(P)]
pub struct Start<G, S, C, P, E> {
    pub config: TceProxyConfig<P>,
    pub builder: TceClientBuilderView<C>,
    pub starting: Starting<C, P>,
    pub connecting: Result<Connecting<C>, Refused<C>>,
    /// What the attempts to connect came to.
    pub attempts: Result<G, TransportError>,
    pub connected: Result<Connected<G, C, P>, Refused<C>>,
    /// What the TCE service answered to the request for the stream.
    pub stream: Result<S, tonic::Status>,
    pub launched: Result<Launched<S, C, P>, Refused<C>>,
    pub opening: Result<OpeningStream<C, P>, Error>,
    /// What came of sending the command to open the stream.
    pub open_sent: Result<(), mpsc::error::SendError<TceClientCommand<C, P>>>,
    pub opened: Result<StreamOpened<C, P>, Error>,
    /// What came of sending the command to get the source head.
    pub head_sent: Result<(), mpsc::error::SendError<TceClientCommand<C, P>>>,
    pub asked: Result<AskingSourceHead<C, P>, Error>,
    /// What came of waiting for the source head.
    pub received: Result<Result<C, Error>, E>,
    pub started: Result<Started<C, P>, Error>,
}

impl<G, S, C, P: Clone, E> Start<G, S, C, P, E> {
    /// What the launch of the client came to.
    pub open spec fn launch(self) -> Result<(TceClient<C, P>, BoundedRx<C>), Error> {
        match (self.connecting, self.connected, self.launched) {
            (Err(refused), _, _) => Err(refused.error),
            (Ok(_), Err(refused), _) => Err(refused.error),
            (Ok(_), Ok(_), Err(refused)) => Err(refused.error),
            (Ok(_), Ok(_), Ok(launched)) => Ok((launched.client, launched.certificates)),
        }
    }

    /// Each stage follows from the one before it.
    pub open spec fn is_start(self) -> bool {
        &&& begin_stage(self.config, self.builder, self.starting)
        &&& build_stage(self.builder, self.connecting)
        &&& self.connecting matches Ok(connecting) ==> connect_stage(
            connecting,
            connection(self.attempts),
            self.connected,
        )
        &&& self.connecting is Ok && self.connected is Ok ==> subscribe_stage(
            self.connected->Ok_0.subscribing,
            self.stream,
            self.launched,
        )
        &&& launch_stage(self.starting, self.launch(), self.opening)
        &&& self.opening matches Ok(opening) ==> open_stage(
            opening.proxy,
            self.open_sent,
            self.opened,
        )
        &&& self.opening is Ok && self.opened is Ok ==> ask_stage(
            self.opened->Ok_0.asking,
            self.head_sent,
            self.asked,
        )
        &&& self.opening is Ok && self.opened is Ok && self.asked is Ok ==> finish_stage(
            self.asked->Ok_0.proxy,
            source_head_outcome(self.received),
            self.started,
        )
    }

    /// What the start comes to.
    pub open spec fn outcome(self) -> Result<Started<C, P>, Error> {
        match (self.opening, self.opened, self.asked) {
            (Err(error), _, _) => Err(error),
            (Ok(_), Err(error), _) => Err(error),
            (Ok(_), Ok(_), Err(error)) => Err(error),
            (Ok(_), Ok(_), Ok(_)) => self.started,
        }
    }
}

/// A proxy starts if and only if the connection was made, the stream was given, the client took
/// both commands, and the TCE node answered with a source head that can be read or with none. The
/// first of these that fails gives the error, and there is no other: it is `TonicTransportError`,
/// `TonicStatusError`, `InvalidChannelError` or `UnableToGetSourceHeadCertificate`.
pub proof fn law_how_a_start_ends<G, S, C, P: Clone, E>(
    start: Start<G, S, C, P, E>,
    response: SourceHeadResponse<C>,
)
    requires
        start.is_start(),
        start.opened matches Ok(opened) ==> is_received(
            source_head_answer(
                start.config.subnet_id,
                opened.asking.reply.channel(),
                response,
            ),
            start.received,
        ),
    ensures
        match (start.attempts, start.stream, start.open_sent, start.head_sent, response) {
            (Err(source), _, _, _, _) => start.outcome() == Err::<Started<C, P>, Error>(
                Error::TonicTransportError { source },
            ),
            (Ok(_), Err(source), _, _, _) => start.outcome() == Err::<Started<C, P>, Error>(
                Error::TonicStatusError { source },
            ),
            (Ok(_), Ok(_), Err(_), _, _) => start.outcome() == Err::<Started<C, P>, Error>(
                Error::InvalidChannelError,
            ),
            (Ok(_), Ok(_), Ok(_), Err(_), _) => start.outcome() == Err::<Started<C, P>, Error>(
                Error::InvalidChannelError,
            ),
            (Ok(_), Ok(_), Ok(_), Ok(_), Err(details)) => start.outcome() == Err::<
                Started<C, P>,
                Error,
            >(
                Error::UnableToGetSourceHeadCertificate {
                    subnet_id: start.config.subnet_id,
                    details,
                },
            ),
            (Ok(_), Ok(_), Ok(_), Ok(_), Ok(Some(ReceivedCertificate::Invalid))) => start.outcome()
                == Err::<Started<C, P>, Error>(Error::InvalidChannelError),
            (Ok(_), Ok(_), Ok(_), Ok(_), Ok(Some(ReceivedCertificate::Valid(certificate)))) =>
                start.outcome() is Ok && start.outcome()->Ok_0.source_head == Some(certificate),
            (Ok(_), Ok(_), Ok(_), Ok(_), Ok(None)) => start.outcome() is Ok
                && start.outcome()->Ok_0.source_head is None,
        },
        start.outcome() matches Err(error) ==> error is TonicTransportError || error
            is TonicStatusError || error is InvalidChannelError || error
            is UnableToGetSourceHeadCertificate,
{
}

/// A proxy is never refused for want of an endpoint or of a subnet id, and once it has started its
/// parts are connected: the loop takes the commands of the application, the application takes the
/// events of the loop and of the watch task, the command task takes the commands of the loop, the
/// watch task hears the command task, and its certificates are those that the loop takes. On the
/// way the stream is opened for the configured subnet, from each configured position, and the
/// source head of that subnet is asked for. Nobody
/// else has a handle to command the loop, to tell the application or to tell the watch task.
pub proof fn law_a_started_proxy_is_wired<G, S, C, P: Clone, E>(start: Start<G, S, C, P, E>)
    requires
        start.is_start(),
    ensures
        start.connecting is Ok,
        start.attempts is Ok ==> start.connected is Ok,
        start.attempts is Ok && start.stream is Ok ==> start.launched is Ok,
        start.opening matches Ok(opening) ==> {
            &&& opening.command matches TceClientCommand::OpenStream { target_checkpoint }
            &&& target_checkpoint.target_subnet_ids@ == seq![start.config.subnet_id]
            &&& target_checkpoint.positions@.len() == start.config.positions@.len()
            &&& forall|i: int|
                0 <= i < start.config.positions@.len() ==> cloned(
                    start.config.positions@[i],
                    #[trigger] target_checkpoint.positions@[i],
                )
        },
        start.opening is Ok && start.opened is Ok ==> {
            let opened = start.opened->Ok_0;
            &&& opened.command matches TceClientCommand::GetSourceHead { subnet_id, sender }
            &&& subnet_id == start.config.subnet_id
            &&& sender == opened.asking.reply.channel()
        },
        start.outcome() matches Ok(started) ==> {
            let launched = start.launched->Ok_0;
            let connected = start.connected->Ok_0;
            &&& started.proxy_loop.running
            &&& started.worker@.config == start.config
            &&& started.proxy_loop.tce_client@.subnet_id == start.config.subnet_id
            &&& started.proxy_loop.tce_client@.tce_endpoint == start.config.base_tce_api_url@
            &&& started.worker@.commands.channel() == started.proxy_loop.command_rcv.channel()
            &&& started.worker@.events.channel() == started.proxy_loop.evt_sender.channel()
            &&& started.worker@.commands.handles() == 0
            &&& started.proxy_loop.evt_sender.handles() == 1
            &&& launched.watch_task.tce_proxy_event_sender matches Some(sender)
                && sender.channel() == started.worker@.events.channel() && sender.handles() == 0
            &&& started.proxy_loop.tce_client@.command_sender
                == launched.command_task.commands.channel()
            &&& launched.command_task.outbound == connected.requests.channel()
            &&& launched.command_task.inbound_shutdown_sender.channel()
                == launched.watch_task.inbound_shutdown_receiver.channel()
            &&& launched.command_task.inbound_shutdown_sender.handles() == 0
            &&& launched.watch_task.inbound_certificate_sender == Some(
                started.proxy_loop.certificates.channel(),
            )
            &&& started.worker@.events.is_fresh()
            &&& started.proxy_loop.command_rcv.is_fresh()
            &&& started.proxy_loop.certificates.is_fresh()
            &&& connected.requests.is_fresh()
            &&& launched.is_wired()
        },
{
}

} // verus!
