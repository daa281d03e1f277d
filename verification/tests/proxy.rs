use std::future::Future;

use tokio::sync::mpsc;
use topos_sequencer_tce_proxy::builder::{
    Launched, Refused, TceClientBuilder, CERTIFICATE_INBOUND_CHANNEL_SIZE,
    CERTIFICATE_OUTBOUND_CHANNEL_SIZE, TCE_PROXY_COMMAND_CHANNEL_SIZE,
};
use topos_sequencer_tce_proxy::channel::UnboundedTx;
use topos_sequencer_tce_proxy::client::TceClient;
use topos_sequencer_tce_proxy::commands::{CommandAction, CommandTask, Unanswered};
use topos_sequencer_tce_proxy::endpoint::{
    attempt_failed, connect_attempt, connect_outcome, AttemptFailure,
};
use topos_sequencer_tce_proxy::error::Error;
use topos_sequencer_tce_proxy::types::{
    OpenStream, ReceivedCertificate, SubnetId, TargetCheckpoint, TceClientCommand,
    TceProxyCommand, TceProxyEvent, WatchCertificatesResponse, WatchEvent,
};
use topos_sequencer_tce_proxy::watch::{WatchAction, WatchResponse};
use topos_sequencer_tce_proxy::worker::{
    OpeningStream, ProxyAction, Started, StreamOpened, TceProxyConfig, TceProxyWorker,
};

/// A certificate, for these tests: an id and the id of the one before it.
#[derive(Clone, Debug, PartialEq, Eq)]
struct Cert {
    id: u32,
    prev_id: u32,
}

/// A position in a stream, for these tests.
type Position = (u8, u64);

type Worker = TceProxyWorker<Cert, Position>;
type ClientCommand = TceClientCommand<Cert, Position>;

const SUBNET: SubnetId = SubnetId { id: [7; 32] };
const URL: &str = "http://127.0.0.1:1340";

fn cert(id: u32) -> Cert {
    Cert { id, prev_id: id - 1 }
}

fn wait<F: Future>(future: F) -> F::Output {
    tokio::runtime::Builder::new_current_thread()
        .build()
        .expect("runtime")
        .block_on(future)
}

fn config() -> TceProxyConfig<Position> {
    TceProxyConfig {
        subnet_id: SUBNET,
        base_tce_api_url: URL.to_string(),
        positions: vec![(1, 10), (2, 20)],
    }
}

fn launch(builder: TceClientBuilder<Cert>) -> Launched<&'static str, Cert, Position> {
    let connecting = builder.build_and_launch().ok().expect("endpoint");
    let connected = connecting.connected::<(), Position>(Ok(())).ok().expect("connection");
    connected.subscribing.subscribed(Ok("stream")).ok().expect("launched")
}

fn builder() -> TceClientBuilder<Cert> {
    TceClientBuilder::default().set_tce_endpoint(URL).set_subnet_id(SUBNET)
}

/// A proxy with the parts of its client, started with the given source head.
fn start(head: Option<Cert>) -> (Started<Cert, Position>, Launched<&'static str, Cert, Position>) {
    let (builder, starting) = Worker::new(config());
    let mut launched = launch(builder);
    let sender = launched.client.command_sender().clone();
    let other = TceClientBuilder::<Cert>::default().set_tce_endpoint(URL).set_subnet_id(SUBNET);
    let other = launch(other);
    let client = std::mem::replace(&mut launched.client, other.client);
    let certificates = std::mem::replace(&mut launched.certificates, other.certificates);

    let opening = starting.client_launched(Ok((client, certificates)));
    let OpeningStream { command, proxy } = opening.ok().expect("opening");
    let sent = wait(sender.send(command));
    let StreamOpened { command, asking } = proxy.stream_opened(sent).ok().expect("opened");
    let asking = asking.asked(wait(sender.send(command))).ok().expect("asking");

    let command = launched.command_task.commands.receiver().try_recv().ok().expect("open");
    match launched.command_task.on_command(command) {
        CommandAction::Open(request) => assert_eq!(
            request,
            OpenStream {
                target_checkpoint: TargetCheckpoint {
                    target_subnet_ids: vec![SUBNET],
                    positions: vec![(1, 10), (2, 20)],
                },
            }
        ),
        _ => panic!("the stream is opened first"),
    }
    let command = launched.command_task.commands.receiver().try_recv().ok().expect("head");
    match launched.command_task.on_command(command) {
        CommandAction::FetchSourceHead { subnet_id, sender } => {
            assert_eq!(subnet_id, SUBNET);
            let reply = launched
                .command_task
                .on_source_head(subnet_id, sender, Ok(head.map(ReceivedCertificate::Valid)))
                .ok()
                .expect("reply");
            assert!(reply.send().into_outcome().is_ok());
        }
        _ => panic!("the source head is asked for next"),
    }
    let received = wait(asking.reply.into_receiver());
    let head = TceClient::<Cert, Position>::source_head_received(received);
    let started = asking.proxy.source_head(head).ok().expect("started");
    (started, launched)
}

fn pushed(certificate: Option<ReceivedCertificate<Cert>>) -> WatchResponse<Cert> {
    Ok(WatchCertificatesResponse { event: Some(WatchEvent::CertificatePushed { certificate }) })
}

#[test]
fn a_client_needs_an_endpoint() {
    let built = TceClientBuilder::<Cert>::default().set_subnet_id(SUBNET).build_and_launch();
    assert!(matches!(built, Err(Refused { error: Error::InvalidTceEndpoint, .. })));
    let built = TceClientBuilder::<Cert>::default().build_and_launch();
    assert!(matches!(built, Err(Refused { error: Error::InvalidTceEndpoint, .. })));
}

#[test]
fn a_failed_connection_ends_the_launch() {
    let connecting = TceClientBuilder::<Cert>::default()
        .set_tce_endpoint(URL)
        .build_and_launch()
        .ok()
        .expect("connecting");
    assert_eq!(connecting.tce_endpoint, URL);
    assert_eq!(connecting.subnet_id, None);
    let connected = connecting.connected::<u8, Position>(Err(Error::InvalidChannelError));
    assert!(matches!(connected, Err(Refused { error: Error::InvalidChannelError, .. })));
}

#[test]
fn a_status_is_reported_before_a_missing_subnet_id() {
    let connected = TceClientBuilder::<Cert>::default()
        .set_tce_endpoint(URL)
        .build_and_launch()
        .ok()
        .expect("connecting")
        .connected::<u8, Position>(Ok(3))
        .ok()
        .expect("connected");
    assert_eq!(connected.service, 3);
    let launched = connected
        .subscribing
        .subscribed::<()>(Err(tonic::Status::unavailable("tce is starting")));
    match launched {
        Err(Refused { error: Error::TonicStatusError { source }, .. }) => {
            assert_eq!(source.message(), "tce is starting")
        }
        _ => panic!("the status is the error"),
    }
}

#[test]
fn a_missing_subnet_id_is_reported_last() {
    let connected = TceClientBuilder::<Cert>::default()
        .set_tce_endpoint(URL)
        .build_and_launch()
        .ok()
        .expect("connecting")
        .connected::<(), Position>(Ok(()))
        .ok()
        .expect("connected");
    let launched = connected.subscribing.subscribed(Ok(()));
    assert!(matches!(launched, Err(Refused { error: Error::InvalidSubnetId, .. })));
}

#[test]
fn a_refused_launch_reports_nothing() {
    let (sender, mut events) = mpsc::unbounded_channel();
    let refused = TceClientBuilder::<Cert>::default()
        .set_proxy_event_sender(UnboundedTx::new(sender))
        .build_and_launch()
        .err()
        .expect("no endpoint");
    let connecting = TceClientBuilder::<Cert>::default()
        .set_tce_endpoint(URL)
        .set_proxy_event_sender(refused.tce_proxy_event_sender.expect("sender"))
        .build_and_launch()
        .ok()
        .expect("connecting");
    let refused = connecting
        .connected::<(), Position>(Err(Error::InvalidChannelError))
        .err()
        .expect("no connection");
    let connected = TceClientBuilder::<Cert>::default()
        .set_tce_endpoint(URL)
        .set_proxy_event_sender(refused.tce_proxy_event_sender.expect("sender"))
        .build_and_launch()
        .ok()
        .expect("connecting")
        .connected::<(), Position>(Ok(()))
        .ok()
        .expect("connected");
    let refused = connected.subscribing.subscribed(Ok(())).err().expect("no subnet id");
    assert_eq!(events.try_recv(), Err(mpsc::error::TryRecvError::Empty));
    drop(refused);
    assert_eq!(events.try_recv(), Err(mpsc::error::TryRecvError::Disconnected));
}

#[test]
fn channels_hold_a_hundred_messages() {
    assert_eq!(CERTIFICATE_INBOUND_CHANNEL_SIZE, 100);
    assert_eq!(CERTIFICATE_OUTBOUND_CHANNEL_SIZE, 100);
    assert_eq!(TCE_PROXY_COMMAND_CHANNEL_SIZE, 100);
    let connecting = builder().build_and_launch().ok().expect("connecting");
    assert_eq!(connecting.inbound_certificate_sender.max_capacity(), 100);
    let connected = connecting.connected::<(), Position>(Ok(())).ok().expect("connected");
    assert_eq!(connected.subscribing.outbound.max_capacity(), 100);
    let launched = connected.subscribing.subscribed(Ok("stream")).ok().expect("launched");
    assert_eq!(launched.client.command_sender().max_capacity(), 100);
}

#[test]
fn the_last_setting_counts() {
    let launched = launch(
        builder().set_tce_endpoint("http://tce:1").set_subnet_id(SubnetId { id: [9; 32] }),
    );
    assert_eq!(launched.responses, "stream");
    assert_eq!(launched.client.tce_endpoint(), "http://tce:1");
    match launched.client.open_stream(vec![(3, 30)]) {
        TceClientCommand::OpenStream { target_checkpoint } => {
            assert_eq!(target_checkpoint.target_subnet_ids, vec![SubnetId { id: [9; 32] }]);
            assert_eq!(target_checkpoint.positions, vec![(3, 30)]);
        }
        _ => panic!("the stream is opened"),
    }
}

#[test]
fn an_address_has_to_be_a_uri() {
    let target = connect_attempt(&URL.to_string()).ok().expect("endpoint");
    assert_eq!(target.into_endpoint().uri().to_string(), "http://127.0.0.1:1340/");
    let failure = connect_attempt(&"not an address".to_string()).err().expect("failure");
    let error = match failure {
        AttemptFailure::Transient { source } => source,
        AttemptFailure::Permanent { .. } => panic!("the attempt is made again"),
    };
    assert_eq!(error.to_string(), "invalid URI");
    assert!(connect_attempt(&String::new()).is_err());
    let error = match attempt_failed(error) {
        AttemptFailure::Transient { source } => source,
        AttemptFailure::Permanent { .. } => panic!("the attempt is made again"),
    };
    match connect_outcome::<()>(Err(error)) {
        Err(Error::TonicTransportError { source }) => {
            assert_eq!(source.to_string(), "invalid URI")
        }
        _ => panic!("the error is passed on"),
    }
    assert!(matches!(connect_outcome(Ok(4)), Ok(4)));
}

#[test]
fn outside_errors_become_errors_of_the_proxy() {
    let source = hex::decode("xy").err().expect("not hexadecimal");
    match Error::from(source) {
        Error::HexConversionError { source } => {
            assert_eq!(source, hex::FromHexError::InvalidHexCharacter { c: 'x', index: 0 })
        }
        _ => panic!("a conversion error"),
    }
    match Error::from(tonic::Status::not_found("none")) {
        Error::TonicStatusError { source } => assert_eq!(source.code(), tonic::Code::NotFound),
        _ => panic!("a status"),
    }
}

#[test]
fn a_readable_certificate_is_delivered() {
    let mut launched = launch(builder());
    let task = &mut launched.watch_task;
    match task.on_response(pushed(Some(ReceivedCertificate::Valid(cert(5))))) {
        WatchAction::Deliver(certificate) => assert_eq!(certificate, Cert { id: 5, prev_id: 4 }),
        WatchAction::Wait => panic!("it is delivered"),
    }
    assert!(task.running);
}

#[test]
fn everything_else_on_the_stream_is_passed_over() {
    let (sender, mut events) = mpsc::unbounded_channel();
    let mut launched = launch(builder().set_proxy_event_sender(UnboundedTx::new(sender)));
    let task = &mut launched.watch_task;
    let opened = Ok(WatchCertificatesResponse { event: Some(WatchEvent::StreamOpened) });
    let empty = Ok(WatchCertificatesResponse { event: None });
    for response in [pushed(Some(ReceivedCertificate::Invalid)), pushed(None), opened, empty] {
        assert!(matches!(task.on_response(response), WatchAction::Wait));
    }
    assert!(task.running);
    assert!(events.try_recv().is_err());
}

#[test]
fn errors_of_the_stream_are_reported() {
    let (sender, mut events) = mpsc::unbounded_channel();
    let mut launched = launch(builder().set_proxy_event_sender(UnboundedTx::new(sender)));
    let task = &mut launched.watch_task;
    for _ in 0..2 {
        let response = Err(tonic::Status::internal("broken"));
        assert!(matches!(task.on_response(response), WatchAction::Wait));
    }
    task.on_response(pushed(Some(ReceivedCertificate::Valid(cert(1)))));
    assert_eq!(events.try_recv(), Ok(TceProxyEvent::WatchCertificatesChannelFailed));
    assert_eq!(events.try_recv(), Ok(TceProxyEvent::WatchCertificatesChannelFailed));
    assert!(events.try_recv().is_err());
    drop(events);
    task.on_response(Err(tonic::Status::internal("broken")));
    assert!(task.running);
}

#[test]
fn errors_of_the_stream_need_not_be_reported() {
    let mut launched = launch(builder());
    let response = Err(tonic::Status::internal("broken"));
    assert!(matches!(launched.watch_task.on_response(response), WatchAction::Wait));
    assert!(launched.watch_task.tce_proxy_event_sender.is_none());
    assert!(launched.watch_task.running);
}

#[test]
fn the_source_head_is_asked_for_the_own_subnet() {
    let mut launched = launch(builder());
    let (command, reply) = launched.client.get_source_head();
    let (asked, sender) = match launched.command_task.on_command(command) {
        CommandAction::FetchSourceHead { subnet_id, sender } => (subnet_id, sender),
        _ => panic!("the source head is fetched"),
    };
    assert_eq!(asked, SUBNET);
    let answer = Ok(Some(ReceivedCertificate::Valid(cert(8))));
    let answered = launched.command_task.on_source_head(asked, sender, answer);
    assert!(answered.ok().expect("reply").send().into_outcome().is_ok());
    let head = TceClient::<Cert, Position>::source_head_received(wait(reply.into_receiver()));
    assert_eq!(head.ok(), Some(cert(8)));
    assert!(launched.command_task.running);
}

#[test]
fn an_empty_source_head_is_an_error_of_its_own() {
    let mut launched = launch(builder());
    let (command, reply) = launched.client.get_source_head();
    if let CommandAction::FetchSourceHead { subnet_id, sender } =
        launched.command_task.on_command(command)
    {
        let answered = launched.command_task.on_source_head(subnet_id, sender, Ok(None));
        assert!(answered.ok().expect("reply").send().into_outcome().is_ok());
    }
    match TceClient::<Cert, Position>::source_head_received(wait(reply.into_receiver())) {
        Err(Error::SourceHeadEmpty { subnet_id }) => assert_eq!(subnet_id, SUBNET),
        _ => panic!("there is none"),
    }
}

#[test]
fn a_status_for_the_source_head_is_passed_on() {
    let mut launched = launch(builder());
    let (command, reply) = launched.client.get_source_head();
    if let CommandAction::FetchSourceHead { subnet_id, sender } =
        launched.command_task.on_command(command)
    {
        let answer = Err("status: Internal".to_string());
        let answered = launched.command_task.on_source_head(subnet_id, sender, answer);
        assert!(answered.ok().expect("reply").send().into_outcome().is_ok());
    }
    match TceClient::<Cert, Position>::source_head_received(wait(reply.into_receiver())) {
        Err(Error::UnableToGetSourceHeadCertificate { subnet_id, details }) => {
            assert_eq!(subnet_id, SUBNET);
            assert_eq!(details, "status: Internal");
        }
        _ => panic!("the status is passed on"),
    }
    assert!(launched.command_task.running);
}

#[test]
fn an_unreadable_source_head_ends_the_command_task() {
    let mut launched = launch(builder());
    let (command, reply) = launched.client.get_source_head();
    if let CommandAction::FetchSourceHead { subnet_id, sender } =
        launched.command_task.on_command(command)
    {
        let answer = Ok(Some(ReceivedCertificate::Invalid));
        let answered = launched.command_task.on_source_head(subnet_id, sender, answer);
        assert!(matches!(answered, Err(Unanswered { error: Error::InvalidCertificate, .. })));
    }
    assert!(!launched.command_task.running);
    let head = TceClient::<Cert, Position>::source_head_received(wait(reply.into_receiver()));
    assert!(matches!(head, Err(Error::InvalidChannelError)));
}

#[test]
fn a_reply_that_nobody_awaits_comes_back() {
    let mut launched = launch(builder());
    let (command, reply) = launched.client.get_source_head();
    drop(reply);
    if let CommandAction::FetchSourceHead { subnet_id, sender } =
        launched.command_task.on_command(command)
    {
        let answer = Ok(Some(ReceivedCertificate::Valid(cert(2))));
        let answered = launched.command_task.on_source_head(subnet_id, sender, answer);
        let outcome = answered.ok().expect("reply").send().into_outcome();
        assert_eq!(outcome.err().expect("returned").ok(), Some(cert(2)));
    } else {
        panic!("the source head is fetched");
    }
}

#[test]
fn a_command_to_a_client_that_is_gone_fails() {
    let Launched { mut client, command_task, .. } = launch(builder());
    drop(command_task);
    let sent = wait(client.command_sender().send(client.open_stream(Vec::new())));
    let outcome = TceClient::<Cert, Position>::command_sent(sent);
    assert!(matches!(outcome, Err(Error::InvalidChannelError)));
    let command = client.close();
    let sent = wait(client.command_sender().send(command));
    assert!(TceClient::<Cert, Position>::command_sent(sent).is_err());
    assert!(TceClient::<Cert, Position>::command_sent(Ok(())).is_ok());
}

#[test]
fn the_proxy_starts_with_the_source_head() {
    let (started, _launched) = start(Some(cert(41)));
    assert_eq!(started.source_head, Some(cert(41)));
    assert_eq!(started.worker.config.subnet_id, SUBNET);
    assert_eq!(started.worker.config.base_tce_api_url, URL);
    assert_eq!(started.worker.config.positions, vec![(1, 10), (2, 20)]);
    assert_eq!(started.proxy_loop.tce_client.tce_endpoint(), URL);
}

#[test]
fn the_proxy_starts_from_scratch_without_a_source_head() {
    let (started, _launched) = start(None);
    assert_eq!(started.source_head, None);
    assert!(started.proxy_loop.running);
}

#[test]
fn the_proxy_does_not_start_without_an_answer() {
    let (builder, starting) = Worker::new(config());
    let launched = launch(builder);
    let opening = starting.client_launched(Ok((launched.client, launched.certificates)));
    let OpeningStream { command, proxy } = opening.ok().expect("opening");
    let failed = proxy.stream_opened(Err(mpsc::error::SendError(command)));
    assert!(matches!(failed, Err(Error::InvalidChannelError)));

    let (builder, starting) = Worker::new(config());
    let launched = launch(builder);
    let opening = starting.client_launched(Ok((launched.client, launched.certificates)));
    let opened = opening.ok().expect("opening").proxy.stream_opened(Ok(())).ok().expect("opened");
    let failed = opened.asking.proxy.source_head(Err(Error::InvalidChannelError));
    assert!(matches!(failed, Err(Error::InvalidChannelError)));
}

#[test]
fn the_proxy_does_not_start_if_the_source_head_cannot_be_asked_for() {
    let (builder, starting) = Worker::new(config());
    let Launched { client, command_task, certificates, .. } = launch(builder);
    let sender = client.command_sender().clone();
    let opening = starting.client_launched(Ok((client, certificates)));
    let proxy = opening.ok().expect("opening").proxy;
    let StreamOpened { command, asking } = proxy.stream_opened(Ok(())).ok().expect("opened");
    drop(command_task);
    let failed = asking.asked(wait(sender.send(command)));
    assert!(matches!(failed, Err(Error::InvalidChannelError)));
}

#[test]
fn the_proxy_does_not_start_without_a_client() {
    let (_builder, starting) = Worker::new(config());
    let failed = starting.client_launched(Err(Error::InvalidTceEndpoint));
    assert!(matches!(failed, Err(Error::InvalidTceEndpoint)));
    let (_builder, starting) = Worker::new(config());
    let status = Error::from(tonic::Status::unavailable("tce is starting"));
    match starting.client_launched(Err(status)) {
        Err(Error::TonicStatusError { source }) => assert_eq!(source.message(), "tce is starting"),
        _ => panic!("the error of the launch is passed on"),
    }
}

#[test]
fn a_source_head_is_awaited_only_if_it_was_asked_for() {
    let Launched { mut client, mut command_task, .. } = launch(builder());
    assert_eq!(client.subnet_id(), SUBNET);
    let (command, reply) = client.get_source_head();
    let sent = wait(client.command_sender().send(command));
    let reply = TceClient::<Cert, Position>::source_head_asked(sent, reply).ok().expect("asked");
    let command = command_task.commands.receiver().try_recv().ok().expect("command");
    match command_task.on_command(command) {
        CommandAction::FetchSourceHead { subnet_id, sender } => {
            let answer = Ok(Some(ReceivedCertificate::Valid(cert(5))));
            let reply = command_task.on_source_head(subnet_id, sender, answer);
            assert!(reply.ok().expect("reply").send().into_outcome().is_ok());
        }
        _ => panic!("the source head is asked for"),
    }
    let head = TceClient::<Cert, Position>::source_head_received(wait(reply.into_receiver()));
    assert_eq!(head.ok(), Some(cert(5)));

    drop(command_task);
    let (command, reply) = client.get_source_head();
    let sent = wait(client.command_sender().send(command));
    let refused = TceClient::<Cert, Position>::source_head_asked(sent, reply);
    assert!(matches!(refused, Err(Error::InvalidChannelError)));
}

#[test]
fn a_close_ends_both_tasks_after_what_was_queued() {
    let Launched { mut client, mut command_task, mut watch_task, certificates, .. } =
        launch(builder());
    let queued = [
        client.send_certificate(cert(1)),
        client.send_certificate(cert(2)),
        client.close(),
    ];
    for command in queued {
        client.command_sender().try_send(command).ok().expect("queued");
    }
    let mut submitted = Vec::new();
    while command_task.running {
        let command = command_task.commands.receiver().try_recv().ok().expect("command");
        match command_task.on_command(command) {
            CommandAction::Submit(certificate) => submitted.push(certificate),
            CommandAction::Finish => assert!(!command_task.running),
            _ => panic!("nothing else was queued"),
        }
    }
    assert_eq!(submitted, vec![cert(1), cert(2)]);

    // A certificate that came before the word is still delivered, and then nothing comes.
    match watch_task.on_response(pushed(Some(ReceivedCertificate::Valid(cert(9))))) {
        WatchAction::Deliver(certificate) => {
            let sender = watch_task.inbound_certificate_sender.as_ref().expect("sender");
            assert!(sender.try_send(certificate).is_ok());
        }
        WatchAction::Wait => panic!("the certificate is delivered"),
    }
    assert!(watch_task.inbound_shutdown_receiver.receiver().try_recv().is_ok());
    watch_task.on_shutdown();
    assert!(!watch_task.running);
    assert!(watch_task.inbound_shutdown_receiver.receiver().try_recv().is_err());
    let mut certificates = certificates.into_receiver();
    assert_eq!(wait(certificates.recv()), Some(cert(9)));
    assert_eq!(wait(certificates.recv()), None);
}

#[test]
fn submitted_certificates_reach_the_tce_node_in_order() {
    let (mut started, mut launched) = start(None);
    for id in 1..4 {
        let command = TceProxyCommand::SubmitCertificate(Box::new(cert(id)));
        assert_eq!(started.worker.send_command(command), Ok(()));
    }
    let mut submitted = Vec::new();
    while let Ok(cmd) = started.proxy_loop.command_rcv.receiver().try_recv() {
        match started.proxy_loop.on_command(cmd) {
            ProxyAction::Forward(command) => {
                let sender = started.proxy_loop.tce_client.command_sender();
                sender.try_send(command).ok().expect("forwarded");
            }
            ProxyAction::Close { .. } => panic!("nothing is closed"),
        }
    }
    while let Ok(command) = launched.command_task.commands.receiver().try_recv() {
        match launched.command_task.on_command(command) {
            CommandAction::Submit(certificate) => submitted.push(certificate),
            _ => panic!("only certificates are sent"),
        }
    }
    assert_eq!(submitted, vec![cert(1), cert(2), cert(3)]);
    assert!(started.proxy_loop.running && launched.command_task.running);
}

#[test]
fn delivered_certificates_reach_the_application_in_order() {
    let (mut started, mut launched) = start(None);
    let responses = vec![
        pushed(Some(ReceivedCertificate::Valid(cert(1)))),
        pushed(Some(ReceivedCertificate::Invalid)),
        pushed(None),
        pushed(Some(ReceivedCertificate::Valid(cert(2)))),
        Err(tonic::Status::internal("broken")),
        pushed(Some(ReceivedCertificate::Valid(cert(3)))),
    ];
    for response in responses {
        if let WatchAction::Deliver(certificate) = launched.watch_task.on_response(response) {
            let sender = launched.watch_task.inbound_certificate_sender.as_ref().expect("sender");
            sender.try_send(certificate).ok().expect("delivered");
        }
    }
    while let Ok(certificate) = started.proxy_loop.certificates.receiver().try_recv() {
        assert!(started.proxy_loop.on_certificate(certificate).is_ok());
    }
    let mut events = Vec::new();
    for _ in 0..4 {
        let received = wait(started.worker.events().recv());
        events.push(started.worker.next_event(received).ok().expect("event"));
    }
    assert_eq!(
        events,
        vec![
            TceProxyEvent::WatchCertificatesChannelFailed,
            TceProxyEvent::NewDeliveredCerts(vec![cert(1)]),
            TceProxyEvent::NewDeliveredCerts(vec![cert(2)]),
            TceProxyEvent::NewDeliveredCerts(vec![cert(3)]),
        ]
    );
    assert!(started.worker.events().try_recv().is_err());
}

#[test]
fn a_shutdown_ends_every_part() {
    let (mut started, mut launched) = start(None);
    let awaited = started.worker.shutdown().ok().expect("handed over");
    let late = TceProxyCommand::SubmitCertificate(Box::new(cert(9)));
    assert_eq!(started.worker.send_command(late), Ok(()));

    let cmd = started.proxy_loop.command_rcv.receiver().try_recv().ok().expect("shutdown");
    match started.proxy_loop.on_command(cmd) {
        ProxyAction::Close { command, closing } => {
            let sender = started.proxy_loop.tce_client.command_sender();
            let closed = TceClient::<Cert, Position>::command_sent(wait(sender.send(command)));
            assert!(closed.is_ok());
            assert!(closing.client_closed(closed).send().into_outcome().is_ok());
        }
        ProxyAction::Forward(_) => panic!("the client is closed"),
    }
    assert!(!started.proxy_loop.running);
    let received = wait(awaited.into_receiver());
    assert_eq!(Worker::shutdown_replied(received), Ok(()));

    let command = launched.command_task.commands.receiver().try_recv().ok().expect("shutdown");
    assert!(matches!(launched.command_task.on_command(command), CommandAction::Finish));
    assert!(!launched.command_task.running);
    let word = launched.watch_task.inbound_shutdown_receiver.receiver().try_recv();
    assert_eq!(word, Ok(()));
    launched.watch_task.on_shutdown();
    assert!(!launched.watch_task.running);
    assert!(launched.watch_task.inbound_shutdown_receiver.receiver().try_recv().is_err());
}

#[test]
fn a_shutdown_notices_that_the_watch_task_is_gone() {
    let Launched { watch_task, mut command_task, .. } = launch(builder());
    drop(watch_task);
    let action = command_task.on_command(ClientCommand::Shutdown);
    assert!(matches!(action, CommandAction::WatchTaskLost));
    assert!(!command_task.running);
    let finish = CommandTask::<Cert, Position>::shutdown_action(Ok(()));
    assert!(matches!(finish, CommandAction::Finish));
    let lost = CommandTask::<Cert, Position>::shutdown_action(Err(mpsc::error::SendError(())));
    assert!(matches!(lost, CommandAction::WatchTaskLost));
}

#[test]
fn a_proxy_that_is_gone_takes_no_commands() {
    let (started, _launched) = start(None);
    let Started { mut worker, proxy_loop, .. } = started;
    drop(proxy_loop);
    let command = TceProxyCommand::SubmitCertificate(Box::new(cert(1)));
    assert_eq!(worker.send_command(command), Err("channel closed".to_string()));
    assert_eq!(worker.shutdown().err(), Some("channel closed".to_string()));
}

#[test]
fn a_shutdown_without_a_reply_fails() {
    let (started, _launched) = start(None);
    let Started { mut worker, proxy_loop, .. } = started;
    let awaited = worker.shutdown().ok().expect("handed over");
    drop(proxy_loop);
    let received = wait(awaited.into_receiver());
    assert_eq!(Worker::shutdown_replied(received), Err("channel closed".to_string()));
}

#[test]
fn the_loop_ends_if_the_application_is_gone() {
    let (started, _launched) = start(None);
    let Started { worker, mut proxy_loop, .. } = started;
    drop(worker);
    let told = proxy_loop.on_certificate(cert(6));
    let returned = told.err().expect("nobody is there").0;
    assert_eq!(returned, TceProxyEvent::NewDeliveredCerts(vec![cert(6)]));
    assert!(!proxy_loop.running);
}

#[test]
fn commands_and_certificates_may_alternate() {
    let (mut started, _launched) = start(None);
    let proxy = &mut started.proxy_loop;
    let mut forwarded = Vec::new();
    for id in 1..3 {
        assert!(proxy.on_certificate(cert(10 + id)).is_ok());
        let cmd = TceProxyCommand::SubmitCertificate(Box::new(cert(id)));
        match proxy.on_command(cmd) {
            ProxyAction::Forward(TceClientCommand::SendCertificate { cert }) => {
                forwarded.push(*cert)
            }
            _ => panic!("the certificate is forwarded"),
        }
    }
    assert_eq!(forwarded, vec![cert(1), cert(2)]);
    let events = started.worker.events();
    assert_eq!(events.try_recv(), Ok(TceProxyEvent::NewDeliveredCerts(vec![cert(11)])));
    assert_eq!(events.try_recv(), Ok(TceProxyEvent::NewDeliveredCerts(vec![cert(12)])));
    assert!(events.try_recv().is_err());
}

#[test]
fn a_shutdown_succeeds_although_the_client_is_gone() {
    let (mut started, launched) = start(None);
    drop(launched);
    let awaited = started.worker.shutdown().ok().expect("handed over");
    let second = started.worker.shutdown().ok().expect("handed over");
    let cmd = started.proxy_loop.command_rcv.receiver().try_recv().ok().expect("shutdown");
    match started.proxy_loop.on_command(cmd) {
        ProxyAction::Close { command, closing } => {
            let sender = started.proxy_loop.tce_client.command_sender();
            let closed = TceClient::<Cert, Position>::command_sent(wait(sender.send(command)));
            assert!(matches!(closed, Err(Error::InvalidChannelError)));
            assert!(closing.client_closed(closed).send().into_outcome().is_ok());
        }
        ProxyAction::Forward(_) => panic!("the client is closed"),
    }
    assert_eq!(Worker::shutdown_replied(wait(awaited.into_receiver())), Ok(()));
    // The loop is over: the second shutdown is never taken.
    assert!(!started.proxy_loop.running);
    drop(started.proxy_loop);
    let received = wait(second.into_receiver());
    assert_eq!(Worker::shutdown_replied(received), Err("channel closed".to_string()));
}

#[test]
fn a_shutdown_is_awaited_if_it_was_taken() {
    let (mut started, _launched) = start(None);
    let reply = started.worker.shutdown().ok().expect("handed over");
    let reply = Worker::shutdown_sent(Ok(()), reply).ok().expect("to be awaited");
    let command = started.proxy_loop.command_rcv.receiver().try_recv().ok().expect("shutdown");
    let refused = Worker::shutdown_sent(Err(mpsc::error::SendError(command)), reply);
    assert_eq!(refused.err(), Some("channel closed".to_string()));
}
