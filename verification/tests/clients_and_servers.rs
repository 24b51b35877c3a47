use consul_api_sidecar::client::{
    Client, ClientAction, ClientEvent, ClientSessionEvent, Config as ClientConfig, Phase, SessionEnd,
};
use consul_api_sidecar::dns::service as dns_service;
use consul_api_sidecar::meta::{ClientMeta, ServerMeta};
use consul_api_sidecar::server::{
    Config as ServerConfig, ConnectionFault, Server, ServerAction, ServerEvent, Session,
    SessionAction, SessionError, SessionEvent,
};
use consul_api_sidecar::sessions::split_done;
use consul_api_sidecar::tcp::service as tcp_service;

fn client_config() -> ClientConfig {
    ClientConfig { socket_path: "/tmp/sock".to_string(), name: "c".to_string() }
}

fn server_meta(name: &str) -> ServerMeta {
    ServerMeta { name: name.to_string() }
}

#[test]
fn client_tells_its_name_and_takes_every_server() {
    let config = client_config();
    assert_eq!(config.to_client_meta().name, "c");
    assert!(config.validate_server_meta::<()>(&server_meta("anything")).is_ok());
    assert_eq!(config.clone().socket_path, "/tmp/sock");
}

fn in_session() -> Client {
    let mut client = Client::new(client_config());
    assert!(matches!(client.on_event::<&str>(ClientEvent::Connected(true)), ClientAction::Discover));
    assert!(matches!(
        client.on_event::<&str>(ClientEvent::Discovered(Some(server_meta("s")))),
        ClientAction::StartServices
    ));
    assert_eq!(client.current_server().unwrap().name, "s");
    assert!(matches!(
        client.on_event::<&str>(ClientEvent::ServicesStarted(Ok(()))),
        ClientAction::WaitSession
    ));
    client
}

#[test]
fn client_connects_again_after_a_lost_session() {
    let mut client = in_session();
    assert!(matches!(
        client.on_event::<&str>(ClientEvent::SessionEnded(SessionEnd::Lost)),
        ClientAction::Connect
    ));
    assert_eq!(client.current_phase(), Phase::Connect);
    assert_eq!(client.current_config().name, "c");
}

#[test]
fn client_retries_after_a_wait() {
    let mut client = Client::new(client_config());
    assert!(matches!(client.on_event::<&str>(ClientEvent::Connected(false)), ClientAction::Wait));
    assert!(matches!(
        client.on_event::<&str>(ClientEvent::Waited { shutdown: false }),
        ClientAction::Connect
    ));
    client.on_event::<&str>(ClientEvent::Connected(true));
    assert!(matches!(client.on_event::<&str>(ClientEvent::Discovered(None)), ClientAction::Wait));
    assert!(client.current_server().is_none());
    assert!(matches!(
        client.on_event::<&str>(ClientEvent::Waited { shutdown: true }),
        ClientAction::Done(Ok(()))
    ));
    assert_eq!(client.current_phase(), Phase::Ended);
}

#[test]
fn client_ends() {
    for end in [SessionEnd::Finished, SessionEnd::WorkerFailed] {
        let mut client = in_session();
        assert!(matches!(
            client.on_event::<&str>(ClientEvent::SessionEnded(end)),
            ClientAction::Done(Ok(()))
        ));
    }
    let mut client = in_session();
    assert!(matches!(
        client.on_event::<&str>(ClientEvent::SessionEnded(SessionEnd::Shutdown)),
        ClientAction::StopWorker { join: false, result: Ok(()) }
    ));
    let mut client = Client::new(client_config());
    client.on_event::<&str>(ClientEvent::Connected(true));
    client.on_event::<&str>(ClientEvent::Discovered(Some(server_meta("s"))));
    assert!(matches!(
        client.on_event(ClientEvent::ServicesStarted(Err("no services"))),
        ClientAction::StopWorker { join: true, result: Err("no services") }
    ));
    assert_eq!(client.current_phase(), Phase::Ended);
}

#[test]
fn session_worker_of_a_client() {
    type Event = ClientSessionEvent<u8, &'static str>;
    assert_eq!(Event::from_connection(Some(Ok(1)), "closed").outcome(), None);
    assert_eq!(
        Event::from_connection(Some(Err("reset")), "closed").outcome(),
        Some(SessionEnd::Lost)
    );
    assert!(matches!(
        Event::from_connection(None, "closed"),
        ClientSessionEvent::Error("closed")
    ));
    assert_eq!(Event::Shutdown.outcome(), Some(SessionEnd::Finished));
}

fn server_config() -> ServerConfig {
    ServerConfig { name: "test-server".to_string(), socket_path: "/tmp/sock".to_string() }
}

fn client_meta() -> ClientMeta {
    ClientMeta { name: "c".to_string() }
}

fn running_session() -> Session {
    let mut session = Session::new(server_config().clone());
    assert!(session.client_name().is_none());
    match session.meta_received::<&str>(Ok(client_meta())) {
        SessionAction::SendMeta(meta) => assert_eq!(meta.name, "test-server"),
        _ => panic!("expected the server to tell its name"),
    }
    assert_eq!(session.client_name().unwrap(), "c");
    assert!(matches!(session.meta_sent::<&str>(Ok(())), SessionAction::Wait));
    session
}

#[test]
fn session_drops_streams_and_ends_with_the_connection() {
    let mut session = running_session();
    let opened: Option<Result<u8, ConnectionFault<&str>>> = Some(Ok(1));
    assert!(matches!(
        session.on_event(SessionEvent::from_connection(opened)),
        SessionAction::Wait
    ));
    let closed: Option<Result<u8, ConnectionFault<&str>>> = Some(Err(ConnectionFault::Closed));
    assert!(matches!(
        session.on_event(SessionEvent::from_connection(closed)),
        SessionAction::Done(Ok(()))
    ));

    let mut session = running_session();
    assert!(matches!(
        session.on_event(SessionEvent::<u8, &str>::from_connection(None)),
        SessionAction::Done(Ok(()))
    ));

    let mut session = running_session();
    let broken: SessionEvent<u8, &str> = SessionEvent::Accepted(Err(ConnectionFault::Other("bad")));
    assert!(matches!(
        session.on_event(broken),
        SessionAction::Done(Err(SessionError::Connection("bad")))
    ));
}

#[test]
fn session_that_does_not_get_to_know_its_client() {
    let mut session = Session::new(server_config());
    assert!(matches!(
        session.meta_received(Err("lost")),
        SessionAction::Done(Err(SessionError::Handshake("lost")))
    ));

    let mut session = Session::new(server_config());
    session.meta_received::<&str>(Ok(client_meta()));
    assert!(matches!(
        session.meta_sent(Err("lost")),
        SessionAction::Done(Err(SessionError::Handshake("lost")))
    ));

    let mut session = Session::new(server_config());
    assert!(matches!(
        session.interrupted::<&str>(),
        SessionAction::Done(Err(SessionError::ShutDownDuringHandshake))
    ));
}

#[test]
fn server_keeps_its_sessions_in_order() {
    let mut server: Server<u8> = Server::new();
    for n in 1..=4 {
        match server.on_event::<u8, &str>(ServerEvent::Accepted(Ok(n))) {
            ServerAction::StartSession(stream) => server.on_accept::<&str>(Ok(stream)),
            ServerAction::Stop(_) => panic!("expected a session"),
        }
    }
    server.on_accept(Err("shut down"));
    assert_eq!(server.cleanup(&vec![false, true, false, true]), vec![2, 4]);
    assert_eq!(server.session_count(), 2);
    assert_eq!(*server.session_at(1), 3);
    assert_eq!(server.shutdown(), vec![1, 3]);
    assert_eq!(server.session_count(), 0);
}

#[test]
fn server_ends() {
    let server: Server<u8> = Server::new();
    assert!(matches!(
        server.on_event::<u8, &str>(ServerEvent::Accepted(Err("socket"))),
        ServerAction::Stop(Err("socket"))
    ));
    assert!(matches!(
        server.on_event::<u8, &str>(ServerEvent::Shutdown),
        ServerAction::Stop(Ok(()))
    ));
}

#[test]
fn sessions_are_split_by_whether_they_are_done() {
    assert_eq!(
        split_done(vec!['a', 'b', 'c'], &vec![true, false, true]),
        (vec!['b'], vec!['a', 'c'])
    );
    assert_eq!(split_done(vec!['a', 'b'], &vec![false, false]), (vec!['a', 'b'], vec![]));
    assert_eq!(split_done(Vec::<u8>::new(), &vec![]), (vec![], vec![]));
}

#[test]
fn tcp_service_starts_and_cleans_up_sessions() {
    let mut service: tcp_service::Service<u8> = tcp_service::Service::new();
    for n in 1..=3 {
        match service.on_event::<u8, &str>(tcp_service::ServiceEvent::Accepted(Ok(n))) {
            tcp_service::ServiceAction::StartSession(stream) => service.started(stream),
            tcp_service::ServiceAction::Stop => panic!("expected a session"),
        }
    }
    assert_eq!(service.sessions_cleanup(&vec![true, false, false]), vec![1]);
    assert_eq!(service.session_count(), 2);
    assert_eq!(*service.session_at(0), 2);
    assert!(matches!(
        service.on_event::<u8, &str>(tcp_service::ServiceEvent::Accepted(Err("socket"))),
        tcp_service::ServiceAction::Stop
    ));
    assert!(matches!(
        service.on_event::<u8, &str>(tcp_service::ServiceEvent::Shutdown),
        tcp_service::ServiceAction::Stop
    ));
}

#[test]
fn tcp_session_needs_its_connection() {
    assert_eq!(tcp_service::connected::<u8, &str>(Some(Ok(1))), Some(1));
    assert_eq!(tcp_service::connected::<u8, &str>(Some(Err("refused"))), None);
    assert_eq!(tcp_service::connected::<u8, &str>(None), None);
}

#[test]
fn dns_client_restarts_when_its_connection_is_gone() {
    type Client = dns_service::Client<&'static str, &'static str>;
    let mut client = Client::new();
    assert!(client.connection().is_none());
    assert!(matches!(client.on_started(Err("refused")), dns_service::ClientAction::Wait));
    assert!(matches!(client.on_waited(false, false), dns_service::ClientAction::Start));
    assert!(matches!(
        client.on_started::<&str>(Ok(("bridge", "client"))),
        dns_service::ClientAction::Wait
    ));
    assert_eq!(client.connection(), Some(&"client"));
    assert!(matches!(client.on_waited(false, false), dns_service::ClientAction::Wait));
    assert!(matches!(
        client.on_waited(false, true),
        dns_service::ClientAction::Restart { bridge: "bridge" }
    ));
    client.on_started::<&str>(Ok(("bridge 2", "client 2")));
    assert!(matches!(
        client.on_waited(true, false),
        dns_service::ClientAction::Stop { client: "client 2", bridge: "bridge 2" }
    ));
    assert!(client.connection().is_none());
}

#[test]
fn dns_client_that_did_not_start_ends() {
    let mut client: dns_service::Client<u8, u8> = dns_service::Client::new();
    client.on_started(Err("refused"));
    assert!(matches!(client.on_waited(true, false), dns_service::ClientAction::Done));
}

#[test]
fn dns_server_accepts_until_its_socket_fails() {
    assert!(matches!(
        dns_service::on_server_event::<u8, &str>(dns_service::ServerEvent::Accepted(Ok(1))),
        dns_service::ServerAction::Accept(1)
    ));
    assert!(matches!(
        dns_service::on_server_event::<u8, &str>(dns_service::ServerEvent::Accepted(Err("socket"))),
        dns_service::ServerAction::Stop
    ));
    assert!(matches!(
        dns_service::on_server_event::<u8, &str>(dns_service::ServerEvent::Shutdown),
        dns_service::ServerAction::Stop
    ));
    assert_eq!(dns_service::ClientConfig {}, dns_service::ClientConfig {});
}
