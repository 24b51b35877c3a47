use consul_api_sidecar::config::agent;
use consul_api_sidecar::config::loader::{
    shutdown_result, ConfigLoader, Event as LoaderEvent, LoaderAction, LoaderError, ReloadError,
};
use consul_api_sidecar::config::sidecar;
use consul_api_sidecar::config::Config;
use consul_api_sidecar::dns::forwarder;
use consul_api_sidecar::net::SocketAddress;
use consul_api_sidecar::service::{Event, ServiceRunner, ServiceStep};
use consul_api_sidecar::string_map::StringMap;
use consul_api_sidecar::task::{ShutdownStep, TaskWrapper};
use consul_api_sidecar::tcp;

fn configs(entries: &[(&str, u32)]) -> StringMap<u32> {
    let mut map = StringMap::new();
    for (name, config) in entries {
        map.insert(name.to_string(), *config);
    }
    map
}

/// Takes the steps of a reload and writes down what was done.
fn reload(runner: &mut ServiceRunner<u32, String>, updated: &StringMap<u32>) -> Vec<String> {
    let mut log = Vec::new();
    for step in runner.reload(updated) {
        match step {
            ServiceStep::Stop(name) => {
                let task = runner.take(&name).unwrap();
                log.push(format!("stop {} {}", name, task));
            }
            ServiceStep::Launch { name, config } => {
                log.push(format!("launch {} {}", name, config));
                runner.launched(name.clone(), *config, format!("task {}", config));
            }
        }
    }
    log
}

#[test]
fn reload_launches_changes_and_stops() {
    let mut runner = ServiceRunner::new();
    assert_eq!(
        reload(&mut runner, &configs(&[("a", 1), ("b", 2), ("c", 3)])),
        vec!["launch a 1", "launch b 2", "launch c 3"]
    );
    assert_eq!(
        reload(&mut runner, &configs(&[("d", 4), ("b", 20), ("a", 1)])),
        vec!["launch d 4", "stop b task 2", "launch b 20", "stop c task 3"]
    );
    assert_eq!(runner.service_count(), 3);
    let mut names: Vec<String> = runner.shutdown().into_iter().map(|(name, _)| name).collect();
    names.sort();
    assert_eq!(names, vec!["a", "b", "d"]);
    assert_eq!(runner.service_count(), 0);
}

#[test]
fn reload_of_the_same_configuration_does_nothing() {
    let mut runner = ServiceRunner::new();
    reload(&mut runner, &configs(&[("a", 1), ("b", 2)]));
    assert!(reload(&mut runner, &configs(&[("b", 2), ("a", 1)])).is_empty());
}

#[test]
fn empty_configuration_stops_everything() {
    let mut runner = ServiceRunner::new();
    reload(&mut runner, &configs(&[("a", 1), ("b", 2)]));
    assert_eq!(
        reload(&mut runner, &configs(&[])),
        vec!["stop a task 1", "stop b task 2"]
    );
    assert_eq!(runner.service_count(), 0);
    assert!(runner.take("a").is_none());
}

#[test]
fn runner_stops_when_configurations_end() {
    assert!(matches!(Event::<u8>::from_channel(None), Event::Shutdown));
    assert!(matches!(Event::from_channel(Some(3)), Event::Reload(3)));
}

fn dns_service(url: &str, timeout: u64) -> agent::ServiceConfig {
    agent::ServiceConfig::DNS {
        path: "/tmp/dns".to_string(),
        address: forwarder::Address::parse(url).unwrap(),
        timeout,
    }
}

fn tcp_service(url: &str) -> agent::ServiceConfig {
    agent::ServiceConfig::TCP {
        path: "/tmp/tcp".to_string(),
        address: tcp::Address::parse(url).unwrap(),
    }
}

#[test]
fn agent_services_are_compared_by_what_they_say() {
    assert!(dns_service("udp://localhost", 5) == dns_service("udp://localhost:53", 5));
    assert!(dns_service("udp://localhost", 5) != dns_service("udp://localhost", 6));
    assert!(dns_service("udp://localhost", 5) != dns_service("tcp://localhost", 5));
    assert!(tcp_service("tcp://a:1") == tcp_service("tcp://a:1").clone());
    assert!(tcp_service("tcp://a:1") != tcp_service("tcp://a:2"));
    assert!(tcp_service("tcp://a:1") != tcp_service("tcp://b:1"));
    assert!(dns_service("udp://localhost", 5) != tcp_service("tcp://a:1"));
    assert!(dns_service("tcp://localhost:1", 5) == dns_service("tcp://localhost:1", 5).clone());
}

fn sidecar_dns(path: &str, port: u16, timeout: u64) -> sidecar::ServiceConfig {
    sidecar::ServiceConfig::DNS {
        path: path.to_string(),
        listen: SocketAddress::V4 { ip: 1, port },
        timeout,
    }
}

fn sidecar_tcp(path: &str, port: u16) -> sidecar::ServiceConfig {
    sidecar::ServiceConfig::TCP {
        path: path.to_string(),
        listen: SocketAddress::V4 { ip: 1, port },
    }
}

#[test]
fn sidecar_services_are_compared_by_what_they_say() {
    assert!(sidecar_dns("a", 1, 5) == sidecar_dns("a", 1, 5).clone());
    assert!(sidecar_dns("a", 1, 5) != sidecar_dns("b", 1, 5));
    assert!(sidecar_dns("a", 1, 5) != sidecar_dns("a", 2, 5));
    assert!(sidecar_dns("a", 1, 5) != sidecar_dns("a", 1, 6));
    assert!(sidecar_tcp("a", 1) == sidecar_tcp("a", 1).clone());
    assert!(sidecar_tcp("a", 1) != sidecar_tcp("a", 2));
    assert!(sidecar_tcp("a", 1) != sidecar_dns("a", 1, 5));
}

#[test]
fn configuration_gives_its_services() {
    let mut services = StringMap::new();
    services.insert("x".to_string(), sidecar_tcp("a", 1));
    let services = sidecar::Config { services }.into_services();
    assert_eq!(services.len(), 1);
    assert!(*services.get("x").unwrap() == sidecar_tcp("a", 1));

    let mut services = StringMap::new();
    services.insert("y".to_string(), tcp_service("tcp://a:1"));
    let services = agent::Config { services }.into_services();
    assert!(services.contains_key("y"));
    assert!(!services.contains_key("x"));
}

#[test]
fn loader_loads_waits_and_loads_again() {
    let mut loader = ConfigLoader::new();
    assert!(matches!(loader.installed::<&str>(Ok(())), LoaderAction::Load));
    assert!(matches!(loader.loaded::<&str>(Ok(())), LoaderAction::Wait));
    assert!(matches!(loader.on_event::<&str>(LoaderEvent::Reload), LoaderAction::Load));
    assert!(matches!(loader.loaded(Err(ReloadError::Parse("bad"))), LoaderAction::Wait));
    assert!(matches!(loader.on_event::<&str>(LoaderEvent::Reload), LoaderAction::Load));
    assert!(matches!(loader.loaded::<&str>(Ok(())), LoaderAction::Wait));
    assert!(matches!(
        loader.on_event::<&str>(LoaderEvent::Shutdown),
        LoaderAction::Done(Ok(()))
    ));
}

#[test]
fn loader_needs_a_first_configuration() {
    let cases = [
        (ReloadError::Read("gone"), "failed to read config file"),
        (ReloadError::Parse("bad"), "failed to parse config file"),
    ];
    for (error, context) in cases {
        let mut loader = ConfigLoader::new();
        loader.installed::<&str>(Ok(()));
        match loader.loaded(Err(error)) {
            LoaderAction::Done(Err(error)) => {
                assert_eq!(error.context(), "initial reload failed");
                match error {
                    LoaderError::InitialReload(error) => assert_eq!(error.context(), context),
                    _ => panic!("expected a failed load"),
                }
            }
            _ => panic!("expected an error"),
        }
    }
}

#[test]
fn loader_needs_its_signal() {
    let mut loader = ConfigLoader::new();
    match loader.installed(Err("no signals")) {
        LoaderAction::Done(Err(error)) => {
            assert_eq!(error.context(), "failed to install signal handler");
        }
        _ => panic!("expected an error"),
    }
}

#[test]
fn loader_that_cannot_be_awaited_counts_as_shut_down() {
    assert_eq!(shutdown_result::<&str, &str>(Ok(Ok(()))), Ok(()));
    assert_eq!(shutdown_result::<&str, &str>(Ok(Err("failed"))), Err("failed"));
    assert_eq!(shutdown_result::<&str, &str>(Err("already shut down")), Ok(()));
}

#[test]
fn task_is_shut_down_once() {
    let mut task = TaskWrapper::new('s', 7);
    assert!(matches!(task.shutdown(), ShutdownStep::SignalAndJoin('s', 7)));
    assert!(matches!(task.shutdown(), ShutdownStep::AlreadyShutDown));
    assert!(task.waiting().is_none());
    assert!(task.release().is_none());
}

#[test]
fn task_that_was_awaited_is_only_signalled() {
    let mut task = TaskWrapper::new('s', 7);
    *task.waiting().unwrap() += 1;
    assert_eq!(task.waiting(), Some(&mut 8));
    task.joined();
    assert!(task.waiting().is_none());
    assert!(matches!(task.shutdown(), ShutdownStep::SignalOnly('s')));
    assert!(matches!(task.shutdown(), ShutdownStep::AlreadyShutDown));
}

#[test]
fn task_that_is_let_go_of_is_signalled() {
    let mut task = TaskWrapper::new('s', 7);
    assert_eq!(task.release(), Some('s'));
    assert_eq!(task.release(), None);
    assert!(matches!(task.shutdown(), ShutdownStep::AlreadyShutDown));
    assert_eq!(task.waiting(), Some(&mut 7));
}

#[test]
fn every_task_is_handed_out_once_over_a_run() {
    let runs = [
        configs(&[("a", 1), ("b", 2)]),
        configs(&[("b", 3), ("c", 4)]),
        configs(&[("a", 1), ("b", 3)]),
        configs(&[("a", 5)]),
    ];
    let mut runner: ServiceRunner<u32, u32> = ServiceRunner::new();
    let mut launched: Vec<(String, u32)> = Vec::new();
    let mut stopped: Vec<(String, u32)> = Vec::new();
    for updated in &runs {
        for step in runner.reload(updated) {
            match step {
                ServiceStep::Stop(name) => {
                    let task = runner.take(&name).unwrap();
                    stopped.push((name, task));
                }
                ServiceStep::Launch { name, config } => {
                    let task = launched.len() as u32;
                    launched.push((name.clone(), task));
                    runner.launched(name.clone(), *config, task);
                }
            }
        }
    }
    for (name, (_, task)) in runner.shutdown() {
        stopped.push((name, task));
    }
    assert_eq!(launched.len(), 6);
    stopped.sort_by_key(|(_, task)| *task);
    assert_eq!(stopped, launched);
}
