use metricsd::builder::BuildContext;
use metricsd::builder::BuildError;
use metricsd::builder::DbBuilder;
use metricsd::builder::RecvBuilder;
use metricsd::builder::RecvBuilderKind;
use metricsd::builder::RecvRunnerKind;
use metricsd::builder::RootBuilder;
use metricsd::builder::StatsdTcpBuilder;
use metricsd::config::Config;
use metricsd::config::DbConfig;
use metricsd::config::Recv;
use metricsd::config::Statsd;
use metricsd::config::StatsdTcp;
use metricsd::engine::Engine;
use metricsd::listener::effective_port;
use metricsd::listener::Endpoint;
use metricsd::listener::Host;
use metricsd::listener::StatsdTcpReceiver;
use metricsd::listener::DEFAULT_STATSD_TCP_PORT;
use metricsd::runner::Phase;
use metricsd::runner::Runner;
use metricsd::settings::RecvKind;

fn tcp_config(ports: Vec<Option<u16>>) -> Config {
    let tcp = ports.into_iter().map(|port| StatsdTcp { port }).collect();
    Config {
        db: None,
        recv: Some(Recv { statsd: Some(Statsd { tcp: Some(tcp), udp: None }) }),
    }
}

fn built(config: Config) -> Runner {
    match RootBuilder::from(config).build() {
        Ok(runner) => runner,
        Err(error) => panic!("build failed: {:?}", error),
    }
}

fn ports_of(receivers: &Vec<RecvRunnerKind>) -> Vec<u16> {
    receivers.iter().map(|receiver| receiver.endpoint().port).collect()
}

#[test]
fn default_port_is_8125() {
    assert_eq!(DEFAULT_STATSD_TCP_PORT, 8125);
    assert_eq!(effective_port(None), 8125);
    assert_eq!(effective_port(Some(9000)), 9000);
    assert_eq!(effective_port(Some(0)), 0);
    assert_eq!(effective_port(Some(65535)), 65535);
}

#[test]
fn wildcard_is_all_zero() {
    assert_eq!(Host::wildcard(), Host { a: 0, b: 0, c: 0, d: 0 });
}

#[test]
fn empty_configuration_builds_defaults_and_no_receivers() {
    let mut runner = built(Config { db: None, recv: None });
    assert_eq!(runner.phase(), Phase::Assembled);
    assert_eq!(runner.receiver_count(), 0);
    let launch = runner.start();
    assert_eq!(launch.engine.aggregation_interval_millis(), None);
    assert!(launch.receivers.is_empty());
}

#[test]
fn absent_groups_yield_no_receivers() {
    let configs = vec![
        Config { db: Some(DbConfig { aggregation_interval_millis: None }), recv: None },
        Config { db: None, recv: Some(Recv { statsd: None }) },
        Config { db: None, recv: Some(Recv { statsd: Some(Statsd { tcp: None, udp: None }) }) },
        Config {
            db: None,
            recv: Some(Recv { statsd: Some(Statsd { tcp: Some(vec![]), udp: Some(vec![(), ()]) }) }),
        },
    ];
    for config in configs {
        let builder = RootBuilder::from(config);
        assert_eq!(builder.db().aggregation_interval_millis(), None);
        assert!(builder.recv().kinds().is_empty());
        let mut runner = builder.build().ok().unwrap();
        assert_eq!(runner.receiver_count(), 0);
        let launch = runner.start();
        assert_eq!(launch.engine.aggregation_interval_millis(), None);
        assert!(launch.receivers.is_empty());
    }
}

#[test]
fn aggregation_interval_is_handed_to_the_engine() {
    let config = Config { db: Some(DbConfig { aggregation_interval_millis: Some(2500) }), recv: None };
    let builder = RootBuilder::from(config);
    assert_eq!(builder.db().aggregation_interval_millis(), Some(2500));
    let mut runner = builder.build().ok().unwrap();
    let launch = runner.start();
    assert_eq!(launch.engine.aggregation_interval_millis(), Some(2500));
}

#[test]
fn descriptors_keep_overrides_and_order() {
    let builder = RootBuilder::from(tcp_config(vec![Some(9000), None, Some(1), None]));
    let ports: Vec<Option<u16>> = builder
        .recv()
        .kinds()
        .iter()
        .map(|kind| match kind {
            RecvBuilderKind::StatsdTcp(tcp) => tcp.port(),
        })
        .collect();
    assert_eq!(ports, vec![Some(9000), None, Some(1), None]);
    let effective: Vec<u16> =
        builder.recv().kinds().iter().map(|kind| kind.endpoint().port).collect();
    assert_eq!(effective, vec![9000, 8125, 1, 8125]);
    for kind in builder.recv().kinds() {
        assert_eq!(kind.kind(), RecvKind::StatsdTcp);
        assert_eq!(kind.endpoint().host, Host::wildcard());
    }
}

#[test]
fn receivers_follow_configuration() {
    let mut runner = built(tcp_config(vec![Some(9000), None]));
    assert_eq!(runner.receiver_count(), 2);
    let launch = runner.start();
    assert_eq!(ports_of(&launch.receivers), vec![9000, 8125]);
    for receiver in &launch.receivers {
        assert_eq!(receiver.kind(), RecvKind::StatsdTcp);
        assert_eq!(receiver.endpoint().host, Host { a: 0, b: 0, c: 0, d: 0 });
    }
}

#[test]
fn many_receivers_keep_their_order() {
    let asked: Vec<Option<u16>> =
        (0..50u16).map(|i| if i % 3 == 0 { None } else { Some(10000 + i) }).collect();
    let expected: Vec<u16> = asked.iter().map(|port| port.unwrap_or(8125)).collect();
    let mut runner = built(tcp_config(asked));
    assert_eq!(runner.receiver_count(), 50);
    let launch = runner.start();
    assert_eq!(ports_of(&launch.receivers), expected);
}

#[test]
fn building_twice_gives_the_same_settings() {
    let builder = RootBuilder::from(Config {
        db: Some(DbConfig { aggregation_interval_millis: Some(1500) }),
        recv: Some(Recv {
            statsd: Some(Statsd {
                tcp: Some(vec![StatsdTcp { port: None }, StatsdTcp { port: Some(4000) }]),
                udp: None,
            }),
        }),
    });
    let first = builder.build().ok().unwrap().start();
    let second = builder.build().ok().unwrap().start();
    assert_eq!(
        first.engine.aggregation_interval_millis(),
        second.engine.aggregation_interval_millis()
    );
    assert_eq!(ports_of(&first.receivers), vec![8125, 4000]);
    assert_eq!(ports_of(&first.receivers), ports_of(&second.receivers));
}

#[test]
fn config_to_kinds_of_absent_group_is_empty() {
    let kinds = RecvBuilder::config_to_kinds::<Statsd>(None);
    assert!(kinds.is_empty());
}

#[test]
fn config_to_kinds_expands_group() {
    let group = Statsd {
        tcp: Some(vec![StatsdTcp { port: Some(1) }, StatsdTcp { port: None }]),
        udp: None,
    };
    let kinds = RecvBuilder::config_to_kinds(Some(group));
    assert_eq!(kinds.len(), 2);
    match &kinds[0] {
        RecvBuilderKind::StatsdTcp(tcp) => assert_eq!(tcp.port(), Some(1)),
    }
    match &kinds[1] {
        RecvBuilderKind::StatsdTcp(tcp) => assert_eq!(tcp.port(), None),
    }
}

#[test]
fn context_holds_engine_once_published() {
    let mut ctxt = BuildContext::new();
    assert!(!ctxt.has_engine());
    let engine = DbBuilder::from(Some(DbConfig { aggregation_interval_millis: Some(10) }))
        .build(&ctxt);
    assert_eq!(engine.aggregation_interval_millis(), Some(10));
    ctxt.publish(engine);
    assert!(ctxt.has_engine());
    let receiver = StatsdTcpBuilder::from(StatsdTcp { port: Some(5555) }).build(&ctxt);
    assert_eq!(
        receiver.ok().unwrap().endpoint(),
        Endpoint { host: Host::wildcard(), port: 5555 }
    );
    let engine = ctxt.into_engine();
    assert_eq!(engine.aggregation_interval_millis(), Some(10));
}

#[test]
fn receivers_build_against_published_engine() {
    let mut ctxt = BuildContext::new();
    ctxt.publish(Engine::new(None));
    let recv = RecvBuilder::from(Some(Recv {
        statsd: Some(Statsd { tcp: Some(vec![StatsdTcp { port: None }]), udp: None }),
    }));
    let receivers = recv.build(&ctxt).ok().unwrap();
    assert_eq!(ports_of(&receivers), vec![8125]);
}

#[test]
fn failed_attempt_is_passed_on() {
    let endpoint = Endpoint { host: Host::wildcard(), port: 80 };
    let cause = std::io::Error::new(std::io::ErrorKind::AddrInUse, "port taken");
    match StatsdTcpReceiver::from_attempt(endpoint, Err(cause)) {
        Ok(_) => panic!("a failed attempt gave a receiver"),
        Err(cause) => assert_eq!(cause.kind(), std::io::ErrorKind::AddrInUse),
    }
}

#[test]
fn successful_attempt_keeps_endpoint() {
    let engine = Engine::new(None);
    let listener = metriqs::recv::push::statsd::StatsdTcpListener::new(
        engine.collector(),
        ("0.0.0.0", 4321),
    );
    let endpoint = Endpoint { host: Host::wildcard(), port: 4321 };
    let receiver = StatsdTcpReceiver::from_attempt(endpoint, listener).ok().unwrap();
    assert_eq!(receiver.endpoint(), endpoint);
    let _listener = receiver.into_listener();
}

#[test]
fn build_error_names_kind_index_and_cause() {
    let cause = std::io::Error::new(std::io::ErrorKind::AddrNotAvailable, "no such address");
    let error = BuildError::new(RecvKind::StatsdTcp, 3, cause);
    assert_eq!(error.kind(), RecvKind::StatsdTcp);
    assert_eq!(error.index(), 3);
    assert_eq!(error.cause().kind(), std::io::ErrorKind::AddrNotAvailable);
}

#[test]
fn context_hands_out_handles_into_the_engine() {
    let mut ctxt = BuildContext::new();
    ctxt.publish(Engine::new(None));
    let first = ctxt.collector();
    first.push(Vec::new());
    let second = ctxt.collector();
    second.push(Vec::new());
    let engine = ctxt.into_engine();
    engine.collector().push(Vec::new());
}

#[test]
fn settle_passes_a_receiver_on() {
    let mut ctxt = BuildContext::new();
    ctxt.publish(Engine::new(None));
    let descriptor = RecvBuilderKind::StatsdTcp(StatsdTcpBuilder::from(StatsdTcp { port: Some(7000) }));
    let built = descriptor.build(&ctxt);
    match descriptor.settle(4, built) {
        Ok(receiver) => {
            assert_eq!(receiver.endpoint(), Endpoint { host: Host::wildcard(), port: 7000 })
        }
        Err(error) => panic!("construction failed: {:?}", error),
    }
}

#[test]
fn settle_names_kind_index_and_cause_of_a_failure() {
    let descriptor = RecvBuilderKind::StatsdTcp(StatsdTcpBuilder::from(StatsdTcp { port: None }));
    let cause = std::io::Error::new(std::io::ErrorKind::AddrInUse, "port taken");
    match descriptor.settle(2, Err(cause)) {
        Ok(_) => panic!("a failure gave a receiver"),
        Err(error) => {
            assert_eq!(error.kind(), RecvKind::StatsdTcp);
            assert_eq!(error.index(), 2);
            assert_eq!(error.cause().kind(), std::io::ErrorKind::AddrInUse);
        }
    }
}
