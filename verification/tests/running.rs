use metricsd::builder::RootBuilder;
use metricsd::config::Config;
use metricsd::config::Recv;
use metricsd::config::Statsd;
use metricsd::config::StatsdTcp;
use metricsd::engine::Engine;
use metricsd::runner::conclude;
use metricsd::runner::Exit;
use metricsd::runner::Outcome;
use metricsd::runner::Phase;
use metricsd::runner::Runner;
use metricsd::runner::Step;
use metricsd::runner::Unit;

fn started(receivers: usize) -> Runner {
    let tcp = (0..receivers).map(|_| StatsdTcp { port: None }).collect();
    let config = Config {
        db: None,
        recv: Some(Recv { statsd: Some(Statsd { tcp: Some(tcp), udp: None }) }),
    };
    let mut runner = RootBuilder::from(config).build().ok().unwrap();
    let launch = runner.start();
    assert_eq!(launch.receivers.len(), receivers);
    runner
}

#[test]
fn example_scenario_two_listeners_four_units() {
    let tcp = vec![StatsdTcp { port: Some(9000) }, StatsdTcp { port: None }];
    let config = Config {
        db: None,
        recv: Some(Recv { statsd: Some(Statsd { tcp: Some(tcp), udp: None }) }),
    };
    let mut runner = RootBuilder::from(config).build().ok().unwrap();
    assert_eq!(runner.next_step(), Step::Launch);
    let launch = runner.start();
    let ports: Vec<u16> = launch.receivers.iter().map(|r| r.endpoint().port).collect();
    assert_eq!(ports, vec![9000, 8125]);
    assert_eq!(runner.phase(), Phase::Running);
    assert_eq!(runner.next_step(), Step::Await(Unit::AggregationSync));
    assert_eq!(runner.record(Exit::Clean), Step::Await(Unit::IngestionSync));
    assert_eq!(runner.record(Exit::Clean), Step::Await(Unit::Receiver(0)));
    assert_eq!(runner.record(Exit::Clean), Step::Await(Unit::Receiver(1)));
    assert_eq!(runner.phase(), Phase::Running);
    assert_eq!(runner.record(Exit::Clean), Step::Finish(Outcome::Completed));
    assert_eq!(runner.phase(), Phase::Completed);
}

#[test]
fn no_receivers_means_two_units() {
    let mut runner = started(0);
    assert_eq!(runner.receiver_count(), 0);
    assert_eq!(runner.next_step(), Step::Await(Unit::AggregationSync));
    assert_eq!(runner.record(Exit::Clean), Step::Await(Unit::IngestionSync));
    assert_eq!(runner.record(Exit::Clean), Step::Finish(Outcome::Completed));
}

#[test]
fn waits_for_exactly_k_plus_two_units() {
    for k in 0..6usize {
        let mut runner = started(k);
        let mut awaited = Vec::new();
        let mut step = runner.next_step();
        while let Step::Await(unit) = step {
            awaited.push(unit);
            assert_eq!(runner.phase(), Phase::Running);
            step = runner.record(Exit::Clean);
        }
        assert_eq!(awaited.len(), k + 2);
        assert_eq!(awaited[0], Unit::AggregationSync);
        assert_eq!(awaited[1], Unit::IngestionSync);
        for index in 0..k {
            assert_eq!(awaited[index + 2], Unit::Receiver(index));
        }
        assert_eq!(step, Step::Finish(Outcome::Completed));
    }
}

#[test]
fn single_fault_is_surfaced_whichever_unit_faults() {
    let k = 3usize;
    for culprit in 0..k + 2 {
        let mut runner = started(k);
        let mut step = runner.next_step();
        for position in 0..k + 2 {
            assert!(matches!(step, Step::Await(_)));
            let exit = if position == culprit { Exit::Fault } else { Exit::Clean };
            step = runner.record(exit);
        }
        assert_eq!(step, Step::Finish(Outcome::Faulted(Unit::nth(culprit))));
        assert_eq!(runner.phase(), Phase::Faulted);
    }
}

#[test]
fn fault_does_not_shorten_the_wait() {
    let mut runner = started(1);
    assert_eq!(runner.record(Exit::Fault), Step::Await(Unit::IngestionSync));
    assert_eq!(runner.phase(), Phase::Running);
    assert_eq!(runner.record(Exit::Clean), Step::Await(Unit::Receiver(0)));
    assert_eq!(runner.phase(), Phase::Running);
    assert_eq!(
        runner.record(Exit::Clean),
        Step::Finish(Outcome::Faulted(Unit::AggregationSync))
    );
}

#[test]
fn first_of_several_faults_is_reported() {
    let mut runner = started(2);
    runner.record(Exit::Clean);
    runner.record(Exit::Clean);
    runner.record(Exit::Fault);
    let step = runner.record(Exit::Fault);
    assert_eq!(step, Step::Finish(Outcome::Faulted(Unit::Receiver(0))));
}

#[test]
fn exits_after_the_end_are_not_recorded() {
    let mut runner = started(0);
    runner.record(Exit::Clean);
    let end = runner.record(Exit::Clean);
    assert_eq!(end, Step::Finish(Outcome::Completed));
    assert_eq!(runner.record(Exit::Fault), end);
    assert_eq!(runner.next_step(), end);
    assert_eq!(runner.phase(), Phase::Completed);
}

#[test]
fn exits_before_the_start_are_not_recorded() {
    let mut runner = Runner::new(Engine::new(None), Vec::new());
    assert_eq!(runner.phase(), Phase::Assembled);
    assert_eq!(runner.record(Exit::Fault), Step::Launch);
    assert_eq!(runner.phase(), Phase::Assembled);
    let _launch = runner.start();
    assert_eq!(runner.record(Exit::Clean), Step::Await(Unit::IngestionSync));
    assert_eq!(runner.record(Exit::Clean), Step::Finish(Outcome::Completed));
}

#[test]
fn start_hands_over_engine_and_receivers() {
    let mut runner = started(0);
    assert_eq!(runner.receiver_count(), 0);
    let mut runner2 = Runner::new(Engine::new(Some(42)), Vec::new());
    let launch = runner2.start();
    assert_eq!(launch.engine.aggregation_interval_millis(), Some(42));
    let _db = launch.engine.into_db();
    assert_eq!(runner.record(Exit::Clean), Step::Await(Unit::IngestionSync));
}

#[test]
fn unit_positions() {
    assert_eq!(Unit::nth(0), Unit::AggregationSync);
    assert_eq!(Unit::nth(1), Unit::IngestionSync);
    assert_eq!(Unit::nth(2), Unit::Receiver(0));
    assert_eq!(Unit::nth(7), Unit::Receiver(5));
    assert_eq!(Unit::nth(usize::MAX), Unit::Receiver(usize::MAX - 2));
}

#[test]
fn conclude_finds_first_fault() {
    assert_eq!(conclude(&vec![]), Outcome::Completed);
    assert_eq!(conclude(&vec![Exit::Clean, Exit::Clean]), Outcome::Completed);
    assert_eq!(conclude(&vec![Exit::Fault]), Outcome::Faulted(Unit::AggregationSync));
    assert_eq!(
        conclude(&vec![Exit::Clean, Exit::Clean, Exit::Clean, Exit::Fault, Exit::Fault]),
        Outcome::Faulted(Unit::Receiver(1))
    );
}

#[test]
fn positions_of_units() {
    assert_eq!(Unit::AggregationSync.position(), Some(0));
    assert_eq!(Unit::IngestionSync.position(), Some(1));
    assert_eq!(Unit::Receiver(0).position(), Some(2));
    assert_eq!(Unit::Receiver(5).position(), Some(7));
    assert_eq!(Unit::Receiver(usize::MAX - 2).position(), Some(usize::MAX));
    assert_eq!(Unit::Receiver(usize::MAX - 1).position(), None);
    for position in 0..10usize {
        assert_eq!(Unit::nth(position).position(), Some(position));
    }
}
