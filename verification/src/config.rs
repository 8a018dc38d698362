//! The configuration tree: what the operator asked for.
//!
//! Every field is optional. An absent field is never an error: it means
//! that the component's default applies, and the default is applied when
//! the component is built, not here.

use vstd::prelude::*;

verus! {

/// Root of the configuration tree.
#[derive(Debug)]
pub struct Config {
    pub db: Option<DbConfig>,
    pub recv: Option<Recv>,
}

/// Tuning of the storage engine.
#[derive(Debug)]
pub struct DbConfig {
    /// Time between two aggregation passes, in whole milliseconds.
    pub aggregation_interval_millis: Option<u64>,
}

/// The receivers, grouped by protocol.
#[derive(Debug)]
pub struct Recv {
    pub statsd: Option<Statsd>,
}

/// The StatsD receivers, grouped by transport.
#[derive(Debug)]
pub struct Statsd {
    pub tcp: Option<Vec<StatsdTcp>>,
    pub udp: Option<Vec<()>>,
}

/// One StatsD TCP listener.
#[derive(Debug)]
pub struct StatsdTcp {
    pub port: Option<u16>,
}

impl DbConfig {
    /// The aggregation interval that an optional engine section asks for.
    pub open spec fn interval_of(section: Option<DbConfig>) -> Option<u64> {
        match section {
            Some(db) => db.aggregation_interval_millis,
            None => None,
        }
    }
}

impl Statsd {
    /// The TCP listeners of this group, in configured order.
    pub open spec fn tcp_entries(&self) -> Seq<StatsdTcp> {
        match self.tcp {
            Some(entries) => entries@,
            None => Seq::empty(),
        }
    }
}

impl Recv {
    /// The StatsD TCP listeners that an optional receivers section asks
    /// for, in configured order.
    pub open spec fn statsd_tcp_of(section: Option<Recv>) -> Seq<StatsdTcp> {
        match section {
            Some(Recv { statsd: Some(statsd) }) => statsd.tcp_entries(),
            _ => Seq::empty(),
        }
    }
}

impl Config {
    /// The aggregation interval that the tree asks for, if any.
    pub open spec fn aggregation_interval_millis(&self) -> Option<u64> {
        DbConfig::interval_of(self.db)
    }

    /// The StatsD TCP listeners that the tree asks for, in configured order.
    pub open spec fn statsd_tcp(&self) -> Seq<StatsdTcp> {
        Recv::statsd_tcp_of(self.recv)
    }
}

} // verus!
