//! The storage engine: the one component every other component depends on.
//!
//! The engine itself lives in the `metriqs` crate. This module pairs the
//! engine value with the settings it was constructed from, so that the rest
//! of the library can speak about an engine's configuration.

use vstd::prelude::*;
use metriqs::db::Db;
use metriqs::db::DbOptions;
use metriqs::recv::Collector;
use std::time::Duration;

verus! {

/// `metriqs::db::Db`, the storage engine, taken as an opaque value.
#[verifier::external_type_specification]
#[verifier::external_body]
pub struct ExDb(metriqs::db::Db);

/// `metriqs::recv::Collector`, the submission handle into an engine, taken
/// as an opaque value.
#[verifier::external_type_specification]
#[verifier::external_body]
pub struct ExCollector(metriqs::recv::Collector);

/// Calls `metriqs::db::Db::new` with options whose aggregation interval is
/// the given number of milliseconds, or is left unset when `None` is given.
/// Nothing is assumed about the engine that comes back.
#[verifier::external_body]
fn db_new(aggregation_interval_millis: Option<u64>) -> Db {
    Db::new(DbOptions { aggregation_interval: aggregation_interval_millis.map(Duration::from_millis) })
}

/// The submission handle into an engine: what `metriqs::db::Db::collector`
/// returns for it.
pub uninterp spec fn collector_of(db: Db) -> Collector;

/// Calls `metriqs::db::Db::collector`. The handle that comes back wraps a
/// copy of the sending end that the engine was constructed with and never
/// replaces, so it is determined by the engine: it is `collector_of` the
/// engine. Nothing else is assumed about it.
#[verifier::external_body]
fn db_collector(db: &Db) -> (collector: Collector)
    ensures
        collector == collector_of(*db),
{
    db.collector()
}

/// A constructed storage engine together with a record of the options that
/// were handed over when it was constructed. The engine keeps no such
/// record of its own, so the record is this library's.
pub struct Engine {
    db: Db,
    aggregation_interval_millis: Option<u64>,
}

impl Engine {
    /// The aggregation interval override on record, in milliseconds:
    /// what was handed over at construction. `None` means that none was,
    /// and the engine runs at its own built-in cadence.
    pub closed spec fn spec_aggregation_interval_millis(&self) -> Option<u64> {
        self.aggregation_interval_millis
    }

    /// The engine proper.
    pub closed spec fn db(&self) -> Db {
        self.db
    }

    /// Constructs an engine with the given aggregation interval override,
    /// and records the override.
    pub fn new(aggregation_interval_millis: Option<u64>) -> (engine: Engine)
        ensures
            engine.aggregation_interval_millis() == aggregation_interval_millis,
    {
        Engine { db: db_new(aggregation_interval_millis), aggregation_interval_millis }
    }

    #[verifier::when_used_as_spec(spec_aggregation_interval_millis)]
    pub fn aggregation_interval_millis(&self) -> (interval: Option<u64>)
        ensures
            interval == self.spec_aggregation_interval_millis(),
    {
        self.aggregation_interval_millis
    }

    /// A capability handle through which a receiver submits what it
    /// ingests into this engine.
    pub fn collector(&self) -> (collector: Collector)
        ensures
            collector == collector_of(self.db()),
    {
        db_collector(&self.db)
    }

    /// Gives up the underlying engine so that its duties can be run.
    pub fn into_db(self) -> (db: Db)
        ensures
            db == self.db(),
    {
        self.db
    }
}

} // verus!
