//! Building the daemon's components from their configuration.
//!
//! Building runs in two phases. First the storage engine is built from its
//! own section of the configuration and published into the build context.
//! Only then are the receivers built, each of which reads a capability
//! handle from the context. A step that needs the engine states so in its
//! `requires`, so no such step can run on an empty context.

use vstd::prelude::*;
use crate::config::Config;
use crate::config::DbConfig;
use crate::config::Recv;
use crate::config::Statsd;
use crate::config::StatsdTcp;
use crate::engine::collector_of;
use crate::engine::Engine;
use crate::listener::attempt_for;
use crate::listener::statsd_tcp_listener_of;
use crate::listener::effective_port;
use crate::listener::Endpoint;
use crate::listener::Host;
use crate::listener::StatsdTcpReceiver;
use metriqs::recv::push::statsd::StatsdTcpListener;
use crate::runner::Exit;
use crate::runner::Runner;
use crate::settings::ReceiverSettings;
use crate::settings::RecvKind;
use crate::settings::Settings;
use metriqs::recv::Collector;

verus! {

/// Why a build was given up: the construction of one receiver failed.
#[derive(Debug)]
pub struct BuildError {
    kind: RecvKind,
    index: usize,
    cause: std::io::Error,
}

impl BuildError {
    pub closed spec fn spec_kind(&self) -> RecvKind {
        self.kind
    }

    pub closed spec fn spec_index(&self) -> usize {
        self.index
    }

    pub closed spec fn spec_cause(&self) -> std::io::Error {
        self.cause
    }

    /// The failure `cause` of the receiver of the given kind that stands
    /// at position `index` among the receivers asked for.
    pub fn new(kind: RecvKind, index: usize, cause: std::io::Error) -> (error: BuildError)
        ensures
            error.kind() == kind,
            error.index() == index,
            error.spec_cause() == cause,
    {
        BuildError { kind, index, cause }
    }

    /// Kind of the receiver that could not be constructed.
    #[verifier::when_used_as_spec(spec_kind)]
    pub fn kind(&self) -> (kind: RecvKind)
        ensures
            kind == self.spec_kind(),
    {
        self.kind
    }

    /// Position of that receiver among the receivers asked for.
    #[verifier::when_used_as_spec(spec_index)]
    pub fn index(&self) -> (index: usize)
        ensures
            index == self.spec_index(),
    {
        self.index
    }

    /// What the construction failed with.
    pub fn cause(&self) -> (cause: &std::io::Error)
        ensures
            *cause == self.spec_cause(),
    {
        &self.cause
    }
}

/// Staging area of one build: holds the storage engine once it exists.
pub struct BuildContext {
    db: Option<Engine>,
}

impl BuildContext {
    /// The engine published so far, if any.
    pub closed spec fn engine(&self) -> Option<Engine> {
        self.db
    }

    pub open spec fn spec_has_engine(&self) -> bool {
        self.engine() is Some
    }

    /// A context in which nothing has been published.
    pub fn new() -> (ctxt: BuildContext)
        ensures
            ctxt.engine() is None,
    {
        BuildContext { db: None }
    }

    /// Whether the engine has been published.
    #[verifier::when_used_as_spec(spec_has_engine)]
    pub fn has_engine(&self) -> (published: bool)
        ensures
            published == self.spec_has_engine(),
    {
        self.db.is_some()
    }

    /// Publishes the engine, for the steps that follow.
    pub fn publish(&mut self, engine: Engine)
        ensures
            final(self).engine() == Some(engine),
    {
        self.db = Some(engine);
    }

    /// The capability handle that this context hands out: the one into
    /// the published engine.
    pub open spec fn spec_collector(&self) -> Collector {
        collector_of(self.engine()->Some_0.db())
    }

    /// A capability handle into the published engine.
    #[verifier::when_used_as_spec(spec_collector)]
    pub fn collector(&self) -> (collector: Collector)
        requires
            self.has_engine(),
        ensures
            collector == self.spec_collector(),
    {
        match &self.db {
            Some(engine) => engine.collector(),
            None => vstd::pervasive::unreached(),
        }
    }

    /// Ends the build phase: gives up the engine, for the runner to own.
    pub fn into_engine(self) -> (engine: Engine)
        requires
            self.has_engine(),
        ensures
            Some(engine) == self.engine(),
    {
        self.db.unwrap()
    }
}

/// Descriptor of the storage engine: the overrides its configuration gave.
#[derive(Debug)]
pub struct DbBuilder {
    aggregation_interval_millis: Option<u64>,
}

impl DbBuilder {
    pub closed spec fn spec_aggregation_interval_millis(&self) -> Option<u64> {
        self.aggregation_interval_millis
    }

    /// The aggregation interval override, in milliseconds.
    #[verifier::when_used_as_spec(spec_aggregation_interval_millis)]
    pub fn aggregation_interval_millis(&self) -> (interval: Option<u64>)
        ensures
            interval == self.spec_aggregation_interval_millis(),
    {
        self.aggregation_interval_millis
    }

    /// Builds the engine. This is the first phase of a build: it reads
    /// nothing from the context.
    pub fn build(&self, ctxt: &BuildContext) -> (engine: Engine)
        ensures
            engine.aggregation_interval_millis() == self.aggregation_interval_millis(),
    {
        Engine::new(self.aggregation_interval_millis)
    }
}

impl vstd::std_specs::convert::FromSpecImpl<Option<DbConfig>> for DbBuilder {
    open spec fn obeys_from_spec() -> bool {
        true
    }

    closed spec fn from_spec(config: Option<DbConfig>) -> DbBuilder {
        DbBuilder { aggregation_interval_millis: DbConfig::interval_of(config) }
    }
}

impl From<Option<DbConfig>> for DbBuilder {
    fn from(config: Option<DbConfig>) -> (builder: DbBuilder)
        ensures
            builder.aggregation_interval_millis() == DbConfig::interval_of(config),
    {
        DbBuilder {
            aggregation_interval_millis: match config {
                Some(config) => config.aggregation_interval_millis,
                None => None,
            },
        }
    }
}

/// Descriptor of one StatsD TCP listener: the overrides its configuration
/// gave.
#[derive(Debug)]
pub struct StatsdTcpBuilder {
    port: Option<u16>,
}

impl StatsdTcpBuilder {
    pub closed spec fn spec_port(&self) -> Option<u16> {
        self.port
    }

    /// Where the listener built from this descriptor accepts connections:
    /// on every interface, at the configured port or the default one.
    pub open spec fn spec_endpoint(&self) -> Endpoint {
        Endpoint { host: Host::wildcard(), port: effective_port(self.port()) }
    }

    /// The port override.
    #[verifier::when_used_as_spec(spec_port)]
    pub fn port(&self) -> (port: Option<u16>)
        ensures
            port == self.spec_port(),
    {
        self.port
    }

    #[verifier::when_used_as_spec(spec_endpoint)]
    pub fn endpoint(&self) -> (endpoint: Endpoint)
        ensures
            endpoint == self.spec_endpoint(),
    {
        Endpoint { host: Host::wildcard(), port: effective_port(self.port) }
    }

    /// What constructing the listener of this descriptor gives in `ctxt`:
    /// the attempt for the context's capability handle and this
    /// descriptor's endpoint.
    pub open spec fn attempt(&self, ctxt: &BuildContext) -> Result<
        StatsdTcpListener,
        std::io::Error,
    > {
        attempt_for(ctxt.collector(), self.endpoint())
    }

    /// Builds the listener: constructs it for this descriptor's endpoint,
    /// with a capability handle into the published engine. The result is
    /// what that attempt amounts to.
    pub fn build(&self, ctxt: &BuildContext) -> (out: Result<StatsdTcpReceiver, std::io::Error>)
        requires
            ctxt.has_engine(),
        ensures
            StatsdTcpReceiver::made_from(self.endpoint(), self.attempt(ctxt), out),
    {
        let collector = ctxt.collector();
        StatsdTcpReceiver::construct(collector, self.endpoint())
    }
}

impl vstd::std_specs::convert::FromSpecImpl<StatsdTcp> for StatsdTcpBuilder {
    open spec fn obeys_from_spec() -> bool {
        true
    }

    closed spec fn from_spec(config: StatsdTcp) -> StatsdTcpBuilder {
        StatsdTcpBuilder { port: config.port }
    }
}

impl From<StatsdTcp> for StatsdTcpBuilder {
    fn from(config: StatsdTcp) -> (builder: StatsdTcpBuilder)
        ensures
            builder.port() == config.port,
    {
        StatsdTcpBuilder { port: config.port }
    }
}

/// A constructed receiver, ready to be run.
pub enum RecvRunnerKind {
    StatsdTcp(StatsdTcpReceiver),
}

impl RecvRunnerKind {
    pub open spec fn spec_kind(&self) -> RecvKind {
        match self {
            RecvRunnerKind::StatsdTcp(_) => RecvKind::StatsdTcp,
        }
    }

    pub open spec fn spec_endpoint(&self) -> Endpoint {
        match self {
            RecvRunnerKind::StatsdTcp(receiver) => receiver.endpoint(),
        }
    }

    /// The effective settings this receiver was built with.
    pub open spec fn settings(&self) -> ReceiverSettings {
        ReceiverSettings { kind: self.kind(), endpoint: self.endpoint() }
    }

    #[verifier::when_used_as_spec(spec_kind)]
    pub fn kind(&self) -> (kind: RecvKind)
        ensures
            kind == self.spec_kind(),
    {
        match self {
            RecvRunnerKind::StatsdTcp(_) => RecvKind::StatsdTcp,
        }
    }

    /// Where this receiver accepts connections.
    #[verifier::when_used_as_spec(spec_endpoint)]
    pub fn endpoint(&self) -> (endpoint: Endpoint)
        ensures
            endpoint == self.spec_endpoint(),
    {
        match self {
            RecvRunnerKind::StatsdTcp(receiver) => receiver.endpoint(),
        }
    }
}

/// Descriptor of one receiver, of whatever kind.
#[derive(Debug)]
pub enum RecvBuilderKind {
    StatsdTcp(StatsdTcpBuilder),
}

impl RecvBuilderKind {
    pub open spec fn spec_kind(&self) -> RecvKind {
        match self {
            RecvBuilderKind::StatsdTcp(_) => RecvKind::StatsdTcp,
        }
    }

    pub open spec fn spec_endpoint(&self) -> Endpoint {
        match self {
            RecvBuilderKind::StatsdTcp(builder) => builder.endpoint(),
        }
    }

    /// The effective settings of the receiver that this descriptor asks
    /// for.
    pub open spec fn settings(&self) -> ReceiverSettings {
        ReceiverSettings { kind: self.kind(), endpoint: self.endpoint() }
    }

    #[verifier::when_used_as_spec(spec_kind)]
    pub fn kind(&self) -> (kind: RecvKind)
        ensures
            kind == self.spec_kind(),
    {
        match self {
            RecvBuilderKind::StatsdTcp(_) => RecvKind::StatsdTcp,
        }
    }

    /// Where the receiver built from this descriptor accepts connections.
    #[verifier::when_used_as_spec(spec_endpoint)]
    pub fn endpoint(&self) -> (endpoint: Endpoint)
        ensures
            endpoint == self.spec_endpoint(),
    {
        match self {
            RecvBuilderKind::StatsdTcp(builder) => builder.endpoint(),
        }
    }

    /// `out` is what building this descriptor in `ctxt` gives: the
    /// receiver that its construction attempt amounts to, under the
    /// descriptor's kind, or the failure of that attempt.
    pub open spec fn builds(
        &self,
        ctxt: &BuildContext,
        out: Result<RecvRunnerKind, std::io::Error>,
    ) -> bool {
        match self {
            RecvBuilderKind::StatsdTcp(builder) => match out {
                Ok(RecvRunnerKind::StatsdTcp(receiver)) => StatsdTcpReceiver::made_from(
                    builder.endpoint(),
                    builder.attempt(ctxt),
                    Ok(receiver),
                ),
                Err(cause) => StatsdTcpReceiver::made_from(
                    builder.endpoint(),
                    builder.attempt(ctxt),
                    Err(cause),
                ),
            },
        }
    }

    /// The construction that this descriptor asks for succeeds in `ctxt`.
    pub open spec fn succeeds(&self, ctxt: &BuildContext) -> bool {
        match self {
            RecvBuilderKind::StatsdTcp(builder) => builder.attempt(ctxt) is Ok,
        }
    }

    /// What the build makes of the outcome of building this descriptor,
    /// which stands at position `index`: the receiver, or an error that
    /// names this descriptor's kind, the position and the cause.
    pub fn settle(&self, index: usize, built: Result<RecvRunnerKind, std::io::Error>) -> (out:
        Result<RecvRunnerKind, BuildError>)
        ensures
            match built {
                Ok(receiver) => out == Ok::<RecvRunnerKind, BuildError>(receiver),
                Err(cause) => out matches Err(error) && error.kind() == self.kind()
                    && error.index() == index && error.spec_cause() == cause,
            },
    {
        match built {
            Ok(receiver) => Ok(receiver),
            Err(cause) => Err(BuildError::new(self.kind(), index, cause)),
        }
    }

    /// Builds the receiver that this descriptor asks for. Where it
    /// succeeds, the receiver has the descriptor's effective settings.
    pub fn build(&self, ctxt: &BuildContext) -> (out: Result<RecvRunnerKind, std::io::Error>)
        requires
            ctxt.has_engine(),
        ensures
            self.builds(ctxt, out),
            out matches Ok(receiver) ==> receiver.settings() == self.settings(),
    {
        match self {
            RecvBuilderKind::StatsdTcp(builder) => match builder.build(ctxt) {
                Ok(receiver) => Ok(RecvRunnerKind::StatsdTcp(receiver)),
                Err(cause) => Err(cause),
            },
        }
    }
}

/// `kinds` holds one descriptor for each entry of `entries`, in the same
/// order and with the same overrides.
pub open spec fn describes(kinds: Seq<RecvBuilderKind>, entries: Seq<StatsdTcp>) -> bool {
    &&& kinds.len() == entries.len()
    &&& forall|i: int|
        0 <= i < kinds.len() ==> (#[trigger] kinds[i] matches RecvBuilderKind::StatsdTcp(builder)
            && builder.port() == entries[i].port)
}

/// A vector is not determined by what it holds, so the conversion is
/// specified by `describes` in its `ensures` and not by equality with
/// `from_spec`.
impl vstd::std_specs::convert::FromSpecImpl<Statsd> for Vec<RecvBuilderKind> {
    open spec fn obeys_from_spec() -> bool {
        false
    }

    open spec fn from_spec(config: Statsd) -> Vec<RecvBuilderKind> {
        choose|kinds: Vec<RecvBuilderKind>| describes(kinds@, config.tcp_entries())
    }
}

impl From<Statsd> for Vec<RecvBuilderKind> {
    /// Expands the group into one descriptor per configured listener.
    fn from(config: Statsd) -> (kinds: Vec<RecvBuilderKind>)
        ensures
            describes(kinds@, config.tcp_entries()),
    {
        let mut kinds: Vec<RecvBuilderKind> = Vec::new();
        if let Some(tcps) = config.tcp {
            for tcp in entries: tcps
                invariant
                    entries.seq() == tcps@,
                    describes(kinds@, tcps@.take(entries.index() as int)),
            {
                kinds.push(RecvBuilderKind::StatsdTcp(StatsdTcpBuilder::from(tcp)));
            }
        }
        kinds
    }
}

/// Descriptors of the receivers, in the order in which they are built.
#[derive(Debug)]
pub struct RecvBuilder {
    kinds: Vec<RecvBuilderKind>,
}

impl View for RecvBuilder {
    type V = Seq<RecvBuilderKind>;

    /// The descriptors, in the order in which they are built.
    closed spec fn view(&self) -> Seq<RecvBuilderKind> {
        self.kinds@
    }
}

/// The effective settings of constructed receivers, in order.
pub open spec fn settings_of(receivers: Seq<RecvRunnerKind>) -> Seq<ReceiverSettings> {
    receivers.map_values(|receiver: RecvRunnerKind| receiver.settings())
}

impl RecvBuilder {
    /// The effective settings of the receivers that the descriptors ask
    /// for, in order.
    pub open spec fn settings(&self) -> Seq<ReceiverSettings> {
        self@.map_values(|kind: RecvBuilderKind| kind.settings())
    }

    /// `error` blames one of the descriptors.
    pub open spec fn blamed_by(&self, error: BuildError) -> bool {
        &&& error.index() < self@.len()
        &&& error.kind() == self@[error.index() as int].kind()
    }

    /// `receivers` holds, for each descriptor in order, the receiver that
    /// building it in `ctxt` gives.
    pub open spec fn builds_all(&self, ctxt: &BuildContext, receivers: Seq<RecvRunnerKind>) -> bool {
        &&& receivers.len() == self@.len()
        &&& forall|i: int|
            0 <= i < self@.len() ==> (#[trigger] self@[i]).builds(ctxt, Ok(receivers[i]))
    }

    /// `error` is the failure of the first descriptor whose construction
    /// fails in `ctxt`: it names that descriptor's kind and position and
    /// the cause of the failure.
    pub open spec fn fails_at(&self, ctxt: &BuildContext, error: BuildError) -> bool {
        &&& error.index() < self@.len()
        &&& error.kind() == self@[error.index() as int].kind()
        &&& self@[error.index() as int].builds(ctxt, Err(error.spec_cause()))
        &&& forall|j: int| 0 <= j < error.index() ==> (#[trigger] self@[j]).succeeds(ctxt)
    }

    /// The descriptors.
    pub fn kinds(&self) -> (kinds: &Vec<RecvBuilderKind>)
        ensures
            kinds@ == self@,
    {
        &self.kinds
    }

    /// The descriptors that an optional group of the configuration asks
    /// for: none where the group is absent.
    pub fn config_to_kinds<T>(config: Option<T>) -> (kinds: Vec<RecvBuilderKind>) where
        Vec<RecvBuilderKind>: From<T>,

        ensures
            match config {
                Some(group) => call_ensures(
                    <Vec<RecvBuilderKind> as From<T>>::from,
                    (group,),
                    kinds,
                ),
                None => kinds@ == Seq::<RecvBuilderKind>::empty(),
            },
    {
        match config {
            Some(config) => From::from(config),
            None => Vec::new(),
        }
    }

    /// Builds every receiver, in order. This is the second phase of a
    /// build. It gives, for each descriptor, the receiver that building it
    /// in `ctxt` gives, and so receivers with the settings asked for. The
    /// first receiver that cannot be constructed ends the build, and the
    /// error names it: the build succeeds exactly when every construction
    /// does.
    pub fn build(&self, ctxt: &BuildContext) -> (out: Result<Vec<RecvRunnerKind>, BuildError>)
        requires
            ctxt.has_engine(),
        ensures
            match out {
                Ok(receivers) => self.builds_all(ctxt, receivers@) && settings_of(receivers@)
                    == self.settings(),
                Err(error) => self.fails_at(ctxt, error),
            },
            self@.len() == 0 ==> out is Ok,
    {
        let mut receivers: Vec<RecvRunnerKind> = Vec::new();
        let mut index: usize = 0;
        while index < self.kinds.len()
            invariant
                ctxt.has_engine(),
                index <= self.kinds.len(),
                receivers@.len() == index,
                forall|i: int|
                    0 <= i < index ==> (#[trigger] receivers@[i]).settings()
                        == self@[i].settings(),
                forall|i: int|
                    0 <= i < index ==> (#[trigger] self@[i]).builds(ctxt, Ok(receivers@[i])),
                forall|i: int| 0 <= i < index ==> (#[trigger] self@[i]).succeeds(ctxt),
            decreases self.kinds.len() - index,
        {
            let built = self.kinds[index].build(ctxt);
            match self.kinds[index].settle(index, built) {
                Ok(receiver) => receivers.push(receiver),
                Err(error) => {
                    return Err(error);
                },
            }
            index = index + 1;
        }
        assert(settings_of(receivers@) =~= self.settings());
        Ok(receivers)
    }
}

impl vstd::std_specs::convert::FromSpecImpl<Option<Recv>> for RecvBuilder {
    open spec fn obeys_from_spec() -> bool {
        false
    }

    open spec fn from_spec(config: Option<Recv>) -> RecvBuilder {
        choose|builder: RecvBuilder| describes(builder@, Recv::statsd_tcp_of(config))
    }
}

impl From<Option<Recv>> for RecvBuilder {
    fn from(config: Option<Recv>) -> (builder: RecvBuilder)
        ensures
            describes(builder@, Recv::statsd_tcp_of(config)),
    {
        let mut kinds: Vec<RecvBuilderKind> = Vec::new();
        if let Some(config) = config {
            let mut statsd = RecvBuilder::config_to_kinds(config.statsd);
            kinds.append(&mut statsd);
        }
        RecvBuilder { kinds }
    }
}

/// Descriptor of the whole daemon.
#[derive(Debug)]
pub struct RootBuilder {
    db: DbBuilder,
    recv: RecvBuilder,
}

impl RootBuilder {
    pub closed spec fn spec_db(&self) -> &DbBuilder {
        &self.db
    }

    pub closed spec fn spec_recv(&self) -> &RecvBuilder {
        &self.recv
    }

    /// This descriptor holds what `config` asks for: the same overrides,
    /// and one receiver for each configured listener, in the same order.
    pub open spec fn describes(&self, config: Config) -> bool {
        &&& self.db().aggregation_interval_millis() == config.aggregation_interval_millis()
        &&& describes(self.recv()@, config.statsd_tcp())
    }

    /// The effective settings of the daemon that this descriptor asks for.
    pub open spec fn settings(&self) -> Settings {
        Settings {
            aggregation_interval_millis: self.db().aggregation_interval_millis(),
            receivers: self.recv().settings(),
        }
    }

    /// `out` is a possible result of building this descriptor: either the
    /// assembled daemon with the settings asked for, or an error that
    /// blames one of the receivers. The build of a descriptor without
    /// receivers does not fail. Which of the two it is, and what the
    /// daemon holds, is settled by the context in which the receivers were
    /// built: see `built_in`.
    pub open spec fn builds(&self, out: Result<Runner, BuildError>) -> bool {
        &&& match out {
            Ok(runner) => assembled_with(runner, self.settings()),
            Err(error) => self.recv().blamed_by(error),
        }
        &&& self.recv()@.len() == 0 ==> out is Ok
        &&& exists|ctxt: BuildContext| #[trigger] self.built_in(&ctxt, out)
    }

    /// `out` is the result of a build whose second phase ran in `ctxt`:
    /// the context holds an engine made with this descriptor's interval,
    /// and `out` is either a runner that holds that very engine and, for
    /// each receiver descriptor in order, the receiver that building it in
    /// `ctxt` gives, or the failure of the first descriptor whose
    /// construction fails in `ctxt`.
    pub open spec fn built_in(&self, ctxt: &BuildContext, out: Result<Runner, BuildError>) -> bool {
        &&& ctxt.engine() matches Some(engine) && engine.aggregation_interval_millis()
            == self.db().aggregation_interval_millis()
        &&& match out {
            Ok(runner) => runner.engine() == ctxt.engine() && self.recv().builds_all(
                ctxt,
                runner.receivers(),
            ),
            Err(error) => self.recv().fails_at(ctxt, error),
        }
    }

    /// The engine's descriptor.
    #[verifier::when_used_as_spec(spec_db)]
    pub fn db(&self) -> (db: &DbBuilder)
        ensures
            db == self.spec_db(),
    {
        &self.db
    }

    /// The receivers' descriptors.
    #[verifier::when_used_as_spec(spec_recv)]
    pub fn recv(&self) -> (recv: &RecvBuilder)
        ensures
            recv == self.spec_recv(),
    {
        &self.recv
    }

    /// Builds the daemon: first the engine, then, with the engine
    /// published, every receiver. The runner holds the engine that the
    /// receivers submit into. The build fails exactly when the construction
    /// of a receiver does, and the error names the first that did.
    pub fn build(&self) -> (out: Result<Runner, BuildError>)
        ensures
            self.builds(out),
    {
        let mut ctxt = BuildContext::new();

        let db = self.db.build(&ctxt);
        ctxt.publish(db);
        let ghost staged = ctxt;

        let out = match self.recv.build(&ctxt) {
            Ok(recv) => Ok(Runner::new(ctxt.into_engine(), recv)),
            Err(error) => Err(error),
        };
        assert(self.built_in(&staged, out));
        out
    }
}

/// `runner` is freshly assembled, and its components have the given
/// effective settings.
pub open spec fn assembled_with(runner: Runner, settings: Settings) -> bool {
    &&& runner.engine() matches Some(engine) && engine.aggregation_interval_millis()
        == settings.aggregation_interval_millis
    &&& settings_of(runner.receivers()) == settings.receivers
    &&& runner.receiver_count() == settings.receivers.len()
    &&& runner.observed() == Seq::<Exit>::empty()
}

impl vstd::std_specs::convert::FromSpecImpl<Config> for RootBuilder {
    open spec fn obeys_from_spec() -> bool {
        false
    }

    open spec fn from_spec(config: Config) -> RootBuilder {
        choose|builder: RootBuilder| builder.describes(config)
    }
}

impl From<Config> for RootBuilder {
    fn from(config: Config) -> (builder: RootBuilder)
        ensures
            builder.describes(config),
    {
        RootBuilder { db: DbBuilder::from(config.db), recv: RecvBuilder::from(config.recv) }
    }
}

/// The effective settings of the daemon that `config` asks for: the
/// configured aggregation interval, and for each configured listener, in
/// order, the wildcard address and the configured port or the default one.
pub open spec fn settings_for(config: Config) -> Settings {
    Settings {
        aggregation_interval_millis: config.aggregation_interval_millis(),
        receivers: config.statsd_tcp().map_values(
            |entry: StatsdTcp|
                ReceiverSettings {
                    kind: RecvKind::StatsdTcp,
                    endpoint: Endpoint {
                        host: Host::wildcard(),
                        port: effective_port(entry.port),
                    },
                },
        ),
    }
}

/// A descriptor made from a configuration asks for the settings that the
/// configuration asks for: as many receivers as listeners are configured,
/// in the same order, each at its configured port or at the default one.
pub proof fn lemma_descriptor_settings(builder: RootBuilder, config: Config)
    requires
        builder.describes(config),
    ensures
        builder.settings() == settings_for(config),
{
    assert(builder.settings().receivers =~= settings_for(config).receivers);
}

/// Building what a configuration asks for gives, where it succeeds, as
/// many receivers as listeners are configured, in the configured order,
/// each on every interface at its configured port, or at the default port
/// where none is configured.
pub proof fn lemma_receivers_follow_configuration(
    config: Config,
    builder: RootBuilder,
    runner: Runner,
)
    requires
        builder.describes(config),
        builder.builds(Ok(runner)),
    ensures
        runner.receivers().len() == config.statsd_tcp().len(),
        runner.receiver_count() == config.statsd_tcp().len(),
        forall|i: int|
            0 <= i < config.statsd_tcp().len() ==> (#[trigger] runner.receivers()[i]).endpoint()
                == (Endpoint {
                host: Host::wildcard(),
                port: match config.statsd_tcp()[i].port {
                    Some(port) => port,
                    None => 8125,
                },
            }),
{
    lemma_descriptor_settings(builder, config);
    let built = settings_of(runner.receivers());
    let asked = settings_for(config).receivers;
    assert(built.len() == runner.receivers().len());
    assert forall|i: int| 0 <= i < config.statsd_tcp().len() implies (
    #[trigger] runner.receivers()[i]).endpoint() == (Endpoint {
        host: Host::wildcard(),
        port: match config.statsd_tcp()[i].port {
            Some(port) => port,
            None => 8125,
        },
    }) by {
        assert(built[i] == asked[i]);
    }
}

/// A configuration that names neither an aggregation interval nor a
/// listener builds without fail, and what it builds is an engine that runs
/// at its built-in cadence and no receiver.
pub proof fn lemma_bare_configuration_builds_defaults(
    config: Config,
    builder: RootBuilder,
    out: Result<Runner, BuildError>,
)
    requires
        config.aggregation_interval_millis() is None,
        config.statsd_tcp().len() == 0,
        builder.describes(config),
        builder.builds(out),
    ensures
        out matches Ok(runner) && runner.engine() matches Some(engine)
            && engine.aggregation_interval_millis() is None && runner.receivers().len() == 0
            && runner.receiver_count() == 0,
{
    lemma_descriptor_settings(builder, config);
    let runner = out->Ok_0;
    assert(settings_of(runner.receivers()).len() == runner.receivers().len());
}

/// Building the same configuration twice gives components with the same
/// effective settings.
pub proof fn lemma_building_twice_agrees(
    config: Config,
    first_builder: RootBuilder,
    second_builder: RootBuilder,
    first: Runner,
    second: Runner,
)
    requires
        first_builder.describes(config),
        second_builder.describes(config),
        first_builder.builds(Ok(first)),
        second_builder.builds(Ok(second)),
    ensures
        first.engine()->Some_0.aggregation_interval_millis()
            == second.engine()->Some_0.aggregation_interval_millis(),
        settings_of(first.receivers()) == settings_of(second.receivers()),
        first.receiver_count() == second.receiver_count(),
        assembled_with(first, settings_for(config)),
        assembled_with(second, settings_for(config)),
{
    lemma_descriptor_settings(first_builder, config);
    lemma_descriptor_settings(second_builder, config);
}

/// A build succeeds exactly when every construction that it asks for
/// succeeds in the context of its second phase.
pub proof fn lemma_build_succeeds_iff_every_construction_does(
    builder: RootBuilder,
    ctxt: BuildContext,
    out: Result<Runner, BuildError>,
)
    requires
        builder.built_in(&ctxt, out),
    ensures
        out is Ok <==> forall|i: int|
            0 <= i < builder.recv()@.len() ==> (#[trigger] builder.recv()@[i]).succeeds(&ctxt),
{
    match out {
        Ok(runner) => {
            assert forall|i: int| 0 <= i < builder.recv()@.len() implies (
            #[trigger] builder.recv()@[i]).succeeds(&ctxt) by {
                assert(builder.recv()@[i].builds(&ctxt, Ok(runner.receivers()[i])));
            }
        },
        Err(error) => {
            assert(!builder.recv()@[error.index() as int].succeeds(&ctxt));
        },
    }
}

/// Each listener of a built daemon is the one that construction gives on
/// every interface, at its configured port or at the default one, for a
/// capability handle into the very engine that the runner holds; and that
/// engine was made with the configured aggregation interval.
pub proof fn lemma_listeners_feed_the_engine_held(
    config: Config,
    builder: RootBuilder,
    ctxt: BuildContext,
    runner: Runner,
)
    requires
        builder.describes(config),
        builder.built_in(&ctxt, Ok(runner)),
    ensures
        runner.engine() matches Some(engine) && engine.aggregation_interval_millis()
            == config.aggregation_interval_millis(),
        runner.receivers().len() == config.statsd_tcp().len(),
        forall|i: int|
            0 <= i < config.statsd_tcp().len() ==> (
            #[trigger] runner.receivers()[i] matches RecvRunnerKind::StatsdTcp(receiver)
                && receiver.endpoint() == (Endpoint {
                host: Host::wildcard(),
                port: effective_port(config.statsd_tcp()[i].port),
            }) && Ok::<StatsdTcpListener, std::io::Error>(receiver.listener())
                == statsd_tcp_listener_of(
                collector_of(runner.engine()->Some_0.db()),
                0,
                0,
                0,
                0,
                effective_port(config.statsd_tcp()[i].port),
            )),
{
    assert forall|i: int| 0 <= i < config.statsd_tcp().len() implies (
    #[trigger] runner.receivers()[i] matches RecvRunnerKind::StatsdTcp(receiver)
        && receiver.endpoint() == (Endpoint {
        host: Host::wildcard(),
        port: effective_port(config.statsd_tcp()[i].port),
    }) && Ok::<StatsdTcpListener, std::io::Error>(receiver.listener()) == statsd_tcp_listener_of(
        collector_of(runner.engine()->Some_0.db()),
        0,
        0,
        0,
        0,
        effective_port(config.statsd_tcp()[i].port),
    )) by {
        assert(builder.recv()@[i].builds(&ctxt, Ok(runner.receivers()[i])));
    }
}

/// A failed build names the first receiver whose construction failed: its
/// kind, its position among the receivers asked for, and the cause that
/// the construction gave. Every receiver before it was constructed.
pub proof fn lemma_failure_names_first_failed_construction(
    builder: RootBuilder,
    ctxt: BuildContext,
    error: BuildError,
)
    requires
        builder.built_in(&ctxt, Err(error)),
    ensures
        error.index() < builder.recv()@.len(),
        error.kind() == RecvKind::StatsdTcp,
        builder.recv()@[error.index() as int] matches RecvBuilderKind::StatsdTcp(descriptor)
            && descriptor.attempt(&ctxt) == Err::<StatsdTcpListener, std::io::Error>(
            error.spec_cause(),
        ),
        forall|j: int|
            0 <= j < error.index() ==> (#[trigger] builder.recv()@[j]).succeeds(&ctxt),
{
}

} // verus!
