//! StatsD TCP listeners: the one kind of receiver the daemon knows.
//!
//! The listener itself lives in the `metriqs` crate. This module holds the
//! address model and pairs each constructed listener with the endpoint it
//! was constructed for.

use vstd::prelude::*;
use metriqs::recv::Collector;
use metriqs::recv::push::statsd::StatsdTcpListener;

verus! {

/// `metriqs::recv::push::statsd::StatsdTcpListener`, taken as an opaque
/// value.
#[verifier::external_type_specification]
#[verifier::external_body]
pub struct ExStatsdTcpListener(metriqs::recv::push::statsd::StatsdTcpListener);

/// `std::io::Error`, with which the construction of a listener fails, taken
/// as an opaque value.
#[verifier::external_type_specification]
#[verifier::external_body]
pub struct ExIoError(std::io::Error);

/// Port on which a StatsD TCP listener accepts connections when its
/// configuration names none.
pub const DEFAULT_STATSD_TCP_PORT: u16 = 8125;

/// An IPv4 address, most significant octet first.
#[derive(Clone, Copy, Debug, PartialEq, Eq, Structural)]
pub struct Host {
    pub a: u8,
    pub b: u8,
    pub c: u8,
    pub d: u8,
}

impl Host {
    /// The wildcard address `0.0.0.0`: every interface of the machine.
    pub open spec fn spec_wildcard() -> Host {
        Host { a: 0, b: 0, c: 0, d: 0 }
    }

    #[verifier::when_used_as_spec(spec_wildcard)]
    pub fn wildcard() -> (host: Host)
        ensures
            host == Host::spec_wildcard(),
    {
        Host { a: 0, b: 0, c: 0, d: 0 }
    }
}

/// Where a listener accepts connections.
#[derive(Clone, Copy, Debug, PartialEq, Eq, Structural)]
pub struct Endpoint {
    pub host: Host,
    pub port: u16,
}

/// The port a listener uses: the configured one, or the default.
pub open spec fn spec_effective_port(configured: Option<u16>) -> u16 {
    match configured {
        Some(port) => port,
        None => DEFAULT_STATSD_TCP_PORT,
    }
}

#[verifier::when_used_as_spec(spec_effective_port)]
pub fn effective_port(configured: Option<u16>) -> (port: u16)
    ensures
        port == spec_effective_port(configured),
{
    match configured {
        Some(port) => port,
        None => DEFAULT_STATSD_TCP_PORT,
    }
}

/// What `metriqs::recv::push::statsd::StatsdTcpListener::new` returns for a
/// handle, the four octets of an IPv4 address and a port.
pub uninterp spec fn statsd_tcp_listener_of(
    collector: Collector,
    a: u8,
    b: u8,
    c: u8,
    d: u8,
    port: u16,
) -> Result<StatsdTcpListener, std::io::Error>;

/// What construction gives for a handle and an endpoint.
pub open spec fn attempt_for(collector: Collector, endpoint: Endpoint) -> Result<
    StatsdTcpListener,
    std::io::Error,
> {
    statsd_tcp_listener_of(
        collector,
        endpoint.host.a,
        endpoint.host.b,
        endpoint.host.c,
        endpoint.host.d,
        endpoint.port,
    )
}

/// Calls `metriqs::recv::push::statsd::StatsdTcpListener::new` with the
/// given handle and with the address written as a dotted quad beside the
/// port. The callee resolves the address, which for a dotted quad is a
/// matter of reading it, and on success stores the handle and the address:
/// what comes back is determined by the arguments, and is
/// `statsd_tcp_listener_of` them. Whether that is a listener or a failure
/// is not assumed.
#[verifier::external_body]
fn statsd_tcp_listener_new(collector: Collector, host: Host, port: u16) -> (out: Result<
    StatsdTcpListener,
    std::io::Error,
>)
    ensures
        out == statsd_tcp_listener_of(collector, host.a, host.b, host.c, host.d, port),
{
    let dotted = format!("{}.{}.{}.{}", host.a, host.b, host.c, host.d);
    StatsdTcpListener::new(collector, (dotted.as_str(), port))
}

/// A constructed listener together with the endpoint it was constructed for.
pub struct StatsdTcpReceiver {
    listener: StatsdTcpListener,
    endpoint: Endpoint,
}

impl StatsdTcpReceiver {
    pub closed spec fn spec_endpoint(&self) -> Endpoint {
        self.endpoint
    }

    pub closed spec fn listener(&self) -> StatsdTcpListener {
        self.listener
    }

    /// `out` is what a construction attempt for `endpoint` amounts to: the
    /// listener that the attempt gave, paired with the endpoint, or the
    /// failure that it gave.
    pub open spec fn made_from(
        endpoint: Endpoint,
        attempt: Result<StatsdTcpListener, std::io::Error>,
        out: Result<StatsdTcpReceiver, std::io::Error>,
    ) -> bool {
        match attempt {
            Ok(listener) => out matches Ok(receiver) && receiver.endpoint() == endpoint
                && receiver.listener() == listener,
            Err(cause) => out == Err::<StatsdTcpReceiver, std::io::Error>(cause),
        }
    }

    /// Turns the result of a construction attempt for `endpoint` into a
    /// receiver, or passes the failure on.
    pub fn from_attempt(
        endpoint: Endpoint,
        attempt: Result<StatsdTcpListener, std::io::Error>,
    ) -> (out: Result<StatsdTcpReceiver, std::io::Error>)
        ensures
            StatsdTcpReceiver::made_from(endpoint, attempt, out),
    {
        match attempt {
            Ok(listener) => Ok(StatsdTcpReceiver { listener, endpoint }),
            Err(cause) => Err(cause),
        }
    }

    /// Constructs a listener for `endpoint` that submits through
    /// `collector`: the result is what the attempt for these two amounts to.
    pub fn construct(collector: Collector, endpoint: Endpoint) -> (out: Result<
        StatsdTcpReceiver,
        std::io::Error,
    >)
        ensures
            StatsdTcpReceiver::made_from(endpoint, attempt_for(collector, endpoint), out),
    {
        let attempt = statsd_tcp_listener_new(collector, endpoint.host, endpoint.port);
        StatsdTcpReceiver::from_attempt(endpoint, attempt)
    }

    #[verifier::when_used_as_spec(spec_endpoint)]
    pub fn endpoint(&self) -> (endpoint: Endpoint)
        ensures
            endpoint == self.spec_endpoint(),
    {
        self.endpoint
    }

    /// Gives up the underlying listener so that it can be run.
    pub fn into_listener(self) -> (listener: StatsdTcpListener)
        ensures
            listener == self.listener(),
    {
        self.listener
    }
}

} // verus!
