//! The laws of the event protocol.
//!
//! Each proof function here states, over `run_consistent` and `events_of`,
//! what every run of `begin` emits once the resolver's and the factory's
//! decisions are fixed; together with `begin`'s own contract they pin the
//! observable event sequence down for every caller.

use vstd::prelude::*;
use crate::address::{Address, first_v4};
use crate::connection::{Connection, ConnectionFactory};
use crate::http_client::{
    DnsResolver, Event, HttpRequest, RequestError, Run, events_of, payloads, run_consistent,
    spec_connection, transport_reached,
};

verus! {

/// A host whose resolution fails outright yields exactly one event: the
/// DNS resolution error.
pub proof fn lemma_resolution_failure<R: DnsResolver, CF: ConnectionFactory>(
    req: HttpRequest<R, CF>,
    r: Run,
)
    requires
        run_consistent(req, r),
        req.resolve_ip_addr.resolve_spec(req.uri.host@) is Err,
    ensures
        r is ResolutionFailed,
        events_of(r) == seq![Event::Error(RequestError::ErrorDnsResolution)],
{
}

/// A host that resolves, but to no address tagged `V4`, yields exactly one
/// event: the miscellaneous error of the selection policy.
pub proof fn lemma_no_usable_address<R: DnsResolver, CF: ConnectionFactory>(
    req: HttpRequest<R, CF>,
    r: Run,
)
    requires
        run_consistent(req, r),
        ({
            &&& req.resolve_ip_addr.resolve_spec(req.uri.host@) matches Ok(addrs)
            &&& first_v4(addrs) is None
        }),
    ensures
        r is NoUsableAddress,
        events_of(r) == seq![Event::Error(RequestError::ErrorMisc)],
{
}

/// A selected address that refuses connection yields exactly one event:
/// the connect error.
pub proof fn lemma_connect_refused<R: DnsResolver, CF: ConnectionFactory>(
    req: HttpRequest<R, CF>,
    r: Run,
    a: Address,
)
    requires
        run_consistent(req, r),
        ({
            &&& req.resolve_ip_addr.resolve_spec(req.uri.host@) matches Ok(addrs)
            &&& first_v4(addrs) == Some(a)
        }),
        !req.connection_factory.connect_ok_spec(a, 80),
    ensures
        r is ConnectFailed,
        events_of(r) == seq![Event::Error(RequestError::ErrorConnect)],
{
}

/// A factory that refuses every connection short-circuits the run to the
/// connect error: the run never reaches the write or read steps, whatever
/// the host resolved to.
pub proof fn lemma_factory_refuses_all<R: DnsResolver, CF: ConnectionFactory>(
    req: HttpRequest<R, CF>,
    r: Run,
)
    requires
        run_consistent(req, r),
        ({
            &&& req.resolve_ip_addr.resolve_spec(req.uri.host@) matches Ok(addrs)
            &&& first_v4(addrs) is Some
        }),
        forall|a: Address, port: u16| !(#[trigger] req.connection_factory.connect_ok_spec(a, port)),
    ensures
        r is ConnectFailed,
        events_of(r) == seq![Event::Error(RequestError::ErrorConnect)],
{
}

/// A connection that refuses the write yields exactly one event: the
/// miscellaneous error.
pub proof fn lemma_write_failure<R: DnsResolver, CF: ConnectionFactory>(
    req: HttpRequest<R, CF>,
    r: Run,
)
    requires
        run_consistent(req, r),
        transport_reached(req),
        !spec_connection(req).write_ok_spec(),
    ensures
        r is WriteFailed,
        events_of(r) == seq![Event::Error(RequestError::ErrorMisc)],
{
}

/// A connection that accepts the write but refuses to start the streaming
/// read yields exactly one event: the miscellaneous error.
pub proof fn lemma_read_start_failure<R: DnsResolver, CF: ConnectionFactory>(
    req: HttpRequest<R, CF>,
    r: Run,
)
    requires
        run_consistent(req, r),
        transport_reached(req),
        spec_connection(req).write_ok_spec(),
        !spec_connection(req).read_start_ok_spec(),
    ensures
        r is ReadStartFailed,
        events_of(r) == seq![Event::Error(RequestError::ErrorMisc)],
{
}

/// A fully successful request — the host resolves to a `V4` address, the
/// connect, write and read-start succeed, and the stream ends in the
/// end-of-stream sentinel — emits exactly one payload event per delivered
/// chunk, bytes unchanged and in arrival order, and nothing else: no
/// error, no status.
pub proof fn lemma_transport_success<R: DnsResolver, CF: ConnectionFactory>(
    req: HttpRequest<R, CF>,
    r: Run,
)
    requires
        run_consistent(req, r),
        transport_reached(req),
        spec_connection(req).write_ok_spec(),
        spec_connection(req).read_start_ok_spec(),
        spec_connection(req).eof_at_end_spec(),
    ensures
        r is Completed,
        events_of(r) == payloads(spec_connection(req).stream_spec()),
        events_of(r).len() == spec_connection(req).stream_spec().len(),
        forall|i: int|
            0 <= i < events_of(r).len() ==> events_of(r)[i] == Event::Payload(
                Some(spec_connection(req).stream_spec()[i]),
            ),
{
}

/// A stream that ends in a read error other than the end-of-stream
/// sentinel yields every delivered chunk as a payload event, then the
/// miscellaneous error as the last event.
pub proof fn lemma_transport_read_error<R: DnsResolver, CF: ConnectionFactory>(
    req: HttpRequest<R, CF>,
    r: Run,
)
    requires
        run_consistent(req, r),
        transport_reached(req),
        spec_connection(req).write_ok_spec(),
        spec_connection(req).read_start_ok_spec(),
        !spec_connection(req).eof_at_end_spec(),
    ensures
        r is ReadFailed,
        events_of(r) == payloads(spec_connection(req).stream_spec()) + seq![
            Event::Error(RequestError::ErrorMisc),
        ],
{
}

/// A run in which the stream ended normally emits payload events only: no
/// error, and no status, appears anywhere in the sequence.
pub proof fn lemma_success_all_payload(r: Run)
    requires
        r is Completed,
    ensures
        forall|i: int|
            0 <= i < events_of(r).len() ==> (#[trigger] events_of(r)[i]) is Payload,
{
}

/// In every run, at most one error event is emitted, and if one is, it is
/// the last event of the sequence.
pub proof fn lemma_error_is_terminal(r: Run)
    ensures
        forall|i: int|
            0 <= i < events_of(r).len() && (#[trigger] events_of(r)[i]) is Error ==> i == events_of(
                r,
            ).len() - 1,
{
}

/// Repeated runs of `begin` against the same resolver, factory and URI
/// are reproduced exactly: the resolver's answer, the factory's decision
/// and the handed-out connection's spec hooks determine the whole run, so
/// two consistent runs are equal and emit identical event sequences.
pub proof fn lemma_begin_idempotent<R: DnsResolver, CF: ConnectionFactory>(
    req: HttpRequest<R, CF>,
    r1: Run,
    r2: Run,
)
    requires
        run_consistent(req, r1),
        run_consistent(req, r2),
    ensures
        r1 == r2,
        events_of(r1) == events_of(r2),
{
}

} // verus!
