//! The request driver and its event protocol.
//!
//! `HttpRequest` holds an address resolver, a connection factory and a
//! target URI; `begin` drives the whole request lifecycle — resolution,
//! connection, request transmission, streaming read — and appends one
//! `RequestEvent` to the caller's sequence per observable step.  Only
//! errors and payload chunks are observable; nothing is emitted for the
//! successful intermediate steps, and completion is signalled by the event
//! stream simply ending.
//!
//! Every run of `begin` is summarised by a ghost `Run` value: which step
//! failed, or which chunks arrived before the stream ended.  `begin`
//! promises that the emitted events are exactly `events_of` that run, and
//! that the run is consistent (`run_consistent`) with what the resolver,
//! the factory and the handed-out connection's spec hooks decide; for
//! implementations outside this crate those hooks keep their unspecified
//! defaults.

use vstd::prelude::*;
use vstd::string::StringExecFns;
use vstd::string::StrSliceExecFns;
use crate::address::{Address, first_v4, select_address};
use crate::connection::{
    Connection, ConnectionFactory, UvConnectionFactory, is_eof,
};

verus! {

/// A bare URI: host and path only.  No scheme, port or query handling; the
/// driver hard-codes port 80.
#[derive(Clone, Debug)]
pub struct Uri {
    pub host: String,
    pub path: String,
}

/// HTTP status codes.  Part of the event vocabulary, but never produced by
/// the driver: no status-line parsing exists.
#[derive(Clone, Copy, PartialEq, Eq, Structural, Debug)]
pub enum StatusCode {
    StatusOk,
    StatusUnknown,
}

/// The exhaustive classification of every failure the driver can report.
#[derive(Clone, Copy, PartialEq, Eq, Structural, Debug)]
pub enum RequestError {
    ErrorDnsResolution,
    ErrorConnect,
    ErrorMisc,
}

/// One event delivered to the caller: the sole channel of information from
/// the driver.
#[derive(PartialEq, Eq, Debug)]
pub enum RequestEvent {
    Status(StatusCode),
    Payload(Option<Vec<u8>>),
    Error(RequestError),
}

/// The mathematical value of a `RequestEvent`, with the payload bytes as a
/// sequence.
pub enum Event {
    Status(StatusCode),
    Payload(Option<Seq<u8>>),
    Error(RequestError),
}

impl View for RequestEvent {
    type V = Event;

    open spec fn view(&self) -> Event {
        match self {
            RequestEvent::Status(s) => Event::Status(*s),
            RequestEvent::Payload(p) => Event::Payload(
                match p {
                    Some(bytes) => Some(bytes@),
                    None => None,
                },
            ),
            RequestEvent::Error(e) => Event::Error(*e),
        }
    }
}

/// The values of a sequence of events.
pub open spec fn deep(s: Seq<RequestEvent>) -> Seq<Event> {
    s.map_values(|e: RequestEvent| e@)
}

proof fn lemma_deep_push(s: Seq<RequestEvent>, e: RequestEvent)
    ensures
        deep(s.push(e)) == deep(s) + seq![e@],
{
    assert(deep(s.push(e)) =~= deep(s) + seq![e@]);
}

/// An error reported by name resolution.
#[derive(Clone, Copy, PartialEq, Eq, Structural, Debug)]
pub enum DnsError {
    GetAddrUnknownError,
}

/// Maps a hostname to the set of its IP addresses, or to a resolution
/// failure.
///
/// `resolve_spec` fixes, per resolver value, what each host resolves to:
/// the resolver is stateless and reusable across requests, so repeated
/// lookups agree.
pub trait DnsResolver: Sized {
    /// What this resolver answers for a host.  The default leaves the
    /// answer unspecified; an implementation inside this crate overrides
    /// it with the real answer.
    open spec fn resolve_spec(&self, host: Seq<char>) -> Result<Seq<Address>, DnsError> {
        arbitrary()
    }

    /// Resolve a hostname.
    fn resolve(&self, host: &String) -> (r: Result<Vec<Address>, DnsError>)
        ensures
            r matches Ok(v) ==> self.resolve_spec(host@) == Ok::<Seq<Address>, DnsError>(v@),
            r matches Err(e) ==> self.resolve_spec(host@) == Err::<Seq<Address>, DnsError>(e),
    ;
}

/// Tag for the resolver backed by the process-wide I/O event loop's DNS
/// facility.  DNS lookup is runtime I/O, which this verified core cannot
/// perform itself; the embedding application interprets this tag by
/// supplying its own `DnsResolver` adapter.
#[derive(Clone, Copy, PartialEq, Eq, Debug)]
pub struct UvDnsResolver {}

/// The resolver that delegates to the runtime's DNS facility.
pub fn uv_dns_resolver() -> (r: UvDnsResolver)
    ensures
        r == (UvDnsResolver {}),
{
    UvDnsResolver {}
}

fn clone_addresses(v: &Vec<Address>) -> (r: Vec<Address>)
    ensures
        r@ == v@,
{
    let mut r: Vec<Address> = Vec::new();
    let mut i: usize = 0;
    while i < v.len()
        invariant
            i <= v@.len(),
            r@ == v@.subrange(0, i as int),
        decreases v@.len() - i,
    {
        r.push(v[i]);
        i = i + 1;
        proof {
            assert(r@ =~= v@.subrange(0, i as int));
        }
    }
    proof {
        assert(v@.subrange(0, v@.len() as int) =~= v@);
    }
    r
}

/// A resolver double that answers every lookup with a pre-programmed
/// result.
#[derive(Debug)]
pub struct MockDnsResolver {
    /// The answer handed out for any host.
    pub answer: Result<Vec<Address>, DnsError>,
}

impl DnsResolver for MockDnsResolver {
    open spec fn resolve_spec(&self, host: Seq<char>) -> Result<Seq<Address>, DnsError> {
        match self.answer {
            Ok(v) => Ok(v@),
            Err(e) => Err(e),
        }
    }

    fn resolve(&self, host: &String) -> (r: Result<Vec<Address>, DnsError>) {
        match &self.answer {
            Ok(v) => Ok(clone_addresses(v)),
            Err(e) => Err(*e),
        }
    }
}

/// The request line the driver writes: a bare HTTP/1.0 `GET` with a single
/// `Host` header and no body.
pub open spec fn request_text_spec(host: Seq<char>, path: Seq<char>) -> Seq<char> {
    "GET "@ + path + " HTTP/1.0\r\nHost: "@ + host + "\r\n\r\n"@
}

/// Format the literal request line for a host and path.
pub fn request_text(host: &String, path: &String) -> (r: String)
    ensures
        r@ == request_text_spec(host@, path@),
{
    let mut r = String::from_str("GET ");
    r.append(path.as_str());
    r.append(" HTTP/1.0\r\nHost: ");
    r.append(host.as_str());
    r.append("\r\n\r\n");
    r
}

/// The shape of one run of `begin`: which step failed, or, once the read
/// loop was reached, which chunks arrived before the stream ended.
pub enum Run {
    /// Name resolution reported an error.
    ResolutionFailed,
    /// Resolution succeeded but yielded no address tagged `V4` (possibly
    /// none at all).
    NoUsableAddress,
    /// The connection attempt to the selected address was refused.
    ConnectFailed,
    /// Writing the request line failed.
    WriteFailed,
    /// Starting the streaming read failed.
    ReadStartFailed,
    /// These chunks arrived, then a read error other than end-of-stream.
    ReadFailed(Seq<Seq<u8>>),
    /// These chunks arrived, then the stream ended normally.
    Completed(Seq<Seq<u8>>),
}

/// The payload events for a sequence of received chunks, in arrival order.
pub open spec fn payloads(chunks: Seq<Seq<u8>>) -> Seq<Event> {
    chunks.map_values(|c: Seq<u8>| Event::Payload(Some(c)))
}

proof fn lemma_payloads_push(chunks: Seq<Seq<u8>>, c: Seq<u8>)
    ensures
        payloads(chunks.push(c)) == payloads(chunks) + seq![Event::Payload(Some(c))],
{
    assert(payloads(chunks.push(c)) =~= payloads(chunks) + seq![Event::Payload(Some(c))]);
}

/// The exact event sequence a run of `begin` emits.
pub open spec fn events_of(r: Run) -> Seq<Event> {
    match r {
        Run::ResolutionFailed => seq![Event::Error(RequestError::ErrorDnsResolution)],
        Run::NoUsableAddress => seq![Event::Error(RequestError::ErrorMisc)],
        Run::ConnectFailed => seq![Event::Error(RequestError::ErrorConnect)],
        Run::WriteFailed => seq![Event::Error(RequestError::ErrorMisc)],
        Run::ReadStartFailed => seq![Event::Error(RequestError::ErrorMisc)],
        Run::ReadFailed(chunks) => payloads(chunks) + seq![Event::Error(RequestError::ErrorMisc)],
        Run::Completed(chunks) => payloads(chunks),
    }
}

/// Drives the request lifecycle for one target URI, against an injected
/// resolver and connection factory.
pub struct HttpRequest<R, CF> {
    pub resolve_ip_addr: R,
    pub connection_factory: CF,
    pub uri: Uri,
}

/// The resolver and factory let this request reach the transport phase:
/// the host resolves, an address tagged `V4` is among the results, and
/// connecting to it on port 80 succeeds.
pub open spec fn transport_reached<R: DnsResolver, CF: ConnectionFactory>(
    req: HttpRequest<R, CF>,
) -> bool {
    &&& req.resolve_ip_addr.resolve_spec(req.uri.host@) matches Ok(addrs)
    &&& first_v4(addrs) matches Some(a)
    &&& req.connection_factory.connect_ok_spec(a, 80)
}

/// The address the driver selects: the first entry tagged `V4` among the
/// host's resolution results.
pub open spec fn selected_address<R: DnsResolver, CF: ConnectionFactory>(
    req: HttpRequest<R, CF>,
) -> Address
    recommends
        transport_reached(req),
{
    first_v4(req.resolve_ip_addr.resolve_spec(req.uri.host@)->Ok_0)->Some_0
}

/// What the connection handed out for this request behaves like: the
/// factory's connection for the selected address on port 80.
pub open spec fn spec_connection<R: DnsResolver, CF: ConnectionFactory>(
    req: HttpRequest<R, CF>,
) -> CF::Conn
    recommends
        transport_reached(req),
{
    req.connection_factory.connection_spec(selected_address(req), 80)
}

/// A run of `begin` agrees with what the resolver, the factory and the
/// handed-out connection's spec hooks decide: which step fails, which
/// chunks the stream delivers, and how it ends.
pub open spec fn run_consistent<R: DnsResolver, CF: ConnectionFactory>(
    req: HttpRequest<R, CF>,
    r: Run,
) -> bool {
    match r {
        Run::ResolutionFailed => req.resolve_ip_addr.resolve_spec(req.uri.host@) is Err,
        Run::NoUsableAddress => {
            &&& req.resolve_ip_addr.resolve_spec(req.uri.host@) matches Ok(addrs)
            &&& first_v4(addrs) is None
        },
        Run::ConnectFailed => {
            &&& req.resolve_ip_addr.resolve_spec(req.uri.host@) matches Ok(addrs)
            &&& first_v4(addrs) matches Some(a)
            &&& !req.connection_factory.connect_ok_spec(a, 80)
        },
        Run::WriteFailed => {
            &&& transport_reached(req)
            &&& !spec_connection(req).write_ok_spec()
        },
        Run::ReadStartFailed => {
            &&& transport_reached(req)
            &&& spec_connection(req).write_ok_spec()
            &&& !spec_connection(req).read_start_ok_spec()
        },
        Run::ReadFailed(chunks) => {
            &&& transport_reached(req)
            &&& spec_connection(req).write_ok_spec()
            &&& spec_connection(req).read_start_ok_spec()
            &&& chunks == spec_connection(req).stream_spec()
            &&& !spec_connection(req).eof_at_end_spec()
        },
        Run::Completed(chunks) => {
            &&& transport_reached(req)
            &&& spec_connection(req).write_ok_spec()
            &&& spec_connection(req).read_start_ok_spec()
            &&& chunks == spec_connection(req).stream_spec()
            &&& spec_connection(req).eof_at_end_spec()
        },
    }
}

impl<R: DnsResolver, CF: ConnectionFactory> HttpRequest<R, CF> {
    /// Build a request for a URI, against a resolver and a connection
    /// factory.
    pub fn new(resolver: R, connection_factory: CF, uri: Uri) -> (r: Self)
        ensures
            r.resolve_ip_addr == resolver,
            r.connection_factory == connection_factory,
            r.uri == uri,
    {
        HttpRequest { resolve_ip_addr: resolver, connection_factory, uri }
    }

    /// Drive the whole request lifecycle, appending one event per
    /// observable step: payload chunks in arrival order, and at most one
    /// error, which is always last.  Nothing is emitted for successful
    /// intermediate steps, and no event at all marks normal completion.
    pub fn begin(&self, events: &mut Vec<RequestEvent>)
        ensures
            exists|r: Run|
                #[trigger] run_consistent(*self, r) && deep(final(events)@) == deep(
                    old(events)@,
                ) + events_of(r),
    {
        let resolved = self.resolve_ip_addr.resolve(&self.uri.host);
        let addrs = match resolved {
            Ok(addrs) => addrs,
            Err(_) => {
                events.push(RequestEvent::Error(RequestError::ErrorDnsResolution));
                proof {
                    lemma_deep_push(old(events)@, RequestEvent::Error(RequestError::ErrorDnsResolution));
                    assert(run_consistent(*self, Run::ResolutionFailed) && deep(events@) == deep(
                        old(events)@,
                    ) + events_of(Run::ResolutionFailed));
                }
                return;
            },
        };
        let best_ip = select_address(&addrs);
        let ip = match best_ip {
            Some(ip) => ip,
            None => {
                events.push(RequestEvent::Error(RequestError::ErrorMisc));
                proof {
                    lemma_deep_push(old(events)@, RequestEvent::Error(RequestError::ErrorMisc));
                    assert(run_consistent(*self, Run::NoUsableAddress) && deep(events@) == deep(
                        old(events)@,
                    ) + events_of(Run::NoUsableAddress));
                }
                return;
            },
        };
        let socket = self.connection_factory.connect(ip, 80);
        let mut socket = match socket {
            Ok(socket) => socket,
            Err(_) => {
                events.push(RequestEvent::Error(RequestError::ErrorConnect));
                proof {
                    lemma_deep_push(old(events)@, RequestEvent::Error(RequestError::ErrorConnect));
                    assert(run_consistent(*self, Run::ConnectFailed) && deep(events@) == deep(
                        old(events)@,
                    ) + events_of(Run::ConnectFailed));
                }
                return;
            },
        };
        proof {
            assert(transport_reached(*self));
            assert(ip == selected_address(*self));
        }
        let request_header = request_text(&self.uri.host, &self.uri.path);
        let request_header_bytes = request_header.as_str().as_bytes_vec();
        match socket.write_(request_header_bytes) {
            Ok(_) => {},
            Err(_) => {
                events.push(RequestEvent::Error(RequestError::ErrorMisc));
                proof {
                    lemma_deep_push(old(events)@, RequestEvent::Error(RequestError::ErrorMisc));
                    assert(run_consistent(*self, Run::WriteFailed) && deep(events@) == deep(
                        old(events)@,
                    ) + events_of(Run::WriteFailed));
                }
                return;
            },
        }
        let read_port = match socket.read_start_() {
            Ok(read_port) => read_port,
            Err(_) => {
                events.push(RequestEvent::Error(RequestError::ErrorMisc));
                proof {
                    lemma_deep_push(old(events)@, RequestEvent::Error(RequestError::ErrorMisc));
                    assert(run_consistent(*self, Run::ReadStartFailed) && deep(events@) == deep(
                        old(events)@,
                    ) + events_of(Run::ReadStartFailed));
                }
                return;
            },
        };
        let ghost mut chunks: Seq<Seq<u8>> = Seq::empty();
        proof {
            assert(socket.stream_spec() =~= spec_connection(*self).stream_spec().skip(0));
            assert(chunks =~= spec_connection(*self).stream_spec().take(0));
        }
        loop
            invariant_except_break
                socket.stream_spec() == spec_connection(*self).stream_spec().skip(
                    chunks.len() as int,
                ),
                socket.eof_at_end_spec() == spec_connection(*self).eof_at_end_spec(),
            invariant
                transport_reached(*self),
                spec_connection(*self).write_ok_spec(),
                spec_connection(*self).read_start_ok_spec(),
                chunks.len() <= spec_connection(*self).stream_spec().len(),
                chunks == spec_connection(*self).stream_spec().take(chunks.len() as int),
                deep(events@) == deep(old(events)@) + payloads(chunks),
            ensures
                transport_reached(*self),
                spec_connection(*self).write_ok_spec(),
                spec_connection(*self).read_start_ok_spec(),
                spec_connection(*self).eof_at_end_spec(),
                chunks == spec_connection(*self).stream_spec(),
                deep(events@) == deep(old(events)@) + payloads(chunks),
            decreases socket.stream_spec().len(),
        {
            let next_data = socket.recv_(&read_port);
            match next_data {
                Ok(chunk) => {
                    let ghost c = chunk@;
                    let ghost before = events@;
                    events.push(RequestEvent::Payload(Some(chunk)));
                    proof {
                        lemma_deep_push(before, RequestEvent::Payload(Some(chunk)));
                        lemma_payloads_push(chunks, c);
                        chunks = chunks.push(c);
                        assert(chunks =~= spec_connection(*self).stream_spec().take(
                            chunks.len() as int,
                        ));
                        assert(socket.stream_spec() =~= spec_connection(*self).stream_spec().skip(
                            chunks.len() as int,
                        ));
                        assert(deep(events@) =~= deep(old(events)@) + payloads(chunks));
                    }
                },
                Err(e) => {
                    proof {
                        assert(chunks =~= spec_connection(*self).stream_spec());
                    }
                    if is_eof(&e) {
                        break;
                    } else {
                        let _ = socket.read_stop_(read_port);
                        let ghost before = events@;
                        events.push(RequestEvent::Error(RequestError::ErrorMisc));
                        proof {
                            lemma_deep_push(before, RequestEvent::Error(RequestError::ErrorMisc));
                            assert(deep(events@) =~= deep(old(events)@) + events_of(
                                Run::ReadFailed(chunks),
                            ));
                            assert(run_consistent(*self, Run::ReadFailed(chunks)) && deep(events@)
                                == deep(old(events)@) + events_of(Run::ReadFailed(chunks)));
                        }
                        return;
                    }
                },
            }
        }
        let _ = socket.read_stop_(read_port);
        proof {
            assert(run_consistent(*self, Run::Completed(chunks)) && deep(events@) == deep(
                old(events)@,
            ) + events_of(Run::Completed(chunks)));
        }
    }
}

/// Drive `begin` with a collector and hand back the ordered event
/// sequence it emitted.
pub fn sequence<R: DnsResolver, CF: ConnectionFactory>(request: HttpRequest<R, CF>) -> (events: Vec<
    RequestEvent,
>)
    ensures
        exists|r: Run| #[trigger] run_consistent(request, r) && deep(events@) == events_of(r),
{
    let mut events: Vec<RequestEvent> = Vec::new();
    proof {
        assert(deep(events@) =~= Seq::<Event>::empty());
    }
    request.begin(&mut events);
    events
}

/// A request for a URI over the runtime-backed transport: the event loop's
/// DNS facility as resolver and `UvConnectionFactory` as factory.  The
/// embedding application interprets the two tags when it runs the request.
pub fn uv_http_request(uri: Uri) -> (r: HttpRequest<UvDnsResolver, UvConnectionFactory>)
    ensures
        r.resolve_ip_addr == (UvDnsResolver {}),
        r.connection_factory == UvConnectionFactory::UvConnectionFactory,
        r.uri == uri,
{
    HttpRequest {
        resolve_ip_addr: uv_dns_resolver(),
        connection_factory: UvConnectionFactory::UvConnectionFactory,
        uri,
    }
}

} // verus!
