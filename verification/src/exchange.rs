//! The credential exchange client: build a binary-encoded request carrying a
//! one-time token, hand it to the caller's transport, and decode the response
//! envelope — a header followed in the same buffer by the credential payload.
//!
//! The binary framing itself is delegated to the CBOR encoding collaborator;
//! this module's own logic is the envelope layout, the strict encode-before-
//! send and header-before-payload order, and the mapping of every failure
//! into the shared error taxonomy.

use vstd::prelude::*;

use crate::errcode::{Kind, OckamError, Origin};

verus! {

/// An opaque, single-use token presented once to prove enrollment
/// eligibility.
#[derive(Debug)]
pub struct OneTimeCode {
    code: Vec<u8>,
}

impl View for OneTimeCode {
    type V = Seq<u8>;

    closed spec fn view(&self) -> Seq<u8> {
        self.code@
    }
}

impl OneTimeCode {
    /// Wrap the opaque token bytes.
    pub fn new(code: Vec<u8>) -> (r: Self)
        ensures
            r@ == code@,
    {
        OneTimeCode { code }
    }

    /// The token bytes.
    pub fn bytes(&self) -> (r: &Vec<u8>)
        ensures
            r@ == self@,
    {
        &self.code
    }
}

/// An opaque address naming the destination authority through zero or more
/// intermediate hops. The exchange never inspects it; the transport does.
#[derive(Debug)]
pub struct Route {
    /// The hop addresses, destination last.
    pub hops: Vec<String>,
}

/// An opaque, attribute-bearing signed object returned by the authority. The
/// exchange does not interpret it beyond being decodable from the response;
/// the decoded bytes are owned, independent of the response buffer.
#[derive(Debug)]
pub struct Credential {
    data: Vec<u8>,
}

impl View for Credential {
    type V = Seq<u8>;

    closed spec fn view(&self) -> Seq<u8> {
        self.data@
    }
}

impl Credential {
    /// The encoded credential payload.
    pub fn bytes(&self) -> (r: &Vec<u8>)
        ensures
            r@ == self@,
    {
        &self.data
    }
}

/// What an exchange does before its single suspension point: either hand the
/// encoded request to the transport, or stop with an error before anything
/// is sent.
#[derive(Debug)]
pub enum ExchangeStep {
    /// Send `request` to `route` and await exactly one response buffer.
    SendRequest { route: Route, request: Vec<u8> },
    /// Encoding failed: the exchange is over and nothing may be sent.
    Fail { error: OckamError },
}

/// The bytes of the CBOR header announcing an array of `len` items.
pub uninterp spec fn cbor_array_of(len: u64) -> Seq<u8>;

/// The bytes of the CBOR text-string item holding `s`.
pub uninterp spec fn cbor_str_of(s: Seq<char>) -> Seq<u8>;

/// The bytes of the CBOR byte-string item holding `b`.
pub uninterp spec fn cbor_bytes_of(b: Seq<u8>) -> Seq<u8>;

/// How many bytes the decoder's next CBOR item at the front of `bytes`
/// occupies — exactly what one `skip` consumes — or `None` when it cannot
/// skip one item there.
pub uninterp spec fn cbor_item_len(bytes: Seq<u8>) -> Option<int>;

/// Relies on minicbor's `Encoder::array`: writes the header of a
/// `len`-element CBOR array into a fresh buffer. Writing into a `Vec`
/// cannot fail (the writer's error type is infallible), so the call always
/// succeeds.
#[verifier::external_body]
fn cbor_array(len: u64) -> (r: Result<Vec<u8>, String>)
    ensures
        r is Ok,
        (r matches Ok(b) ==> b@ == cbor_array_of(len)),
{
    let mut e = minicbor::Encoder::new(Vec::new());
    if let Err(err) = e.array(len) {
        return Err(format!("{err}"));
    }
    Ok(e.into_writer())
}

/// Relies on minicbor's `Encoder::str`: writes the CBOR text-string item
/// holding `s` into a fresh buffer. Writing into a `Vec` cannot fail (the
/// writer's error type is infallible), so the call always succeeds.
#[verifier::external_body]
fn cbor_str(s: &str) -> (r: Result<Vec<u8>, String>)
    ensures
        r is Ok,
        (r matches Ok(b) ==> b@ == cbor_str_of(s@)),
{
    let mut e = minicbor::Encoder::new(Vec::new());
    if let Err(err) = e.str(s) {
        return Err(format!("{err}"));
    }
    Ok(e.into_writer())
}

/// Relies on minicbor's `Encoder::bytes`: writes the CBOR byte-string item
/// holding `b` into a fresh buffer. Writing into a `Vec` cannot fail (the
/// writer's error type is infallible), so the call always succeeds.
#[verifier::external_body]
fn cbor_bytes(b: &Vec<u8>) -> (r: Result<Vec<u8>, String>)
    ensures
        r is Ok,
        (r matches Ok(out) ==> out@ == cbor_bytes_of(b@)),
{
    let mut e = minicbor::Encoder::new(Vec::new());
    if let Err(err) = e.bytes(b) {
        return Err(format!("{err}"));
    }
    Ok(e.into_writer())
}

/// Relies on minicbor's `Decoder::skip` and `Decoder::position`: consumes
/// the decoder's next item starting at `start` and reports how many bytes
/// it occupied, or the decoder's diagnostic when no item can be skipped
/// there.
#[verifier::external_body]
fn cbor_item_at(bytes: &Vec<u8>, start: usize) -> (r: Result<usize, String>)
    requires
        start <= bytes@.len(),
    ensures
        (r is Ok) <==> (cbor_item_len(bytes@.skip(start as int)) is Some),
        (r matches Ok(n) ==> cbor_item_len(bytes@.skip(start as int)) == Some(n as int)
            && 1 <= n <= bytes@.len() - start),
{
    let mut d = minicbor::Decoder::new(&bytes[start..]);
    match d.skip() {
        Ok(()) => Ok(d.position()),
        Err(err) => Err(format!("{err}")),
    }
}

/// The request envelope on the wire: a three-element array holding the
/// method token, the path, and the opaque token bytes as the single body.
pub open spec fn request_encoding(token: Seq<u8>) -> Seq<u8> {
    cbor_array_of(3) + cbor_str_of("post"@) + cbor_str_of("/credential"@) + cbor_bytes_of(token)
}

/// What decoding the response buffer yields: the header item is decoded
/// first and discarded, and the credential payload is the single item that
/// starts exactly where the header stopped. Bytes after the payload are
/// ignored (an assumption: the wire contract does not speak of trailing
/// bytes). `None` is a decode failure.
pub open spec fn decoded_credential(bytes: Seq<u8>) -> Option<Seq<u8>> {
    match cbor_item_len(bytes) {
        Some(h) => {
            if 0 <= h <= bytes.len() {
                let rest = bytes.skip(h);
                match cbor_item_len(rest) {
                    Some(l) => {
                        if 0 <= l <= rest.len() {
                            Some(rest.take(l))
                        } else {
                            None
                        }
                    },
                    None => None,
                }
            } else {
                None
            }
        },
        None => None,
    }
}

/// The application-origin error a decode or encode failure is wrapped into,
/// carrying the underlying diagnostic as its message.
fn error(message: String) -> (r: OckamError)
    ensures
        r.origin == Origin::Application,
        r.kind == Kind::Invalid,
        r.code == 0,
        r.message == Some(message),
{
    OckamError::new(Origin::Application, Kind::Invalid, message)
}

/// Build the request envelope with the token as its body and encode it to a
/// binary buffer. Encoding happens before — and regardless of — any send.
/// Every token encodes: the buffer-writing collaborator cannot fail, and
/// the `Err` arms below only forward a failure it will never report.
pub fn encode_request(token: &OneTimeCode) -> (r: Result<Vec<u8>, String>)
    ensures
        (r matches Ok(buf) && buf@ == request_encoding(token@)),
{
    let mut buf = match cbor_array(3) {
        Ok(b) => b,
        Err(m) => {
            return Err(m);
        },
    };
    let mut method = match cbor_str("post") {
        Ok(b) => b,
        Err(m) => {
            return Err(m);
        },
    };
    let mut path = match cbor_str("/credential") {
        Ok(b) => b,
        Err(m) => {
            return Err(m);
        },
    };
    let mut body = match cbor_bytes(token.bytes()) {
        Ok(b) => b,
        Err(m) => {
            return Err(m);
        },
    };
    buf.append(&mut method);
    buf.append(&mut path);
    buf.append(&mut body);
    Ok(buf)
}

/// Decide the exchange's first step from the encoding outcome. When encoding
/// failed, the step is `Fail`, which carries no request: no send is
/// attempted for such a token, and the failure surfaces immediately as an
/// `Invalid` application error carrying the encoder's diagnostic.
pub fn request_step(route: Route, encoded: Result<Vec<u8>, String>) -> (r: ExchangeStep)
    ensures
        ((r matches ExchangeStep::SendRequest { .. }) <==> (encoded is Ok)),
        (encoded matches Ok(buf) ==> (r matches ExchangeStep::SendRequest { route: rt, request }
            && rt == route && request == buf)),
        (encoded matches Err(m) ==> (r matches ExchangeStep::Fail { error: e }
            && e.origin == Origin::Application && e.kind == Kind::Invalid
            && e.message == Some(m))),
{
    match encoded {
        Ok(request) => ExchangeStep::SendRequest { route, request },
        Err(m) => ExchangeStep::Fail { error: error(m) },
    }
}

/// Begin an exchange: encode the request envelope for `token` and hand the
/// buffer on for sending to `route`. Since every token encodes, the step is
/// always a send of exactly the envelope encoding. The token is consumed:
/// it is single-use, presented on exactly one attempt.
pub fn start_exchange(route: Route, token: OneTimeCode) -> (r: ExchangeStep)
    ensures
        (r matches ExchangeStep::SendRequest { route: rt, request } && rt == route
            && request@ == request_encoding(token@)),
{
    let encoded = encode_request(&token);
    request_step(route, encoded)
}

/// Decode the response buffer: first the header, then — starting exactly
/// where the header decoder stopped — the credential payload, returned as an
/// owned copy. Either decode failure is wrapped, not retried, into an
/// `Invalid` application error carrying the decoder's diagnostic.
pub fn decode_response(response: &Vec<u8>) -> (r: Result<Credential, OckamError>)
    ensures
        ((r is Ok) <==> (decoded_credential(response@) is Some)),
        (r matches Ok(c) ==> Some(c@) == decoded_credential(response@)),
        (r matches Err(e) ==> e.origin == Origin::Application && e.kind == Kind::Invalid
            && e.message is Some),
{
    proof {
        assert(response@.skip(0) =~= response@);
    }
    let header = match cbor_item_at(response, 0) {
        Ok(n) => n,
        Err(m) => {
            return Err(error(m));
        },
    };
    let payload = match cbor_item_at(response, header) {
        Ok(n) => n,
        Err(m) => {
            return Err(error(m));
        },
    };
    let total = response.len();
    proof {
        assert(header + payload <= total);
    }
    let data = copy_range(response, header, header + payload);
    proof {
        assert(response@.skip(header as int).take(payload as int)
            =~= response@.subrange(header as int, header as int + payload as int));
    }
    Ok(Credential { data })
}

/// Finish an exchange from the transport's outcome: a failure reported by
/// the transport is returned to the caller unchanged, and a response buffer
/// is decoded as header followed by credential payload.
pub fn complete_exchange(outcome: Result<Vec<u8>, OckamError>) -> (r: Result<Credential, OckamError>)
    ensures
        (outcome matches Err(e) ==> (r matches Err(e2) && e2 == e)),
        (outcome matches Ok(bytes) ==> ((r is Ok) <==> (decoded_credential(bytes@) is Some))
            && (r matches Ok(c) ==> Some(c@) == decoded_credential(bytes@))
            && (r matches Err(e2) ==> e2.origin == Origin::Application && e2.kind == Kind::Invalid
                && e2.message is Some)),
{
    match outcome {
        Ok(bytes) => decode_response(&bytes),
        Err(e) => Err(e),
    }
}

/// An owned copy of `v[start..end]`.
fn copy_range(v: &Vec<u8>, start: usize, end: usize) -> (r: Vec<u8>)
    requires
        start <= end <= v@.len(),
    ensures
        r@ == v@.subrange(start as int, end as int),
{
    let mut out: Vec<u8> = Vec::new();
    let mut i: usize = start;
    while i < end
        invariant
            start <= i <= end <= v@.len(),
            out@ == v@.subrange(start as int, i as int),
        decreases end - i,
    {
        proof {
            assert(v@.subrange(start as int, i + 1) =~= v@.subrange(start as int, i as int).push(v@[i as int]));
        }
        out.push(v[i]);
        i += 1;
    }
    out
}

/// A well-formed envelope decodes to exactly the payload the authority
/// encoded: when the response buffer is a header item followed by one
/// complete payload item, decoding yields that payload, unchanged.
pub proof fn lemma_well_formed_response_decodes(header: Seq<u8>, payload: Seq<u8>)
    ensures
        (cbor_item_len(header + payload) == Some(header.len() as int)
            && cbor_item_len(payload) == Some(payload.len() as int))
            ==> decoded_credential(header + payload) == Some(payload),
{
    if cbor_item_len(header + payload) == Some(header.len() as int)
        && cbor_item_len(payload) == Some(payload.len() as int) {
        assert((header + payload).skip(header.len() as int) =~= payload);
        assert(payload.take(payload.len() as int) =~= payload);
    }
}

/// A buffer truncated after its header is rejected: when no complete payload
/// item starts where the header stopped, decoding fails — and so, by the
/// contract of `decode_response`, the exchange returns an `Invalid`
/// application error and no credential.
pub proof fn lemma_truncated_response_rejected(buf: Seq<u8>, h: int)
    ensures
        (cbor_item_len(buf) == Some(h) && 0 <= h <= buf.len()
            && cbor_item_len(buf.skip(h)) is None)
            ==> decoded_credential(buf) is None,
{
}

} // verus!
