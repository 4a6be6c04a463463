//! The client session: identifier issuance and the generic call pipeline.
//!
//! One client owns one identifier counter.  A call is one request half and
//! one response half: the request half builds and encodes the envelope and
//! consumes the next identifier; the owning application moves the text over
//! its transport (an HTTP one-shot post, or the persistent duplex channel of
//! [`crate::duplex`]); the response half decodes, validates and unwraps what
//! came back against the identifier that was issued.  At most one call is in
//! flight at a time.

use vstd::prelude::*;
use vstd::string::StringExecFns;
use crate::json::{Payload, PayloadV};
use crate::encode::{dec_of, enc_request, encode_request, write_dec};
use crate::decode::read_verdict;
use crate::decode::read_response;
use crate::error::{ErrV, LitRpcError};
use crate::text::push_char;

verus! {

/// A parameter shape: a typed value that presents itself as a wire payload.
pub trait ParamShape {
    /// The payload this value stands for on the wire.
    spec fn wire_model(&self) -> PayloadV;

    /// Builds exactly that payload.
    fn to_payload(&self) -> (p: Payload)
        ensures
            p@ == self.wire_model(),
            p@.wf(),
    ;
}

/// A reply shape: a typed value that can be read off a result payload.
pub trait ReplyShape: Sized {
    /// Whether the payload has every field the shape requires, with the
    /// required types.
    spec fn wire_ok(p: PayloadV) -> bool;

    /// Whether `x` carries exactly the payload's field values.
    spec fn wire_sat(p: PayloadV, x: &Self) -> bool;

    /// The canonical result payload a response carries for the value `x`.
    spec fn wire_of(x: &Self) -> PayloadV;

    /// Whether `x` is a value the wire can carry at all — for most shapes
    /// every value, but a fixed-length byte field must have its wire length.
    spec fn canonical(x: &Self) -> bool;

    /// Structural equality of two values of the shape: every field equal,
    /// strings and lists compared by content.
    spec fn eqv(x: &Self, y: &Self) -> bool;

    /// Reads the shape off a payload: a value exactly when the payload has
    /// the shape, and then the value the payload dictates.
    fn from_payload(p: &Payload) -> (r: Option<Self>)
        ensures
            r is Some <==> Self::wire_ok(p@),
            r matches Some(x) ==> Self::wire_sat(p@, &x),
    ;

    /// Round trip through a synthetic response: the canonical payload of any
    /// hand-constructed value has the shape, and whatever the reader accepts
    /// for that payload is structurally equal to the value it was built
    /// from.  Every shape proves this.
    proof fn round_trip(x: &Self, y: &Self)
        ensures
            Self::canonical(x) ==> Self::wire_ok(Self::wire_of(x)),
            Self::wire_sat(Self::wire_of(x), y) ==> Self::eqv(x, y),
    ;
}

/// The round-trip law of the typed method surface, for every reply shape at
/// once: decoding the canonical synthetic response payload built from a
/// hand-constructed value of any shape `R` succeeds and — by
/// [`ReplyShape::from_payload`]'s own contract — yields a value structurally
/// equal to the one it was built from.
pub proof fn lemma_reply_round_trip<R: ReplyShape>(x: &R, y: &R)
    requires
        R::canonical(x),
    ensures
        R::wire_ok(R::wire_of(x)),
        R::wire_sat(R::wire_of(x), y) ==> R::eqv(x, y),
{
    R::round_trip(x, y);
}

/// One RPC client session: the endpoint it talks to and the next request
/// identifier it will issue.
pub struct LitRpcClient {
    /// The identifier the next request will carry; starts at zero and grows
    /// by one per request, never reused, regardless of how each call ends.
    pub next_msg_id: u64,
    /// The endpoint the owning application posts one-shot exchanges to.
    pub url: String,
    /// Every identifier issued so far, in issuance order.
    pub issued: Ghost<Seq<u64>>,
}

impl LitRpcClient {
    /// The identifier record is exactly `0, 1, …, next_msg_id - 1`, in order.
    pub open spec fn inv(&self) -> bool {
        &&& self.issued@.len() == self.next_msg_id
        &&& forall|i: int| 0 <= i < self.issued@.len() ==> self.issued@[i] == i as u64
    }

    /// The one-shot endpoint for a host and port.
    pub open spec fn spec_url(addr: Seq<char>, port: u16) -> Seq<char> {
        "http://"@ + addr + seq![':'] + dec_of(port as nat) + "/oneoff"@
    }

    /// A fresh session against `addr:port`: no identifier issued yet.
    pub fn new(addr: &str, port: u16) -> (c: LitRpcClient)
        ensures
            c.inv(),
            c.next_msg_id == 0,
            c.issued@ == Seq::<u64>::empty(),
            c.url@ == Self::spec_url(addr@, port),
    {
        let mut url = String::new();
        url.append("http://");
        url.append(addr);
        push_char(&mut url, ':');
        write_dec(&mut url, port as u64);
        url.append("/oneoff");
        proof {
            assert(url@ =~= Self::spec_url(addr@, port));
        }
        LitRpcClient { next_msg_id: 0, url, issued: Ghost(Seq::empty()) }
    }

    /// The endpoint string, for the transport.
    pub fn url(&self) -> (r: &str)
        ensures
            r@ == self.url@,
    {
        self.url.as_str()
    }

    /// The request half of one call: consumes the next identifier — even if
    /// the rest of the call later fails — and returns it together with the
    /// encoded request envelope for `method` and `params`.
    pub fn call_request<P: ParamShape>(&mut self, method: &str, params: &P) -> (r: (u64, String))
        requires
            old(self).inv(),
            old(self).next_msg_id < u64::MAX,
        ensures
            final(self).inv(),
            final(self).next_msg_id == old(self).next_msg_id + 1,
            final(self).url == old(self).url,
            final(self).issued@ == old(self).issued@.push(old(self).next_msg_id),
            r.0 == old(self).next_msg_id,
            r.1@ == enc_request(method@, params.wire_model(), old(self).next_msg_id as int),
    {
        let id = self.next_msg_id;
        let payload = params.to_payload();
        let text = encode_request(method, &payload, id);
        self.next_msg_id = self.next_msg_id + 1;
        proof {
            self.issued@ = self.issued@.push(id);
        }
        (id, text)
    }

    /// The identifier of the call in flight: the one most recently issued.
    pub open spec fn in_flight_id(&self) -> int {
        self.next_msg_id - 1
    }

    /// The response half of one call: decodes `text`, validates the envelope
    /// and the identifier against the in-flight request, and unwraps the
    /// result into the reply shape `R`.  The outcome is exactly the verdict
    /// of [`read_verdict`], with a result payload additionally required to
    /// have the shape `R`.
    pub fn call_response<R: ReplyShape>(&self, text: &str) -> (r: Result<R, LitRpcError>)
        requires
            self.next_msg_id >= 1,
        ensures
            match r {
                Ok(x) => read_verdict(text@, self.in_flight_id()) matches Ok(p) && R::wire_ok(p)
                    && R::wire_sat(p, &x),
                Err(e) => (read_verdict(text@, self.in_flight_id()) matches Err(ev) && e@ == ev)
                    || (read_verdict(text@, self.in_flight_id()) matches Ok(p) && !R::wire_ok(p)
                    && e@ == ErrV::Malformed),
            },
    {
        match read_response(text, self.next_msg_id - 1) {
            Err(e) => Err(e),
            Ok(p) => match R::from_payload(&p) {
                Some(x) => Ok(x),
                None => Err(LitRpcError::MalformedResponse),
            },
        }
    }

    /// The response half, fed with the transport's whole outcome: a failure
    /// of the exchange itself is returned to the caller unchanged — never
    /// retried — and a delivered text is classified as in
    /// [`Self::call_response`].
    pub fn call_conclude<R: ReplyShape>(&self, exchange: Result<String, LitRpcError>) -> (r: Result<
        R,
        LitRpcError,
    >)
        requires
            self.next_msg_id >= 1,
        ensures
            match r {
                Ok(x) => exchange matches Ok(t) && read_verdict(t@, self.in_flight_id()) matches Ok(
                    p,
                ) && R::wire_ok(p) && R::wire_sat(p, &x),
                Err(e) => (exchange matches Err(t) && e@ == t@) || (exchange matches Ok(t) && ((
                read_verdict(t@, self.in_flight_id()) matches Err(ev) && e@ == ev) || (read_verdict(
                    t@,
                    self.in_flight_id(),
                ) matches Ok(p) && !R::wire_ok(p) && e@ == ErrV::Malformed))),
            },
    {
        match exchange {
            Err(e) => Err(e),
            Ok(t) => self.call_response::<R>(t.as_str()),
        }
    }
}

/// What one request half leaves behind: the session advanced by exactly one
/// identifier, and the returned pair carrying that identifier and the encoded
/// envelope for `method` and `params`.
pub open spec fn called(
    pre: LitRpcClient,
    post: LitRpcClient,
    r: (u64, String),
    method: Seq<char>,
    params: PayloadV,
) -> bool {
    &&& post.inv()
    &&& post.next_msg_id == pre.next_msg_id + 1
    &&& post.url == pre.url
    &&& post.issued@ == pre.issued@.push(pre.next_msg_id)
    &&& r.0 == pre.next_msg_id
    &&& r.1@ == enc_request(method, params, pre.next_msg_id as int)
}

/// Identifier discipline: whatever a session went through, the identifiers
/// it has issued are exactly `0, 1, …, n-1` in issuance order — `n` being the
/// number of requests made — with no identifier repeated, however many of
/// those calls failed.
pub proof fn lemma_issued_identifiers(c: &LitRpcClient)
    requires
        c.inv(),
    ensures
        c.issued@.len() == c.next_msg_id,
        forall|i: int| 0 <= i < c.issued@.len() ==> c.issued@[i] == i as u64,
        forall|i: int, j: int|
            0 <= i < j < c.issued@.len() ==> c.issued@[i] != c.issued@[j],
{
    assert forall|i: int, j: int| 0 <= i < j < c.issued@.len() implies c.issued@[i]
        != c.issued@[j] by {
        assert(c.issued@[i] == i as u64);
        assert(c.issued@[j] == j as u64);
    }
}

} // verus!
