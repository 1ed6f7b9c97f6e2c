use vstd::prelude::*;
use vstd::slice::{slice_subrange, slice_to_vec};
use vstd::utf8::encode_utf8;

verus! {

/// The carriage-return and line-feed bytes that terminate a request line.
pub open spec fn crlf() -> Seq<u8> {
    seq![13u8, 10u8]
}

/// The bytes a fetch for `path` puts on the wire: the path's UTF-8
/// encoding followed by CRLF, and nothing else.
pub open spec fn request_bytes(path: Seq<char>) -> Seq<u8> {
    encode_utf8(path) + crlf()
}

/// Build the request line for a selector path.
pub fn build_request(path: &str) -> (r: Vec<u8>)
    ensures
        r@ == request_bytes(path@),
{
    let mut req: Vec<u8> = slice_to_vec(path.as_bytes());
    req.push(13u8);
    req.push(10u8);
    proof {
        assert(req@ =~= request_bytes(path@));
    }
    req
}

/// What the driver of a [`FetchSession`] must do next.
pub enum FetchAction {
    /// Write the session's pending bytes to the peer.
    Send,
    /// Read more bytes from the peer.
    Receive,
    /// The exchange is over; the response is complete.
    Done,
}

/// One fetch exchange, tracked byte for byte: the request line to send,
/// how much of it the peer has accepted so far, and the response bytes
/// received so far.
///
/// The session makes every protocol decision of a fetch; a driver only
/// moves bytes between it and a socket and reports what the socket did.
/// The exchange sends the whole request, then reads until the peer closes
/// its write side; the response is the received bytes, uninterpreted.
pub struct FetchSession {
    request: Vec<u8>,
    sent: usize,
    response: Vec<u8>,
    finished: bool,
}

impl FetchSession {
    /// The full request line this session sends.
    pub closed spec fn spec_request(&self) -> Seq<u8> {
        self.request@
    }

    /// How many of the request's bytes the peer has accepted.
    pub closed spec fn spec_sent(&self) -> int {
        self.sent as int
    }

    /// The response bytes received so far.
    pub closed spec fn spec_response(&self) -> Seq<u8> {
        self.response@
    }

    /// Whether the peer has closed its write side, completing the response.
    pub closed spec fn spec_finished(&self) -> bool {
        self.finished
    }

    /// The sent count never passes the request's end, and the stream is
    /// only closed once the whole request went out.
    pub open spec fn wf(&self) -> bool {
        &&& 0 <= self.spec_sent() <= self.spec_request().len()
        &&& (self.spec_finished() ==> self.spec_sent() == self.spec_request().len())
    }

    /// Start a fetch for `path`: the request is the path followed by CRLF,
    /// none of it sent yet, nothing received yet.
    pub fn new(path: &str) -> (s: Self)
        ensures
            s.wf(),
            s.spec_request() == request_bytes(path@),
            s.spec_sent() == 0,
            s.spec_response() == Seq::<u8>::empty(),
            !s.spec_finished(),
    {
        FetchSession { request: build_request(path), sent: 0, response: Vec::new(), finished: false }
    }

    /// What the driver must do next: send while request bytes are pending,
    /// then receive until the peer closes, then stop.
    pub fn next_action(&self) -> (a: FetchAction)
        requires
            self.wf(),
        ensures
            a is Send <==> self.spec_sent() < self.spec_request().len(),
            a is Receive <==> (self.spec_sent() == self.spec_request().len() && !self.spec_finished()),
            a is Done <==> self.spec_finished(),
    {
        if self.sent < self.request.len() {
            FetchAction::Send
        } else if !self.finished {
            FetchAction::Receive
        } else {
            FetchAction::Done
        }
    }

    /// The request bytes the peer has not yet accepted.
    pub fn pending(&self) -> (b: &[u8])
        requires
            self.wf(),
        ensures
            b@ == self.spec_request().subrange(self.spec_sent(), self.spec_request().len() as int),
    {
        slice_subrange(self.request.as_slice(), self.sent, self.request.len())
    }

    /// Record that the peer accepted `n` more request bytes. Returns false
    /// exactly when the write made no progress although bytes were pending
    /// — the write-zero condition, on which the driver must give up.
    pub fn record_sent(&mut self, n: usize) -> (ok: bool)
        requires
            old(self).wf(),
            old(self).spec_sent() < old(self).spec_request().len(),
            old(self).spec_sent() + n <= old(self).spec_request().len(),
        ensures
            final(self).wf(),
            final(self).spec_request() == old(self).spec_request(),
            final(self).spec_response() == old(self).spec_response(),
            final(self).spec_finished() == old(self).spec_finished(),
            final(self).spec_sent() == old(self).spec_sent() + n,
            ok == (n != 0),
    {
        proof {
            vstd::std_specs::vec::axiom_spec_len(&self.request);
        }
        self.sent = self.sent + n;
        n != 0
    }

    /// Record a chunk of response bytes read from the peer: the response
    /// grows by exactly that chunk.
    pub fn record_received(&mut self, chunk: &[u8])
        requires
            old(self).wf(),
            old(self).spec_sent() == old(self).spec_request().len(),
            !old(self).spec_finished(),
        ensures
            final(self).wf(),
            final(self).spec_request() == old(self).spec_request(),
            final(self).spec_sent() == old(self).spec_sent(),
            !final(self).spec_finished(),
            final(self).spec_response() == old(self).spec_response() + chunk@,
    {
        self.response.extend_from_slice(chunk);
        proof {
            assert(self.response@ =~= old(self).response@ + chunk@);
        }
    }

    /// Record that the peer closed its write side: the response is complete
    /// and stays exactly as received.
    pub fn record_closed(&mut self)
        requires
            old(self).wf(),
            old(self).spec_sent() == old(self).spec_request().len(),
            !old(self).spec_finished(),
        ensures
            final(self).wf(),
            final(self).spec_request() == old(self).spec_request(),
            final(self).spec_sent() == old(self).spec_sent(),
            final(self).spec_response() == old(self).spec_response(),
            final(self).spec_finished(),
    {
        self.finished = true;
    }

    /// Hand out the complete response: every byte received, in order, and
    /// nothing else.
    pub fn into_response(self) -> (r: Vec<u8>)
        requires
            self.spec_finished(),
        ensures
            r@ == self.spec_response(),
    {
        self.response
    }
}

/// The request for a path is the path's bytes, then a carriage return,
/// then a line feed, and nothing else.
pub proof fn lemma_request_shape(path: Seq<char>)
    ensures
        request_bytes(path).len() == encode_utf8(path).len() + 2,
        request_bytes(path).subrange(0, encode_utf8(path).len() as int) == encode_utf8(path),
        request_bytes(path)[request_bytes(path).len() - 2] == 13u8,
        request_bytes(path)[request_bytes(path).len() - 1] == 10u8,
{
    assert(request_bytes(path).subrange(0, encode_utf8(path).len() as int) =~= encode_utf8(path));
}

/// One whole fetch exchange against an in-memory peer that accepts every
/// pending byte at once and then answers with `chunks` before closing its
/// write side. Returns what the peer received and what the session handed
/// back, and proves the two laws of a fetch once and for all: the wire
/// carries exactly the request line for `path`, and the returned bytes are
/// exactly the peer's chunks, in order and uninterpreted.
pub fn exchange(path: &str, chunks: &Vec<Vec<u8>>) -> (out: (Vec<u8>, Vec<u8>))
    ensures
        out.0@ == request_bytes(path@),
        out.1@ == chunks.deep_view().flatten(),
{
    let mut session = FetchSession::new(path);
    let wire: Vec<u8> = slice_to_vec(session.pending());
    proof {
        assert(wire@ =~= session.spec_request());
    }
    let n: usize = wire.len();
    let progressed = session.record_sent(n);
    proof {
        assert(progressed);
        assert(chunks.deep_view().take(0) =~= Seq::<Seq<u8>>::empty());
        assert(Seq::<Seq<u8>>::empty().flatten() =~= Seq::<u8>::empty());
    }
    let ghost mut received: Seq<Seq<u8>> = Seq::empty();
    let mut i: usize = 0;
    while i < chunks.len()
        invariant
            session.wf(),
            session.spec_sent() == session.spec_request().len(),
            !session.spec_finished(),
            i <= chunks.len(),
            received == chunks.deep_view().take(i as int),
            session.spec_response() == received.flatten(),
        decreases chunks.len() - i,
    {
        let chunk = chunks[i].as_slice();
        session.record_received(chunk);
        proof {
            assert(chunk@ =~= chunks.deep_view()[i as int]);
            received.lemma_flatten_push(chunk@);
            assert(chunks.deep_view().take(i as int).push(chunks.deep_view()[i as int])
                =~= chunks.deep_view().take(i + 1));
            received = received.push(chunk@);
        }
        i = i + 1;
    }
    proof {
        assert(received =~= chunks.deep_view());
    }
    session.record_closed();
    (wire, session.into_response())
}

/// A write moves the session forward by exactly the bytes it put on the
/// wire: the accepted prefix of the request after a write of `n` pending
/// bytes is the accepted prefix before it followed by those `n` bytes.
/// Chained over a whole run, the wire carries the request and nothing else.
pub proof fn lemma_sent_prefix_grows(request: Seq<u8>, sent: int, n: int)
    requires
        0 <= sent,
        0 <= n,
        sent + n <= request.len(),
    ensures
        request.subrange(0, sent) + request.subrange(sent, sent + n) == request.subrange(0, sent + n),
{
    assert(request.subrange(0, sent) + request.subrange(sent, sent + n) =~= request.subrange(
        0,
        sent + n,
    ));
}

/// An empty selector's request is the CRLF terminator alone.
pub proof fn lemma_empty_selector_request()
    ensures
        request_bytes(Seq::<char>::empty()) == crlf(),
{
    assert(encode_utf8(Seq::<char>::empty()) =~= Seq::<u8>::empty());
    assert(request_bytes(Seq::<char>::empty()) =~= crlf());
}

} // verus!
