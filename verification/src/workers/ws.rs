//! The gateway connection: endpoint discovery, the lifecycle of one
//! connection, and the decision taken around each transport operation.
//!
//! The socket and the background receive task live with the caller. The caller
//! performs each network operation and reports its outcome here; this module
//! decides what the outcome means and what has to happen next.

use crate::constants::{API_BASE_URL, API_VERSION, GATEWAY_URL};
use vstd::prelude::*;

verus! {

/// Where a connection stands. A connection only ever moves forward through
/// these states; `Closed` is final.
#[derive(Clone, Copy, Debug, PartialEq, Eq, Structural)]
pub enum Lifecycle {
    Uninitialized,
    Connecting,
    Connected,
    Closing,
    Closed,
}

impl Lifecycle {
    /// Position of the state in the forward order.
    pub open spec fn rank(self) -> nat {
        match self {
            Lifecycle::Uninitialized => 0,
            Lifecycle::Connecting => 1,
            Lifecycle::Connected => 2,
            Lifecycle::Closing => 3,
            Lifecycle::Closed => 4,
        }
    }

    /// Whether a background receive task belongs to a connection in this state.
    pub open spec fn holds_task(self) -> bool {
        self is Connected || self is Closing
    }

    /// State after the outcome of the connect step is known.
    pub open spec fn after_handshake(self, accepted: bool) -> Lifecycle {
        if self is Connecting {
            if accepted {
                Lifecycle::Connected
            } else {
                Lifecycle::Closed
            }
        } else {
            self
        }
    }

    /// State after teardown was asked for.
    pub open spec fn after_teardown(self) -> Lifecycle {
        if self.holds_task() {
            Lifecycle::Closing
        } else {
            Lifecycle::Closed
        }
    }

    /// State after the background task was joined.
    pub open spec fn after_join(self) -> Lifecycle {
        if self is Closing {
            Lifecycle::Closed
        } else {
            self
        }
    }
}

/// Everything that can go wrong while discovering, opening or using a connection.
#[derive(Debug, PartialEq, Eq)]
pub enum GatewayError {
    InvalidUrl,
    ConnectFailure { cause: String },
    HandshakeRejected { status: u16 },
    SendFailure,
    ReceiveFailure,
    DiscoveryTransportFailure,
    DiscoveryDecodeFailure,
}

/// What came back from the discovery request.
#[derive(Debug)]
pub enum Discovery {
    /// The request failed before any body arrived.
    Unreachable,
    /// The raw response body.
    Body(Vec<u8>),
}

/// What came back from the connect step.
#[derive(Debug)]
pub enum Handshake {
    /// The transport or the upgrade negotiation failed.
    Failed { cause: String },
    /// The peer answered the upgrade request with this status.
    Answered { status: u16 },
}

/// One message unit on the transport.
#[derive(Debug, PartialEq, Eq)]
pub enum Frame {
    Text(String),
    Close,
}

/// What one blocking read on the transport gave.
#[derive(Debug)]
pub enum Read {
    /// A text frame with this payload.
    Text(String),
    /// The peer closed, or the read failed.
    Failed,
}

/// The value of the string field `field` in the JSON document `body`, as
/// `serde_json` reads it: `None` where `body` is no JSON document,
/// `Some(None)` where it is one without such a field or with a field that is
/// no string.
pub uninterp spec fn json_string_field(body: Seq<u8>, field: Seq<char>) -> Option<Option<Seq<char>>>;

/// Whether the `url` crate accepts `text` as a URL.
pub uninterp spec fn url_parses(text: Seq<char>) -> bool;

/// A decoded field by its characters.
pub open spec fn field_chars(decoded: Option<Option<String>>) -> Option<Option<Seq<char>>> {
    match decoded {
        None => None,
        Some(None) => Some(None),
        Some(Some(s)) => Some(Some(s@)),
    }
}

/// Decodes `body` with `serde_json::from_slice` into a `serde_json::Value`,
/// indexes it by `field` and reads the entry with `Value::as_str`. The result
/// depends on the two arguments only.
#[verifier::external_body]
fn string_field(body: &[u8], field: &str) -> (r: Option<Option<String>>)
    ensures
        field_chars(r) == json_string_field(body@, field@),
{
    match serde_json::from_slice::<serde_json::Value>(body) {
        Ok(document) => match document[field].as_str() {
            Some(text) => Some(Some(text.to_string())),
            None => Some(None),
        },
        Err(_) => None,
    }
}

/// Calls `url::Url::parse` and tells whether it accepted `text`.
#[verifier::external_body]
fn is_url(text: &str) -> (ok: bool)
    ensures
        ok == url_parses(text@),
{
    url::Url::parse(text).is_ok()
}

/// The query that every gateway URL ends with.
pub open spec fn query_suffix() -> Seq<char> {
    "/?v="@ + API_VERSION@ + "&encoding=json"@
}

/// The gateway URL for a discovered host, or for the default where none was
/// discovered.
pub open spec fn endpoint(host: Option<Seq<char>>) -> Seq<char> {
    match host {
        Some(h) => h + query_suffix(),
        None => GATEWAY_URL@ + query_suffix(),
    }
}

/// The outcome of endpoint resolution for a decoded discovery body.
pub open spec fn resolved(decoded: Option<Option<Seq<char>>>) -> Result<Seq<char>, GatewayError> {
    match decoded {
        None => Err(GatewayError::DiscoveryDecodeFailure),
        Some(host) => Ok(endpoint(host)),
    }
}

/// The outcome of endpoint resolution for a discovery response.
pub open spec fn resolution(discovery: Discovery) -> Result<Seq<char>, GatewayError> {
    match discovery {
        Discovery::Unreachable => Err(GatewayError::DiscoveryTransportFailure),
        Discovery::Body(body) => resolved(json_string_field(body@, "url"@)),
    }
}

/// A resolution result by its characters.
pub open spec fn url_chars(r: Result<String, GatewayError>) -> Result<Seq<char>, GatewayError> {
    match r {
        Ok(url) => Ok(url@),
        Err(e) => Err(e),
    }
}

/// An optional string by its characters.
pub open spec fn text_chars(text: Option<String>) -> Option<Seq<char>> {
    match text {
        Some(t) => Some(t@),
        None => None,
    }
}

/// Whether a handshake status is in the success class.
pub open spec fn status_accepted(status: u16) -> bool {
    200 <= status < 300
}

/// What the outcome of the connect step means for the one who asked for the connection.
pub open spec fn handshake_result(outcome: Handshake) -> Result<(), GatewayError> {
    match outcome {
        Handshake::Failed { cause } => Err(GatewayError::ConnectFailure { cause }),
        Handshake::Answered { status } => if status_accepted(status) {
            Ok(())
        } else {
            Err(GatewayError::HandshakeRejected { status })
        },
    }
}

/// What a send gives on a connection in state `state`.
pub open spec fn send_result(state: Lifecycle, message: String) -> Result<Frame, GatewayError> {
    if state is Connected {
        Ok(Frame::Text(message))
    } else {
        Err(GatewayError::SendFailure)
    }
}

/// What a pull read gives on a connection in state `state`.
pub open spec fn receive_result(state: Lifecycle, read: Read) -> Result<String, GatewayError> {
    match read {
        Read::Text(text) => if state is Connected {
            Ok(text)
        } else {
            Err(GatewayError::ReceiveFailure)
        },
        Read::Failed => Err(GatewayError::ReceiveFailure),
    }
}

/// What a teardown hands out on a connection in state `state`.
pub open spec fn close_frame(state: Lifecycle) -> Option<Frame> {
    if state is Connected {
        Some(Frame::Close)
    } else {
        None
    }
}

/// What `begin` gives for `gateway`, known to be well formed or not.
pub open spec fn begun(r: Result<WebSocket, GatewayError>, gateway: String, well_formed: bool) -> bool {
    match r {
        Ok(ws) => well_formed && ws.lifecycle() == Lifecycle::Connecting && ws.url() == gateway@,
        Err(e) => !well_formed && e == GatewayError::InvalidUrl,
    }
}

/// The address of the discovery request.
pub fn discovery_url() -> (url: String)
    ensures
        url@ == API_BASE_URL@ + "gateway"@,
{
    String::from_str(API_BASE_URL).concat("gateway")
}

/// Builds the gateway URL from the discovered host, falling back to the
/// default endpoint where discovery named none.
pub fn gateway_endpoint(host: Option<String>) -> (url: String)
    ensures
        url@ == endpoint(text_chars(host)),
{
    let base = match host {
        Some(h) => h,
        None => String::from_str(GATEWAY_URL),
    };
    let url = base.concat("/?v=").concat(API_VERSION).concat("&encoding=json");
    assert(url@ =~= base@ + query_suffix());
    url
}

/// Resolves the endpoint from a decoded discovery body: a body that is no
/// JSON document is fatal, a missing field falls back to the default.
pub fn resolve_decoded(decoded: Option<Option<String>>) -> (r: Result<String, GatewayError>)
    ensures
        url_chars(r) == resolved(field_chars(decoded)),
{
    match decoded {
        None => Err(GatewayError::DiscoveryDecodeFailure),
        Some(host) => Ok(gateway_endpoint(host)),
    }
}

/// The count of delivered frames after one more delivery; it stops at the
/// largest value it can hold.
pub open spec fn next_count(n: nat) -> nat {
    if n < u64::MAX {
        n + 1
    } else {
        n
    }
}

/// What the loop hands to the handler for one read: the payload of a text
/// frame while the loop runs, nothing once it has ended.
pub open spec fn handed_out(done: bool, read: Read) -> Option<String> {
    match read {
        Read::Text(text) => if done {
            None
        } else {
            Some(text)
        },
        Read::Failed => None,
    }
}

/// The payloads that the loop hands to the handler, in order, when it is
/// fed `reads` one after the other; `done` tells whether it had ended before.
pub open spec fn handled(done: bool, reads: Seq<Read>) -> Seq<String>
    decreases reads.len(),
{
    if reads.len() == 0 {
        Seq::empty()
    } else {
        let rest = handled(done || reads[0] is Failed, reads.drop_first());
        match handed_out(done, reads[0]) {
            Some(text) => seq![text] + rest,
            None => rest,
        }
    }
}

/// The reads of a peer that sends one text frame for each of `texts`.
pub open spec fn text_reads(texts: Seq<String>) -> Seq<Read> {
    Seq::new(texts.len(), |i: int| Read::Text(texts[i]))
}

/// A background receive loop: counts the frames handed to the handler and
/// records that the loop has ended.
#[derive(Clone, Copy, Debug, PartialEq, Eq, Structural)]
pub struct Receiver {
    delivered: u64,
    finished: bool,
}

impl Receiver {
    /// Number of frames handed to the handler so far.
    pub closed spec fn count(&self) -> nat {
        self.delivered as nat
    }

    /// Whether the loop has ended.
    pub closed spec fn done(&self) -> bool {
        self.finished
    }

    /// A loop that has not read anything yet.
    pub fn new() -> (r: Receiver)
        ensures
            r.count() == 0,
            !r.done(),
    {
        Receiver { delivered: 0, finished: false }
    }

    /// Decides what one read means for the loop. A text frame goes to the
    /// handler and the loop goes on; a failed read ends the loop for good.
    /// Once the loop has ended nothing is handed out any more.
    pub fn on_read(&mut self, read: Read) -> (payload: Option<String>)
        ensures
            payload == handed_out(old(self).done(), read),
            final(self).done() == (old(self).done() || read is Failed),
            final(self).count() == (if payload is Some {
                next_count(old(self).count())
            } else {
                old(self).count()
            }),
    {
        if self.finished {
            return None;
        }
        match read {
            Read::Text(text) => {
                self.delivered = self.delivered.saturating_add(1);
                Some(text)
            },
            Read::Failed => {
                self.finished = true;
                None
            },
        }
    }

    /// Number of frames handed to the handler so far.
    pub fn delivered(&self) -> (n: u64)
        ensures
            n == self.count(),
    {
        self.delivered
    }

    /// Whether the loop has ended.
    pub fn finished(&self) -> (b: bool)
        ensures
            b == self.done(),
    {
        self.finished
    }
}

/// One connection to the gateway.
#[derive(Debug)]
pub struct WebSocket {
    state: Lifecycle,
    /// The URL the connection was opened with.
    pub gateway_url: String,
}

impl WebSocket {
    /// The state the connection is in.
    pub closed spec fn lifecycle(&self) -> Lifecycle {
        self.state
    }

    /// The URL the connection was opened with.
    pub closed spec fn url(&self) -> Seq<char> {
        self.gateway_url@
    }

    /// Number of background receive tasks that belong to the connection:
    /// exactly one from the accepted handshake until the task is joined, and
    /// none at any other time.
    pub open spec fn tasks(&self) -> nat {
        if self.lifecycle().holds_task() {
            1
        } else {
            0
        }
    }

    /// Retrieves the gateway URL from the answer to the discovery request.
    /// A request that failed and a body that is no JSON document are fatal; a
    /// document without a usable `url` field gives the default endpoint.
    pub fn retrieve_gateway_url(discovery: &Discovery) -> (r: Result<String, GatewayError>)
        ensures
            url_chars(r) == resolution(*discovery),
    {
        match discovery {
            Discovery::Unreachable => Err(GatewayError::DiscoveryTransportFailure),
            Discovery::Body(body) => resolve_decoded(string_field(body.as_slice(), "url")),
        }
    }

    /// Starts a connection to `gateway`, given whether `gateway` is a
    /// well-formed URL. A malformed one is refused and no connection exists.
    pub fn begin(gateway: String, well_formed: bool) -> (r: Result<WebSocket, GatewayError>)
        ensures
            begun(r, gateway, well_formed),
    {
        if well_formed {
            Ok(WebSocket { state: Lifecycle::Connecting, gateway_url: gateway })
        } else {
            Err(GatewayError::InvalidUrl)
        }
    }

    /// Starts a connection to `gateway`: parses the URL and, where it is well
    /// formed, hands back a connection whose connect step is in flight.
    pub fn init(gateway: String) -> (r: Result<WebSocket, GatewayError>)
        ensures
            begun(r, gateway, url_parses(gateway@)),
    {
        let well_formed = is_url(gateway.as_str());
        WebSocket::begin(gateway, well_formed)
    }

    /// Takes in the outcome of the connect step. An accepted handshake makes
    /// the connection `Connected` with exactly one background task, which the
    /// caller spawns; any other outcome closes the connection without a task.
    pub fn handshake(&mut self, outcome: Handshake) -> (r: Result<(), GatewayError>)
        requires
            old(self).lifecycle() == Lifecycle::Connecting,
        ensures
            final(self).url() == old(self).url(),
            final(self).lifecycle() == old(self).lifecycle().after_handshake(r is Ok),
            r == handshake_result(outcome),
    {
        match outcome {
            Handshake::Failed { cause } => {
                self.state = Lifecycle::Closed;
                Err(GatewayError::ConnectFailure { cause })
            },
            Handshake::Answered { status } => {
                if 200 <= status && status < 300 {
                    self.state = Lifecycle::Connected;
                    Ok(())
                } else {
                    self.state = Lifecycle::Closed;
                    Err(GatewayError::HandshakeRejected { status })
                }
            },
        }
    }

    /// Decides a send: on a connected instance the message becomes exactly
    /// one text frame for the caller to write; on any other it is refused.
    pub fn send(&self, message: String) -> (r: Result<Frame, GatewayError>)
        ensures
            r == send_result(self.lifecycle(), message),
    {
        match self.state {
            Lifecycle::Connected => Ok(Frame::Text(message)),
            _ => Err(GatewayError::SendFailure),
        }
    }

    /// Reports a write on the transport: a failed one is a `SendFailure`. The
    /// connection itself is left as it is.
    pub fn written(ok: bool) -> (r: Result<(), GatewayError>)
        ensures
            r is Ok <==> ok,
            r is Err ==> r->Err_0 == GatewayError::SendFailure,
    {
        if ok {
            Ok(())
        } else {
            Err(GatewayError::SendFailure)
        }
    }

    /// Decides a pull read: the payload of a text frame read on a connected
    /// instance is handed out; anything else is a `ReceiveFailure`. The
    /// connection itself is left as it is.
    pub fn receive(&self, read: Read) -> (r: Result<String, GatewayError>)
        ensures
            r == receive_result(self.lifecycle(), read),
    {
        match read {
            Read::Text(text) => match self.state {
                Lifecycle::Connected => Ok(text),
                _ => Err(GatewayError::ReceiveFailure),
            },
            Read::Failed => Err(GatewayError::ReceiveFailure),
        }
    }

    /// Asks for teardown. Only the first call on a connected instance hands
    /// out a close frame: the caller sends it, ignoring a failure, and then
    /// joins the background task. Every other call hands out nothing, so the
    /// task is never joined twice.
    pub fn teardown(&mut self) -> (close: Option<Frame>)
        ensures
            final(self).url() == old(self).url(),
            final(self).lifecycle() == old(self).lifecycle().after_teardown(),
            close == close_frame(old(self).lifecycle()),
    {
        match self.state {
            Lifecycle::Connected => {
                self.state = Lifecycle::Closing;
                Some(Frame::Close)
            },
            Lifecycle::Closing => None,
            _ => {
                self.state = Lifecycle::Closed;
                None
            },
        }
    }

    /// Records that the background task was joined: a closing connection
    /// becomes `Closed` and holds no task any more.
    pub fn joined(&mut self)
        ensures
            final(self).url() == old(self).url(),
            final(self).lifecycle() == old(self).lifecycle().after_join(),
    {
        match self.state {
            Lifecycle::Closing => {
                self.state = Lifecycle::Closed;
            },
            _ => {},
        }
    }

    /// The state the connection is in.
    pub fn state(&self) -> (s: Lifecycle)
        ensures
            s == self.lifecycle(),
    {
        self.state
    }

    /// Number of background receive tasks that belong to the connection.
    pub fn receive_tasks(&self) -> (n: usize)
        ensures
            n == self.tasks(),
    {
        match self.state {
            Lifecycle::Connected | Lifecycle::Closing => 1,
            _ => 0,
        }
    }
}

/// No step ever moves a connection backwards.
pub proof fn lifecycle_moves_forward(s: Lifecycle, accepted: bool)
    ensures
        s.rank() <= s.after_handshake(accepted).rank(),
        s.rank() <= s.after_teardown().rank(),
        s.rank() <= s.after_join().rank(),
{
}

/// A closed connection stays closed whatever is reported to it.
pub proof fn closed_is_final(accepted: bool)
    ensures
        Lifecycle::Closed.after_handshake(accepted) == Lifecycle::Closed,
        Lifecycle::Closed.after_teardown() == Lifecycle::Closed,
        Lifecycle::Closed.after_join() == Lifecycle::Closed,
{
}

/// From every state, a teardown followed by the join ends in `Closed`, where
/// no background task is left.
pub proof fn teardown_and_join_close(s: Lifecycle)
    ensures
        s.after_teardown().after_join() == Lifecycle::Closed,
        !Lifecycle::Closed.holds_task(),
{
}

/// A background task exists only after an accepted handshake: a connection
/// that is being established holds none, and of the outcomes of the connect
/// step only the accepted one leads to a state that holds one.
pub proof fn task_needs_accepted_handshake(accepted: bool)
    ensures
        !Lifecycle::Uninitialized.holds_task(),
        !Lifecycle::Connecting.holds_task(),
        Lifecycle::Connecting.after_handshake(accepted).holds_task() <==> accepted,
{
}

/// A repeated teardown asks for nothing: after a first one the state is
/// never `Connected`, so no second close frame is handed out and no second
/// join can follow.
pub proof fn teardown_is_idempotent(s: Lifecycle)
    ensures
        close_frame(s.after_teardown()) is None,
        s.after_teardown().after_teardown() == s.after_teardown(),
{
}

/// A loop that has ended hands nothing to the handler, whatever is read.
pub proof fn ended_loop_is_silent(reads: Seq<Read>)
    ensures
        handled(true, reads) == Seq::<String>::empty(),
    decreases reads.len(),
{
    if reads.len() > 0 {
        ended_loop_is_silent(reads.drop_first());
    }
}

/// A running loop whose peer sends some text frames and then closes hands
/// exactly those frames to the handler, each once and in order, and nothing
/// of what might be read later.
pub proof fn frames_before_close_are_handled(texts: Seq<String>, later: Seq<Read>)
    ensures
        handled(false, text_reads(texts) + seq![Read::Failed] + later) == texts,
    decreases texts.len(),
{
    let reads = text_reads(texts) + seq![Read::Failed] + later;
    if texts.len() == 0 {
        assert(reads[0] is Failed);
        ended_loop_is_silent(reads.drop_first());
        assert(handled(false, reads) =~= texts);
    } else {
        let rest = texts.drop_first();
        assert(reads[0] == Read::Text(texts[0]));
        assert(reads.drop_first() =~= text_reads(rest) + seq![Read::Failed] + later);
        frames_before_close_are_handled(rest, later);
        assert(seq![texts[0]] + rest =~= texts);
    }
}

} // verus!
