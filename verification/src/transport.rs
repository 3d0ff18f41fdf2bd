//! WebSocket transport with reconnection and heartbeat.
//!
//! The decisions stand here: what to dial, what to do with each event of a
//! connection, and how long to pause before the next one. Whoever holds the
//! socket performs the actions and reports what happened.

use crate::json;
use crate::protocol;
use crate::protocol::{Frame, FrameView};
use crate::text;
use crate::text::joined;
use crate::timing;
use crate::timing::Interval;
use crate::tunnel;
use crate::tunnel::{ErrorView, TunnelError};
use tokio_tungstenite::tungstenite::client::IntoClientRequest;
use vstd::prelude::*;

verus! {

/// Transport configuration.
pub struct TransportConfig {
    pub url: String,
    pub auth_bearer: String,
    pub initial_backoff: Interval,
    pub max_backoff: Interval,
    pub heartbeat_interval: Interval,
    pub connect_timeout: Interval,
}

impl Default for TransportConfig {
    fn default() -> (r: TransportConfig)
        ensures
            r.url@ == Seq::<char>::empty(),
            r.auth_bearer@ == Seq::<char>::empty(),
            r.initial_backoff.span() == timing::second(),
            r.max_backoff.span() == 60 * timing::second(),
            r.heartbeat_interval.span() == 30 * timing::second(),
            r.connect_timeout.span() == 10 * timing::second(),
    {
        TransportConfig {
            url: String::new(),
            auth_bearer: String::new(),
            initial_backoff: Interval::from_secs(1),
            max_backoff: Interval::from_secs(60),
            heartbeat_interval: Interval::from_secs(30),
            connect_timeout: Interval::from_secs(10),
        }
    }
}

/// Why `tokio_tungstenite` makes no client request of a URL, in the words of
/// its error; `None` where it makes one.
pub uninterp spec fn url_refusal(url: Seq<char>) -> Option<Seq<char>>;

/// Calls `IntoClientRequest::into_client_request` of tungstenite on a URL and
/// gives the text of its error. Whether there is one, and how it reads, is a
/// function of the URL alone; the request that it makes otherwise holds a
/// random key and is dropped here.
#[verifier::external_body]
fn refuse_url(url: &str) -> (r: Option<String>)
    ensures
        text::optional(r) == url_refusal(url@),
{
    url.into_client_request().err().map(|e| e.to_string())
}

/// Whether a text can be the value of an HTTP header: it holds no control
/// character but the tab.
pub open spec fn is_header_value(s: Seq<char>) -> bool {
    forall|i: int|
        0 <= i < s.len() ==> (#[trigger] s[i] == '\t' || (s[i] >= ' ' && s[i] != '\u{7f}'))
}

/// Parses a text as `http::HeaderValue` and gives the text of the error. There
/// is one where a byte is below 32 and no tab, or is 127; the bytes of a
/// character beyond ASCII are above both. The error always reads the same.
#[verifier::external_body]
fn refuse_header(value: &str) -> (r: Option<String>)
    ensures
        (r is None) == is_header_value(value@),
        r matches Some(e) ==> e@ == "failed to parse header value"@,
{
    value.parse::<http::HeaderValue>().err().map(|e| e.to_string())
}

/// What to dial: a URL, the `Authorization` header of the request where it has
/// one, and how long the connection may take.
pub struct Dial {
    pub url: String,
    pub authorization: Option<String>,
    pub timeout: Interval,
}

/// What a [`Dial`] says.
pub struct DialView {
    pub url: Seq<char>,
    pub authorization: Option<Seq<char>>,
    pub timeout: nat,
}

impl View for Dial {
    type V = DialView;

    open spec fn view(&self) -> DialView {
        DialView {
            url: self.url@,
            authorization: text::optional(self.authorization),
            timeout: self.timeout.span(),
        }
    }
}

/// What to dial for a URL and a bearer token, given why the URL is refused: an
/// empty token makes no header.
pub open spec fn dialled(
    url: Seq<char>,
    refusal: Option<Seq<char>>,
    bearer: Seq<char>,
    timeout: nat,
) -> Result<DialView, ErrorView> {
    match refusal {
        Some(reason) => Err(ErrorView::Connection(reason)),
        None => if bearer.len() == 0 {
            Ok(DialView { url, authorization: None, timeout })
        } else if is_header_value("Bearer "@ + bearer) {
            Ok(DialView { url, authorization: Some("Bearer "@ + bearer), timeout })
        } else {
            Err(ErrorView::Connection("failed to parse header value"@))
        },
    }
}

/// What an attempt to dial says.
pub open spec fn dial_view(r: Result<Dial, TunnelError>) -> Result<DialView, ErrorView> {
    match r {
        Ok(d) => Ok(d@),
        Err(e) => Err(e@),
    }
}

/// What to dial for a URL whose refusal is known.
pub fn dial(url: &str, refusal: Option<String>, bearer: &str, timeout: Interval) -> (r: Result<
    Dial,
    TunnelError,
>)
    ensures
        dial_view(r) == dialled(url@, text::optional(refusal), bearer@, timeout.span()),
{
    match refusal {
        Some(reason) => Err(TunnelError::Connection(reason)),
        None => {
            if text::same(bearer, "") {
                proof {
                    reveal_strlit("");
                }
                Ok(Dial { url: url.to_owned(), authorization: None, timeout })
            } else {
                proof {
                    reveal_strlit("");
                    assert(bearer@.len() == 0 ==> bearer@ =~= ""@);
                }
                let value = joined("Bearer ", bearer);
                match refuse_header(value.as_str()) {
                    Some(reason) => Err(TunnelError::Connection(reason)),
                    None => Ok(Dial { url: url.to_owned(), authorization: Some(value), timeout }),
                }
            }
        },
    }
}

/// What to dial for the WebSocket relay.
pub fn ws_connect(config: &TransportConfig) -> (r: Result<Dial, TunnelError>)
    ensures
        dial_view(r) == dialled(
            config.url@,
            url_refusal(config.url@),
            config.auth_bearer@,
            config.connect_timeout.span(),
        ),
{
    let refusal = refuse_url(config.url.as_str());
    dial(config.url.as_str(), refusal, config.auth_bearer.as_str(), config.connect_timeout)
}

/// What to dial for a URL without a token, with its refusal looked up.
pub fn plain_dial(url: &str, timeout: Interval) -> (r: Result<Dial, TunnelError>)
    ensures
        dial_view(r) == dialled(url@, url_refusal(url@), Seq::empty(), timeout.span()),
{
    proof {
        reveal_strlit("");
        assert(""@ =~= Seq::<char>::empty());
    }
    let refusal = refuse_url(url);
    dial(url, refusal, "", timeout)
}

/// How the attempt to open a WebSocket ended.
pub enum DialOutcome {
    Open,
    TimedOut,
    Failed(String),
}

/// The error of an attempt that did not open a WebSocket.
pub open spec fn dial_failure(o: DialOutcome) -> Option<ErrorView> {
    match o {
        DialOutcome::Open => None,
        DialOutcome::TimedOut => Some(ErrorView::Connection("connect timeout"@)),
        DialOutcome::Failed(reason) => Some(ErrorView::Connection(reason@)),
    }
}

/// Decides whether an attempt opened a WebSocket.
pub fn dial_result(o: DialOutcome) -> (r: Result<(), TunnelError>)
    ensures
        tunnel::outcome(r) == (match dial_failure(o) {
            None => Ok(()),
            Some(e) => Err(e),
        }),
{
    match o {
        DialOutcome::Open => Ok(()),
        DialOutcome::TimedOut => Err(TunnelError::connection("connect timeout")),
        DialOutcome::Failed(reason) => Err(TunnelError::Connection(reason)),
    }
}

/// What was sent over the WebSocket.
#[derive(Debug, Clone, Copy, PartialEq, Eq, Structural)]
pub enum Purpose {
    /// A frame, or the answer to one.
    Traffic,
    /// The ping of a heartbeat.
    Heartbeat,
}

/// What has happened on a connection.
pub enum TransportEvent {
    /// The shutdown signal has changed, to this.
    Shutdown(bool),
    /// There is a frame for the cloud.
    Outgoing(Frame),
    /// The cloud has sent a text message.
    Text(String),
    /// The cloud has sent a WebSocket ping with this data.
    WsPing(Vec<u8>),
    /// The cloud has closed the WebSocket, or it has ended.
    Closed,
    /// The cloud has sent a message of another kind.
    OtherMessage,
    /// Reading the WebSocket has failed, for this reason.
    ReadFailed(String),
    /// It is time for a heartbeat.
    Tick,
    /// What was to be sent has been sent.
    Sent,
    /// What was to be sent for this purpose could not be, for this reason.
    SendFailed(Purpose, String),
    /// A frame has been handed to the receiver, or there is none any more.
    Forwarded(bool),
}

/// What to do next on a connection.
pub enum TransportAction {
    /// Wait for the next event.
    Wait,
    /// Send a text message.
    SendText(Purpose, String),
    /// Send a WebSocket pong with this data.
    SendPong(Vec<u8>),
    /// Hand a frame to the receiver.
    Forward(Frame),
    /// Close the WebSocket and end without error.
    Close,
    /// End.
    End(Result<(), TunnelError>),
}

/// What a [`TransportEvent`] says.
pub enum EventOf {
    Shutdown(bool),
    Outgoing(FrameView),
    Text(Seq<char>),
    WsPing(Seq<u8>),
    Closed,
    OtherMessage,
    ReadFailed(Seq<char>),
    Tick,
    Sent,
    SendFailed(Purpose, Seq<char>),
    Forwarded(bool),
}

/// What a [`TransportAction`] says.
pub enum ActionOf {
    Wait,
    SendText(Purpose, Seq<char>),
    SendPong(Seq<u8>),
    Forward(FrameView),
    Close,
    End(Result<(), ErrorView>),
}

impl View for TransportEvent {
    type V = EventOf;

    open spec fn view(&self) -> EventOf {
        match *self {
            TransportEvent::Shutdown(b) => EventOf::Shutdown(b),
            TransportEvent::Outgoing(f) => EventOf::Outgoing(f@),
            TransportEvent::Text(s) => EventOf::Text(s@),
            TransportEvent::WsPing(d) => EventOf::WsPing(d@),
            TransportEvent::Closed => EventOf::Closed,
            TransportEvent::OtherMessage => EventOf::OtherMessage,
            TransportEvent::ReadFailed(s) => EventOf::ReadFailed(s@),
            TransportEvent::Tick => EventOf::Tick,
            TransportEvent::Sent => EventOf::Sent,
            TransportEvent::SendFailed(p, s) => EventOf::SendFailed(p, s@),
            TransportEvent::Forwarded(b) => EventOf::Forwarded(b),
        }
    }
}

impl View for TransportAction {
    type V = ActionOf;

    open spec fn view(&self) -> ActionOf {
        match *self {
            TransportAction::Wait => ActionOf::Wait,
            TransportAction::SendText(p, s) => ActionOf::SendText(p, s@),
            TransportAction::SendPong(d) => ActionOf::SendPong(d@),
            TransportAction::Forward(f) => ActionOf::Forward(f@),
            TransportAction::Close => ActionOf::Close,
            TransportAction::End(r) => ActionOf::End(tunnel::outcome(r)),
        }
    }
}

/// What to do about a text message from the cloud, given the frame that it
/// holds: a ping is answered by a pong, a pong and what is no frame are
/// ignored, every other frame goes to the receiver.
pub open spec fn on_frame(f: Option<FrameView>) -> ActionOf {
    match f {
        Some(FrameView::Ping) => ActionOf::SendText(
            Purpose::Traffic,
            protocol::frame_text(FrameView::Pong),
        ),
        Some(FrameView::Pong) => ActionOf::Wait,
        Some(f) => ActionOf::Forward(f),
        None => ActionOf::Wait,
    }
}

/// What to do about an event of a connection.
pub open spec fn on_event(e: EventOf) -> ActionOf {
    match e {
        EventOf::Shutdown(stop) => if stop {
            ActionOf::Close
        } else {
            ActionOf::Wait
        },
        EventOf::Outgoing(f) => ActionOf::SendText(Purpose::Traffic, protocol::frame_text(f)),
        EventOf::Text(s) => on_frame(protocol::frame_of_text(s)),
        EventOf::WsPing(d) => ActionOf::SendPong(d),
        EventOf::Closed => ActionOf::End(Err(ErrorView::Connection("websocket closed"@))),
        EventOf::OtherMessage => ActionOf::Wait,
        EventOf::ReadFailed(s) => ActionOf::End(Err(ErrorView::Connection(s))),
        EventOf::Tick => ActionOf::SendText(Purpose::Heartbeat, protocol::frame_text(FrameView::Ping)),
        EventOf::Sent => ActionOf::Wait,
        EventOf::SendFailed(Purpose::Traffic, s) => ActionOf::End(Err(ErrorView::Connection(s))),
        EventOf::SendFailed(Purpose::Heartbeat, _) => ActionOf::End(
            Err(ErrorView::Connection("heartbeat send failed"@)),
        ),
        EventOf::Forwarded(taken) => if taken {
            ActionOf::Wait
        } else {
            ActionOf::End(Ok(()))
        },
    }
}

/// The connection is closed by this end if and only if it is told to shut down,
/// and ends without error otherwise if and only if nobody receives any more.
pub proof fn clean_ends(e: EventOf)
    ensures
        on_event(e) is Close <==> e == EventOf::Shutdown(true),
        on_event(e) == ActionOf::End(Ok(())) <==> e == EventOf::Forwarded(false),
{
}

/// Every frame from the cloud that is no heartbeat reaches the receiver, and
/// nothing else does.
pub proof fn frames_are_forwarded(e: EventOf, f: FrameView)
    ensures
        on_event(e) == ActionOf::Forward(f) <==> (e matches EventOf::Text(s)
            && protocol::frame_of_text(s) == Some(f) && !(f is Ping) && !(f is Pong)),
{
}

/// What to do about a frame that has come from the cloud.
pub fn receive(f: Option<Frame>) -> (r: TransportAction)
    ensures
        r@ == on_frame(protocol::seen_frame(f)),
        f matches Some(Frame::Ping) ==> protocol::frame_of_text(r@->SendText_1) == Some(
            FrameView::Pong,
        ),
{
    proof {
        protocol::heartbeats_are_plain();
    }
    match f {
        Some(Frame::Ping) => TransportAction::SendText(Purpose::Traffic, Frame::Pong.to_json()),
        Some(Frame::Pong) => TransportAction::Wait,
        Some(f) => TransportAction::Forward(f),
        None => TransportAction::Wait,
    }
}

/// One turn of the WebSocket transport loop, which forwards frames between the
/// tunnel channels and the WebSocket connection.
///
/// What one end sends the other takes for the same frame, where its document
/// has no fraction and is not nested too deep; so a heartbeat is answered, and
/// the answer to it is taken for one.
pub fn run_transport(event: TransportEvent) -> (r: TransportAction)
    ensures
        r@ == on_event(event@),
        event@ matches EventOf::Outgoing(f) ==> protocol::is_canonical(f) && json::is_plain(
            protocol::frame_json(f),
            json::deepest(),
        ) ==> on_event(EventOf::Text(r@->SendText_1)) == on_frame(Some(f)),
        event@ is Tick ==> on_event(EventOf::Text(r@->SendText_1)) == on_frame(
            Some(FrameView::Ping),
        ),
        event@ matches EventOf::Text(s) ==> protocol::frame_of_text(s) == Some(FrameView::Ping)
            ==> on_event(EventOf::Text(r@->SendText_1)) == ActionOf::Wait,
{
    proof {
        protocol::heartbeats_are_plain();
    }
    match event {
        TransportEvent::Shutdown(stop) => if stop {
            TransportAction::Close
        } else {
            TransportAction::Wait
        },
        TransportEvent::Outgoing(f) => TransportAction::SendText(Purpose::Traffic, f.to_json()),
        TransportEvent::Text(s) => receive(Frame::from_json(s.as_str())),
        TransportEvent::WsPing(d) => TransportAction::SendPong(d),
        TransportEvent::Closed => TransportAction::End(
            Err(TunnelError::connection("websocket closed")),
        ),
        TransportEvent::OtherMessage => TransportAction::Wait,
        TransportEvent::ReadFailed(s) => TransportAction::End(Err(TunnelError::Connection(s))),
        TransportEvent::Tick => TransportAction::SendText(
            Purpose::Heartbeat,
            Frame::Ping.to_json(),
        ),
        TransportEvent::Sent => TransportAction::Wait,
        TransportEvent::SendFailed(Purpose::Traffic, s) => TransportAction::End(
            Err(TunnelError::Connection(s)),
        ),
        TransportEvent::SendFailed(Purpose::Heartbeat, _) => TransportAction::End(
            Err(TunnelError::connection("heartbeat send failed")),
        ),
        TransportEvent::Forwarded(taken) => if taken {
            TransportAction::Wait
        } else {
            TransportAction::End(Ok(()))
        },
    }
}

/// What has happened between two connections.
pub enum ReconnectEvent {
    /// The loop begins; this is the shutdown signal.
    Begin(bool),
    /// A connection has ended.
    Ended(Result<(), TunnelError>),
    /// The pause is over; this is the shutdown signal now.
    Rested(bool),
    /// The shutdown signal has changed during the pause, to this.
    Signalled(bool),
}

/// What to do between two connections.
#[derive(Debug, Clone, Copy, PartialEq, Eq, Structural)]
pub enum ReconnectAction {
    /// Open a connection and run it.
    Connect,
    /// Pause this long, or until the shutdown signal changes.
    Pause(Interval),
    /// Stop for good.
    Stop,
}

/// What to do between two connections, given how long the next pause is.
pub open spec fn on_reconnect(e: ReconnectEvent, backoff: Interval) -> ReconnectAction {
    match e {
        ReconnectEvent::Begin(stop) => if stop {
            ReconnectAction::Stop
        } else {
            ReconnectAction::Connect
        },
        ReconnectEvent::Ended(Ok(())) => ReconnectAction::Stop,
        ReconnectEvent::Ended(Err(_)) => ReconnectAction::Pause(backoff),
        ReconnectEvent::Rested(stop) => if stop {
            ReconnectAction::Stop
        } else {
            ReconnectAction::Connect
        },
        ReconnectEvent::Signalled(stop) => if stop {
            ReconnectAction::Stop
        } else {
            ReconnectAction::Connect
        },
    }
}

/// Whether an event ends a pause after which the loop goes on.
pub open spec fn ends_pause(e: ReconnectEvent) -> bool {
    e is Rested || e == ReconnectEvent::Signalled(false)
}

/// The pause that follows a pause, in nanoseconds: twice as long, up to a limit.
pub open spec fn next_backoff(backoff: nat, max: nat) -> nat {
    if 2 * backoff <= max {
        2 * backoff
    } else {
        max
    }
}

/// One turn of the reconnection loop (exponential backoff). `backoff` is the
/// pause before the next attempt, which the configuration gives at first.
pub fn run_with_reconnect(
    config: &TransportConfig,
    backoff: &mut Interval,
    event: ReconnectEvent,
) -> (r: ReconnectAction)
    requires
        ends_pause(event) ==> 2 * old(backoff).span() <= timing::longest(),
    ensures
        r == on_reconnect(event, *old(backoff)),
        ends_pause(event) ==> final(backoff).span() == next_backoff(
            old(backoff).span(),
            config.max_backoff.span(),
        ),
        !ends_pause(event) ==> *final(backoff) == *old(backoff),
{
    match event {
        ReconnectEvent::Begin(stop) => if stop {
            ReconnectAction::Stop
        } else {
            ReconnectAction::Connect
        },
        ReconnectEvent::Ended(outcome) => match outcome {
            Ok(()) => ReconnectAction::Stop,
            Err(_) => ReconnectAction::Pause(*backoff),
        },
        ReconnectEvent::Rested(stop) => {
            lengthen(config, backoff);
            if stop {
                ReconnectAction::Stop
            } else {
                ReconnectAction::Connect
            }
        },
        ReconnectEvent::Signalled(stop) => if stop {
            ReconnectAction::Stop
        } else {
            lengthen(config, backoff);
            ReconnectAction::Connect
        },
    }
}

fn lengthen(config: &TransportConfig, backoff: &mut Interval)
    requires
        2 * old(backoff).span() <= timing::longest(),
    ensures
        final(backoff).span() == next_backoff(old(backoff).span(), config.max_backoff.span()),
{
    match backoff.doubled() {
        Some(longer) => {
            *backoff = longer.shorter(config.max_backoff);
        },
        None => {},
    }
}

/// A connection that fails is followed by a pause and then by another one,
/// unless the tunnel is told to shut down; one that ends without error is the
/// last, and so is none where it is told to shut down at first.
pub proof fn failures_are_retried(e: TunnelError, stop: bool, backoff: Interval)
    ensures
        on_reconnect(ReconnectEvent::Ended(Err(e)), backoff) == ReconnectAction::Pause(backoff),
        on_reconnect(ReconnectEvent::Ended(Ok(())), backoff) == ReconnectAction::Stop,
        on_reconnect(ReconnectEvent::Begin(stop), backoff) == ReconnectAction::Stop <==> stop,
        on_reconnect(ReconnectEvent::Rested(stop), backoff) == ReconnectAction::Connect <==> !stop,
        on_reconnect(ReconnectEvent::Signalled(stop), backoff) == ReconnectAction::Connect
            <==> !stop,
{
}

/// The pause after `n` pauses, in nanoseconds.
pub open spec fn backoff_after(initial: nat, max: nat, n: nat) -> nat
    decreases n,
{
    if n == 0 {
        initial
    } else {
        next_backoff(backoff_after(initial, max, (n - 1) as nat), max)
    }
}

/// The pauses grow exponentially: after `n` pauses, of which there is at least
/// one, the next is the first one doubled `n` times, or the limit where that
/// is shorter.
pub proof fn backoff_is_exponential(initial: nat, max: nat, n: nat)
    requires
        n > 0,
    ensures
        backoff_after(initial, max, n) == if initial * vstd::arithmetic::power2::pow2(n) <= max {
            initial * vstd::arithmetic::power2::pow2(n)
        } else {
            max
        },
    decreases n,
{
    let m = (n - 1) as nat;
    vstd::arithmetic::power2::lemma_pow2_unfold(n);
    let p = vstd::arithmetic::power2::pow2(m);
    assert(initial * vstd::arithmetic::power2::pow2(n) == 2 * (initial * p)) by (nonlinear_arith)
        requires
            vstd::arithmetic::power2::pow2(n) == 2 * p,
    ;
    reveal_with_fuel(backoff_after, 2);
    if m == 0 {
        vstd::arithmetic::power2::lemma2_to64();
        assert(initial * p == initial) by (nonlinear_arith)
            requires
                p == 1,
        ;
    } else {
        backoff_is_exponential(initial, max, m);
    }
}

/// No pause is longer than the limit, but for the first where that is longer itself.
pub proof fn backoff_is_bounded(initial: nat, max: nat, n: nat)
    ensures
        backoff_after(initial, max, n) <= if n == 0 {
            initial
        } else {
            max
        },
{
}

/// Where neither the first pause nor the limit is longer than half of the
/// longest span, every pause can be doubled.
pub proof fn backoff_can_be_doubled(initial: nat, max: nat, n: nat)
    requires
        2 * initial <= timing::longest(),
        2 * max <= timing::longest(),
    ensures
        2 * backoff_after(initial, max, n) <= timing::longest(),
{
    backoff_is_bounded(initial, max, n);
}

/// A header value is refused for a control character that is no tab, and for
/// nothing else.
pub proof fn header_values_are_printable(s: Seq<char>)
    ensures
        is_header_value(s) <==> !exists|i: int|
            0 <= i < s.len() && ((#[trigger] s[i] as int) < 32 && s[i] as int != 9 || s[i] as int
                == 127),
{
    if is_header_value(s) {
        assert forall|i: int| 0 <= i < s.len() implies !((#[trigger] s[i] as int) < 32
            && s[i] as int != 9 || s[i] as int == 127) by {}
    }
    if !exists|i: int|
        0 <= i < s.len() && ((#[trigger] s[i] as int) < 32 && s[i] as int != 9 || s[i] as int
            == 127) {
        assert forall|i: int| 0 <= i < s.len() implies (#[trigger] s[i] == '\t' || (s[i] >= ' '
            && s[i] != '\u{7f}')) by {
            assert(!((s[i] as int) < 32 && s[i] as int != 9 || s[i] as int == 127));
        }
    }
}

/// The relay is dialled if and only if its URL is not refused and the token can
/// stand in a header; then the URL and the limit are the given ones, and the
/// request bears the token if there is one. Whatever prevents that is told.
pub proof fn relay_is_dialled(
    url: Seq<char>,
    refusal: Option<Seq<char>>,
    bearer: Seq<char>,
    timeout: nat,
)
    ensures
        dialled(url, refusal, bearer, timeout) is Ok <==> refusal is None && (bearer.len() == 0
            || is_header_value("Bearer "@ + bearer)),
        dialled(url, refusal, bearer, timeout) matches Ok(d) ==> {
            &&& d.url == url
            &&& d.timeout == timeout
            &&& bearer.len() == 0 ==> d.authorization is None
            &&& bearer.len() > 0 ==> d.authorization == Some("Bearer "@ + bearer)
        },
        refusal matches Some(reason) ==> dialled(url, refusal, bearer, timeout) == Err::<
            DialView,
            ErrorView,
        >(ErrorView::Connection(reason)),
        refusal is None && dialled(url, refusal, bearer, timeout) is Err ==> dialled(
            url,
            refusal,
            bearer,
            timeout,
        ) == Err::<DialView, ErrorView>(ErrorView::Connection("failed to parse header value"@)),
{
}

/// Different tokens are sent as different headers.
pub proof fn tokens_are_told_apart(url: Seq<char>, a: Seq<char>, b: Seq<char>, timeout: nat)
    requires
        dialled(url, None, a, timeout) is Ok,
        dialled(url, None, a, timeout) == dialled(url, None, b, timeout),
    ensures
        a == b,
{
    let n = "Bearer "@.len() as int;
    if a.len() > 0 && b.len() > 0 {
        assert(("Bearer "@ + a).skip(n) =~= a);
        assert(("Bearer "@ + b).skip(n) =~= b);
    } else {
        assert(a =~= b);
    }
}

/// What is to be dialled says what its fields hold.
pub proof fn dials_say_their_fields(d: Dial)
    ensures
        d@.url == d.url@,
        d@.authorization == text::optional(d.authorization),
        d@.timeout == d.timeout.span(),
        dial_view(Ok(d)) == Ok::<DialView, ErrorView>(d@),
{
}

/// An attempt that opens a WebSocket has no error; one that takes too long says
/// so, and any other gives its reason.
pub proof fn failed_dials_are_told(reason: String)
    ensures
        dial_failure(DialOutcome::Open) is None,
        dial_failure(DialOutcome::TimedOut) == Some(ErrorView::Connection("connect timeout"@)),
        dial_failure(DialOutcome::Failed(reason)) == Some(ErrorView::Connection(reason@)),
{
}

/// What goes over a connection: frames go out as their texts, pings of either
/// kind are answered, heartbeats are sent, and a connection that fails says
/// why.
pub proof fn events_are_handled(e: EventOf)
    ensures
        e matches EventOf::Outgoing(f) ==> on_event(e) == ActionOf::SendText(
            Purpose::Traffic,
            json::text_of_members(protocol::frame_members(f)),
        ),
        e is Tick ==> on_event(e) == ActionOf::SendText(
            Purpose::Heartbeat,
            json::text_of_members(protocol::frame_members(FrameView::Ping)),
        ),
        e matches EventOf::WsPing(d) ==> on_event(e) == ActionOf::SendPong(d),
        e matches EventOf::Text(s) ==> {
            let f = protocol::frame_in(json::json_of_text(s), crate::members::listing(s));
            &&& f == Some(FrameView::Ping) ==> on_event(e) == ActionOf::SendText(
                Purpose::Traffic,
                json::text_of_members(protocol::frame_members(FrameView::Pong)),
            )
            &&& f == Some(FrameView::Pong) || f is None ==> on_event(e) is Wait
            &&& f is Some && f != Some(FrameView::Ping) && f != Some(FrameView::Pong) ==> on_event(
                e,
            ) == ActionOf::Forward(f->0)
        },
        e is Closed ==> on_event(e) == ActionOf::End(
            Err(ErrorView::Connection("websocket closed"@)),
        ),
        e matches EventOf::ReadFailed(s) ==> on_event(e) == ActionOf::End(
            Err(ErrorView::Connection(s)),
        ),
        e matches EventOf::SendFailed(Purpose::Traffic, s) ==> on_event(e) == ActionOf::End(
            Err(ErrorView::Connection(s)),
        ),
        e matches EventOf::SendFailed(Purpose::Heartbeat, s) ==> on_event(e) == ActionOf::End(
            Err(ErrorView::Connection("heartbeat send failed"@)),
        ),
        e is OtherMessage || e is Sent || e == EventOf::Shutdown(false) || e
            == EventOf::Forwarded(true) ==> on_event(e) is Wait,
        on_event(e) is Close <==> e == EventOf::Shutdown(true),
        on_event(e) == ActionOf::End(Ok(())) <==> e == EventOf::Forwarded(false),
{
}

/// A frame that has come is forwarded unless it is a heartbeat.
pub proof fn frames_are_received(f: FrameView)
    ensures
        on_frame(None) is Wait,
        f is Pong ==> on_frame(Some(f)) is Wait,
        f is Ping ==> on_frame(Some(f)) == ActionOf::SendText(
            Purpose::Traffic,
            json::text_of_members(protocol::frame_members(FrameView::Pong)),
        ),
        !(f is Ping) && !(f is Pong) ==> on_frame(Some(f)) == ActionOf::Forward(f),
{
}

/// Between two connections: a shutdown stops the loop whenever it is told,
/// nothing else does but a connection that ended well, and only a failure makes
/// it pause.
pub proof fn reconnection_is_decided(e: ReconnectEvent, backoff: Interval)
    ensures
        on_reconnect(e, backoff) == ReconnectAction::Stop <==> e == ReconnectEvent::Begin(true)
            || e == ReconnectEvent::Rested(true) || e == ReconnectEvent::Signalled(true) || (e
            matches ReconnectEvent::Ended(r) && r is Ok),
        on_reconnect(e, backoff) is Pause <==> (e matches ReconnectEvent::Ended(r) && r is Err),
        on_reconnect(e, backoff) matches ReconnectAction::Pause(p) ==> p == backoff,
        on_reconnect(e, backoff) == ReconnectAction::Connect <==> e == ReconnectEvent::Begin(false)
            || e == ReconnectEvent::Rested(false) || e == ReconnectEvent::Signalled(false),
        ends_pause(e) <==> e == ReconnectEvent::Rested(true) || e == ReconnectEvent::Rested(false)
            || e == ReconnectEvent::Signalled(false),
{
}

/// A pause is followed by one that is twice as long, but never longer than the
/// limit.
pub proof fn pauses_double(backoff: nat, max: nat)
    ensures
        next_backoff(backoff, max) <= max,
        next_backoff(backoff, max) <= 2 * backoff,
        next_backoff(backoff, max) == 2 * backoff || next_backoff(backoff, max) == max,
{
}

/// Where nothing else is configured, the first pause is a second and none
/// longer than a minute; there is a heartbeat every half minute, and ten
/// seconds to connect.
pub proof fn usual_transport(r: TransportConfig)
    requires
        call_ensures(TransportConfig::default, (), r),
    ensures
        r.url@.len() == 0 && r.auth_bearer@.len() == 0,
        r.initial_backoff.span() == 1_000_000_000,
        r.max_backoff.span() == 60_000_000_000,
        r.heartbeat_interval.span() == 30_000_000_000,
        r.connect_timeout.span() == 10_000_000_000,
{
}

/// What is dialled for a URL and a token that is not refused.
pub proof fn given_url_is_dialled(
    url: &str,
    refusal: Option<String>,
    bearer: &str,
    timeout: Interval,
    r: Result<Dial, TunnelError>,
)
    requires
        call_ensures(dial, (url, refusal, bearer, timeout), r),
    ensures
        r is Ok <==> refusal is None && (bearer@.len() == 0 || is_header_value(
            "Bearer "@ + bearer@,
        )),
        r matches Ok(d) ==> {
            &&& d.url@ == url@
            &&& d.timeout.span() == timeout.span()
            &&& d.authorization is Some <==> bearer@.len() > 0
            &&& d.authorization matches Some(h) ==> h@ == "Bearer "@ + bearer@
        },
        r matches Err(e) ==> (e matches TunnelError::Connection(why) && why@ == (match refusal {
            Some(reason) => reason@,
            None => "failed to parse header value"@,
        })),
{
    relay_is_dialled(url@, text::optional(refusal), bearer@, timeout.span());
}

/// A configured transport dials its own URL with its own token, and may take as
/// long as it is configured to.
pub proof fn configured_url_is_dialled(config: &TransportConfig, r: Result<Dial, TunnelError>)
    requires
        call_ensures(ws_connect, (config,), r),
    ensures
        r is Ok <==> url_refusal(config.url@) is None && (config.auth_bearer@.len() == 0
            || is_header_value("Bearer "@ + config.auth_bearer@)),
        r matches Ok(d) ==> {
            &&& d.url@ == config.url@
            &&& d.timeout.span() == config.connect_timeout.span()
            &&& d.authorization is Some <==> config.auth_bearer@.len() > 0
            &&& d.authorization matches Some(h) ==> h@ == "Bearer "@ + config.auth_bearer@
        },
        r matches Err(e) ==> (e matches TunnelError::Connection(why) && why@ == (match url_refusal(
            config.url@,
        ) {
            Some(reason) => reason,
            None => "failed to parse header value"@,
        })),
{
}

/// Without a token a URL is dialled without a header.
pub proof fn plain_url_is_dialled(url: &str, timeout: Interval, r: Result<Dial, TunnelError>)
    requires
        call_ensures(plain_dial, (url, timeout), r),
    ensures
        r matches Ok(d) ==> d.url@ == url@ && d.authorization is None && d.timeout.span()
            == timeout.span(),
        r matches Err(e) ==> (e matches TunnelError::Connection(why) && url_refusal(url@) == Some(
            why@,
        )),
        r is Ok <==> url_refusal(url@) is None,
{
}

/// How an attempt to open a WebSocket ended is told as it was.
pub proof fn ends_of_dials_are_told(o: DialOutcome, r: Result<(), TunnelError>)
    requires
        call_ensures(dial_result, (o,), r),
    ensures
        r is Ok <==> o is Open,
        o is TimedOut ==> (r matches Err(TunnelError::Connection(why)) && why@
            == "connect timeout"@),
        o matches DialOutcome::Failed(reason) ==> (r matches Err(TunnelError::Connection(why))
            && why@ == reason@),
{
}

/// A frame that has come is handed on as it is, unless it is a heartbeat.
pub proof fn received_frames_are_forwarded(f: Option<Frame>, r: TransportAction)
    requires
        call_ensures(receive, (f,), r),
    ensures
        f is None || f == Some(Frame::Pong) ==> r is Wait,
        f matches Some(Frame::Ping) ==> (r matches TransportAction::SendText(p, s) && p is Traffic
            && protocol::frame_of_text(s@) == Some(FrameView::Pong)),
        f matches Some(g) ==> !(g is Ping) && !(g is Pong) ==> (r matches TransportAction::Forward(
            h,
        ) && h@ == g@),
{
}

/// What is done about each event of a connection.
pub proof fn connections_are_run(event: TransportEvent, r: TransportAction)
    requires
        call_ensures(run_transport, (event,), r),
    ensures
        event matches TransportEvent::Shutdown(stop) ==> (stop ==> r is Close) && (!stop ==> r
            is Wait),
        event matches TransportEvent::Outgoing(f) ==> (r matches TransportAction::SendText(p, s)
            && p is Traffic && s@ == json::text_of_members(protocol::frame_members(f@))),
        event matches TransportEvent::Text(s) ==> ({
            let f = protocol::frame_in(json::json_of_text(s@), crate::members::listing(s@));
            &&& f is None || f == Some(FrameView::Pong) ==> r is Wait
            &&& f == Some(FrameView::Ping) ==> (r matches TransportAction::SendText(p, t)
                && p is Traffic && t@ == json::text_of_members(
                protocol::frame_members(FrameView::Pong),
            ))
            &&& f matches Some(g) ==> !(g is Ping) && !(g is Pong) ==> (r
                matches TransportAction::Forward(h) && h@ == g)
        }),
        event matches TransportEvent::WsPing(d) ==> (r matches TransportAction::SendPong(e) && e@
            == d@),
        event is Closed ==> (r matches TransportAction::End(Err(TunnelError::Connection(why)))
            && why@ == "websocket closed"@),
        event is OtherMessage || event is Sent ==> r is Wait,
        event matches TransportEvent::ReadFailed(reason) ==> (r matches TransportAction::End(
            Err(TunnelError::Connection(why)),
        ) && why@ == reason@),
        event is Tick ==> (r matches TransportAction::SendText(p, s) && p is Heartbeat && s@
            == json::text_of_members(protocol::frame_members(FrameView::Ping))),
        event matches TransportEvent::SendFailed(p, reason) ==> (r matches TransportAction::End(
            Err(TunnelError::Connection(why)),
        ) && (p is Traffic ==> why@ == reason@) && (p is Heartbeat ==> why@
            == "heartbeat send failed"@)),
        event matches TransportEvent::Forwarded(taken) ==> (taken ==> r is Wait) && (!taken ==> (r
            matches TransportAction::End(o) && o is Ok)),
{
    events_are_handled(event@);
}

/// What is done between two connections, and how the pause grows.
pub proof fn reconnection_is_run(
    config: &TransportConfig,
    backoff: &mut Interval,
    event: ReconnectEvent,
    r: ReconnectAction,
)
    requires
        call_ensures(run_with_reconnect, (config, backoff, event), r),
    ensures
        event matches ReconnectEvent::Begin(stop) ==> r == (if stop {
            ReconnectAction::Stop
        } else {
            ReconnectAction::Connect
        }) && *final(backoff) == *old(backoff),
        event matches ReconnectEvent::Ended(o) ==> r == (if o is Ok {
            ReconnectAction::Stop
        } else {
            ReconnectAction::Pause(*old(backoff))
        }) && *final(backoff) == *old(backoff),
        event matches ReconnectEvent::Rested(stop) ==> r == (if stop {
            ReconnectAction::Stop
        } else {
            ReconnectAction::Connect
        }),
        event matches ReconnectEvent::Signalled(stop) ==> r == (if stop {
            ReconnectAction::Stop
        } else {
            ReconnectAction::Connect
        }),
        event == ReconnectEvent::Signalled(true) ==> *final(backoff) == *old(backoff),
        event is Rested || event == ReconnectEvent::Signalled(false) ==> {
            &&& final(backoff).span() <= config.max_backoff.span()
            &&& final(backoff).span() <= old(backoff).span() + old(backoff).span()
            &&& final(backoff).span() == config.max_backoff.span() || final(backoff).span()
                == old(backoff).span() + old(backoff).span()
        },
{
    pauses_double(old(backoff).span(), config.max_backoff.span());
}

} // verus!
