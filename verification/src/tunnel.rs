//! The tunnel itself: its errors, its configuration, and what an instance says
//! to the cloud and hears from it.

use crate::auth::AuthToken;
use crate::ident;
use crate::ident::fresh_id;
use crate::json;
use crate::json::{Json, JsonValue};
use crate::protocol;
use crate::protocol::{
    AppKind, EventPayload, EventView, Frame, FrameView, RegisterPayload, RegisterView,
    ResponsePayload, ResponseView,
};
use crate::text;
use crate::text::{copied, copied_option, joined};
use crate::timing;
use crate::timing::Interval;
use crate::transport::TransportConfig;
use vstd::prelude::*;

verus! {

/// Errors that can occur in the tunnel.
#[derive(Debug)]
pub enum TunnelError {
    Connection(String),
    Protocol(String),
    Auth(String),
    Discovery(String),
    ChannelClosed,
    Timeout,
}

/// What a [`TunnelError`] says.
pub enum ErrorView {
    Connection(Seq<char>),
    Protocol(Seq<char>),
    Auth(Seq<char>),
    Discovery(Seq<char>),
    ChannelClosed,
    Timeout,
}

impl View for TunnelError {
    type V = ErrorView;

    open spec fn view(&self) -> ErrorView {
        match *self {
            TunnelError::Connection(s) => ErrorView::Connection(s@),
            TunnelError::Protocol(s) => ErrorView::Protocol(s@),
            TunnelError::Auth(s) => ErrorView::Auth(s@),
            TunnelError::Discovery(s) => ErrorView::Discovery(s@),
            TunnelError::ChannelClosed => ErrorView::ChannelClosed,
            TunnelError::Timeout => ErrorView::Timeout,
        }
    }
}

/// How an error reads.
pub open spec fn error_text(e: ErrorView) -> Seq<char> {
    match e {
        ErrorView::Connection(s) => "connection error: "@ + s,
        ErrorView::Protocol(s) => "protocol error: "@ + s,
        ErrorView::Auth(s) => "auth error: "@ + s,
        ErrorView::Discovery(s) => "discovery error: "@ + s,
        ErrorView::ChannelClosed => "channel closed"@,
        ErrorView::Timeout => "timeout"@,
    }
}

impl TunnelError {
    /// A connection error.
    pub fn connection(reason: &str) -> (r: TunnelError)
        ensures
            r@ == ErrorView::Connection(reason@),
    {
        TunnelError::Connection(reason.to_owned())
    }

    /// How the error reads.
    pub fn to_string(&self) -> (r: String)
        ensures
            r@ == error_text(self@),
    {
        match self {
            TunnelError::Connection(s) => joined("connection error: ", s.as_str()),
            TunnelError::Protocol(s) => joined("protocol error: ", s.as_str()),
            TunnelError::Auth(s) => joined("auth error: ", s.as_str()),
            TunnelError::Discovery(s) => joined("discovery error: ", s.as_str()),
            TunnelError::ChannelClosed => "channel closed".to_owned(),
            TunnelError::Timeout => "timeout".to_owned(),
        }
    }
}

/// The outcome of handing something to a channel: where nobody receives any
/// more, the channel is closed.
pub open spec fn handed_over(taken: bool) -> Result<(), ErrorView> {
    if taken {
        Ok(())
    } else {
        Err(ErrorView::ChannelClosed)
    }
}

/// What an outcome without a value says.
pub open spec fn outcome(r: Result<(), TunnelError>) -> Result<(), ErrorView> {
    match r {
        Ok(()) => Ok(()),
        Err(e) => Err(e@),
    }
}

/// The outcome of handing something to a channel.
pub fn sent(taken: bool) -> (r: Result<(), TunnelError>)
    ensures
        outcome(r) == handed_over(taken),
{
    if taken {
        Ok(())
    } else {
        Err(TunnelError::ChannelClosed)
    }
}

/// Configuration for connecting to the cloud relay.
#[derive(Debug, Clone)]
pub struct TunnelConfig {
    /// Cloud relay URL (default: wss://api.hanzo.ai/v1/relay).
    pub relay_url: String,
    /// Auth token (hanzo.id JWT or API key).
    pub auth_token: String,
    /// What kind of app this is.
    pub app_kind: AppKind,
    /// Display name (e.g., hostname, custom label).
    pub display_name: String,
    /// Capabilities this instance advertises.
    pub capabilities: Vec<String>,
    /// Commands this instance supports.
    pub commands: Vec<String>,
    /// Working directory (for dev/desktop).
    pub cwd: Option<String>,
    /// App version string.
    pub version: String,
    /// Channel buffer size.
    pub channel_size: usize,
}

impl Default for TunnelConfig {
    fn default() -> (r: TunnelConfig)
        ensures
            r.relay_url@ == "wss://api.hanzo.ai/v1/relay"@,
            r.auth_token@ == Seq::<char>::empty(),
            r.app_kind == AppKind::Dev,
            r.display_name@ == Seq::<char>::empty(),
            r.capabilities@ == Seq::<String>::empty(),
            r.commands@ == Seq::<String>::empty(),
            r.cwd is None,
            r.version@ == Seq::<char>::empty(),
            r.channel_size == 256,
    {
        TunnelConfig {
            relay_url: "wss://api.hanzo.ai/v1/relay".to_owned(),
            auth_token: String::new(),
            app_kind: AppKind::Dev,
            display_name: String::new(),
            capabilities: Vec::new(),
            commands: Vec::new(),
            cwd: None,
            version: String::new(),
            channel_size: 256,
        }
    }
}

/// A live tunnel connection.
#[derive(Debug)]
pub struct TunnelConnection {
    /// This instance's unique ID.
    pub instance_id: String,
}

/// The frame of an event.
pub open spec fn event_frame(event: Seq<char>, data: Json) -> FrameView {
    FrameView::Event(EventView { event, data })
}

/// The frame of a response to a command that went well.
pub open spec fn response_frame(command_id: Seq<char>, data: Option<Json>) -> FrameView {
    FrameView::Response(ResponseView { id: command_id, ok: true, data, error: None })
}

/// The frame of a response to a command that did not.
pub open spec fn error_frame(command_id: Seq<char>, error: Seq<char>) -> FrameView {
    FrameView::Response(
        ResponseView { id: command_id, ok: false, data: None, error: Some(error) },
    )
}

impl TunnelConnection {
    /// Send an event to the cloud.
    pub fn send_event(&self, event: &str, data: JsonValue) -> (r: Frame)
        ensures
            r@ == event_frame(event@, data@),
    {
        Frame::Event(EventPayload { event: event.to_owned(), data })
    }

    /// Send a response to a cloud command.
    pub fn respond(&self, command_id: &str, data: Option<JsonValue>) -> (r: Frame)
        ensures
            r@ == response_frame(command_id@, json::held(data)),
    {
        Frame::Response(
            ResponsePayload { id: command_id.to_owned(), ok: true, data, error: None },
        )
    }

    /// Send an error response to a cloud command.
    pub fn respond_error(&self, command_id: &str, error: &str) -> (r: Frame)
        ensures
            r@ == error_frame(command_id@, error@),
    {
        Frame::Response(
            ResponsePayload {
                id: command_id.to_owned(),
                ok: false,
                data: None,
                error: Some(error.to_owned()),
            },
        )
    }
}

/// The name of a platform: its operating system and its architecture.
pub open spec fn platform_name(os: Seq<char>, arch: Seq<char>) -> Seq<char> {
    os + "-"@ + arch
}

/// The name of a platform.
pub fn platform(os: &str, arch: &str) -> (r: String)
    ensures
        r@ == platform_name(os@, arch@),
{
    joined(joined(os, "-").as_str(), arch)
}

/// The frame by which an instance registers.
pub open spec fn register_frame(
    c: TunnelConfig,
    instance_id: Seq<char>,
    platform: Seq<char>,
) -> FrameView {
    FrameView::Register(
        RegisterView {
            instance_id,
            app_kind: c.app_kind,
            display_name: c.display_name@,
            capabilities: text::texts(c.capabilities@),
            version: c.version@,
            platform,
            cwd: text::optional(c.cwd),
            commands: text::texts(c.commands@),
            metadata: Json::Null,
        },
    )
}

/// The cloud reads the registration of every instance: its document is read
/// back from its text, and holds the frame.
pub proof fn registration_is_plain(
    c: TunnelConfig,
    instance_id: Seq<char>,
    platform: Seq<char>,
)
    ensures
        protocol::is_canonical(register_frame(c, instance_id, platform)),
        json::is_plain(
            protocol::frame_json(register_frame(c, instance_id, platform)),
            json::deepest(),
        ),
{
    let f = register_frame(c, instance_id, platform);
    let d = json::deepest();
    json::texts_are_plain(text::texts(c.capabilities@), (d - 1) as nat);
    json::texts_are_plain(text::texts(c.commands@), (d - 1) as nat);
    let m = protocol::frame_json(f)->Object_0;
    assert forall|k: Seq<char>| #[trigger] m.contains_key(k) implies json::is_plain(
        m[k],
        (d - 1) as nat,
    ) by {}
}

/// What it takes to connect to the cloud relay: the connection that results,
/// the frame that registers it, which goes out first, and how the transport is
/// to run.
pub struct Connect {
    pub connection: TunnelConnection,
    pub register: Frame,
    pub transport: TransportConfig,
}

/// Whether this is what it takes to connect an instance with the given ID.
pub open spec fn connects(
    r: Connect,
    c: TunnelConfig,
    instance_id: Seq<char>,
    platform: Seq<char>,
) -> bool {
    &&& r.connection.instance_id@ == instance_id
    &&& r.register@ == register_frame(c, instance_id, platform)
    &&& r.transport.url@ == c.relay_url@
    &&& r.transport.auth_bearer@ == c.auth_token@
    &&& r.transport.initial_backoff.span() == timing::second()
    &&& r.transport.max_backoff.span() == 60 * timing::second()
    &&& r.transport.heartbeat_interval.span() == 30 * timing::second()
    &&& r.transport.connect_timeout.span() == 10 * timing::second()
}

/// Whether a channel can have a buffer of this size: there is room in it, and
/// its places can be counted.
pub open spec fn is_channel_size(n: usize) -> bool {
    0 < n <= usize::MAX / 8
}

/// Connect to the cloud relay and register this instance, under an ID that is given.
pub fn connect_as(config: &TunnelConfig, platform: String, instance_id: String) -> (r: Connect)
    requires
        is_channel_size(config.channel_size),
    ensures
        connects(r, *config, instance_id@, platform@),
{
    let token = AuthToken::from_string(config.auth_token.as_str());
    let usual = TransportConfig::default();
    let transport = TransportConfig {
        url: config.relay_url.clone(),
        auth_bearer: token.bearer().to_owned(),
        initial_backoff: usual.initial_backoff,
        max_backoff: usual.max_backoff,
        heartbeat_interval: usual.heartbeat_interval,
        connect_timeout: usual.connect_timeout,
    };
    let register = Frame::Register(
        RegisterPayload {
            instance_id: instance_id.clone(),
            app_kind: config.app_kind,
            display_name: config.display_name.clone(),
            capabilities: copied(&config.capabilities),
            version: config.version.clone(),
            platform,
            cwd: copied_option(&config.cwd),
            commands: copied(&config.commands),
            metadata: JsonValue::Null,
        },
    );
    Connect { connection: TunnelConnection { instance_id }, register, transport }
}

/// Connect to the cloud relay and register this instance.
pub fn connect(config: &TunnelConfig, platform: String) -> (r: Connect)
    requires
        is_channel_size(config.channel_size),
    ensures
        ident::is_uuid(r.connection.instance_id@),
        connects(r, *config, r.connection.instance_id@, platform@),
{
    connect_as(config, platform, fresh_id())
}

/// How long the cloud has to confirm a registration.
pub fn registration_limit() -> (r: Interval)
    ensures
        r.span() == 10 * timing::second(),
{
    Interval::from_secs(10)
}

/// What has happened while a registration waits for its confirmation.
pub enum RegistrationEvent {
    /// A frame has come, or the connection is closed.
    Received(Option<Frame>),
    /// The cloud has taken too long.
    TimedOut,
}

/// What a registration comes to.
pub enum Registration {
    /// Wait for the next frame.
    Wait,
    /// It is over, with this session URL where it was confirmed with one.
    Done(Option<String>),
}

/// What a [`RegistrationEvent`] says.
pub enum RegistrationEventOf {
    Received(Option<FrameView>),
    TimedOut,
}

/// What a [`Registration`] says.
pub enum RegistrationOf {
    Wait,
    Done(Option<Seq<char>>),
}

impl View for RegistrationEvent {
    type V = RegistrationEventOf;

    open spec fn view(&self) -> RegistrationEventOf {
        match *self {
            RegistrationEvent::Received(f) => RegistrationEventOf::Received(
                protocol::seen_frame(f),
            ),
            RegistrationEvent::TimedOut => RegistrationEventOf::TimedOut,
        }
    }
}

impl View for Registration {
    type V = RegistrationOf;

    open spec fn view(&self) -> RegistrationOf {
        match *self {
            Registration::Wait => RegistrationOf::Wait,
            Registration::Done(url) => RegistrationOf::Done(text::optional(url)),
        }
    }
}

/// What an event means to a registration: its confirmation ends the wait, and
/// so do the end of the connection and that of the time, without a URL; any
/// other frame does not.
pub open spec fn on_registration(e: RegistrationEventOf) -> RegistrationOf {
    match e {
        RegistrationEventOf::Received(Some(FrameView::Registered(p))) => RegistrationOf::Done(
            p.session_url,
        ),
        RegistrationEventOf::Received(Some(_)) => RegistrationOf::Wait,
        RegistrationEventOf::Received(None) => RegistrationOf::Done(None),
        RegistrationEventOf::TimedOut => RegistrationOf::Done(None),
    }
}

/// Connect and wait for the registration confirmation from the cloud: one turn
/// of the wait.
pub fn connect_and_register(event: RegistrationEvent) -> (r: Registration)
    ensures
        r@ == on_registration(event@),
{
    match event {
        RegistrationEvent::Received(frame) => match frame {
            Some(Frame::Registered(p)) => Registration::Done(p.session_url),
            Some(_) => Registration::Wait,
            None => Registration::Done(None),
        },
        RegistrationEvent::TimedOut => Registration::Done(None),
    }
}

/// What a registration comes to that hears the given frames in turn.
pub open spec fn registration_after(frames: Seq<FrameView>) -> RegistrationOf
    decreases frames.len(),
{
    if frames.len() == 0 {
        RegistrationOf::Wait
    } else {
        match on_registration(RegistrationEventOf::Received(Some(frames.first()))) {
            RegistrationOf::Wait => registration_after(frames.drop_first()),
            done => done,
        }
    }
}

/// Whatever frames come before it, the confirmation is waited for and gives its
/// session URL.
pub proof fn confirmation_is_waited_for(
    before: Seq<FrameView>,
    p: protocol::RegisteredView,
    later: Seq<FrameView>,
)
    requires
        forall|i: int| 0 <= i < before.len() ==> !(#[trigger] before[i] is Registered),
    ensures
        registration_after(before) == RegistrationOf::Wait,
        registration_after(before.push(FrameView::Registered(p)) + later) == RegistrationOf::Done(
            p.session_url,
        ),
    decreases before.len(),
{
    let all = before.push(FrameView::Registered(p)) + later;
    if before.len() > 0 {
        let rest = before.drop_first();
        assert forall|i: int| 0 <= i < rest.len() implies !(#[trigger] rest[i] is Registered) by {
            assert(rest[i] == before[i + 1]);
        }
        confirmation_is_waited_for(rest, p, later);
        assert(all.drop_first() =~= rest.push(FrameView::Registered(p)) + later);
        assert(all.first() == before[0]);
    } else {
        assert(all.first() == FrameView::Registered(p));
    }
}

/// An instance registers as what its configuration says that it is: each field
/// of the registration that goes out is the configured one, under the ID of the
/// connection, and the transport dials the configured relay with the configured
/// token.
pub proof fn registration_says_what_is_configured(
    r: Connect,
    c: TunnelConfig,
    instance_id: Seq<char>,
    platform: Seq<char>,
)
    requires
        connects(r, c, instance_id, platform),
    ensures
        r.connection.instance_id@ == instance_id,
        ({
            &&& r.register matches Frame::Register(p)
            &&& p.instance_id@ == instance_id
            &&& p.app_kind == c.app_kind
            &&& p.display_name@ == c.display_name@
            &&& p.capabilities@.len() == c.capabilities@.len()
            &&& forall|i: int|
                0 <= i < c.capabilities@.len() ==> (#[trigger] p.capabilities@[i])@
                    == c.capabilities@[i]@
            &&& p.version@ == c.version@
            &&& p.platform@ == platform
            &&& (p.cwd is Some) == (c.cwd is Some)
            &&& c.cwd is Some ==> p.cwd->0@ == c.cwd->0@
            &&& p.commands@.len() == c.commands@.len()
            &&& forall|i: int|
                0 <= i < c.commands@.len() ==> (#[trigger] p.commands@[i])@ == c.commands@[i]@
            &&& p.metadata@ == Json::Null
        }),
        r.transport.url@ == c.relay_url@,
        r.transport.auth_bearer@ == c.auth_token@,
{
    let p = r.register->Register_0;
    assert(r.register is Register);
    assert(p@.capabilities == text::texts(c.capabilities@));
    assert(p@.commands == text::texts(c.commands@));
    assert(text::texts(p.capabilities@).len() == text::texts(c.capabilities@).len());
    assert(text::texts(p.commands@).len() == text::texts(c.commands@).len());
    assert forall|i: int| 0 <= i < c.capabilities@.len() implies (#[trigger] p.capabilities@[i])@
        == c.capabilities@[i]@ by {
        assert(text::texts(p.capabilities@)[i] == text::texts(c.capabilities@)[i]);
    }
    assert forall|i: int| 0 <= i < c.commands@.len() implies (#[trigger] p.commands@[i])@
        == c.commands@[i]@ by {
        assert(text::texts(p.commands@)[i] == text::texts(c.commands@)[i]);
    }
}

/// The cloud lists an instance under the configured name, kind, version and
/// directory: these are what it finds under their names in the document of the
/// registration.
pub proof fn cloud_reads_the_configuration(
    r: Connect,
    c: TunnelConfig,
    instance_id: Seq<char>,
    platform: Seq<char>,
)
    requires
        connects(r, c, instance_id, platform),
    ensures
        ({
            let j = protocol::frame_json(r.register@);
            &&& json::json_get(j, "type"@) == Some(Json::Str("register"@))
            &&& json::json_get(j, "instance_id"@) == Some(Json::Str(instance_id))
            &&& json::json_get(j, "display_name"@) == Some(Json::Str(c.display_name@))
            &&& json::json_get(j, "version"@) == Some(Json::Str(c.version@))
            &&& json::json_get(j, "platform"@) == Some(Json::Str(platform))
            &&& json::json_get(j, "metadata"@) == Some(Json::Null)
            &&& c.cwd is Some ==> json::json_get(j, "cwd"@) == Some(Json::Str(c.cwd->0@))
            &&& c.cwd is None ==> json::json_get(j, "cwd"@) is None
            &&& json::json_get(j, "app_kind"@) == Some(
                Json::Str(
                    match c.app_kind {
                        AppKind::Dev => "dev"@,
                        AppKind::Node => "node"@,
                        AppKind::Desktop => "desktop"@,
                        AppKind::Bot => "bot"@,
                        AppKind::Extension => "extension"@,
                    },
                ),
            )
            &&& json::json_get(j, "capabilities"@) matches Some(Json::Array(a)) && a.len()
                == c.capabilities@.len() && forall|i: int|
                0 <= i < a.len() ==> #[trigger] a[i] == Json::Str(c.capabilities@[i]@)
            &&& json::json_get(j, "commands"@) matches Some(Json::Array(a)) && a.len()
                == c.commands@.len() && forall|i: int|
                0 <= i < a.len() ==> #[trigger] a[i] == Json::Str(c.commands@[i]@)
        }),
{
    registration_says_what_is_configured(r, c, instance_id, platform);
    protocol::frame_is_written(r.register@);
    protocol::names();
    let p = r.register->Register_0;
    assert(p@.capabilities =~= text::texts(c.capabilities@));
    assert(p@.commands =~= text::texts(c.commands@));
}

/// Two configurations that differ in a field register differently.
pub proof fn configurations_register_differently(
    a: Connect,
    b: Connect,
    c: TunnelConfig,
    d: TunnelConfig,
    instance_id: Seq<char>,
    platform: Seq<char>,
)
    requires
        connects(a, c, instance_id, platform),
        connects(b, d, instance_id, platform),
        a.register@ == b.register@,
    ensures
        c.display_name@ == d.display_name@,
        c.version@ == d.version@,
        c.app_kind == d.app_kind,
        c.capabilities@.len() == d.capabilities@.len(),
        c.commands@.len() == d.commands@.len(),
        (c.cwd is Some) == (d.cwd is Some),
{
    registration_says_what_is_configured(a, c, instance_id, platform);
    registration_says_what_is_configured(b, d, instance_id, platform);
    assert(a.register->Register_0@ == b.register->Register_0@);
    assert(text::texts(c.capabilities@) == text::texts(d.capabilities@));
    assert(text::texts(c.commands@) == text::texts(d.commands@));
    assert(text::texts(c.capabilities@).len() == text::texts(d.capabilities@).len());
    assert(text::texts(c.commands@).len() == text::texts(d.commands@).len());
}

/// What an instance says to the cloud is what it was given to say: the event
/// and its data, the ID of the command that is answered, what came of it, and
/// why it failed.
pub proof fn answers_say_what_is_given(
    id: Seq<char>,
    event: Seq<char>,
    data: Json,
    found: Option<Json>,
    error: Seq<char>,
)
    ensures
        event_frame(event, data) matches FrameView::Event(e) && e.event == event && e.data == data,
        response_frame(id, found) matches FrameView::Response(p) && p.id == id && p.ok && p.data
            == found && p.error is None,
        error_frame(id, error) matches FrameView::Response(p) && p.id == id && !p.ok && p.data
            is None && p.error == Some(error),
{
}

/// An error reads as its kind, followed by its reason where it has one.
pub proof fn errors_read_as_themselves(s: Seq<char>)
    ensures
        error_text(ErrorView::Connection(s)) == "connection error: "@ + s,
        error_text(ErrorView::Protocol(s)) == "protocol error: "@ + s,
        error_text(ErrorView::Auth(s)) == "auth error: "@ + s,
        error_text(ErrorView::Discovery(s)) == "discovery error: "@ + s,
        error_text(ErrorView::ChannelClosed) == "channel closed"@,
        error_text(ErrorView::Timeout) == "timeout"@,
        handed_over(true) is Ok,
        handed_over(false) == Err::<(), ErrorView>(ErrorView::ChannelClosed),
{
}

/// An error keeps its kind and its reason.
pub proof fn errors_keep_their_reason(e: TunnelError)
    ensures
        e matches TunnelError::Connection(s) ==> e@ == ErrorView::Connection(s@),
        e matches TunnelError::Protocol(s) ==> e@ == ErrorView::Protocol(s@),
        e matches TunnelError::Auth(s) ==> e@ == ErrorView::Auth(s@),
        e matches TunnelError::Discovery(s) ==> e@ == ErrorView::Discovery(s@),
        e is ChannelClosed <==> e@ is ChannelClosed,
        e is Timeout <==> e@ is Timeout,
        outcome(Err(e)) == Err::<(), ErrorView>(e@),
        outcome(Ok(())) is Ok,
{
}

/// The name of a platform is the operating system, a hyphen and the
/// architecture.
pub proof fn platform_names_both(os: Seq<char>, arch: Seq<char>)
    ensures
        platform_name(os, arch).len() == os.len() + 1 + arch.len(),
        platform_name(os, arch).take(os.len() as int) == os,
        platform_name(os, arch)[os.len() as int] == '-',
        platform_name(os, arch).skip(os.len() as int + 1) == arch,
{
    reveal_strlit("-");
    let p = platform_name(os, arch);
    assert(p.take(os.len() as int) =~= os);
    assert(p.skip(os.len() as int + 1) =~= arch);
}

/// A registration is over when it is confirmed, when the connection ends or
/// when the time is up; only the confirmation gives a session URL, and that is
/// its own.
pub proof fn only_confirmation_gives_url(e: RegistrationEventOf, url: Seq<char>)
    ensures
        on_registration(e) == RegistrationOf::Done(Some(url)) <==> (e
            matches RegistrationEventOf::Received(Some(FrameView::Registered(p)))
            && p.session_url == Some(url)),
        on_registration(e) is Wait <==> (e matches RegistrationEventOf::Received(Some(f)) && !(
        f is Registered)),
{
}

/// A channel has room, and at most an eighth of the numbers there are.
pub proof fn channel_sizes(n: usize)
    ensures
        is_channel_size(n) <==> n >= 1 && 8 * n <= usize::MAX,
{
}

/// What comes of connecting an instance is a connection with its ID, and a
/// registration in which each field is the configured one: no other is put in
/// its place.
pub proof fn connecting_registers_the_configuration(
    config: &TunnelConfig,
    platform: String,
    instance_id: String,
    r: Connect,
)
    requires
        call_ensures(connect_as, (config, platform, instance_id), r),
    ensures
        r.connection.instance_id@ == instance_id@,
        r.register matches Frame::Register(p) && {
            &&& p.instance_id@ == instance_id@
            &&& p.display_name@ == config.display_name@
            &&& p.version@ == config.version@
            &&& p.app_kind == config.app_kind
            &&& p.platform@ == platform@
            &&& text::optional(p.cwd) == text::optional(config.cwd)
            &&& text::texts(p.capabilities@) == text::texts(config.capabilities@)
            &&& text::texts(p.commands@) == text::texts(config.commands@)
            &&& p.metadata@ == Json::Null
        },
        r.transport.url@ == config.relay_url@,
        r.transport.auth_bearer@ == config.auth_token@,
        r.transport.initial_backoff.span() == 1_000_000_000,
        r.transport.max_backoff.span() == 60_000_000_000,
        r.transport.heartbeat_interval.span() == 30_000_000_000,
        r.transport.connect_timeout.span() == 10_000_000_000,
{
    registration_says_what_is_configured(r, *config, instance_id@, platform@);
}

/// Connecting under a new ID registers the same as connecting under that ID.
pub proof fn connecting_takes_a_new_id(
    config: &TunnelConfig,
    platform: String,
    id: String,
    r: Connect,
    s: Connect,
)
    requires
        call_ensures(connect, (config, platform), r),
        id@ == r.connection.instance_id@,
        call_ensures(connect_as, (config, platform, id), s),
    ensures
        r.register@ == s.register@,
        ident::is_uuid(r.connection.instance_id@),
        r.transport.url@ == config.relay_url@,
        r.transport.auth_bearer@ == config.auth_token@,
        r.transport.initial_backoff.span() == 1_000_000_000,
        r.transport.max_backoff.span() == 60_000_000_000,
        r.transport.heartbeat_interval.span() == 30_000_000_000,
        r.transport.connect_timeout.span() == 10_000_000_000,
{
}

/// A connection says to the cloud what it is given to say, whatever it is the
/// connection of.
pub proof fn connections_say_what_is_given(
    conn: &TunnelConnection,
    event: &str,
    data: JsonValue,
    e: Frame,
    id: &str,
    found: Option<JsonValue>,
    a: Frame,
    error: &str,
    b: Frame,
)
    requires
        call_ensures(TunnelConnection::send_event, (conn, event, data), e),
        call_ensures(TunnelConnection::respond, (conn, id, found), a),
        call_ensures(TunnelConnection::respond_error, (conn, id, error), b),
    ensures
        e matches Frame::Event(p) && p.event@ == event@ && p.data@ == data@,
        a matches Frame::Response(p) && p.id@ == id@ && p.ok && json::held(p.data) == json::held(
            found,
        ) && p.error is None,
        b matches Frame::Response(p) && p.id@ == id@ && !p.ok && p.data is None && (p.error
            matches Some(why) && why@ == error@),
{
    answers_say_what_is_given(id@, event@, data@, json::held(found), error@);
}

/// An error keeps the reason that it is made with and tells it, and a frame
/// that was not taken is an error.
pub proof fn errors_are_made_and_told(
    reason: &str,
    e: TunnelError,
    err: &TunnelError,
    s: String,
    taken: bool,
    o: Result<(), TunnelError>,
)
    requires
        call_ensures(TunnelError::connection, (reason,), e),
        call_ensures(TunnelError::to_string, (err,), s),
        call_ensures(sent, (taken,), o),
    ensures
        e matches TunnelError::Connection(why) && why@ == reason@,
        s@ == (match *err {
            TunnelError::Connection(why) => "connection error: "@ + why@,
            TunnelError::Protocol(why) => "protocol error: "@ + why@,
            TunnelError::Auth(why) => "auth error: "@ + why@,
            TunnelError::Discovery(why) => "discovery error: "@ + why@,
            TunnelError::ChannelClosed => "channel closed"@,
            TunnelError::Timeout => "timeout"@,
        }),
        o is Ok <==> taken,
        o matches Err(why) ==> why is ChannelClosed,
{
}

/// A platform is named by its operating system and its architecture, in this
/// order, with a hyphen between them.
pub proof fn platforms_are_named(os: &str, arch: &str, r: String)
    requires
        call_ensures(platform, (os, arch), r),
    ensures
        r@ == os@.push('-') + arch@,
{
    reveal_strlit("-");
    assert(r@ =~= os@.push('-') + arch@);
}

/// A registration waits until it is confirmed, the connection is closed or ten
/// seconds are over; it has the URL of its confirmation, and none without one.
pub proof fn registrations_wait_for_confirmation(
    event: RegistrationEvent,
    r: Registration,
    limit: Interval,
)
    requires
        call_ensures(connect_and_register, (event,), r),
        call_ensures(registration_limit, (), limit),
    ensures
        event matches RegistrationEvent::Received(Some(Frame::Registered(p))) ==> (r
            matches Registration::Done(url) && text::optional(url) == text::optional(
            p.session_url,
        )),
        event matches RegistrationEvent::Received(Some(f)) ==> !(f is Registered) ==> r is Wait,
        event matches RegistrationEvent::Received(None) ==> (r matches Registration::Done(url)
            && url is None),
        event is TimedOut ==> (r matches Registration::Done(url) && url is None),
        limit.span() == 10_000_000_000,
{
}

/// An instance for which nothing is configured is a dev instance without a
/// name, which dials the usual relay without a token.
pub proof fn usual_configuration(r: TunnelConfig)
    requires
        call_ensures(TunnelConfig::default, (), r),
    ensures
        r.relay_url@ == "wss://api.hanzo.ai/v1/relay"@,
        r.auth_token@.len() == 0 && r.display_name@.len() == 0 && r.version@.len() == 0,
        r.app_kind is Dev,
        r.capabilities@.len() == 0 && r.commands@.len() == 0,
        r.cwd is None,
        r.channel_size == 256,
{
}

} // verus!
