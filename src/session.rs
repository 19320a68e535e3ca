use crate::buffer::{pushed, Message, MessageBuffer};
use crate::subscriptions::{added, removed, topics_view, SubscriptionSet};
use crate::types::{Connection, ConnectionStatus, QoS};
use crate::url::{strip_protocol, trimmed, without_scheme};
use vstd::prelude::*;

verus! {

#[verifier::external_type_specification]
#[verifier::external_body]
pub struct ExAsyncClient(rumqttc::AsyncClient);

#[verifier::external_type_specification]
#[verifier::external_body]
pub struct ExEventLoop(rumqttc::EventLoop);

#[verifier::external_type_specification]
#[verifier::external_body]
pub struct ExMqttOptions(rumqttc::MqttOptions);

#[verifier::external_type_specification]
#[verifier::external_body]
pub struct ExTransport(rumqttc::Transport);

#[verifier::external_type_specification]
#[verifier::external_body]
pub struct ExEvent(rumqttc::Event);

#[verifier::external_type_specification]
#[verifier::external_body]
pub struct ExClientError(rumqttc::ClientError);

#[verifier::external_type_specification]
#[verifier::external_body]
pub struct ExConnectionError(rumqttc::ConnectionError);

/// Keep-alive interval of every session, in seconds.
pub const KEEP_ALIVE_SECS: u64 = 30;

/// Capacity of the request queue between a client handle and its event loop.
pub const REQUEST_QUEUE: usize = 10;

/// Failed polls in a row after which the supervisor gives up.
pub const MAX_CONSECUTIVE_ERRORS: u32 = 5;

/// Pause after a failed poll, in milliseconds.
pub const RETRY_DELAY_MS: u64 = 500;

/// Pause before `connect` returns, in milliseconds.
pub const CONNECT_SETTLE_MS: u64 = 500;

/// Why a session operation failed.
#[derive(Debug)]
pub enum MqttError {
    /// The protocol client refused the request.
    Client(rumqttc::ClientError),
    /// The transport or protocol failed.
    Connection(rumqttc::ConnectionError),
    /// No session is open.
    NotConnected,
}

/// Relies on the `Display` impl of rumqttc::ClientError for its text.
#[verifier::external_body]
fn client_error_text(e: &rumqttc::ClientError) -> (r: String) {
    e.to_string()
}

/// Relies on the `Display` impl of rumqttc::ConnectionError for its text.
#[verifier::external_body]
fn connection_error_text(e: &rumqttc::ConnectionError) -> (r: String) {
    e.to_string()
}

impl MqttError {
    pub open spec fn is_not_connected(&self) -> bool {
        self is NotConnected
    }

    /// The human-readable description of the error.
    pub fn message(&self) -> (r: String)
        ensures
            self is NotConnected ==> r@ == "Not connected"@,
            self is Client ==> r@.len() >= 14 && r@.subrange(0, 14) == "Client error: "@,
            self is Connection ==> r@.len() >= 18 && r@.subrange(0, 18) == "Connection error: "@,
    {
        match self {
            MqttError::Client(e) => {
                let head = "Client error: ".to_owned();
                let text = client_error_text(e);
                proof {
                    reveal_strlit("Client error: ");
                }
                let r = head.concat(text.as_str());
                assert(r@.subrange(0, 14) =~= "Client error: "@);
                r
            },
            MqttError::Connection(e) => {
                let head = "Connection error: ".to_owned();
                let text = connection_error_text(e);
                proof {
                    reveal_strlit("Connection error: ");
                }
                let r = head.concat(text.as_str());
                assert(r@.subrange(0, 18) =~= "Connection error: "@);
                r
            },
            MqttError::NotConnected => "Not connected".to_owned(),
        }
    }
}

/// What the protocol engine is given to open a session.
pub struct ClientSettings {
    pub client_id: String,
    pub host: String,
    pub port: u16,
    pub keep_alive_secs: u64,
    pub credentials: Option<(String, String)>,
    pub use_tls: bool,
}

/// Credentials are sent only when both a user name and a password are set.
pub open spec fn credentials_of(config: &Connection) -> Option<(String, String)> {
    match (config.username, config.password) {
        (Some(u), Some(p)) => Some((u, p)),
        _ => None,
    }
}

/// Derives the engine settings of a profile: the broker address with its
/// surrounding white space and scheme prefix removed, the fixed keep-alive,
/// and credentials only when both parts are present.
pub fn client_settings(config: &Connection) -> (r: ClientSettings)
    ensures
        r.client_id == config.client_id,
        r.host@ == without_scheme(trimmed(config.broker_url@)),
        r.port == config.port,
        r.keep_alive_secs == KEEP_ALIVE_SECS,
        r.credentials == credentials_of(config),
        r.use_tls == config.use_tls,
{
    let credentials = match (&config.username, &config.password) {
        (Some(u), Some(p)) => Some((u.clone(), p.clone())),
        _ => None,
    };
    ClientSettings {
        client_id: config.client_id.clone(),
        host: strip_protocol(config.broker_url.as_str()).to_owned(),
        port: config.port,
        keep_alive_secs: KEEP_ALIVE_SECS,
        credentials,
        use_tls: config.use_tls,
    }
}

/// What an options value holds of the session's settings: client id,
/// broker host, port, keep-alive in seconds, and credentials.
pub uninterp spec fn options_of(o: rumqttc::MqttOptions) -> (
    Seq<char>,
    Seq<char>,
    u16,
    nat,
    Option<(Seq<char>, Seq<char>)>,
);

/// The same settings, as held by the event loop that serves a session.
pub uninterp spec fn loop_options_of(e: rumqttc::EventLoop) -> (
    Seq<char>,
    Seq<char>,
    u16,
    nat,
    Option<(Seq<char>, Seq<char>)>,
);

/// Relies on rumqttc::MqttOptions::new, which stores its arguments, with a
/// keep-alive of 60 seconds and no credentials.
#[verifier::external_body]
fn new_options(client_id: &String, host: &String, port: u16) -> (r: rumqttc::MqttOptions)
    ensures
        options_of(r) == (client_id@, host@, port, 60nat, None::<(Seq<char>, Seq<char>)>),
{
    rumqttc::MqttOptions::new(client_id.as_str(), host.as_str(), port)
}

/// Relies on rumqttc::MqttOptions::set_keep_alive, which accepts any whole
/// number of seconds and stores it.
#[verifier::external_body]
fn set_keep_alive(options: &mut rumqttc::MqttOptions, secs: u64)
    ensures
        options_of(*final(options)) == (
            options_of(*old(options)).0,
            options_of(*old(options)).1,
            options_of(*old(options)).2,
            secs as nat,
            options_of(*old(options)).4,
        ),
{
    options.set_keep_alive(std::time::Duration::from_secs(secs));
}

/// Relies on rumqttc::MqttOptions::set_credentials, which only stores them.
#[verifier::external_body]
fn set_credentials(options: &mut rumqttc::MqttOptions, username: &String, password: &String)
    ensures
        options_of(*final(options)) == (
            options_of(*old(options)).0,
            options_of(*old(options)).1,
            options_of(*old(options)).2,
            options_of(*old(options)).3,
            Some((username@, password@)),
        ),
{
    options.set_credentials(username.as_str(), password.as_str());
}

/// Relies on rumqttc::MqttOptions::set_transport, which only stores the
/// transport and leaves the other settings as they are.
#[verifier::external_body]
fn set_transport(options: &mut rumqttc::MqttOptions, transport: rumqttc::Transport)
    ensures
        options_of(*final(options)) == options_of(*old(options)),
{
    options.set_transport(transport);
}

/// Relies on rumqttc::AsyncClient::new: a client handle and the event loop
/// that serves it, joined by a request queue; the event loop keeps the
/// options as given, and nothing is sent yet.
#[verifier::external_body]
fn new_client(options: rumqttc::MqttOptions, cap: usize) -> (r: (
    rumqttc::AsyncClient,
    rumqttc::EventLoop,
))
    ensures
        loop_options_of(r.1) == options_of(options),
{
    rumqttc::AsyncClient::new(options, cap)
}

/// The settings the engine gets for a profile, as `options_of` gives them.
pub open spec fn engine_settings(config: &Connection) -> (
    Seq<char>,
    Seq<char>,
    u16,
    nat,
    Option<(Seq<char>, Seq<char>)>,
) {
    (
        config.client_id@,
        without_scheme(trimmed(config.broker_url@)),
        config.port,
        KEEP_ALIVE_SECS as nat,
        match credentials_of(config) {
            Some((u, p)) => Some((u@, p@)),
            None => None,
        },
    )
}

/// A publish for the held client handle, for the caller to await.
pub struct PublishRequest<'a> {
    pub client: &'a rumqttc::AsyncClient,
    pub topic: String,
    pub payload: String,
    pub qos: QoS,
    pub retain: bool,
}

/// A subscribe for the held client handle, for the caller to await.
pub struct SubscribeRequest<'a> {
    pub client: &'a rumqttc::AsyncClient,
    pub topic: String,
    pub qos: QoS,
}

/// An unsubscribe for the held client handle, for the caller to await.
pub struct UnsubscribeRequest<'a> {
    pub client: &'a rumqttc::AsyncClient,
    pub topic: String,
}

/// What closing a session leaves: the profile that was open and the client
/// handle that was held, to which the caller hands the protocol disconnect.
pub struct Closed {
    pub info: Option<(String, String)>,
    pub client: Option<rumqttc::AsyncClient>,
}

/// One session: at most one protocol client, its status, the received
/// messages and the active subscriptions.
pub struct MqttClient {
    client: Option<rumqttc::AsyncClient>,
    status: ConnectionStatus,
    connection_info: Option<(String, String)>,
    messages: MessageBuffer,
    subscriptions: SubscriptionSet,
}

impl MqttClient {
    /// Whether a protocol client is held.
    pub closed spec fn is_live(&self) -> bool {
        self.client.is_some()
    }

    pub closed spec fn status(&self) -> ConnectionStatus {
        self.status
    }

    /// Name and broker address of the profile of the open session.
    pub closed spec fn info(&self) -> Option<(String, String)> {
        self.connection_info
    }

    pub closed spec fn messages(&self) -> Seq<Message> {
        self.messages@
    }

    pub closed spec fn subscriptions(&self) -> Seq<Seq<char>> {
        self.subscriptions@
    }

    /// The client handle held, if any.
    pub closed spec fn handle(&self) -> Option<rumqttc::AsyncClient> {
        self.client
    }

    pub closed spec fn wf(&self) -> bool {
        &&& self.messages.wf()
        &&& self.subscriptions.wf()
        &&& self.connection_info.is_some() == self.client.is_some()
    }

    /// A well-formed session lists each subscription once.
    pub proof fn lemma_subscriptions_unique(&self)
        requires
            self.wf(),
        ensures
            self.subscriptions().no_duplicates(),
    {
    }

    pub fn new() -> (r: MqttClient)
        ensures
            r.wf(),
            !r.is_live(),
            r.status() == ConnectionStatus::Disconnected,
            r.info().is_none(),
            r.messages().len() == 0,
            r.subscriptions().len() == 0,
    {
        MqttClient {
            client: None,
            status: ConnectionStatus::Disconnected,
            connection_info: None,
            messages: MessageBuffer::new(),
            subscriptions: SubscriptionSet::new(),
        }
    }

    /// Opens a session for `config` unless one is open. A new session starts
    /// in `Connecting` with no messages and no subscriptions, and its event
    /// loop is handed back to be driven by a supervisor; `tls` is the
    /// transport it uses, given exactly when the profile asks for TLS. With a session open nothing changes and no
    /// event loop is made.
    pub fn connect(&mut self, config: &Connection, tls: Option<rumqttc::Transport>) -> (r: Result<
        Option<rumqttc::EventLoop>,
        MqttError,
    >)
        requires
            old(self).wf(),
            tls is Some == config.use_tls,
        ensures
            final(self).wf(),
            r is Ok,
            old(self).is_live() ==> {
                &&& r matches Ok(None)
                &&& *final(self) == *old(self)
                &&& final(self).is_live()
                &&& final(self).status() == old(self).status()
                &&& final(self).info() == old(self).info()
                &&& final(self).messages() == old(self).messages()
                &&& final(self).subscriptions() == old(self).subscriptions()
            },
            !old(self).is_live() ==> {
                &&& (r matches Ok(Some(e)) && loop_options_of(e) == engine_settings(config))
                &&& final(self).is_live()
                &&& final(self).status() == ConnectionStatus::Connecting
                &&& final(self).info() == Some((config.name, config.broker_url))
                &&& final(self).messages().len() == 0
                &&& final(self).subscriptions().len() == 0
            },
    {
        if self.client.is_some() {
            return Ok(None);
        }
        self.status = ConnectionStatus::Connecting;
        self.messages.clear();
        self.subscriptions.clear();
        let settings = client_settings(config);
        let mut options = new_options(&settings.client_id, &settings.host, settings.port);
        set_keep_alive(&mut options, settings.keep_alive_secs);
        if let Some((u, p)) = &settings.credentials {
            set_credentials(&mut options, u, p);
        }
        if let Some(t) = tls {
            set_transport(&mut options, t);
        }
        let (client, event_loop) = new_client(options, REQUEST_QUEUE);
        self.client = Some(client);
        self.connection_info = Some((config.name.clone(), config.broker_url.clone()));
        Ok(Some(event_loop))
    }

    /// Closes the session, if any: subscriptions are forgotten and the status
    /// becomes `Disconnected`. Hands back the name and broker address of the
    /// profile that was open and the client handle that was held, to which
    /// the caller sends the protocol-level disconnect.
    pub fn disconnect(&mut self) -> (r: Result<Closed, MqttError>)
        requires
            old(self).wf(),
        ensures
            final(self).wf(),
            r matches Ok(c) && c.info == old(self).info() && c.client == old(self).handle(),
            !final(self).is_live(),
            final(self).status() == ConnectionStatus::Disconnected,
            final(self).info().is_none(),
            final(self).messages() == old(self).messages(),
            final(self).subscriptions().len() == 0,
    {
        let client = self.client.take();
        self.subscriptions.clear();
        let info = self.connection_info.take();
        self.status = ConnectionStatus::Disconnected;
        Ok(Closed { info, client })
    }

    /// Prepares a publish: fails with `NotConnected` when no client is held,
    /// else hands back the held client with the arguments unchanged, for the
    /// caller to await. The session does not change.
    pub fn publish(&self, topic: &str, payload: &str, qos: QoS, retain: bool) -> (r: Result<
        PublishRequest<'_>,
        MqttError,
    >)
        ensures
            !self.is_live() <==> r matches Err(MqttError::NotConnected),
            r is Err ==> r matches Err(MqttError::NotConnected),
            r matches Ok(q) ==> {
                &&& self.handle() == Some(*q.client)
                &&& q.topic@ == topic@
                &&& q.payload@ == payload@
                &&& q.qos == qos
                &&& q.retain == retain
            },
    {
        match &self.client {
            None => Err(MqttError::NotConnected),
            Some(c) => Ok(
                PublishRequest {
                    client: c,
                    topic: topic.to_owned(),
                    payload: payload.to_owned(),
                    qos,
                    retain,
                },
            ),
        }
    }

    /// Prepares a subscribe: fails with `NotConnected` when no client is
    /// held, else hands back the held client with the arguments unchanged,
    /// for the caller to await before `record_subscription`.
    pub fn subscribe(&self, topic: &str, qos: QoS) -> (r: Result<SubscribeRequest<'_>, MqttError>)
        ensures
            !self.is_live() <==> r matches Err(MqttError::NotConnected),
            r is Err ==> r matches Err(MqttError::NotConnected),
            r matches Ok(q) ==> {
                &&& self.handle() == Some(*q.client)
                &&& q.topic@ == topic@
                &&& q.qos == qos
            },
    {
        match &self.client {
            None => Err(MqttError::NotConnected),
            Some(c) => Ok(SubscribeRequest { client: c, topic: topic.to_owned(), qos }),
        }
    }

    /// Prepares an unsubscribe: fails with `NotConnected` when no client is
    /// held, else hands back the held client with the topic unchanged, for
    /// the caller to await before `forget_subscription`.
    pub fn unsubscribe(&self, topic: &str) -> (r: Result<UnsubscribeRequest<'_>, MqttError>)
        ensures
            !self.is_live() <==> r matches Err(MqttError::NotConnected),
            r is Err ==> r matches Err(MqttError::NotConnected),
            r matches Ok(q) ==> self.handle() == Some(*q.client) && q.topic@ == topic@,
    {
        match &self.client {
            None => Err(MqttError::NotConnected),
            Some(c) => Ok(UnsubscribeRequest { client: c, topic: topic.to_owned() }),
        }
    }

    /// Records a topic whose subscribe the client accepted, unless it is
    /// recorded already.
    pub fn record_subscription(&mut self, topic: &str)
        requires
            old(self).wf(),
        ensures
            final(self).wf(),
            final(self).subscriptions().no_duplicates(),
            final(self).subscriptions() == added(old(self).subscriptions(), topic@),
            final(self).handle() == old(self).handle(),
            final(self).status() == old(self).status(),
            final(self).info() == old(self).info(),
            final(self).messages() == old(self).messages(),
    {
        self.subscriptions.add(topic);
    }

    /// Forgets a topic whose unsubscribe the client accepted.
    pub fn forget_subscription(&mut self, topic: &str)
        requires
            old(self).wf(),
        ensures
            final(self).wf(),
            final(self).subscriptions().no_duplicates(),
            final(self).subscriptions() == removed(old(self).subscriptions(), topic@),
            final(self).handle() == old(self).handle(),
            final(self).status() == old(self).status(),
            final(self).info() == old(self).info(),
            final(self).messages() == old(self).messages(),
    {
        self.subscriptions.remove(topic);
    }

    /// Sets the status, leaving everything else as it is.
    pub fn set_status(&mut self, s: ConnectionStatus)
        requires
            old(self).wf(),
        ensures
            final(self).wf(),
            final(self).status() == s,
            final(self).is_live() == old(self).is_live(),
            final(self).info() == old(self).info(),
            final(self).messages() == old(self).messages(),
            final(self).subscriptions() == old(self).subscriptions(),
    {
        self.status = s;
    }

    /// Stores an inbound message, evicting the oldest one at capacity.
    pub fn receive(&mut self, m: Message)
        requires
            old(self).wf(),
        ensures
            final(self).wf(),
            final(self).messages() == pushed(old(self).messages(), m),
            final(self).status() == old(self).status(),
            final(self).is_live() == old(self).is_live(),
            final(self).info() == old(self).info(),
            final(self).subscriptions() == old(self).subscriptions(),
    {
        self.messages.push(m);
    }

    /// Whether a session is open.
    pub fn is_connected(&self) -> (r: bool)
        ensures
            r == self.is_live(),
    {
        self.client.is_some()
    }

    pub fn get_status(&self) -> (r: ConnectionStatus)
        ensures
            r == self.status(),
    {
        self.status
    }

    /// The received messages, oldest first.
    pub fn get_messages(&self) -> (r: Vec<Message>)
        ensures
            r@ == self.messages(),
    {
        self.messages.to_vec()
    }

    pub fn clear_messages(&mut self)
        requires
            old(self).wf(),
        ensures
            final(self).wf(),
            final(self).messages().len() == 0,
            final(self).is_live() == old(self).is_live(),
            final(self).status() == old(self).status(),
            final(self).info() == old(self).info(),
            final(self).subscriptions() == old(self).subscriptions(),
    {
        self.messages.clear();
    }

    /// The active subscriptions, in the order they were made.
    pub fn get_subscriptions(&self) -> (r: Vec<String>)
        ensures
            topics_view(r@) == self.subscriptions(),
    {
        self.subscriptions.to_vec()
    }
}

impl Default for MqttClient {
    fn default() -> (r: MqttClient)
        ensures
            r.wf(),
            !r.is_live(),
            r.status() == ConnectionStatus::Disconnected,
            r.info().is_none(),
            r.messages().len() == 0,
            r.subscriptions().len() == 0,
    {
        MqttClient::new()
    }
}

} // verus!
