use std::collections::HashMap;
use vstd::prelude::*;

verus! {

/// Whether a connection profile connects on start when the setting is absent.
pub fn default_true() -> (r: bool)
    ensures
        r,
{
    true
}

/// MQTT delivery guarantee, passed through unchanged to the protocol engine.
#[derive(Debug, Clone, Copy, PartialEq, Eq, Structural)]
pub enum QoS {
    AtMostOnce,
    AtLeastOnce,
    ExactlyOnce,
}

impl Default for QoS {
    fn default() -> (r: QoS)
        ensures
            r == QoS::AtMostOnce,
    {
        QoS::AtMostOnce
    }
}

/// Display colour of a publish button.
#[derive(Debug, Clone, Copy, PartialEq, Eq, Structural)]
pub enum ButtonColor {
    Orange,
    Green,
    Blue,
    Purple,
    Red,
    Teal,
}

impl Default for ButtonColor {
    fn default() -> (r: ButtonColor)
        ensures
            r == ButtonColor::Orange,
    {
        ButtonColor::Orange
    }
}

/// A saved publish action of a connection profile.
#[derive(Debug, Clone)]
pub struct Button {
    pub id: String,
    pub name: String,
    pub topic: String,
    pub payload: Option<String>,
    pub qos: QoS,
    pub retain: bool,
    pub color: Option<ButtonColor>,
}

/// A saved broker connection profile.
#[derive(Debug, Clone)]
pub struct Connection {
    pub id: String,
    pub name: String,
    pub broker_url: String,
    pub port: u16,
    pub client_id: String,
    pub username: Option<String>,
    pub password: Option<String>,
    pub use_tls: bool,
    pub auto_connect: bool,
    pub variables: HashMap<String, String>,
    pub buttons: Vec<Button>,
    pub subscriptions: Vec<String>,
}

/// Everything that is persisted: the profiles and the one used last.
#[derive(Debug, Clone)]
pub struct AppData {
    pub connections: Vec<Connection>,
    pub last_connection_id: Option<String>,
}

impl Default for AppData {
    fn default() -> (r: AppData)
        ensures
            r.connections@.len() == 0,
            r.last_connection_id.is_none(),
    {
        AppData { connections: Vec::new(), last_connection_id: None }
    }
}

/// Lifecycle phase of a session.
#[derive(Debug, Clone, Copy, PartialEq, Eq, Structural)]
pub enum ConnectionStatus {
    Disconnected,
    Connecting,
    Connected,
    Error,
}

pub open spec fn status_text(s: ConnectionStatus) -> Seq<char> {
    match s {
        ConnectionStatus::Disconnected => "disconnected"@,
        ConnectionStatus::Connecting => "connecting"@,
        ConnectionStatus::Connected => "connected"@,
        ConnectionStatus::Error => "error"@,
    }
}

impl ConnectionStatus {
    /// The lower-case word carried by a status event.
    pub fn as_str(&self) -> (r: &'static str)
        ensures
            r@ == status_text(*self),
    {
        match self {
            ConnectionStatus::Disconnected => "disconnected",
            ConnectionStatus::Connecting => "connecting",
            ConnectionStatus::Connected => "connected",
            ConnectionStatus::Error => "error",
        }
    }
}

impl Default for ConnectionStatus {
    fn default() -> (r: ConnectionStatus)
        ensures
            r == ConnectionStatus::Disconnected,
    {
        ConnectionStatus::Disconnected
    }
}

/// Broker settings of the single-project file format.
#[derive(Debug, Clone)]
pub struct LegacyMqttConnection {
    pub broker_url: String,
    pub port: u16,
    pub client_id: String,
    pub username: Option<String>,
    pub password: Option<String>,
    pub use_tls: bool,
    pub auto_connect: bool,
}

/// The single-project file format that preceded profile lists.
#[derive(Debug, Clone)]
pub struct LegacyProject {
    pub name: String,
    pub connection: LegacyMqttConnection,
    pub variables: HashMap<String, String>,
    pub buttons: Vec<Button>,
}

/// Turns a single-project record into profile data holding one profile with
/// the given identifier, which also becomes the profile used last.
pub fn migrate_legacy_with_id(legacy: LegacyProject, connection_id: String) -> (r: AppData)
    ensures
        r.connections@.len() == 1,
        r.last_connection_id == Some(connection_id),
        r.connections@[0].id == connection_id,
        r.connections@[0].name == legacy.name,
        r.connections@[0].broker_url == legacy.connection.broker_url,
        r.connections@[0].port == legacy.connection.port,
        r.connections@[0].client_id == legacy.connection.client_id,
        r.connections@[0].username == legacy.connection.username,
        r.connections@[0].password == legacy.connection.password,
        r.connections@[0].use_tls == legacy.connection.use_tls,
        r.connections@[0].auto_connect == legacy.connection.auto_connect,
        r.connections@[0].variables == legacy.variables,
        r.connections@[0].buttons == legacy.buttons,
        r.connections@[0].subscriptions@.len() == 0,
{
    let id_copy = connection_id.clone();
    let connection = Connection {
        id: connection_id,
        name: legacy.name,
        broker_url: legacy.connection.broker_url,
        port: legacy.connection.port,
        client_id: legacy.connection.client_id,
        username: legacy.connection.username,
        password: legacy.connection.password,
        use_tls: legacy.connection.use_tls,
        auto_connect: legacy.connection.auto_connect,
        variables: legacy.variables,
        buttons: legacy.buttons,
        subscriptions: Vec::new(),
    };
    let mut connections: Vec<Connection> = Vec::new();
    connections.push(connection);
    AppData { connections, last_connection_id: Some(id_copy) }
}

pub open spec fn is_lower_hex(c: char) -> bool {
    ('0' <= c && c <= '9') || ('a' <= c && c <= 'f')
}

/// The hyphenated lower-case text of a random (version 4, RFC 4122 variant)
/// UUID: hyphens at 8, 13, 18 and 23, hex digits elsewhere, the version
/// digit '4' at 14 and one of '8', '9', 'a', 'b' at 19.
pub open spec fn is_uuid_v4_text(s: Seq<char>) -> bool {
    &&& s.len() == 36
    &&& forall|i: int|
        0 <= i < 36 ==> if i == 8 || i == 13 || i == 18 || i == 23 {
            s[i] == '-'
        } else {
            is_lower_hex(#[trigger] s[i])
        }
    &&& s[14] == '4'
    &&& (s[19] == '8' || s[19] == '9' || s[19] == 'a' || s[19] == 'b')
}

/// Relies on uuid::Uuid::new_v4 and its `Display` form: a fresh random
/// identifier in hyphenated lower-case text.
#[verifier::external_body]
fn fresh_connection_id() -> (r: String)
    ensures
        is_uuid_v4_text(r@),
{
    uuid::Uuid::new_v4().to_string()
}

/// Turns a single-project record into profile data under a fresh random
/// identifier.
pub fn migrate_legacy(legacy: LegacyProject) -> (r: AppData)
    ensures
        r.connections@.len() == 1,
        r.last_connection_id.is_some(),
        r.connections@[0].id == r.last_connection_id.unwrap(),
        is_uuid_v4_text(r.connections@[0].id@),
        r.connections@[0].name == legacy.name,
        r.connections@[0].broker_url == legacy.connection.broker_url,
        r.connections@[0].port == legacy.connection.port,
        r.connections@[0].client_id == legacy.connection.client_id,
        r.connections@[0].username == legacy.connection.username,
        r.connections@[0].password == legacy.connection.password,
        r.connections@[0].use_tls == legacy.connection.use_tls,
        r.connections@[0].auto_connect == legacy.connection.auto_connect,
        r.connections@[0].variables == legacy.variables,
        r.connections@[0].buttons == legacy.buttons,
        r.connections@[0].subscriptions@.len() == 0,
{
    let id = fresh_connection_id();
    migrate_legacy_with_id(legacy, id)
}

} // verus!
