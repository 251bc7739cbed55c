//! Connection configuration: which transport the device uses and the
//! settings each one needs, gathered from the environment and other sources
//! and checked before a connection is opened.

use vstd::prelude::*;
use vstd::string::StrSliceExecFns;

use crate::resolve::ConfigFragment;

verus! {

/// Transport used to reach the platform.
#[derive(Clone, Copy, Debug, PartialEq, Eq, PartialOrd, Ord, Structural)]
pub enum AstarteConnection {
    /// Connect through MQTT
    Mqtt,
    /// Connect through gRPC to a message hub already connected to the platform
    Grpc,
}

impl Default for AstarteConnection {
    fn default() -> (r: Self)
        ensures
            r == AstarteConnection::Mqtt,
    {
        AstarteConnection::Mqtt
    }
}

/// `c` with ASCII upper case letters made lower case.
pub open spec fn ascii_lower(c: char) -> char {
    if 'A' <= c <= 'Z' {
        ((c as u8) + 32) as char
    } else {
        c
    }
}

/// `a` and `b` are equal up to the case of ASCII letters.
pub open spec fn eq_ignore_ascii_case(a: Seq<char>, b: Seq<char>) -> bool {
    a.len() == b.len() && forall|i: int| 0 <= i < a.len() ==> ascii_lower(a[i]) == ascii_lower(b[i])
}

fn lower(c: char) -> (r: char)
    ensures
        r == ascii_lower(c),
{
    if 'A' <= c && c <= 'Z' {
        ((c as u8) + 32) as char
    } else {
        c
    }
}

/// Whether `a` and `b` are equal up to the case of ASCII letters.
pub fn str_eq_ignore_ascii_case(a: &str, b: &str) -> (r: bool)
    ensures
        r == eq_ignore_ascii_case(a@, b@),
{
    let n = a.unicode_len();
    if n != b.unicode_len() {
        return false;
    }
    let mut i: usize = 0;
    while i < n
        invariant
            n == a@.len(),
            n == b@.len(),
            i <= n,
            forall|j: int| 0 <= j < i ==> ascii_lower(a@[j]) == ascii_lower(b@[j]),
        decreases n - i,
    {
        if lower(a.get_char(i)) != lower(b.get_char(i)) {
            return false;
        }
        i = i + 1;
    }
    true
}

/// Name under which a transport is selected.
pub open spec fn connection_name(c: AstarteConnection) -> Seq<char> {
    match c {
        AstarteConnection::Mqtt => "mqtt"@,
        AstarteConnection::Grpc => "grpc"@,
    }
}

impl AstarteConnection {
    /// The name under which the transport is selected.
    pub fn name(&self) -> (r: &'static str)
        ensures
            r@ == connection_name(*self),
    {
        match self {
            AstarteConnection::Mqtt => "mqtt",
            AstarteConnection::Grpc => "grpc",
        }
    }

    /// The transport whose name is `s`, ignoring ASCII case.
    pub fn from_name(s: &str) -> (r: Option<AstarteConnection>)
        ensures
            eq_ignore_ascii_case(s@, "mqtt"@) ==> r == Some(AstarteConnection::Mqtt),
            !eq_ignore_ascii_case(s@, "mqtt"@) && eq_ignore_ascii_case(s@, "grpc"@) ==> r == Some(
                AstarteConnection::Grpc,
            ),
            !eq_ignore_ascii_case(s@, "mqtt"@) && !eq_ignore_ascii_case(s@, "grpc"@) ==> r is None,
    {
        if str_eq_ignore_ascii_case(s, "mqtt") {
            Some(AstarteConnection::Mqtt)
        } else if str_eq_ignore_ascii_case(s, "grpc") {
            Some(AstarteConnection::Grpc)
        } else {
            None
        }
    }
}

/// How the device proves its identity over MQTT.
#[derive(Clone, Debug, PartialEq, Eq)]
pub enum Credential {
    /// Credentials secret obtained at registration
    Secret(String),
    /// Pairing token used to register the device
    PairingToken(String),
}

/// Settings of an MQTT connection.
#[derive(Clone, Debug)]
pub struct MqttConfigBuilder {
    /// Device id
    pub device_id: String,
    /// Realm the device belongs to
    pub realm: String,
    /// Device credential
    pub credential: Credential,
    /// Pairing URL of the platform
    pub pairing_url: String,
    /// Whether TLS certificate errors are ignored
    pub ignore_ssl_errors: bool,
}

/// Settings of a gRPC connection to a message hub.
#[derive(Clone, Debug)]
pub struct GrpcConfigBuilder {
    /// Node id, as the 128-bit value of a UUID
    pub node_id: u128,
    /// Endpoint of the message hub
    pub endpoint: String,
}

/// Node id used when none is given: d72a6187-7cf1-44cc-87e8-e991936166dc.
pub const DEFAULT_STREAM_NODE_ID: u128 = 0xd72a6187_7cf1_44cc_87e8_e991936166dc;

/// Connection settings gathered so far; any may still be missing.
#[derive(Clone, Debug)]
pub struct ConnectionConfigBuilder {
    /// Transport
    pub astarte_connection: Option<AstarteConnection>,
    /// Directory of the local store
    pub store_directory: Option<String>,
    /// MQTT settings
    pub mqtt_config: Option<MqttConfigBuilder>,
    /// gRPC settings
    pub grpc_config: Option<GrpcConfigBuilder>,
}

/// A complete connection configuration.
#[derive(Clone, Debug)]
pub enum ConnectionConfig {
    /// Connect through MQTT
    Mqtt { store_directory: String, config: MqttConfigBuilder },
    /// Connect through gRPC to a message hub
    Grpc { store_directory: String, config: GrpcConfigBuilder },
}

/// A connection setting.
#[derive(Clone, Copy, Debug, PartialEq, Eq, Structural)]
pub enum ConnectionSetting {
    /// The transport
    Connection,
    /// The store directory
    StoreDirectory,
    /// MQTT settings, needed when MQTT is chosen
    MqttConfig,
    /// gRPC settings, needed when gRPC is chosen
    GrpcConfig,
}

/// Why the connection settings are incomplete.
#[derive(Clone, Debug, PartialEq, Eq)]
pub enum BuildError {
    /// Every setting that is missing, in the order of [`ConnectionSetting`]
    Missing(Vec<ConnectionSetting>),
}

/// The settings that `b` lacks, in order: the transport, the store
/// directory, and the chosen transport's settings.
pub open spec fn missing_settings(b: ConnectionConfigBuilder) -> Seq<ConnectionSetting> {
    (if b.astarte_connection is None { seq![ConnectionSetting::Connection] } else { seq![] })
        + (if b.store_directory is None { seq![ConnectionSetting::StoreDirectory] } else { seq![] })
        + (if b.astarte_connection == Some(AstarteConnection::Mqtt) && b.mqtt_config is None {
        seq![ConnectionSetting::MqttConfig]
    } else {
        seq![]
    }) + (if b.astarte_connection == Some(AstarteConnection::Grpc) && b.grpc_config is None {
        seq![ConnectionSetting::GrpcConfig]
    } else {
        seq![]
    })
}

/// `r` is the outcome of checking `b`: every missing setting is named;
/// otherwise the chosen transport's settings are taken over as they are.
pub open spec fn built(b: ConnectionConfigBuilder, r: Result<ConnectionConfig, BuildError>) -> bool {
    if missing_settings(b).len() > 0 {
        r matches Err(BuildError::Missing(v)) && v@ == missing_settings(b)
    } else if b.astarte_connection == Some(AstarteConnection::Mqtt) {
        r == Ok::<ConnectionConfig, BuildError>(
            ConnectionConfig::Mqtt {
                store_directory: b.store_directory->0,
                config: b.mqtt_config->0,
            },
        )
    } else {
        r == Ok::<ConnectionConfig, BuildError>(
            ConnectionConfig::Grpc {
                store_directory: b.store_directory->0,
                config: b.grpc_config->0,
            },
        )
    }
}

/// An environment variable as the process sees it.
#[derive(Clone, Debug, PartialEq, Eq)]
pub enum EnvVar {
    /// Set to this text
    Present(String),
    /// Not set
    NotPresent,
    /// Set to something that is not valid unicode
    NotUnicode,
}

/// The environment variables that describe a connection.
#[derive(Clone, Debug)]
pub struct AstarteEnv {
    /// `ASTARTE_CONNECTION`
    pub connection: EnvVar,
    /// `ASTARTE_STORE_DIRECTORY`
    pub store_directory: EnvVar,
    /// `ASTARTE_DEVICE_ID`
    pub device_id: EnvVar,
    /// `ASTARTE_REALM`
    pub realm: EnvVar,
    /// `ASTARTE_PAIRING_URL`
    pub pairing_url: EnvVar,
    /// `ASTARTE_IGNORE_SSL_ERRORS`
    pub ignore_ssl_errors: EnvVar,
    /// `ASTARTE_CREDENTIALS_SECRET`
    pub credentials_secret: EnvVar,
    /// `ASTARTE_PAIRING_TOKEN`
    pub pairing_token: EnvVar,
    /// `ASTARTE_MSGHUB_ENDPOINT`
    pub msghub_endpoint: EnvVar,
    /// `ASTARTE_MSGHUB_NODE_ID`
    pub msghub_node_id: EnvVar,
}

/// An environment variable that describes a connection.
#[derive(Clone, Copy, Debug, PartialEq, Eq, Structural)]
pub enum EnvKey {
    /// `ASTARTE_CONNECTION`
    Connection,
    /// `ASTARTE_STORE_DIRECTORY`
    StoreDirectory,
    /// `ASTARTE_DEVICE_ID`
    DeviceId,
    /// `ASTARTE_REALM`
    Realm,
    /// `ASTARTE_PAIRING_URL`
    PairingUrl,
    /// `ASTARTE_IGNORE_SSL_ERRORS`
    IgnoreSslErrors,
    /// `ASTARTE_PAIRING_TOKEN`, needed when no credentials secret is set
    PairingToken,
    /// `ASTARTE_MSGHUB_ENDPOINT`
    MsghubEndpoint,
    /// `ASTARTE_MSGHUB_NODE_ID`
    MsghubNodeId,
}

/// Why the environment does not describe a connection.
#[derive(Clone, Copy, Debug, PartialEq, Eq, Structural)]
pub enum EnvError {
    /// A needed variable is unset or not unicode
    Var(EnvKey),
    /// `ASTARTE_CONNECTION` names no transport
    InvalidConnection,
    /// `ASTARTE_MSGHUB_NODE_ID` is no UUID
    InvalidNodeId,
}

/// The 128-bit value of the UUID written in `s`, if `s` is one.
pub uninterp spec fn uuid_value(s: Seq<char>) -> Option<u128>;

/// Relies on `uuid::Uuid::parse_str`, which reads a UUID in any of its text
/// forms and fails on other text, and on `Uuid::as_u128`, which gives its
/// value.
#[verifier::external_body]
fn parse_uuid(s: &str) -> (r: Option<u128>)
    ensures
        r == uuid_value(s@),
{
    uuid::Uuid::parse_str(s).ok().map(|u| u.as_u128())
}

/// Lower-case hexadecimal digit of `d`, for `d < 16`.
pub open spec fn hex_digit(d: u128) -> char {
    if d < 10 {
        ((48 + d) as u8) as char
    } else {
        ((87 + d) as u8) as char
    }
}

/// The `k`-th of the 32 hexadecimal digits of `v`, most significant first.
pub open spec fn uuid_digit(v: u128, k: int) -> char {
    hex_digit((v >> ((124 - 4 * k) as u128)) & 0xf)
}

/// The hyphenated lower-case text of the UUID whose value is `v`: its 32
/// hexadecimal digits, most significant first, with hyphens at positions 8,
/// 13, 18 and 23.
pub open spec fn uuid_text(v: u128) -> Seq<char> {
    Seq::new(
        36,
        |i: int|
            if i == 8 || i == 13 || i == 18 || i == 23 {
                '-'
            } else if i < 8 {
                uuid_digit(v, i)
            } else if i < 13 {
                uuid_digit(v, i - 1)
            } else if i < 18 {
                uuid_digit(v, i - 2)
            } else if i < 23 {
                uuid_digit(v, i - 3)
            } else {
                uuid_digit(v, i - 4)
            },
    )
}

/// Relies on `uuid::Uuid::from_u128`, which builds the UUID of a value, and
/// on its `Display`, which writes the hyphenated lower-case form.
#[verifier::external_body]
fn format_uuid(v: u128) -> (r: String)
    ensures
        r@ == uuid_text(v),
{
    uuid::Uuid::from_u128(v).to_string()
}

/// Text of a variable that must be set.
fn required(var: &EnvVar, key: EnvKey) -> (r: Result<String, EnvError>)
    ensures
        match *var {
            EnvVar::Present(t) => r == Ok::<String, EnvError>(t),
            _ => r == Err::<String, EnvError>(EnvError::Var(key)),
        },
{
    match var {
        EnvVar::Present(t) => Ok(t.clone()),
        _ => Err(EnvError::Var(key)),
    }
}

/// Whether `t` reads as the boolean `true`; any other text reads as false.
pub fn parse_flag(t: &str) -> (r: bool)
    ensures
        r == (t@ == "true"@),
{
    crate::math::str_eq(t, "true")
}

/// The MQTT settings that `env` describes.
pub open spec fn mqtt_from_env(env: AstarteEnv) -> Result<MqttConfigBuilder, EnvError> {
    match (env.device_id, env.realm, env.pairing_url, env.ignore_ssl_errors) {
        (EnvVar::Present(device_id), EnvVar::Present(realm), EnvVar::Present(pairing_url), EnvVar::Present(flag)) => {
            let credential = match (env.credentials_secret, env.pairing_token) {
                (EnvVar::Present(secret), _) => Ok(Credential::Secret(secret)),
                (_, EnvVar::Present(token)) => Ok(Credential::PairingToken(token)),
                _ => Err(EnvError::Var(EnvKey::PairingToken)),
            };
            match credential {
                Ok(credential) => Ok(
                    MqttConfigBuilder {
                        device_id,
                        realm,
                        credential,
                        pairing_url,
                        ignore_ssl_errors: flag@ == "true"@,
                    },
                ),
                Err(e) => Err(e),
            }
        },
        (EnvVar::Present(_), EnvVar::Present(_), EnvVar::Present(_), _) => Err(
            EnvError::Var(EnvKey::IgnoreSslErrors),
        ),
        (EnvVar::Present(_), EnvVar::Present(_), _, _) => Err(EnvError::Var(EnvKey::PairingUrl)),
        (EnvVar::Present(_), _, _, _) => Err(EnvError::Var(EnvKey::Realm)),
        _ => Err(EnvError::Var(EnvKey::DeviceId)),
    }
}

/// The gRPC settings that `env` describes; an unset node id is the default.
pub open spec fn grpc_from_env(env: AstarteEnv) -> Result<GrpcConfigBuilder, EnvError> {
    match env.msghub_endpoint {
        EnvVar::Present(endpoint) => match env.msghub_node_id {
            EnvVar::Present(t) => match uuid_value(t@) {
                Some(node_id) => Ok(GrpcConfigBuilder { node_id, endpoint }),
                None => Err(EnvError::InvalidNodeId),
            },
            EnvVar::NotPresent => Ok(GrpcConfigBuilder { node_id: DEFAULT_STREAM_NODE_ID, endpoint }),
            EnvVar::NotUnicode => Err(EnvError::Var(EnvKey::MsghubNodeId)),
        },
        _ => Err(EnvError::Var(EnvKey::MsghubEndpoint)),
    }
}

/// The transport that `env` chooses.
pub open spec fn connection_from_env(env: AstarteEnv) -> Result<AstarteConnection, EnvError> {
    match env.connection {
        EnvVar::Present(t) => if eq_ignore_ascii_case(t@, "mqtt"@) {
            Ok(AstarteConnection::Mqtt)
        } else if eq_ignore_ascii_case(t@, "grpc"@) {
            Ok(AstarteConnection::Grpc)
        } else {
            Err(EnvError::InvalidConnection)
        },
        _ => Err(EnvError::Var(EnvKey::Connection)),
    }
}

fn mqtt_config_from_env(env: &AstarteEnv) -> (r: Result<MqttConfigBuilder, EnvError>)
    ensures
        r == mqtt_from_env(*env),
{
    let device_id = required(&env.device_id, EnvKey::DeviceId)?;
    let realm = required(&env.realm, EnvKey::Realm)?;
    let pairing_url = required(&env.pairing_url, EnvKey::PairingUrl)?;
    let flag = required(&env.ignore_ssl_errors, EnvKey::IgnoreSslErrors)?;
    let ignore_ssl_errors = parse_flag(flag.as_str());
    let credential = match &env.credentials_secret {
        EnvVar::Present(secret) => Credential::Secret(secret.clone()),
        _ => Credential::PairingToken(required(&env.pairing_token, EnvKey::PairingToken)?),
    };
    Ok(MqttConfigBuilder { device_id, realm, credential, pairing_url, ignore_ssl_errors })
}

fn grpc_config_from_env(env: &AstarteEnv) -> (r: Result<GrpcConfigBuilder, EnvError>)
    ensures
        r == grpc_from_env(*env),
{
    let endpoint = required(&env.msghub_endpoint, EnvKey::MsghubEndpoint)?;
    let node_id = match &env.msghub_node_id {
        EnvVar::Present(t) => match parse_uuid(t.as_str()) {
            Some(id) => id,
            None => {
                return Err(EnvError::InvalidNodeId);
            },
        },
        EnvVar::NotPresent => DEFAULT_STREAM_NODE_ID,
        EnvVar::NotUnicode => {
            return Err(EnvError::Var(EnvKey::MsghubNodeId));
        },
    };
    Ok(GrpcConfigBuilder { node_id, endpoint })
}

impl Default for ConnectionConfigBuilder {
    fn default() -> (r: Self)
        ensures
            r.astarte_connection is None,
            r.store_directory is None,
            r.mqtt_config is None,
            r.grpc_config is None,
    {
        ConnectionConfigBuilder {
            astarte_connection: None,
            store_directory: None,
            mqtt_config: None,
            grpc_config: None,
        }
    }
}

impl ConnectionConfigBuilder {
    /// Settings where only the transport is chosen.
    pub fn with_connection(connection: AstarteConnection) -> (r: Self)
        ensures
            r.astarte_connection == Some(connection),
            r.store_directory is None,
            r.mqtt_config is None,
            r.grpc_config is None,
    {
        ConnectionConfigBuilder {
            astarte_connection: Some(connection),
            store_directory: None,
            mqtt_config: None,
            grpc_config: None,
        }
    }

    /// The settings that `env` describes: the transport, the store
    /// directory and the chosen transport's settings; the other transport's
    /// settings stay absent. Combining them with settings from other sources
    /// is left to [`ConnectionConfigBuilder::merge`].
    pub fn try_from_env(env: &AstarteEnv) -> (r: Result<Self, EnvError>)
        ensures
            match connection_from_env(*env) {
                Err(e) => r == Err::<Self, EnvError>(e),
                Ok(c) => match env.store_directory {
                    EnvVar::Present(dir) => match c {
                        AstarteConnection::Mqtt => match mqtt_from_env(*env) {
                            Ok(m) => r == Ok::<Self, EnvError>(
                                ConnectionConfigBuilder {
                                    astarte_connection: Some(c),
                                    store_directory: Some(dir),
                                    mqtt_config: Some(m),
                                    grpc_config: None,
                                },
                            ),
                            Err(e) => r == Err::<Self, EnvError>(e),
                        },
                        AstarteConnection::Grpc => match grpc_from_env(*env) {
                            Ok(g) => r == Ok::<Self, EnvError>(
                                ConnectionConfigBuilder {
                                    astarte_connection: Some(c),
                                    store_directory: Some(dir),
                                    mqtt_config: None,
                                    grpc_config: Some(g),
                                },
                            ),
                            Err(e) => r == Err::<Self, EnvError>(e),
                        },
                    },
                    _ => r == Err::<Self, EnvError>(EnvError::Var(EnvKey::StoreDirectory)),
                },
            },
    {
        let name = required(&env.connection, EnvKey::Connection)?;
        let connection = match AstarteConnection::from_name(name.as_str()) {
            Some(c) => c,
            None => {
                return Err(EnvError::InvalidConnection);
            },
        };
        let store_directory = required(&env.store_directory, EnvKey::StoreDirectory)?;
        let mut builder = ConnectionConfigBuilder::with_connection(connection);
        builder.store_directory = Some(store_directory);
        match connection {
            AstarteConnection::Mqtt => {
                builder.mqtt_config = Some(mqtt_config_from_env(env)?);
            },
            AstarteConnection::Grpc => {
                builder.grpc_config = Some(grpc_config_from_env(env)?);
            },
        }
        Ok(builder)
    }

    /// The identity and endpoint that these settings give, as a
    /// configuration fragment: for MQTT the device id and the pairing URL,
    /// for gRPC the node id and the message hub endpoint.
    pub fn identity_fragment<S>(&self) -> (r: ConfigFragment<S>)
        ensures
            r.interface is None,
            r.math_function is None,
            r.interval is None,
            r.scale is None,
            match (self.astarte_connection, self.mqtt_config, self.grpc_config) {
                (Some(AstarteConnection::Mqtt), Some(m), _) => r.device_id == Some(m.device_id)
                    && r.endpoint == Some(m.pairing_url),
                (Some(AstarteConnection::Grpc), _, Some(g)) => (r.device_id matches Some(d) && d@
                    == uuid_text(g.node_id)) && r.endpoint == Some(g.endpoint),
                _ => r.device_id is None && r.endpoint is None,
            },
    {
        let mut fragment = ConfigFragment::empty();
        match (&self.astarte_connection, &self.mqtt_config, &self.grpc_config) {
            (Some(AstarteConnection::Mqtt), Some(m), _) => {
                fragment.device_id = Some(m.device_id.clone());
                fragment.endpoint = Some(m.pairing_url.clone());
            },
            (Some(AstarteConnection::Grpc), _, Some(g)) => {
                fragment.device_id = Some(format_uuid(g.node_id));
                fragment.endpoint = Some(g.endpoint.clone());
            },
            _ => {},
        }
        fragment
    }

    /// Fills the settings that `self` lacks from `low`, a source of lower
    /// precedence.
    pub fn merge(self, low: Self) -> (r: Self)
        ensures
            r.astarte_connection == (if self.astarte_connection is Some {
                self.astarte_connection
            } else {
                low.astarte_connection
            }),
            r.store_directory == (if self.store_directory is Some {
                self.store_directory
            } else {
                low.store_directory
            }),
            r.mqtt_config == (if self.mqtt_config is Some {
                self.mqtt_config
            } else {
                low.mqtt_config
            }),
            r.grpc_config == (if self.grpc_config is Some {
                self.grpc_config
            } else {
                low.grpc_config
            }),
    {
        ConnectionConfigBuilder {
            astarte_connection: match self.astarte_connection {
                Some(v) => Some(v),
                None => low.astarte_connection,
            },
            store_directory: match self.store_directory {
                Some(v) => Some(v),
                None => low.store_directory,
            },
            mqtt_config: match self.mqtt_config {
                Some(v) => Some(v),
                None => low.mqtt_config,
            },
            grpc_config: match self.grpc_config {
                Some(v) => Some(v),
                None => low.grpc_config,
            },
        }
    }

    /// Checks that the settings are complete for the chosen transport;
    /// names every missing setting.
    pub fn build(self) -> (r: Result<ConnectionConfig, BuildError>)
        ensures
            built(self, r),
    {
        let mut missing: Vec<ConnectionSetting> = Vec::new();
        if self.astarte_connection.is_none() {
            missing.push(ConnectionSetting::Connection);
        }
        if self.store_directory.is_none() {
            missing.push(ConnectionSetting::StoreDirectory);
        }
        match (self.astarte_connection, &self.mqtt_config, &self.grpc_config) {
            (Some(AstarteConnection::Mqtt), None, _) => missing.push(ConnectionSetting::MqttConfig),
            (Some(AstarteConnection::Grpc), _, None) => missing.push(ConnectionSetting::GrpcConfig),
            _ => {},
        }
        assert(missing@ =~= missing_settings(self));
        match (self.astarte_connection, self.store_directory, self.mqtt_config, self.grpc_config) {
            (Some(AstarteConnection::Mqtt), Some(store_directory), Some(config), _) => Ok(
                ConnectionConfig::Mqtt { store_directory, config },
            ),
            (Some(AstarteConnection::Grpc), Some(store_directory), _, Some(config)) => Ok(
                ConnectionConfig::Grpc { store_directory, config },
            ),
            _ => Err(BuildError::Missing(missing)),
        }
    }
}

} // verus!
