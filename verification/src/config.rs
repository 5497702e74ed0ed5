use std::time::Duration;

use rumqttc::{MqttOptions, TlsConfiguration, Transport};
use vstd::prelude::*;
use vstd::string::*;

use crate::text::{blank, debug_quote, debug_quoted, is_blank, str_eq, trim_slashes, without_slashes};

verus! {

/// The service configuration.
#[derive(Debug, PartialEq, Eq)]
pub struct Config {
    pub mqtt: MqttConfig,
    pub topic: String,
    pub update_interval_secs: u64,
}

/// How to reach the MQTT broker.
#[derive(Debug, PartialEq, Eq)]
pub struct MqttConfig {
    pub protocol: String,
    pub host: String,
    pub port: u16,
    pub client_id: Option<String>,
    pub username: Option<String>,
    pub password: Option<String>,
}

/// Seconds between scheduled value refreshes when the configuration names none.
pub fn default_update_interval_secs() -> (secs: u64)
    ensures
        secs == 60,
{
    60
}

/// The broker protocol when the configuration names none.
pub fn default_mqtt_protocol() -> (protocol: String)
    ensures
        protocol@ == "mqtt"@,
{
    "mqtt".to_owned()
}

/// The broker port when the configuration names none.
pub fn default_mqtt_port() -> (port: u16)
    ensures
        port == 1883,
{
    1883
}

/// The span of `secs` whole seconds, as `Duration::from_secs` makes it.
pub uninterp spec fn whole_seconds(secs: u64) -> Duration;

/// `Duration::from_secs`: a span of whole seconds, which depends on `secs` alone. What
/// `Duration` holds inside is not stated.
#[verifier::external_body]
fn seconds(secs: u64) -> (d: Duration)
    ensures
        d == whole_seconds(secs),
{
    Duration::from_secs(secs)
}

/// The time between scheduled value refreshes: `update_interval_secs` seconds.
pub fn update_interval(config: &Config) -> (d: Duration)
    ensures
        d == whole_seconds(config.update_interval_secs),
{
    seconds(config.update_interval_secs)
}

/// Why a configuration is refused.
#[derive(Debug, PartialEq, Eq)]
pub enum ConfigError {
    /// The topic is empty once leading and trailing slashes are removed.
    EmptyTopic,
    /// The refresh interval is zero.
    ZeroUpdateInterval,
    /// The MQTT protocol is none of `mqtt`, `tcp`, `mqtts`, `ssl`.
    UnsupportedProtocol(String),
    /// Only one of user name and password is set.
    UnpairedCredentials,
}

impl ConfigError {
    /// The text of the error.
    pub open spec fn text(&self) -> Seq<char> {
        match self {
            ConfigError::EmptyTopic => "topic must not be empty"@,
            ConfigError::ZeroUpdateInterval => "update_interval_secs must be greater than zero"@,
            ConfigError::UnsupportedProtocol(p) => "unsupported MQTT protocol "@ + debug_quoted(p@)
                + "; use mqtt or mqtts"@,
            ConfigError::UnpairedCredentials =>
                "username and password must either both be set or both be omitted"@,
        }
    }

    /// The error message.
    pub fn message(&self) -> (m: String)
        ensures
            m@ == self.text(),
    {
        match self {
            ConfigError::EmptyTopic => "topic must not be empty".to_owned(),
            ConfigError::ZeroUpdateInterval => "update_interval_secs must be greater than zero".to_owned(),
            ConfigError::UnsupportedProtocol(p) => {
                let mut m = "unsupported MQTT protocol ".to_owned();
                let quoted = debug_quote(p.as_str());
                m.append(quoted.as_str());
                m.append("; use mqtt or mqtts");
                m
            },
            ConfigError::UnpairedCredentials => {
                "username and password must either both be set or both be omitted".to_owned()
            },
        }
    }
}

/// The check a loaded configuration has to pass, if it fails one.
pub open spec fn config_problem(config: Config) -> Option<ConfigError> {
    if without_slashes(config.topic@).len() == 0 {
        Some(ConfigError::EmptyTopic)
    } else if config.update_interval_secs == 0 {
        Some(ConfigError::ZeroUpdateInterval)
    } else {
        None
    }
}

/// Accepts a loaded configuration whose topic is not empty once slashes are trimmed and whose
/// refresh interval is positive.
pub fn validate_config(config: Config) -> (r: Result<Config, ConfigError>)
    ensures
        match config_problem(config) {
            Some(e) => r == Err::<Config, ConfigError>(e),
            None => r == Ok::<Config, ConfigError>(config),
        },
{
    let trimmed = trim_slashes(config.topic.as_str());
    if trimmed.unicode_len() == 0 {
        return Err(ConfigError::EmptyTopic);
    }
    if config.update_interval_secs == 0 {
        return Err(ConfigError::ZeroUpdateInterval);
    }
    Ok(config)
}

/// Whether `protocol` asks for TLS: `Some(false)` for `mqtt`/`tcp`, `Some(true)` for
/// `mqtts`/`ssl`, `None` otherwise.
pub open spec fn protocol_tls(protocol: Seq<char>) -> Option<bool> {
    if protocol == "mqtt"@ || protocol == "tcp"@ {
        Some(false)
    } else if protocol == "mqtts"@ || protocol == "ssl"@ {
        Some(true)
    } else {
        None
    }
}

/// Whether the configured protocol asks for TLS.
pub fn mqtt_transport_tls(protocol: &String) -> (r: Result<bool, ConfigError>)
    ensures
        match protocol_tls(protocol@) {
            Some(tls) => r == Ok::<bool, ConfigError>(tls),
            None => r == Err::<bool, ConfigError>(ConfigError::UnsupportedProtocol(*protocol)),
        },
{
    let p = protocol.as_str();
    if str_eq(p, "mqtt") || str_eq(p, "tcp") {
        Ok(false)
    } else if str_eq(p, "mqtts") || str_eq(p, "ssl") {
        Ok(true)
    } else {
        Err(ConfigError::UnsupportedProtocol(protocol.clone()))
    }
}

/// The configured client id, unless it is missing or white space only.
pub open spec fn configured_id(mqtt: MqttConfig) -> Option<Seq<char>> {
    match mqtt.client_id {
        Some(id) => if is_blank(id@) {
            None
        } else {
            Some(id@)
        },
        None => None,
    }
}

/// The configured client id, unless it is missing or white space only.
pub fn configured_client_id(mqtt: &MqttConfig) -> (id: Option<String>)
    ensures
        match (id, configured_id(*mqtt)) {
            (Some(s), Some(t)) => s@ == t,
            (None, None) => true,
            _ => false,
        },
{
    match &mqtt.client_id {
        Some(id) => if blank(id.as_str()) {
            None
        } else {
            Some(id.clone())
        },
        None => None,
    }
}

/// User name and password, both or neither.
pub open spec fn credentials_paired(mqtt: MqttConfig) -> bool {
    mqtt.username is Some == mqtt.password is Some
}

/// The broker credentials: both set, both omitted, or refused.
pub fn mqtt_credentials(mqtt: &MqttConfig) -> (r: Result<Option<(String, String)>, ConfigError>)
    ensures
        !credentials_paired(*mqtt) ==> r == Err::<Option<(String, String)>, ConfigError>(
            ConfigError::UnpairedCredentials,
        ),
        credentials_paired(*mqtt) ==> match r {
            Ok(Some((u, p))) => mqtt.username == Some(u) && mqtt.password == Some(p),
            Ok(None) => mqtt.username is None,
            Err(_) => false,
        },
{
    match (&mqtt.username, &mqtt.password) {
        (Some(username), Some(password)) => Ok(Some((username.clone(), password.clone()))),
        (None, None) => Ok(None),
        _ => Err(ConfigError::UnpairedCredentials),
    }
}

/// The connection settings derived from a configuration.
#[derive(Debug, PartialEq, Eq)]
pub struct MqttSettings {
    /// The client id to present; `None` asks for a fresh random one.
    pub client_id: Option<String>,
    pub host: String,
    pub port: u16,
    pub tls: bool,
    pub keep_alive_secs: u64,
    pub credentials: Option<(String, String)>,
}

/// Why no connection settings derive from `config`, checking the protocol first.
pub open spec fn settings_problem(config: Config) -> Option<ConfigError> {
    if protocol_tls(config.mqtt.protocol@) is None {
        Some(ConfigError::UnsupportedProtocol(config.mqtt.protocol))
    } else if !credentials_paired(config.mqtt) {
        Some(ConfigError::UnpairedCredentials)
    } else {
        None
    }
}

/// The connection settings of a configuration: transport from the protocol, the configured
/// client id unless blank, a keep-alive of 30 seconds, and the credentials when both are set.
pub fn mqtt_settings(config: &Config) -> (r: Result<MqttSettings, ConfigError>)
    ensures
        match settings_problem(*config) {
            Some(e) => r == Err::<MqttSettings, ConfigError>(e),
            None => r matches Ok(s) && {
                &&& s.host == config.mqtt.host
                &&& s.port == config.mqtt.port
                &&& Some(s.tls) == protocol_tls(config.mqtt.protocol@)
                &&& s.keep_alive_secs == 30
                &&& match (s.client_id, configured_id(config.mqtt)) {
                    (Some(a), Some(b)) => a@ == b,
                    (None, None) => true,
                    _ => false,
                }
                &&& match s.credentials {
                    Some((u, p)) => config.mqtt.username == Some(u) && config.mqtt.password == Some(
                        p,
                    ),
                    None => config.mqtt.username is None && config.mqtt.password is None,
                }
            },
        },
{
    let tls = match mqtt_transport_tls(&config.mqtt.protocol) {
        Ok(tls) => tls,
        Err(e) => return Err(e),
    };
    let client_id = configured_client_id(&config.mqtt);
    let credentials = match mqtt_credentials(&config.mqtt) {
        Ok(c) => c,
        Err(e) => return Err(e),
    };
    Ok(
        MqttSettings {
            client_id,
            host: config.mqtt.host.clone(),
            port: config.mqtt.port,
            tls,
            keep_alive_secs: 30,
            credentials,
        },
    )
}

/// A hyphenated lowercase version-4 UUID: 36 characters, hyphens at 8, 13, 18 and 23, the
/// version digit `4` at 14, lowercase hexadecimal digits elsewhere.
pub open spec fn is_hyphenated_uuid(s: Seq<char>) -> bool {
    &&& s.len() == 36
    &&& forall|i: int|
        0 <= i < 36 ==> if i == 8 || i == 13 || i == 18 || i == 23 {
            #[trigger] s[i] == '-'
        } else {
            ('0' <= s[i] <= '9') || ('a' <= s[i] <= 'f')
        }
    &&& s[14] == '4'
}

/// `Uuid::new_v4().to_string()`: a fresh random UUID in its hyphenated lowercase form. Only the
/// form is stated, since the digits are random.
#[verifier::external_body]
fn new_client_id() -> (id: String)
    ensures
        is_hyphenated_uuid(id@),
{
    uuid::Uuid::new_v4().to_string()
}

#[verifier::external_type_specification]
#[verifier::external_body]
pub struct ExMqttOptions(MqttOptions);

/// The client id the options hold, as `MqttOptions::client_id` reports it.
pub uninterp spec fn options_client_id(options: MqttOptions) -> Seq<char>;

/// The broker host and port the options hold, as `MqttOptions::broker_address` reports them.
pub uninterp spec fn options_broker(options: MqttOptions) -> (Seq<char>, u16);

/// Whether the options' transport is TLS through the platform's native implementation
/// (`Transport::Tls(TlsConfiguration::Native)`); otherwise it is plain TCP.
pub uninterp spec fn options_native_tls(options: MqttOptions) -> bool;

/// The keep-alive interval the options hold, as `MqttOptions::keep_alive` reports it.
pub uninterp spec fn options_keep_alive(options: MqttOptions) -> Duration;

/// User name and password the options hold, as `MqttOptions::credentials` reports them.
pub uninterp spec fn options_credentials(options: MqttOptions) -> Option<(Seq<char>, Seq<char>)>;

/// `MqttOptions::new(id, host, port)`: the given client id and broker address, plain TCP,
/// rumqttc's default keep-alive of 60 seconds and no credentials.
#[verifier::external_body]
fn options_new(id: String, host: &str, port: u16) -> (o: MqttOptions)
    ensures
        options_client_id(o) == id@,
        options_broker(o) == (host@, port),
        !options_native_tls(o),
        options_keep_alive(o) == whole_seconds(60),
        options_credentials(o) is None,
{
    MqttOptions::new(id, host, port)
}

/// `MqttOptions::set_transport` with `Transport::tls_with_config(TlsConfiguration::Native)`:
/// TLS through the platform's native implementation; nothing else changes.
#[verifier::external_body]
fn options_use_native_tls(options: &mut MqttOptions)
    ensures
        options_native_tls(*final(options)),
        options_client_id(*final(options)) == options_client_id(*old(options)),
        options_broker(*final(options)) == options_broker(*old(options)),
        options_keep_alive(*final(options)) == options_keep_alive(*old(options)),
        options_credentials(*final(options)) == options_credentials(*old(options)),
{
    options.set_transport(Transport::tls_with_config(TlsConfiguration::Native));
}

/// `MqttOptions::set_keep_alive` with `Duration::from_secs(secs)`; nothing else changes.
/// rumqttc panics below one second unless zero, which whole seconds never are.
#[verifier::external_body]
fn options_set_keep_alive(options: &mut MqttOptions, secs: u64)
    ensures
        options_keep_alive(*final(options)) == whole_seconds(secs),
        options_client_id(*final(options)) == options_client_id(*old(options)),
        options_broker(*final(options)) == options_broker(*old(options)),
        options_native_tls(*final(options)) == options_native_tls(*old(options)),
        options_credentials(*final(options)) == options_credentials(*old(options)),
{
    options.set_keep_alive(Duration::from_secs(secs));
}

/// `MqttOptions::set_credentials(username, password)`; nothing else changes.
#[verifier::external_body]
fn options_set_credentials(options: &mut MqttOptions, username: &str, password: &str)
    ensures
        options_credentials(*final(options)) == Some((username@, password@)),
        options_client_id(*final(options)) == options_client_id(*old(options)),
        options_broker(*final(options)) == options_broker(*old(options)),
        options_native_tls(*final(options)) == options_native_tls(*old(options)),
        options_keep_alive(*final(options)) == options_keep_alive(*old(options)),
{
    options.set_credentials(username, password);
}

/// The text of optional credentials.
pub open spec fn credentials_text(username: Option<String>, password: Option<String>) -> Option<
    (Seq<char>, Seq<char>),
> {
    match (username, password) {
        (Some(u), Some(p)) => Some((u@, p@)),
        _ => None,
    }
}

/// The rumqttc options of a configuration: `Ok` exactly when `mqtt_settings` accepts it, with
/// the same error otherwise. The options carry the configured client id (a fresh random UUID
/// when it is missing or blank), the configured host and port, native TLS exactly for
/// `mqtts`/`ssl`, a keep-alive of 30 seconds, and the credentials when both are set.
pub fn mqtt_options(config: &Config) -> (r: Result<MqttOptions, ConfigError>)
    ensures
        match settings_problem(*config) {
            Some(e) => r == Err::<MqttOptions, ConfigError>(e),
            None => r matches Ok(o) && {
                &&& options_broker(o) == (config.mqtt.host@, config.mqtt.port)
                &&& match configured_id(config.mqtt) {
                    Some(id) => options_client_id(o) == id,
                    None => is_hyphenated_uuid(options_client_id(o)),
                }
                &&& Some(options_native_tls(o)) == protocol_tls(config.mqtt.protocol@)
                &&& options_keep_alive(o) == whole_seconds(30)
                &&& options_credentials(o) == credentials_text(config.mqtt.username, config.mqtt.password)
            },
        },
{
    let settings = match mqtt_settings(config) {
        Ok(s) => s,
        Err(e) => return Err(e),
    };
    let client_id = match settings.client_id {
        Some(id) => id,
        None => new_client_id(),
    };
    let mut options = options_new(client_id, settings.host.as_str(), settings.port);
    if settings.tls {
        options_use_native_tls(&mut options);
    }
    options_set_keep_alive(&mut options, settings.keep_alive_secs);
    match &settings.credentials {
        Some((username, password)) => options_set_credentials(
            &mut options,
            username.as_str(),
            password.as_str(),
        ),
        None => {},
    }
    Ok(options)
}

} // verus!
