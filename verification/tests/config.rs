use std::time::Duration;

use displays_mqtt_bridge::config::{
    configured_client_id, default_mqtt_port, default_mqtt_protocol, default_update_interval_secs,
    mqtt_options, mqtt_settings, mqtt_transport_tls, update_interval, validate_config, Config,
    ConfigError, MqttConfig,
};
use rumqttc::{TlsConfiguration, Transport};
use uuid::Uuid;

fn config_with(protocol: &str, client_id: Option<&str>, username: Option<&str>, password: Option<&str>) -> Config {
    Config {
        mqtt: MqttConfig {
            protocol: protocol.to_owned(),
            host: "broker.example.test".to_owned(),
            port: 1883,
            client_id: client_id.map(str::to_owned),
            username: username.map(str::to_owned),
            password: password.map(str::to_owned),
        },
        topic: "screens/office".to_owned(),
        update_interval_secs: 60,
    }
}

#[test]
fn mqtt_configuration_uses_the_configured_client_id() {
    let config = Config {
        mqtt: MqttConfig {
            protocol: "mqtt".to_owned(),
            host: "broker.example.test".to_owned(),
            port: 1883,
            client_id: Some("screen-controller".to_owned()),
            username: None,
            password: None,
        },
        topic: "screens/office".to_owned(),
        update_interval_secs: 60,
    };

    let options = mqtt_options(&config).unwrap();
    assert_eq!(options.client_id(), "screen-controller");
    assert_eq!(
        options.broker_address(),
        ("broker.example.test".to_owned(), 1883)
    );
    assert_eq!(update_interval(&config), Duration::from_secs(60));
}

#[test]
fn mqtt_configuration_generates_a_client_id_when_omitted() {
    let config = Config {
        mqtt: MqttConfig {
            protocol: "mqtt".to_owned(),
            host: "broker.example.test".to_owned(),
            port: 1883,
            client_id: None,
            username: None,
            password: None,
        },
        topic: "screens/office".to_owned(),
        update_interval_secs: 60,
    };

    let options = mqtt_options(&config).unwrap();
    assert!(Uuid::parse_str(&options.client_id()).is_ok());
}

#[test]
fn defaults_match_the_documentation() {
    assert_eq!(default_update_interval_secs(), 60);
    assert_eq!(default_mqtt_protocol(), "mqtt");
    assert_eq!(default_mqtt_port(), 1883);
}

#[test]
fn whitespace_client_id_is_replaced_by_a_uuid() {
    let config = config_with("mqtt", Some(" \t "), None, None);
    assert_eq!(configured_client_id(&config.mqtt), None);
    let options = mqtt_options(&config).unwrap();
    let id = options.client_id();
    assert_eq!(id.len(), 36);
    assert!(Uuid::parse_str(&id).is_ok());
}

#[test]
fn protocols_and_their_aliases() {
    assert_eq!(mqtt_transport_tls(&"mqtt".to_owned()), Ok(false));
    assert_eq!(mqtt_transport_tls(&"tcp".to_owned()), Ok(false));
    assert_eq!(mqtt_transport_tls(&"mqtts".to_owned()), Ok(true));
    assert_eq!(mqtt_transport_tls(&"ssl".to_owned()), Ok(true));
    assert_eq!(
        mqtt_transport_tls(&"ws".to_owned()),
        Err(ConfigError::UnsupportedProtocol("ws".to_owned()))
    );
}

#[test]
fn unsupported_protocol_message_quotes_the_protocol() {
    let err = mqtt_options(&config_with("http", None, None, None)).unwrap_err();
    assert_eq!(err.message(), "unsupported MQTT protocol \"http\"; use mqtt or mqtts");
}

#[test]
fn credentials_must_come_in_pairs() {
    let err = mqtt_settings(&config_with("mqtt", None, Some("user"), None)).unwrap_err();
    assert_eq!(err, ConfigError::UnpairedCredentials);
    assert_eq!(
        err.message(),
        "username and password must either both be set or both be omitted"
    );
    assert!(mqtt_options(&config_with("mqtt", None, None, Some("secret"))).is_err());
    let settings = mqtt_settings(&config_with("mqtts", Some("id"), Some("user"), Some("secret"))).unwrap();
    assert_eq!(settings.credentials, Some(("user".to_owned(), "secret".to_owned())));
    assert!(settings.tls);
    assert_eq!(settings.keep_alive_secs, 30);
    assert_eq!(settings.client_id.as_deref(), Some("id"));
    let options = mqtt_options(&config_with("mqtts", Some("id"), Some("user"), Some("secret"))).unwrap();
    assert_eq!(options.credentials(), Some(("user".to_owned(), "secret".to_owned())));
    assert_eq!(options.keep_alive(), Duration::from_secs(30));
}

#[test]
fn protocol_is_checked_before_credentials() {
    let err = mqtt_settings(&config_with("bogus", None, Some("user"), None)).unwrap_err();
    assert_eq!(err, ConfigError::UnsupportedProtocol("bogus".to_owned()));
}

#[test]
fn topic_of_slashes_only_is_refused() {
    let mut config = config_with("mqtt", None, None, None);
    config.topic = "///".to_owned();
    let err = validate_config(config).unwrap_err();
    assert_eq!(err, ConfigError::EmptyTopic);
    assert_eq!(err.message(), "topic must not be empty");
}

#[test]
fn zero_update_interval_is_refused() {
    let mut config = config_with("mqtt", None, None, None);
    config.update_interval_secs = 0;
    let err = validate_config(config).unwrap_err();
    assert_eq!(err.message(), "update_interval_secs must be greater than zero");
}

#[test]
fn a_valid_configuration_is_kept() {
    let mut config = config_with("mqtt", None, None, None);
    config.topic = "/screens/office/".to_owned();
    let accepted = validate_config(config).unwrap();
    assert_eq!(accepted.topic, "/screens/office/");
}

#[test]
fn transport_follows_the_protocol_and_keeps_the_port() {
    for protocol in ["mqtts", "ssl"] {
        let options = mqtt_options(&config_with(protocol, Some("id"), None, None)).unwrap();
        assert!(matches!(options.transport(), Transport::Tls(TlsConfiguration::Native)));
        assert_eq!(options.broker_address(), ("broker.example.test".to_owned(), 1883));
    }
    for protocol in ["mqtt", "tcp"] {
        let options = mqtt_options(&config_with(protocol, Some("id"), None, None)).unwrap();
        assert!(matches!(options.transport(), Transport::Tcp));
    }
}

#[test]
fn omitted_credentials_stay_omitted_and_ids_stay_verbatim() {
    let options = mqtt_options(&config_with("mqtt", Some(" spaced id "), None, None)).unwrap();
    assert_eq!(options.credentials(), None);
    assert_eq!(options.client_id(), " spaced id ");
    assert_eq!(options.keep_alive(), Duration::from_secs(30));
}

#[test]
fn generated_client_id_is_a_version_four_uuid() {
    let options = mqtt_options(&config_with("mqtt", Some(""), None, None)).unwrap();
    let id = options.client_id();
    assert_eq!(id.chars().nth(14), Some('4'));
    assert_eq!(Uuid::parse_str(&id).unwrap().get_version_num(), 4);
}
