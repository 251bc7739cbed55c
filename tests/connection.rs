use stream_rust_test::astarte::{
    AstarteConnection, AstarteEnv, BuildError, ConnectionConfig, ConnectionConfigBuilder,
    ConnectionSetting, Credential, EnvError, EnvKey, EnvVar, GrpcConfigBuilder,
    DEFAULT_STREAM_NODE_ID,
};
use stream_rust_test::resolve::ConfigFragment;

fn var(s: &str) -> EnvVar {
    EnvVar::Present(s.to_string())
}

fn mqtt_env() -> AstarteEnv {
    AstarteEnv {
        connection: var("MQTT"),
        store_directory: var("/tmp/store"),
        device_id: var("device-1"),
        realm: var("test"),
        pairing_url: var("http://api.example/pairing"),
        ignore_ssl_errors: var("true"),
        credentials_secret: EnvVar::NotPresent,
        pairing_token: var("SECRET-REDACTED"),
        msghub_endpoint: EnvVar::NotPresent,
        msghub_node_id: EnvVar::NotPresent,
    }
}

fn grpc_env(node_id: EnvVar) -> AstarteEnv {
    AstarteEnv {
        connection: var("grpc"),
        store_directory: var("/tmp/store"),
        device_id: EnvVar::NotPresent,
        realm: EnvVar::NotPresent,
        pairing_url: EnvVar::NotPresent,
        ignore_ssl_errors: EnvVar::NotPresent,
        credentials_secret: EnvVar::NotPresent,
        pairing_token: EnvVar::NotPresent,
        msghub_endpoint: var("http://[::1]:50051"),
        msghub_node_id: node_id,
    }
}

#[test]
fn test_connection_config_builder_build_failures() {
    // empty config builder cannot build successfully
    let cfg_builder = ConnectionConfigBuilder::default().build();
    assert!(cfg_builder.is_err());

    // cannot build successfully only with astarte connection and store path information
    let cfg_builder = ConnectionConfigBuilder {
        astarte_connection: Some(AstarteConnection::Mqtt),
        store_directory: Some("stream-rust-test-tests".to_string()),
        mqtt_config: Default::default(),
        grpc_config: Default::default(),
    };
    let res = cfg_builder.build();
    assert!(res.is_err());
}

fn missing(b: &ConnectionConfigBuilder) -> Option<Vec<ConnectionSetting>> {
    match b.clone().build() {
        Err(BuildError::Missing(v)) => Some(v),
        Ok(_) => None,
    }
}

#[test]
fn build_errors_name_everything_missing() {
    let mut b = ConnectionConfigBuilder::default();
    assert_eq!(
        missing(&b),
        Some(vec![ConnectionSetting::Connection, ConnectionSetting::StoreDirectory])
    );
    b.astarte_connection = Some(AstarteConnection::Grpc);
    assert_eq!(
        missing(&b),
        Some(vec![ConnectionSetting::StoreDirectory, ConnectionSetting::GrpcConfig])
    );
    b.store_directory = Some("/tmp/store".to_string());
    assert_eq!(missing(&b), Some(vec![ConnectionSetting::GrpcConfig]));
    b.astarte_connection = Some(AstarteConnection::Mqtt);
    assert_eq!(missing(&b), Some(vec![ConnectionSetting::MqttConfig]));
    b.grpc_config = Some(GrpcConfigBuilder { node_id: 1, endpoint: "e".to_string() });
    b.astarte_connection = Some(AstarteConnection::Grpc);
    assert!(matches!(b.build(), Ok(ConnectionConfig::Grpc { .. })));
}

#[test]
fn connection_names() {
    assert_eq!(AstarteConnection::from_name("MqTt"), Some(AstarteConnection::Mqtt));
    assert_eq!(AstarteConnection::from_name("grpc"), Some(AstarteConnection::Grpc));
    assert_eq!(AstarteConnection::from_name("http"), None);
    assert_eq!(AstarteConnection::Grpc.name(), "grpc");
    assert_eq!(AstarteConnection::default(), AstarteConnection::Mqtt);
    assert!(AstarteConnection::Mqtt < AstarteConnection::Grpc);
}

#[test]
fn mqtt_settings_from_env() {
    let b = ConnectionConfigBuilder::try_from_env(&mqtt_env()).expect("complete environment");
    assert!(b.grpc_config.is_none());
    assert_eq!(b.astarte_connection, Some(AstarteConnection::Mqtt));
    assert_eq!(b.store_directory.as_deref(), Some("/tmp/store"));
    let m = b.mqtt_config.clone().expect("mqtt settings");
    assert_eq!(m.device_id, "device-1");
    assert_eq!(m.credential, Credential::PairingToken("SECRET-REDACTED".to_string()));
    assert!(m.ignore_ssl_errors);
    let c = b.build().expect("complete settings");
    assert!(matches!(c, ConnectionConfig::Mqtt { .. }));
}

#[test]
fn env_errors_are_named() {
    let mut env = mqtt_env();
    env.pairing_token = EnvVar::NotPresent;
    assert_eq!(
        ConnectionConfigBuilder::try_from_env(&env).err(),
        Some(EnvError::Var(EnvKey::PairingToken))
    );
    env.credentials_secret = var("s3");
    assert!(ConnectionConfigBuilder::try_from_env(&env).is_ok());
    env.store_directory = EnvVar::NotPresent;
    assert_eq!(
        ConnectionConfigBuilder::try_from_env(&env).err(),
        Some(EnvError::Var(EnvKey::StoreDirectory))
    );
    env.connection = var("carrier-pigeon");
    assert_eq!(
        ConnectionConfigBuilder::try_from_env(&env).err(),
        Some(EnvError::InvalidConnection)
    );
    env.connection = EnvVar::NotUnicode;
    assert_eq!(
        ConnectionConfigBuilder::try_from_env(&env).err(),
        Some(EnvError::Var(EnvKey::Connection))
    );
}

#[test]
fn grpc_node_id_from_env() {
    let b = ConnectionConfigBuilder::try_from_env(&grpc_env(EnvVar::NotPresent)).expect("default node id");
    assert_eq!(b.grpc_config.as_ref().map(|g| g.node_id), Some(DEFAULT_STREAM_NODE_ID));
    assert!(b.mqtt_config.is_none());

    let b = ConnectionConfigBuilder::try_from_env(&grpc_env(var("67e55044-10b1-426f-9247-bb680e5fe0c8")))
        .expect("valid node id");
    assert_eq!(
        b.grpc_config.as_ref().map(|g| g.node_id),
        Some(0x67e55044_10b1_426f_9247_bb680e5fe0c8)
    );

    assert_eq!(
        ConnectionConfigBuilder::try_from_env(&grpc_env(var("not-a-uuid"))).err(),
        Some(EnvError::InvalidNodeId)
    );
    assert_eq!(
        ConnectionConfigBuilder::try_from_env(&grpc_env(EnvVar::NotUnicode)).err(),
        Some(EnvError::Var(EnvKey::MsghubNodeId))
    );
}

#[test]
fn identity_comes_from_chosen_transport() {
    let b = ConnectionConfigBuilder::try_from_env(&grpc_env(EnvVar::NotPresent)).expect("complete environment");
    let f: ConfigFragment<f64> = b.identity_fragment();
    assert_eq!(f.device_id.as_deref(), Some("d72a6187-7cf1-44cc-87e8-e991936166dc"));
    assert_eq!(f.endpoint.as_deref(), Some("http://[::1]:50051"));

    let b = ConnectionConfigBuilder::try_from_env(&mqtt_env()).expect("complete environment");
    let f: ConfigFragment<f64> = b.identity_fragment();
    assert_eq!(f.device_id.as_deref(), Some("device-1"));
    assert_eq!(f.endpoint.as_deref(), Some("http://api.example/pairing"));
}

#[test]
fn merge_prefers_higher_source() {
    let cli = ConnectionConfigBuilder::with_connection(AstarteConnection::Grpc);
    let env = ConnectionConfigBuilder::try_from_env(&mqtt_env()).expect("complete environment");
    let m = cli.merge(env);
    assert_eq!(m.astarte_connection, Some(AstarteConnection::Grpc));
    assert_eq!(m.store_directory.as_deref(), Some("/tmp/store"));
    assert!(m.mqtt_config.is_some());
    let f: ConfigFragment<f64> = m.identity_fragment();
    assert_eq!(f.device_id, None);
    assert_eq!(
        m.build().err(),
        Some(BuildError::Missing(vec![ConnectionSetting::GrpcConfig]))
    );
}
