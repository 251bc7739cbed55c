use stream_rust_test::config::{StreamConfig, DEFAULT_INTERFACE};
use stream_rust_test::math::MathFunction;
use stream_rust_test::resolve::{merge_fragments, resolve, ConfigError, ConfigField, ConfigFragment};

fn fragment() -> ConfigFragment<f64> {
    ConfigFragment::empty()
}

fn complete() -> ConfigFragment<f64> {
    let mut f = fragment();
    f.device_id = Some("device".to_string());
    f.endpoint = Some("http://localhost:4000".to_string());
    f.math_function = Some(MathFunction::Saw);
    f.interval = Some(250);
    f.scale = Some(1.5);
    f
}

#[test]
fn higher_precedence_fields_win() {
    let mut cli = fragment();
    cli.interval = Some(500);
    let mut env = fragment();
    env.interval = Some(1000);
    env.scale = Some(2.0);
    let mut file = fragment();
    file.interval = Some(2000);
    file.scale = Some(3.0);
    file.endpoint = Some("x".to_string());

    let merged = merge_fragments(vec![cli, env, file]);
    assert_eq!(merged.interval, Some(500));
    assert_eq!(merged.scale, Some(2.0));
    assert_eq!(merged.endpoint.as_deref(), Some("x"));
    assert_eq!(merged.device_id, None);
}

#[test]
fn missing_fields_are_all_named() {
    let mut file = fragment();
    file.endpoint = Some("x".to_string());
    match resolve(vec![fragment(), fragment(), file]) {
        Err(ConfigError::MissingFields(fields)) => assert_eq!(
            fields,
            vec![
                ConfigField::DeviceId,
                ConfigField::MathFunction,
                ConfigField::Interval,
                ConfigField::Scale
            ]
        ),
        other => panic!("unexpected resolution {other:?}"),
    }
}

#[test]
fn nothing_given_names_every_required_field() {
    match resolve::<f64>(vec![]) {
        Err(ConfigError::MissingFields(fields)) => assert_eq!(
            fields,
            vec![
                ConfigField::DeviceId,
                ConfigField::Endpoint,
                ConfigField::MathFunction,
                ConfigField::Interval,
                ConfigField::Scale
            ]
        ),
        other => panic!("unexpected resolution {other:?}"),
    }
}

#[test]
fn zero_interval_is_refused() {
    let mut cli = fragment();
    cli.interval = Some(0);
    let r = resolve(vec![cli, complete()]);
    assert!(matches!(r, Err(ConfigError::ZeroInterval)));
}

#[test]
fn complete_configuration_resolves() {
    let mut cli = fragment();
    cli.interface = Some("org.example.Values".to_string());
    cli.scale = Some(4.0);
    let c = resolve(vec![cli, complete()]).expect("complete configuration");
    assert_eq!(c.device_id, "device");
    assert_eq!(c.endpoint, "http://localhost:4000");
    assert_eq!(c.interface.as_deref(), Some("org.example.Values"));
    assert_eq!(c.math_function, MathFunction::Saw);
    assert_eq!(c.interval, 250);
    assert_eq!(c.scale, 4.0);
}

#[test]
fn stream_starts_running_from_resolved_configuration() {
    let s = StreamConfig::try_from_cli(vec![complete()], 7.0).expect("complete configuration");
    assert!(s.is_on());
    assert_eq!(s.interface(), DEFAULT_INTERFACE);
    assert_eq!(s.math_function, MathFunction::Saw);
    assert_eq!(s.interval, 250);
    assert_eq!(s.scale, 1.5);
    assert_eq!(s.value, 7.0);
}

#[test]
fn stream_is_not_built_from_incomplete_configuration() {
    let r = StreamConfig::try_from_cli(vec![fragment()], 0.0);
    assert!(matches!(r, Err(ConfigError::MissingFields(_))));
}
