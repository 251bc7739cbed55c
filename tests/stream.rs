use stream_rust_test::config::{
    ConfigUpdate, EventValue, StreamConfig, StreamConfigUpdate, StreamState, UpdateError,
};
use stream_rust_test::manager::{StreamAction, StreamEvent};
use stream_rust_test::math::MathFunction;
use stream_rust_test::StreamManager;

fn stream(math_function: MathFunction, scale: f64, interval: u64, on: bool) -> StreamConfig<f64> {
    StreamConfig {
        state: if on { StreamState::On } else { StreamState::Off },
        interface: "org.astarte-platform.genericsensors.Values".to_string(),
        math_function,
        scale,
        interval,
        value: 0.0,
    }
}

fn received(path: &str, value: EventValue<f64>) -> StreamEvent<f64> {
    StreamEvent::Received { path: path.to_string(), value }
}

fn tick(next_value: f64) -> StreamEvent<f64> {
    StreamEvent::TimerFired { next_value }
}

#[test]
fn toggle_switches_state() {
    let mut s = StreamState::default();
    assert!(s.is_on());
    s.toggle();
    assert!(!s.is_on());
    s.toggle();
    assert!(s.is_on());
}

#[test]
fn waveform_names() {
    assert_eq!(MathFunction::RandomSpikesSin.name(), "random spikes sin");
    assert_eq!(MathFunction::NoiseSin.value_name(), "noise-sin");
    assert_eq!(MathFunction::from_value_name("noise-sin"), Some(MathFunction::NoiseSin));
    assert_eq!(MathFunction::from_value_name("sinc"), Some(MathFunction::Sinc));
    assert_eq!(MathFunction::from_value_name("noise sin"), None);
    assert!(!MathFunction::Random.is_deterministic());
    assert!(MathFunction::Rect.is_deterministic());
}

#[test]
fn update_cfg_changes_one_field() {
    let mut s = stream(MathFunction::Sin, 1.0, 1000, true);
    s.update_cfg(StreamConfigUpdate::function("s".to_string(), MathFunction::Rect));
    assert_eq!(s.math_function, MathFunction::Rect);
    s.update_cfg(StreamConfigUpdate::interval("s".to_string(), 20));
    assert_eq!(s.interval, 20);
    s.update_cfg(StreamConfigUpdate::scale("s".to_string(), 0.5));
    assert_eq!(s.scale, 0.5);
    s.update_cfg(StreamConfigUpdate::toggle_state("s".to_string()));
    assert!(!s.is_on());
    assert_eq!(s.math_function, MathFunction::Rect);
}

#[test]
fn events_become_updates() {
    let u = StreamConfigUpdate::from_event("/sensor_1/function", EventValue::<f64>::Text("saw".to_string()))
        .expect("valid function update");
    assert_eq!(u.sensor_id, "sensor_1");
    assert!(matches!(u.update, ConfigUpdate::Function(MathFunction::Saw)));
    let u = StreamConfigUpdate::from_event("/s/interval", EventValue::<f64>::Integer(250)).expect("valid interval");
    assert!(matches!(u.update, ConfigUpdate::Interval(250)));
    let u = StreamConfigUpdate::from_event("/s/scale", EventValue::Scalar(2.5)).expect("valid scale");
    assert!(matches!(u.update, ConfigUpdate::Scale(x) if x == 2.5));
    let u = StreamConfigUpdate::from_event("/s/toggle", EventValue::<f64>::Other).expect("valid toggle");
    assert!(matches!(u.update, ConfigUpdate::State));
}

#[test]
fn malformed_events_are_refused() {
    let e = |path: &str, v: EventValue<f64>| StreamConfigUpdate::from_event(path, v).err();
    assert_eq!(e("no-slash", EventValue::Other), Some(UpdateError::MissingSensorId));
    assert_eq!(e("/s", EventValue::Other), Some(UpdateError::UnknownEndpoint));
    assert_eq!(e("/s/volume", EventValue::Integer(3)), Some(UpdateError::UnknownEndpoint));
    assert_eq!(e("/s/toggle/x", EventValue::Other), Some(UpdateError::UnknownEndpoint));
    assert_eq!(e("/s/interval", EventValue::Text("5".to_string())), Some(UpdateError::WrongType));
    assert_eq!(e("/s/function", EventValue::Text("square".to_string())), Some(UpdateError::UnknownFunction));
    assert_eq!(e("/s/interval", EventValue::Integer(0)), Some(UpdateError::InvalidInterval));
    assert_eq!(e("/s/interval", EventValue::Integer(-5)), Some(UpdateError::InvalidInterval));
}

#[test]
fn resume_after_interval_change_uses_new_interval() {
    let mut m = StreamManager::new(stream(MathFunction::Sin, 1.0, 1000, false));
    assert_eq!(m.step(tick(1.0)), StreamAction::Skip);
    assert_eq!(m.step(received("/s/interval", EventValue::Integer(2000))), StreamAction::Applied);
    assert_eq!(m.step(received("/s/toggle", EventValue::Other)), StreamAction::Applied);
    assert_eq!(m.next_timeout(), 2000);
    assert_eq!(
        m.step(tick(1.0)),
        StreamAction::Emit { function: MathFunction::Sin, value: 0.0 }
    );
}

#[test]
fn emissions_follow_running_ticks() {
    let mut m = StreamManager::new(stream(MathFunction::Const, 1.0, 10, true));
    let events = vec![
        tick(1.0),
        tick(2.0),
        received("/s/toggle", EventValue::Other),
        tick(3.0),
        received("/s/scale", EventValue::Scalar(5.0)),
        received("/s/bogus", EventValue::Other),
        tick(4.0),
        received("/s/toggle", EventValue::Other),
        tick(5.0),
        StreamEvent::ReceiveFailed,
    ];
    let mut emitted = Vec::new();
    let mut applied = 0;
    for e in events {
        match m.step(e) {
            StreamAction::Emit { value, .. } => emitted.push(value),
            StreamAction::Applied => applied += 1,
            _ => {}
        }
    }
    assert_eq!(emitted, vec![0.0, 1.0, 2.0]);
    assert_eq!(applied, 3);
    assert_eq!(m.stream_cfg().scale, 5.0);
    assert_eq!(m.step(StreamEvent::Disconnected), StreamAction::Shutdown);
}

#[test]
fn zero_scale_keeps_the_phase() {
    let mut m = StreamManager::new(stream(MathFunction::Sin, 1.0, 1000, true));
    let advance = |m: &StreamManager<f64>| {
        let c = m.stream_cfg();
        c.value + 2.0 * std::f64::consts::PI * c.scale * 0.37
    };
    let next = advance(&m);
    match m.step(tick(next)) {
        StreamAction::Emit { function, value } => {
            assert_eq!(function, MathFunction::Sin);
            assert_eq!(value.sin(), 0.0);
        }
        other => panic!("unexpected action {other:?}"),
    }
    m.step(received("/s/scale", EventValue::Scalar(0.0)));
    let phase = m.stream_cfg().value;
    for _ in 0..3 {
        let next = advance(&m);
        match m.step(tick(next)) {
            StreamAction::Emit { value, .. } => assert_eq!(value, phase),
            other => panic!("unexpected action {other:?}"),
        }
    }
    assert_eq!(m.stream_cfg().value, phase);
}

#[test]
fn receive_data_discards_what_it_does_not_understand() {
    let mut m = StreamManager::new(stream(MathFunction::Sin, 1.0, 1000, true));
    assert_eq!(m.receive_data("/s/function", EventValue::Text("rect".to_string())), Ok(()));
    assert_eq!(m.stream_cfg().math_function, MathFunction::Rect);
    assert_eq!(m.receive_data("/s/volume", EventValue::Integer(3)), Ok(()));
    assert_eq!(m.receive_data("/s/interval", EventValue::Text("5".to_string())), Ok(()));
    assert_eq!(m.receive_data("/s/interval", EventValue::Integer(-5)), Ok(()));
    assert_eq!(m.receive_data("no-sensor", EventValue::Other), Ok(()));
    assert_eq!(m.receive_data("/s/scale", EventValue::Integer(1)), Ok(()));
    let c = m.stream_cfg();
    assert_eq!(c.math_function, MathFunction::Rect);
    assert_eq!(c.interval, 1000);
    assert_eq!(c.scale, 1.0);
    assert!(c.is_on());
    assert_eq!(
        m.step(StreamEvent::Received { path: "/s/volume".to_string(), value: EventValue::Other }),
        StreamAction::Discarded(UpdateError::UnknownEndpoint)
    );
}

#[test]
fn default_waveform_is_the_harmonic_sum() {
    assert_eq!(MathFunction::default(), MathFunction::Default);
}
