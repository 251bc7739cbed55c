//! Streaming configuration: the live state of the stream and the commands
//! that change it.
//!
//! The scalar type `S` carries the amplitude scale and the phase. The library
//! only stores and moves such values; the arithmetic on them happens where
//! samples are computed.

use vstd::prelude::*;
use vstd::string::StrSliceExecFns;

use crate::resolve::{merged, resolve, validated, ConfigError, ConfigFragment};
use crate::math::{lemma_value_names_distinct, str_eq, value_name, MathFunction};

verus! {

/// Whether the stream is running or paused.
#[derive(Clone, Copy, Debug, PartialEq, Eq, Structural)]
pub enum StreamState {
    /// The stream is sending samples
    On,
    /// The stream is paused
    Off,
}

impl Default for StreamState {
    fn default() -> (r: Self)
        ensures
            r == StreamState::On,
    {
        StreamState::On
    }
}

impl StreamState {
    /// Switch between running and paused.
    pub fn toggle(&mut self)
        ensures
            final(self).spec_is_on() == !old(self).spec_is_on(),
    {
        match self {
            StreamState::On => *self = StreamState::Off,
            StreamState::Off => *self = StreamState::On,
        }
    }

    pub open spec fn spec_is_on(&self) -> bool {
        *self is On
    }

    /// Whether samples are being sent.
    #[verifier::when_used_as_spec(spec_is_on)]
    pub fn is_on(&self) -> (r: bool)
        ensures
            r == self.spec_is_on(),
    {
        matches!(*self, StreamState::On)
    }
}

/// A single change to the stream configuration.
#[derive(Clone, Copy, Debug)]
pub enum ConfigUpdate<S> {
    /// New waveform
    Function(MathFunction),
    /// New interval between two samples, in milliseconds
    Interval(u64),
    /// New scale
    Scale(S),
    /// Switch between running and paused
    State,
}

impl<S> ConfigUpdate<S> {
    /// An update that the stream can take: intervals are positive.
    pub open spec fn is_valid(&self) -> bool {
        !(*self matches ConfigUpdate::Interval(0))
    }
}

/// A configuration change addressed to one sensor.
#[derive(Clone, Debug)]
pub struct StreamConfigUpdate<S> {
    /// Sensor the change was sent for
    pub sensor_id: String,
    /// The change itself
    pub update: ConfigUpdate<S>,
}

impl<S> StreamConfigUpdate<S> {
    /// Switch the stream between running and paused.
    pub fn toggle_state(sensor_id: String) -> (r: Self)
        ensures
            r.sensor_id@ == sensor_id@,
            r.update is State,
    {
        StreamConfigUpdate { sensor_id, update: ConfigUpdate::State }
    }

    /// Select a new waveform.
    pub fn function(sensor_id: String, function: MathFunction) -> (r: Self)
        ensures
            r.sensor_id@ == sensor_id@,
            r.update == ConfigUpdate::<S>::Function(function),
    {
        StreamConfigUpdate { sensor_id, update: ConfigUpdate::Function(function) }
    }

    /// Set a new interval between samples.
    pub fn interval(sensor_id: String, interval: u64) -> (r: Self)
        ensures
            r.sensor_id@ == sensor_id@,
            r.update == ConfigUpdate::<S>::Interval(interval),
    {
        StreamConfigUpdate { sensor_id, update: ConfigUpdate::Interval(interval) }
    }

    /// Set a new scale.
    pub fn scale(sensor_id: String, scale: S) -> (r: Self)
        ensures
            r.sensor_id@ == sensor_id@,
            r.update == ConfigUpdate::Scale(scale),
    {
        StreamConfigUpdate { sensor_id, update: ConfigUpdate::Scale(scale) }
    }
}

/// Payload of an inbound datastream, as delivered by the transport.
#[derive(Clone, Debug)]
pub enum EventValue<S> {
    /// A string
    Text(String),
    /// An integer
    Integer(i64),
    /// A real number
    Scalar(S),
    /// Any other kind of value
    Other,
}

/// Why an inbound datastream was not turned into a configuration change.
#[derive(Clone, Copy, Debug, PartialEq, Eq, Structural)]
pub enum UpdateError {
    /// The path holds no sensor id
    MissingSensorId,
    /// The path names no known setting
    UnknownEndpoint,
    /// The payload has the wrong type for the setting
    WrongType,
    /// The payload names no waveform
    UnknownFunction,
    /// The interval is not a positive number of milliseconds
    InvalidInterval,
}

/// Index of the first `/` in `s` at or after `from`, or `s.len()` if none.
pub open spec fn next_slash(s: Seq<char>, from: int) -> int
    decreases s.len() - from,
{
    if from < 0 || from >= s.len() {
        s.len() as int
    } else if s[from] == '/' {
        from
    } else {
        next_slash(s, from + 1)
    }
}

/// Splits a path `[prefix]/<sensor id>[/<setting>]` into the sensor id and
/// the setting, which runs to the end of the path. `None` when the path
/// holds no `/`.
pub open spec fn split_path(p: Seq<char>) -> Option<(Seq<char>, Option<Seq<char>>)> {
    let a = next_slash(p, 0);
    if a >= p.len() {
        None
    } else {
        let b = next_slash(p, a + 1);
        let setting = if b < p.len() {
            Some(p.subrange(b + 1, p.len() as int))
        } else {
            None
        };
        Some((p.subrange(a + 1, b), setting))
    }
}

/// The waveform whose value name is `t`, if there is one.
pub open spec fn function_named(t: Seq<char>) -> Option<MathFunction> {
    if exists|f: MathFunction| value_name(f) == t {
        Some(choose|f: MathFunction| value_name(f) == t)
    } else {
        None
    }
}

/// The change requested by a datastream on `setting` carrying `value`.
pub open spec fn update_of<S>(setting: Option<Seq<char>>, value: EventValue<S>) -> Result<
    ConfigUpdate<S>,
    UpdateError,
> {
    match setting {
        Some(s) if s == "toggle"@ => Ok(ConfigUpdate::State),
        Some(s) if s == "function"@ => match value {
            EventValue::Text(t) => match function_named(t@) {
                Some(f) => Ok(ConfigUpdate::Function(f)),
                None => Err(UpdateError::UnknownFunction),
            },
            _ => Err(UpdateError::WrongType),
        },
        Some(s) if s == "interval"@ => match value {
            EventValue::Integer(i) => if i > 0 {
                Ok(ConfigUpdate::Interval(i as u64))
            } else {
                Err(UpdateError::InvalidInterval)
            },
            _ => Err(UpdateError::WrongType),
        },
        Some(s) if s == "scale"@ => match value {
            EventValue::Scalar(x) => Ok(ConfigUpdate::Scale(x)),
            _ => Err(UpdateError::WrongType),
        },
        _ => Err(UpdateError::UnknownEndpoint),
    }
}

/// Index of the first `/` in `s` at or after `from`, or the length of `s`.
fn find_slash(s: &str, from: usize) -> (r: usize)
    requires
        from <= s@.len(),
    ensures
        r == next_slash(s@, from as int),
        from <= r <= s@.len(),
{
    let n = s.unicode_len();
    let mut i = from;
    while i < n
        invariant
            n == s@.len(),
            from <= i <= n,
            next_slash(s@, from as int) == next_slash(s@, i as int),
        decreases n - i,
    {
        if s.get_char(i) == '/' {
            return i;
        }
        i = i + 1;
    }
    i
}

/// The waveform named by a value name.
fn parse_function(t: &str) -> (r: Option<MathFunction>)
    ensures
        r == function_named(t@),
{
    let r = MathFunction::from_value_name(t);
    proof {
        match r {
            Some(f) => {
                assert(value_name(f) == t@);
                let g = choose|g: MathFunction| value_name(g) == t@;
                lemma_value_names_distinct();
                assert(value_name(f) == value_name(g));
            },
            None => {
                assert forall|f: MathFunction| value_name(f) != t@ by {
                    assert(r != Some(f));
                }
            },
        }
    }
    r
}

impl<S> StreamConfigUpdate<S> {
    /// Turns an inbound datastream on `path` carrying `value` into a
    /// configuration change.
    pub fn from_event(path: &str, value: EventValue<S>) -> (r: Result<Self, UpdateError>)
        ensures
            match split_path(path@) {
                None => r == Err::<Self, UpdateError>(UpdateError::MissingSensorId),
                Some((id, setting)) => match r {
                    Ok(u) => u.sensor_id@ == id && update_of(setting, value) == Ok::<
                        ConfigUpdate<S>,
                        UpdateError,
                    >(u.update),
                    Err(e) => update_of(setting, value) == Err::<ConfigUpdate<S>, UpdateError>(e),
                },
            },
            r matches Ok(u) ==> u.update.is_valid(),
    {
        let n = path.unicode_len();
        let a = find_slash(path, 0);
        if a >= n {
            return Err(UpdateError::MissingSensorId);
        }
        let b = find_slash(path, a + 1);
        let sensor_id = path.substring_char(a + 1, b).to_owned();
        if b >= n {
            return Err(UpdateError::UnknownEndpoint);
        }
        let setting = path.substring_char(b + 1, n);
        let update = if str_eq(setting, "toggle") {
            ConfigUpdate::State
        } else if str_eq(setting, "function") {
            match value {
                EventValue::Text(t) => match parse_function(t.as_str()) {
                    Some(f) => ConfigUpdate::Function(f),
                    None => {
                        return Err(UpdateError::UnknownFunction);
                    },
                },
                _ => {
                    return Err(UpdateError::WrongType);
                },
            }
        } else if str_eq(setting, "interval") {
            match value {
                EventValue::Integer(i) => {
                    if i > 0 {
                        ConfigUpdate::Interval(i as u64)
                    } else {
                        return Err(UpdateError::InvalidInterval);
                    }
                },
                _ => {
                    return Err(UpdateError::WrongType);
                },
            }
        } else if str_eq(setting, "scale") {
            match value {
                EventValue::Scalar(x) => ConfigUpdate::Scale(x),
                _ => {
                    return Err(UpdateError::WrongType);
                },
            }
        } else {
            return Err(UpdateError::UnknownEndpoint);
        };
        Ok(StreamConfigUpdate { sensor_id, update })
    }
}

/// Stream configuration: everything that decides what is sent next.
#[derive(Clone, Debug)]
pub struct StreamConfig<S> {
    /// Running or paused
    pub state: StreamState,
    /// Interface the samples are sent on
    pub interface: String,
    /// Waveform used to compute samples
    pub math_function: MathFunction,
    /// Scale of the phase advance
    pub scale: S,
    /// Milliseconds between two timer firings
    pub interval: u64,
    /// Phase from which the next sample is computed
    pub value: S,
}

/// Interface the samples are sent on when no source names one.
pub const DEFAULT_INTERFACE: &'static str = "org.astarte-platform.genericsensors.Values";

impl<S> StreamConfig<S> {
    /// The stream that a resolution of `fragments` (highest precedence
    /// first) describes, running, with phase `initial_value`.
    pub fn try_from_cli(fragments: Vec<ConfigFragment<S>>, initial_value: S) -> (r: Result<
        Self,
        ConfigError,
    >)
        ensures
            ({
                let m = merged(fragments@);
                match r {
                    Ok(c) => {
                        &&& c.wf()
                        &&& c.state is On
                        &&& m.interface is Some ==> Some(c.interface) == m.interface
                        &&& m.interface is None ==> c.interface@ == DEFAULT_INTERFACE@
                        &&& Some(c.math_function) == m.math_function
                        &&& Some(c.scale) == m.scale
                        &&& Some(c.interval) == m.interval
                        &&& c.value == initial_value
                        &&& exists|v| validated(m, Ok(v))
                    },
                    Err(e) => validated(m, Err(e)),
                }
            }),
    {
        match resolve(fragments) {
            Ok(cfg) => {
                let interface = match cfg.interface {
                    Some(i) => i,
                    None => DEFAULT_INTERFACE.to_owned(),
                };
                Ok(
                    StreamConfig {
                        state: StreamState::On,
                        interface,
                        math_function: cfg.math_function,
                        scale: cfg.scale,
                        interval: cfg.interval,
                        value: initial_value,
                    },
                )
            },
            Err(e) => Err(e),
        }
    }

    /// The interval is positive.
    pub open spec fn wf(&self) -> bool {
        self.interval > 0
    }

    /// The configuration after applying `u`: exactly one field changes.
    pub open spec fn updated(self, u: ConfigUpdate<S>) -> Self {
        match u {
            ConfigUpdate::State => StreamConfig {
                state: if self.state is On { StreamState::Off } else { StreamState::On },
                ..self
            },
            ConfigUpdate::Function(f) => StreamConfig { math_function: f, ..self },
            ConfigUpdate::Interval(i) => StreamConfig { interval: i, ..self },
            ConfigUpdate::Scale(x) => StreamConfig { scale: x, ..self },
        }
    }

    /// Apply one change; the others fields keep their values.
    pub fn update_cfg(&mut self, update: StreamConfigUpdate<S>)
        requires
            old(self).wf(),
            update.update.is_valid(),
        ensures
            final(self).wf(),
            *final(self) == old(self).updated(update.update),
    {
        match update.update {
            ConfigUpdate::State => {
                self.state.toggle();
            },
            ConfigUpdate::Function(value) => {
                self.math_function = value;
            },
            ConfigUpdate::Interval(value) => {
                self.interval = value;
            },
            ConfigUpdate::Scale(value) => {
                self.scale = value;
            },
        }
    }

    pub open spec fn spec_is_on(&self) -> bool {
        self.state is On
    }

    /// Whether samples are being sent.
    #[verifier::when_used_as_spec(spec_is_on)]
    pub fn is_on(&self) -> (r: bool)
        ensures
            r == self.spec_is_on(),
    {
        self.state.is_on()
    }

    /// The interface samples are sent on.
    pub fn interface(&self) -> (r: &str)
        ensures
            r@ == self.interface@,
    {
        self.interface.as_str()
    }
}

} // verus!
