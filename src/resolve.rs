//! Configuration resolution: sparse fragments from several sources are
//! merged by precedence, then checked for completeness.

use vstd::prelude::*;

use crate::math::MathFunction;

verus! {

/// A field of the stream configuration.
#[derive(Clone, Copy, Debug, PartialEq, Eq, Structural)]
pub enum ConfigField {
    /// Identity of the device on the platform
    DeviceId,
    /// Transport endpoint
    Endpoint,
    /// Interface the samples are sent on
    Interface,
    /// Waveform
    MathFunction,
    /// Milliseconds between two samples
    Interval,
    /// Scale of the phase advance
    Scale,
}

/// Configuration as one source gives it: every field may be absent.
#[derive(Clone, Debug)]
pub struct ConfigFragment<S> {
    /// Identity of the device on the platform
    pub device_id: Option<String>,
    /// Transport endpoint
    pub endpoint: Option<String>,
    /// Interface the samples are sent on
    pub interface: Option<String>,
    /// Waveform
    pub math_function: Option<MathFunction>,
    /// Milliseconds between two samples
    pub interval: Option<u64>,
    /// Scale of the phase advance
    pub scale: Option<S>,
}

/// A complete configuration. The interface is optional: without one the
/// stream uses the standard sensor interface.
#[derive(Clone, Debug)]
pub struct ResolvedConfig<S> {
    /// Identity of the device on the platform
    pub device_id: String,
    /// Transport endpoint
    pub endpoint: String,
    /// Interface the samples are sent on, if a source names one
    pub interface: Option<String>,
    /// Waveform
    pub math_function: MathFunction,
    /// Milliseconds between two samples, positive
    pub interval: u64,
    /// Scale of the phase advance
    pub scale: S,
}

/// Why a configuration could not be resolved.
#[derive(Clone, Debug)]
pub enum ConfigError {
    /// Required fields that no source gave, all of them, in field order
    MissingFields(Vec<ConfigField>),
    /// The interval is zero
    ZeroInterval,
}

/// `high` where it has a value, `low` elsewhere.
pub open spec fn merge_spec<S>(high: ConfigFragment<S>, low: ConfigFragment<S>) -> ConfigFragment<S> {
    ConfigFragment {
        device_id: if high.device_id is Some { high.device_id } else { low.device_id },
        endpoint: if high.endpoint is Some { high.endpoint } else { low.endpoint },
        interface: if high.interface is Some { high.interface } else { low.interface },
        math_function: if high.math_function is Some { high.math_function } else { low.math_function },
        interval: if high.interval is Some { high.interval } else { low.interval },
        scale: if high.scale is Some { high.scale } else { low.scale },
    }
}

/// The fragment with no field set.
pub open spec fn empty_spec<S>() -> ConfigFragment<S> {
    ConfigFragment {
        device_id: None,
        endpoint: None,
        interface: None,
        math_function: None,
        interval: None,
        scale: None,
    }
}

/// Fragments merged by precedence, highest first: each field takes the
/// value of the first fragment that has one.
pub open spec fn merged<S>(fragments: Seq<ConfigFragment<S>>) -> ConfigFragment<S>
    decreases fragments.len(),
{
    if fragments.len() == 0 {
        empty_spec()
    } else {
        merge_spec(fragments[0], merged(fragments.drop_first()))
    }
}

/// A field that a fragment sets is never overwritten by a fragment of lower
/// precedence: each field of the merge comes from the first fragment that
/// sets it.
pub proof fn lemma_first_set_wins<S>(fragments: Seq<ConfigFragment<S>>, i: int)
    requires
        0 <= i < fragments.len(),
    ensures
        fragments[i].device_id is Some && (forall|j: int| 0 <= j < i ==> fragments[j].device_id is None)
            ==> merged(fragments).device_id == fragments[i].device_id,
        fragments[i].endpoint is Some && (forall|j: int| 0 <= j < i ==> fragments[j].endpoint is None)
            ==> merged(fragments).endpoint == fragments[i].endpoint,
        fragments[i].interface is Some && (forall|j: int| 0 <= j < i ==> fragments[j].interface is None)
            ==> merged(fragments).interface == fragments[i].interface,
        fragments[i].math_function is Some && (forall|j: int|
            0 <= j < i ==> fragments[j].math_function is None) ==> merged(fragments).math_function
            == fragments[i].math_function,
        fragments[i].interval is Some && (forall|j: int| 0 <= j < i ==> fragments[j].interval is None)
            ==> merged(fragments).interval == fragments[i].interval,
        fragments[i].scale is Some && (forall|j: int| 0 <= j < i ==> fragments[j].scale is None)
            ==> merged(fragments).scale == fragments[i].scale,
    decreases i,
{
    if i > 0 {
        let rest = fragments.drop_first();
        lemma_first_set_wins(rest, i - 1);
        assert(forall|j: int| 0 <= j < i - 1 ==> rest[j] == fragments[j + 1]);
    }
}

/// The required fields that `f` lacks, in field order.
pub open spec fn missing_fields<S>(f: ConfigFragment<S>) -> Seq<ConfigField> {
    (if f.device_id is None { seq![ConfigField::DeviceId] } else { seq![] })
        + (if f.endpoint is None { seq![ConfigField::Endpoint] } else { seq![] })
        + (if f.math_function is None { seq![ConfigField::MathFunction] } else { seq![] })
        + (if f.interval is None { seq![ConfigField::Interval] } else { seq![] })
        + (if f.scale is None { seq![ConfigField::Scale] } else { seq![] })
}

/// `r` is the outcome of checking `f`: every missing required field is
/// named; otherwise a zero interval is refused; otherwise the fields are
/// taken over as they are.
pub open spec fn validated<S>(f: ConfigFragment<S>, r: Result<ResolvedConfig<S>, ConfigError>) -> bool {
    if missing_fields(f).len() > 0 {
        r matches Err(ConfigError::MissingFields(v)) && v@ == missing_fields(f)
    } else if f.interval == Some(0u64) {
        r matches Err(ConfigError::ZeroInterval)
    } else {
        r matches Ok(c) && Some(c.device_id) == f.device_id && Some(c.endpoint) == f.endpoint
            && c.interface == f.interface && Some(c.math_function) == f.math_function && Some(
            c.interval,
        ) == f.interval && Some(c.scale) == f.scale
    }
}

impl<S> ConfigFragment<S> {
    /// A fragment with no field set.
    pub fn empty() -> (r: Self)
        ensures
            r == empty_spec::<S>(),
    {
        ConfigFragment {
            device_id: None,
            endpoint: None,
            interface: None,
            math_function: None,
            interval: None,
            scale: None,
        }
    }

    /// Fills the fields that `self` lacks from `low`.
    pub fn merge(self, low: Self) -> (r: Self)
        ensures
            r == merge_spec(self, low),
    {
        ConfigFragment {
            device_id: match self.device_id {
                Some(v) => Some(v),
                None => low.device_id,
            },
            endpoint: match self.endpoint {
                Some(v) => Some(v),
                None => low.endpoint,
            },
            interface: match self.interface {
                Some(v) => Some(v),
                None => low.interface,
            },
            math_function: match self.math_function {
                Some(v) => Some(v),
                None => low.math_function,
            },
            interval: match self.interval {
                Some(v) => Some(v),
                None => low.interval,
            },
            scale: match self.scale {
                Some(v) => Some(v),
                None => low.scale,
            },
        }
    }

    /// Checks that every required field is set and the interval is
    /// positive; names every missing field.
    pub fn validate(self) -> (r: Result<ResolvedConfig<S>, ConfigError>)
        ensures
            validated(self, r),
    {
        let mut missing: Vec<ConfigField> = Vec::new();
        if self.device_id.is_none() {
            missing.push(ConfigField::DeviceId);
        }
        if self.endpoint.is_none() {
            missing.push(ConfigField::Endpoint);
        }
        if self.math_function.is_none() {
            missing.push(ConfigField::MathFunction);
        }
        if self.interval.is_none() {
            missing.push(ConfigField::Interval);
        }
        if self.scale.is_none() {
            missing.push(ConfigField::Scale);
        }
        assert(missing@ =~= missing_fields(self));
        match (self.device_id, self.endpoint, self.math_function, self.interval, self.scale) {
            (Some(device_id), Some(endpoint), Some(math_function), Some(interval), Some(scale)) => {
                if interval == 0 {
                    Err(ConfigError::ZeroInterval)
                } else {
                    Ok(
                        ResolvedConfig {
                            device_id,
                            endpoint,
                            interface: self.interface,
                            math_function,
                            interval,
                            scale,
                        },
                    )
                }
            },
            _ => Err(ConfigError::MissingFields(missing)),
        }
    }
}

/// Merges `fragments`, ordered from highest to lowest precedence: each field
/// takes the value of the first fragment that has one.
pub fn merge_fragments<S>(fragments: Vec<ConfigFragment<S>>) -> (r: ConfigFragment<S>)
    ensures
        r == merged(fragments@),
{
    let ghost all = fragments@;
    let mut rest = fragments;
    let mut acc = ConfigFragment::empty();
    assert(all.subrange(all.len() as int, all.len() as int) =~= Seq::<ConfigFragment<S>>::empty());
    while rest.len() > 0
        invariant
            rest@ == all.subrange(0, rest.len() as int),
            rest.len() <= all.len(),
            acc == merged(all.subrange(rest.len() as int, all.len() as int)),
        decreases rest.len(),
    {
        let k = rest.len();
        let f = rest.pop().unwrap();
        proof {
            let tail = all.subrange(k - 1, all.len() as int);
            assert(tail.drop_first() =~= all.subrange(k as int, all.len() as int));
            assert(tail[0] == f);
        }
        acc = f.merge(acc);
    }
    assert(all.subrange(0, all.len() as int) =~= all);
    acc
}

/// Merges `fragments`, ordered from highest to lowest precedence, and checks
/// the result: every missing required field is named.
pub fn resolve<S>(fragments: Vec<ConfigFragment<S>>) -> (r: Result<ResolvedConfig<S>, ConfigError>)
    ensures
        validated(merged(fragments@), r),
{
    merge_fragments(fragments).validate()
}

} // verus!
