//! The stream controller.
//!
//! A [`StreamManager`] owns the stream configuration and is its only point of
//! mutation. The surrounding task races the timer against inbound messages
//! and hands whichever comes first to [`StreamManager::step`], one at a time;
//! the action returned says what to do next. Every emission therefore sees
//! either all or none of each configuration change.

use vstd::prelude::*;

use crate::config::{
    split_path, update_of, ConfigUpdate, EventValue, StreamConfig, StreamConfigUpdate, UpdateError,
};
use crate::math::MathFunction;

verus! {

/// Something that happened to the stream.
#[derive(Debug)]
pub enum StreamEvent<S> {
    /// The timer fired; `next_value` is the phase to continue from if a
    /// sample is emitted.
    TimerFired { next_value: S },
    /// A datastream arrived on `path` carrying `value`.
    Received { path: String, value: EventValue<S> },
    /// Receiving failed but the connection is still up.
    ReceiveFailed,
    /// The inbound side was closed.
    Disconnected,
}

/// What the surrounding task must do after an event.
#[derive(Debug, PartialEq, Eq)]
pub enum StreamAction<S> {
    /// Compute a sample with `function` at phase `value` and send it; a send
    /// that fails ends the stream with that error.
    Emit { function: MathFunction, value: S },
    /// The stream is paused: nothing is sent.
    Skip,
    /// A configuration change was applied.
    Applied,
    /// An inbound datastream was not understood and was dropped.
    Discarded(UpdateError),
    /// A failed receive was dropped.
    Ignored,
    /// The stream ends cleanly.
    Shutdown,
}

/// The change an inbound datastream requests, or why there is none.
pub open spec fn received_update<S>(path: Seq<char>, value: EventValue<S>) -> Result<
    ConfigUpdate<S>,
    UpdateError,
> {
    match split_path(path) {
        None => Err(UpdateError::MissingSensorId),
        Some((_, setting)) => update_of(setting, value),
    }
}

/// The configuration after `event` and the action the event calls for.
pub open spec fn step_spec<S>(cfg: StreamConfig<S>, event: StreamEvent<S>) -> (
    StreamConfig<S>,
    StreamAction<S>,
) {
    match event {
        StreamEvent::TimerFired { next_value } => if cfg.state is On {
            (
                StreamConfig { value: next_value, ..cfg },
                StreamAction::Emit { function: cfg.math_function, value: cfg.value },
            )
        } else {
            (cfg, StreamAction::Skip)
        },
        StreamEvent::Received { path, value } => match received_update(path@, value) {
            Ok(u) => (cfg.updated(u), StreamAction::Applied),
            Err(e) => (cfg, StreamAction::Discarded(e)),
        },
        StreamEvent::ReceiveFailed => (cfg, StreamAction::Ignored),
        StreamEvent::Disconnected => (cfg, StreamAction::Shutdown),
    }
}

/// Number of samples emitted while handling `events`.
pub open spec fn emitted<S>(cfg: StreamConfig<S>, events: Seq<StreamEvent<S>>) -> nat
    decreases events.len(),
{
    if events.len() == 0 {
        0
    } else {
        let (next, action) = step_spec(cfg, events[0]);
        (if action is Emit { 1nat } else { 0nat }) + emitted(next, events.drop_first())
    }
}

/// Number of timer firings in `events` that find the stream running.
pub open spec fn ticks_while_running<S>(cfg: StreamConfig<S>, events: Seq<StreamEvent<S>>) -> nat
    decreases events.len(),
{
    if events.len() == 0 {
        0
    } else {
        let next = step_spec(cfg, events[0]).0;
        (if events[0] is TimerFired && cfg.state is On { 1nat } else { 0nat })
            + ticks_while_running(next, events.drop_first())
    }
}

/// Number of configuration changes applied while handling `events`.
pub open spec fn applied<S>(cfg: StreamConfig<S>, events: Seq<StreamEvent<S>>) -> nat
    decreases events.len(),
{
    if events.len() == 0 {
        0
    } else {
        let (next, action) = step_spec(cfg, events[0]);
        (if action is Applied { 1nat } else { 0nat }) + applied(next, events.drop_first())
    }
}

/// Number of datastreams in `events` that request a valid change.
pub open spec fn valid_commands<S>(events: Seq<StreamEvent<S>>) -> nat
    decreases events.len(),
{
    if events.len() == 0 {
        0
    } else {
        (if events[0] matches StreamEvent::Received { path, value }
            && received_update(path@, value) is Ok { 1nat } else { 0nat })
            + valid_commands(events.drop_first())
    }
}

/// Over any interleaving of timer firings and inbound datastreams, the
/// samples emitted are exactly the firings that find the stream running, and
/// every valid change is applied: none is lost.
pub proof fn lemma_emissions_match_running_ticks<S>(
    cfg: StreamConfig<S>,
    events: Seq<StreamEvent<S>>,
)
    ensures
        emitted(cfg, events) == ticks_while_running(cfg, events),
        applied(cfg, events) == valid_commands(events),
    decreases events.len(),
{
    if events.len() > 0 {
        lemma_emissions_match_running_ticks(step_spec(cfg, events[0]).0, events.drop_first());
    }
}

/// Changing the interval while paused and then resuming: the very next timer
/// firing waits the new interval and emits a sample.
pub proof fn lemma_resume_uses_new_interval<S>(cfg: StreamConfig<S>, interval: u64, next_value: S)
    requires
        cfg.state is Off,
    ensures
        ({
            let resumed = cfg.updated(ConfigUpdate::Interval(interval)).updated(ConfigUpdate::State);
            &&& resumed.state is On
            &&& resumed.interval == interval
            &&& step_spec(resumed, StreamEvent::TimerFired { next_value }).1 == StreamAction::Emit {
                function: cfg.math_function,
                value: cfg.value,
            }
        }),
{
}

/// Once the scale is set, it stays until the next scale change: timer
/// firings, waveform, interval and run/pause changes keep it.
pub proof fn lemma_scale_kept<S>(cfg: StreamConfig<S>, event: StreamEvent<S>)
    requires
        !(event matches StreamEvent::Received { path, value } && received_update(
            path@,
            value,
        ) matches Ok(ConfigUpdate::Scale(_))),
    ensures
        step_spec(cfg, event).0.scale == cfg.scale,
{
}

/// A timer firing whose next phase is the current one (what a zero scale
/// gives) emits a sample at that phase and leaves the configuration as it
/// was: every such firing emits the same sample.
pub proof fn lemma_still_phase_repeats<S>(cfg: StreamConfig<S>)
    requires
        cfg.state is On,
    ensures
        step_spec(cfg, StreamEvent::TimerFired { next_value: cfg.value }) == (
            cfg,
            StreamAction::Emit { function: cfg.math_function, value: cfg.value },
        ),
{
    assert(StreamConfig { value: cfg.value, ..cfg } == cfg);
}

/// Stream manager: owns the stream configuration, decides when samples are
/// sent and applies inbound configuration changes.
pub struct StreamManager<S> {
    stream_cfg: StreamConfig<S>,
}

impl<S> View for StreamManager<S> {
    type V = StreamConfig<S>;

    closed spec fn view(&self) -> StreamConfig<S> {
        self.stream_cfg
    }
}

impl<S> StreamManager<S> {
    /// A manager for a stream that starts from `stream_cfg`.
    pub fn new(stream_cfg: StreamConfig<S>) -> (r: Self)
        requires
            stream_cfg.wf(),
        ensures
            r@ == stream_cfg,
    {
        StreamManager { stream_cfg }
    }

    /// The current configuration.
    pub fn stream_cfg(&self) -> (r: &StreamConfig<S>)
        ensures
            *r == self@,
    {
        &self.stream_cfg
    }

    /// Milliseconds to wait for the next timer firing, read afresh each time.
    pub fn next_timeout(&self) -> (r: u64)
        ensures
            r == self@.interval,
    {
        self.stream_cfg.interval
    }

    /// Applies the datastream on `path` carrying `value`, or leaves the
    /// configuration as it is and says why.
    fn apply_datastream(&mut self, path: &str, value: EventValue<S>) -> (r: Result<(), UpdateError>)
        requires
            old(self)@.wf(),
        ensures
            final(self)@.wf(),
            match received_update(path@, value) {
                Ok(u) => r is Ok && final(self)@ == old(self)@.updated(u),
                Err(e) => r == Err::<(), UpdateError>(e) && final(self)@ == old(self)@,
            },
    {
        match StreamConfigUpdate::from_event(path, value) {
            Ok(update) => {
                self.stream_cfg.update_cfg(update);
                Ok(())
            },
            Err(e) => Err(e),
        }
    }

    /// Applies the datastream on `path` carrying `value`. A datastream that
    /// is not understood is discarded: the configuration stays as it is and
    /// the stream goes on, so this never fails.
    pub fn receive_data(&mut self, path: &str, value: EventValue<S>) -> (r: Result<(), UpdateError>)
        requires
            old(self)@.wf(),
        ensures
            r is Ok,
            final(self)@.wf(),
            match received_update(path@, value) {
                Ok(u) => final(self)@ == old(self)@.updated(u),
                Err(_) => final(self)@ == old(self)@,
            },
    {
        let _ = self.apply_datastream(path, value);
        Ok(())
    }

    /// Handles one event to completion and says what to do next.
    pub fn step(&mut self, event: StreamEvent<S>) -> (r: StreamAction<S>)
        requires
            old(self)@.wf(),
        ensures
            final(self)@.wf(),
            (final(self)@, r) == step_spec(old(self)@, event),
            r is Emit ==> old(self)@.is_on(),
    {
        match event {
            StreamEvent::TimerFired { next_value } => {
                if self.stream_cfg.is_on() {
                    let mut value = next_value;
                    core::mem::swap(&mut self.stream_cfg.value, &mut value);
                    StreamAction::Emit { function: self.stream_cfg.math_function, value }
                } else {
                    StreamAction::Skip
                }
            },
            StreamEvent::Received { path, value } => match self.apply_datastream(path.as_str(), value) {
                Ok(()) => StreamAction::Applied,
                Err(e) => StreamAction::Discarded(e),
            },
            StreamEvent::ReceiveFailed => StreamAction::Ignored,
            StreamEvent::Disconnected => StreamAction::Shutdown,
        }
    }
}

} // verus!
