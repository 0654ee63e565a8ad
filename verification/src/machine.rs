use vstd::prelude::*;
use crate::direction::{classify, spec_classify, Direction};
use crate::heading::{spec_heading_from_raw, Heading};
use crate::vector::Vector3;

verus! {

/// Output data rate configured for the accelerometer, in hertz.
pub const ACCEL_ODR_HZ: u16 = 50;

/// Output data rate configured for the magnetometer, in hertz.
pub const MAG_ODR_HZ: u16 = 10;

/// Inter-sample pause of the steady loop, in milliseconds: a cadence policy,
/// not a correctness requirement.
pub const INTER_SAMPLE_DELAY_MS: u32 = 100;

/// Resolution setting of a sub-sensor, fixed once at startup.
#[derive(Clone, Copy, PartialEq, Eq, Structural, Debug)]
pub enum SensorMode {
    LowPower,
    Normal,
    HighResolution,
}

/// The two channels of the combined motion sensor.
#[derive(Clone, Copy, PartialEq, Eq, Structural, Debug)]
pub enum SubSensor {
    Accelerometer,
    Magnetometer,
}

/// What the driver reports back after performing the previous action.
/// `Failed` is a communication or configuration failure; a missing fresh
/// sample is not a failure and arrives as `FreshData(false)`.
#[derive(Clone, Copy, PartialEq, Eq, Structural, Debug)]
pub enum SensorEvent {
    /// The action finished and carries no data.
    Completed,
    /// The action could not be carried out.
    Failed,
    /// Result of a freshness poll: true when a new sample is latched.
    FreshData(bool),
    /// The latest accelerometer sample, in milli-g.
    Acceleration(Vector3),
    /// The latest magnetometer sample, in nanotesla.
    MagneticField(Vector3),
    /// The fused heading, as raw centidegrees still to be normalized.
    HeadingReady(i64),
}

/// The next piece of outside work the driver must perform.
#[derive(Clone, Copy, PartialEq, Eq, Structural, Debug)]
pub enum Action {
    /// Probe the sensor identity; informational only, failure is ignored.
    Identify,
    /// Bring the sensor to a known state; failure is fatal.
    Initialize,
    /// Apply mode and output data rate to the accelerometer channel.
    ConfigureAccelerometer { mode: SensorMode, odr_hz: u16 },
    /// Apply mode and output data rate to the magnetometer channel.
    ConfigureMagnetometer { mode: SensorMode, odr_hz: u16 },
    /// One-shot, irreversible transition to continuous sampling.
    EnterContinuousMode,
    /// Enable magnetometer low-pass smoothing; required configuration.
    EnableLowPassFilter,
    /// Ask whether the accelerometer has latched a fresh sample.
    PollAccelerometer,
    /// Read the latest acceleration; only issued right after a positive poll.
    ReadAcceleration,
    /// Ask whether the magnetometer has latched a fresh sample.
    PollMagnetometer,
    /// Read the latest magnetic field; only issued right after a positive poll.
    ReadMagneticField,
    /// Fuse the freshly latched pair into a heading.
    ComputeHeading { accel: Vector3, mag: Vector3 },
    /// Log the heading and direction and drive the attached display, if any.
    Report { heading: Heading, direction: Direction },
    /// Log that the named sub-sensor has no new data, then wait the fixed
    /// inter-sample pause; the abandoned cycle is retried by the next one.
    SkipCycle { stale: SubSensor },
    /// Wait the fixed inter-sample pause.
    Delay,
    /// Fatal: stop driving the sensor; there is no in-process recovery.
    Halt,
}

/// Lifecycle of the acquisition session, named by the action whose outcome
/// is awaited. The states from `AwaitingAccelStatus` on form the steady
/// sampling loop; `Halted` is terminal.
#[derive(Clone, Copy, PartialEq, Eq, Structural, Debug)]
pub enum AcqState {
    AwaitingIdentity,
    AwaitingInit,
    AwaitingAccelConfig,
    AwaitingMagConfig,
    AwaitingContinuous,
    AwaitingLowPass,
    AwaitingAccelStatus,
    AwaitingAccelSample,
    AwaitingMagStatus { accel: Vector3 },
    AwaitingMagSample { accel: Vector3 },
    AwaitingHeading,
    AwaitingReport,
    AwaitingDelay,
    Halted,
}

/// True of the states that make up the steady sampling loop, which is only
/// reachable once the whole startup sequence has succeeded.
pub open spec fn is_steady(state: AcqState) -> bool {
    ||| state is AwaitingAccelStatus
    ||| state is AwaitingAccelSample
    ||| state is AwaitingMagStatus
    ||| state is AwaitingMagSample
    ||| state is AwaitingHeading
    ||| state is AwaitingReport
    ||| state is AwaitingDelay
}

/// The full transition table: given the state and the outcome of the action
/// last issued, the next state and next action. An identity-probe failure is
/// the one non-fatal failure; any other failure, and any out-of-protocol
/// event, halts the session. A negative freshness poll on either sub-sensor
/// abandons the cycle and goes straight to the delay.
pub open spec fn spec_step(state: AcqState, event: SensorEvent) -> (AcqState, Action) {
    match (state, event) {
        (AcqState::AwaitingIdentity, SensorEvent::Completed) => (
            AcqState::AwaitingInit,
            Action::Initialize,
        ),
        (AcqState::AwaitingIdentity, SensorEvent::Failed) => (
            AcqState::AwaitingInit,
            Action::Initialize,
        ),
        (AcqState::AwaitingInit, SensorEvent::Completed) => (
            AcqState::AwaitingAccelConfig,
            Action::ConfigureAccelerometer {
                mode: SensorMode::HighResolution,
                odr_hz: ACCEL_ODR_HZ,
            },
        ),
        (AcqState::AwaitingAccelConfig, SensorEvent::Completed) => (
            AcqState::AwaitingMagConfig,
            Action::ConfigureMagnetometer { mode: SensorMode::HighResolution, odr_hz: MAG_ODR_HZ },
        ),
        (AcqState::AwaitingMagConfig, SensorEvent::Completed) => (
            AcqState::AwaitingContinuous,
            Action::EnterContinuousMode,
        ),
        (AcqState::AwaitingContinuous, SensorEvent::Completed) => (
            AcqState::AwaitingLowPass,
            Action::EnableLowPassFilter,
        ),
        (AcqState::AwaitingLowPass, SensorEvent::Completed) => (
            AcqState::AwaitingAccelStatus,
            Action::PollAccelerometer,
        ),
        (AcqState::AwaitingAccelStatus, SensorEvent::FreshData(true)) => (
            AcqState::AwaitingAccelSample,
            Action::ReadAcceleration,
        ),
        (AcqState::AwaitingAccelStatus, SensorEvent::FreshData(false)) => (
            AcqState::AwaitingDelay,
            Action::SkipCycle { stale: SubSensor::Accelerometer },
        ),
        (AcqState::AwaitingAccelSample, SensorEvent::Acceleration(accel)) => (
            AcqState::AwaitingMagStatus { accel },
            Action::PollMagnetometer,
        ),
        (AcqState::AwaitingMagStatus { accel }, SensorEvent::FreshData(true)) => (
            AcqState::AwaitingMagSample { accel },
            Action::ReadMagneticField,
        ),
        (AcqState::AwaitingMagStatus { .. }, SensorEvent::FreshData(false)) => (
            AcqState::AwaitingDelay,
            Action::SkipCycle { stale: SubSensor::Magnetometer },
        ),
        (AcqState::AwaitingMagSample { accel }, SensorEvent::MagneticField(mag)) => (
            AcqState::AwaitingHeading,
            Action::ComputeHeading { accel, mag },
        ),
        (AcqState::AwaitingHeading, SensorEvent::HeadingReady(raw)) => (
            AcqState::AwaitingReport,
            Action::Report {
                heading: spec_heading_from_raw(raw as int),
                direction: spec_classify(spec_heading_from_raw(raw as int)@),
            },
        ),
        (AcqState::AwaitingReport, SensorEvent::Completed) => (
            AcqState::AwaitingDelay,
            Action::Delay,
        ),
        (AcqState::AwaitingDelay, SensorEvent::Completed) => (
            AcqState::AwaitingAccelStatus,
            Action::PollAccelerometer,
        ),
        _ => (AcqState::Halted, Action::Halt),
    }
}

/// Where an acquisition session begins: probing the sensor identity.
pub fn initial() -> (r: (AcqState, Action))
    ensures
        r.0 == AcqState::AwaitingIdentity,
        r.1 == Action::Identify,
{
    (AcqState::AwaitingIdentity, Action::Identify)
}

/// Advance the acquisition session by one event. The driver performs the
/// returned action and feeds its outcome back in; the function itself does
/// no outside work.
pub fn step(state: AcqState, event: SensorEvent) -> (r: (AcqState, Action))
    ensures
        r == spec_step(state, event),
{
    match (state, event) {
        (AcqState::AwaitingIdentity, SensorEvent::Completed) => (
            AcqState::AwaitingInit,
            Action::Initialize,
        ),
        (AcqState::AwaitingIdentity, SensorEvent::Failed) => (
            AcqState::AwaitingInit,
            Action::Initialize,
        ),
        (AcqState::AwaitingInit, SensorEvent::Completed) => (
            AcqState::AwaitingAccelConfig,
            Action::ConfigureAccelerometer {
                mode: SensorMode::HighResolution,
                odr_hz: ACCEL_ODR_HZ,
            },
        ),
        (AcqState::AwaitingAccelConfig, SensorEvent::Completed) => (
            AcqState::AwaitingMagConfig,
            Action::ConfigureMagnetometer { mode: SensorMode::HighResolution, odr_hz: MAG_ODR_HZ },
        ),
        (AcqState::AwaitingMagConfig, SensorEvent::Completed) => (
            AcqState::AwaitingContinuous,
            Action::EnterContinuousMode,
        ),
        (AcqState::AwaitingContinuous, SensorEvent::Completed) => (
            AcqState::AwaitingLowPass,
            Action::EnableLowPassFilter,
        ),
        (AcqState::AwaitingLowPass, SensorEvent::Completed) => (
            AcqState::AwaitingAccelStatus,
            Action::PollAccelerometer,
        ),
        (AcqState::AwaitingAccelStatus, SensorEvent::FreshData(true)) => (
            AcqState::AwaitingAccelSample,
            Action::ReadAcceleration,
        ),
        (AcqState::AwaitingAccelStatus, SensorEvent::FreshData(false)) => (
            AcqState::AwaitingDelay,
            Action::SkipCycle { stale: SubSensor::Accelerometer },
        ),
        (AcqState::AwaitingAccelSample, SensorEvent::Acceleration(accel)) => (
            AcqState::AwaitingMagStatus { accel },
            Action::PollMagnetometer,
        ),
        (AcqState::AwaitingMagStatus { accel }, SensorEvent::FreshData(true)) => (
            AcqState::AwaitingMagSample { accel },
            Action::ReadMagneticField,
        ),
        (AcqState::AwaitingMagStatus { .. }, SensorEvent::FreshData(false)) => (
            AcqState::AwaitingDelay,
            Action::SkipCycle { stale: SubSensor::Magnetometer },
        ),
        (AcqState::AwaitingMagSample { accel }, SensorEvent::MagneticField(mag)) => (
            AcqState::AwaitingHeading,
            Action::ComputeHeading { accel, mag },
        ),
        (AcqState::AwaitingHeading, SensorEvent::HeadingReady(raw)) => {
            let heading = Heading::from_raw_centidegrees(raw);
            let direction = classify(heading);
            (AcqState::AwaitingReport, Action::Report { heading, direction })
        },
        (AcqState::AwaitingReport, SensorEvent::Completed) => (
            AcqState::AwaitingDelay,
            Action::Delay,
        ),
        (AcqState::AwaitingDelay, SensorEvent::Completed) => (
            AcqState::AwaitingAccelStatus,
            Action::PollAccelerometer,
        ),
        _ => (AcqState::Halted, Action::Halt),
    }
}

/// The state reached after feeding a whole sequence of events, front first.
pub open spec fn run(state: AcqState, events: Seq<SensorEvent>) -> AcqState
    decreases events.len(),
{
    if events.len() == 0 {
        state
    } else {
        run(spec_step(state, events[0]).0, events.drop_first())
    }
}

/// A cycle whose accelerometer poll comes back negative goes straight to the
/// inter-sample delay: from the poll state, a read of the accelerometer or a
/// heading computation is only ever issued on a positive poll.
pub proof fn lemma_stale_accel_skips_cycle(event: SensorEvent)
    ensures
        spec_step(AcqState::AwaitingAccelStatus, SensorEvent::FreshData(false)).0
            == AcqState::AwaitingDelay,
        spec_step(AcqState::AwaitingAccelStatus, SensorEvent::FreshData(false)).1
            == (Action::SkipCycle { stale: SubSensor::Accelerometer }),
        spec_step(AcqState::AwaitingAccelStatus, event).1 == Action::ReadAcceleration ==> event
            == SensorEvent::FreshData(true),
        !(spec_step(AcqState::AwaitingAccelStatus, event).1 is ComputeHeading),
{
}

/// The magnetometer poll behaves like the accelerometer poll: a negative
/// answer abandons the cycle, and a read is only issued on a positive one.
pub proof fn lemma_stale_mag_skips_cycle(accel: Vector3, event: SensorEvent)
    ensures
        spec_step(AcqState::AwaitingMagStatus { accel }, SensorEvent::FreshData(false)).0
            == AcqState::AwaitingDelay,
        spec_step(AcqState::AwaitingMagStatus { accel }, SensorEvent::FreshData(false)).1
            == (Action::SkipCycle { stale: SubSensor::Magnetometer }),
        spec_step(AcqState::AwaitingMagStatus { accel }, event).1 == Action::ReadMagneticField
            ==> event == SensorEvent::FreshData(true),
        !(spec_step(AcqState::AwaitingMagStatus { accel }, event).1 is ComputeHeading),
{
}

/// True of the setup states that precede the continuous-mode transition.
pub open spec fn is_before_continuous(state: AcqState) -> bool {
    ||| state is AwaitingIdentity
    ||| state is AwaitingInit
    ||| state is AwaitingAccelConfig
    ||| state is AwaitingMagConfig
    ||| state is AwaitingContinuous
}

/// Entering continuous mode is the one irreversible transition: once the
/// session has left the pre-continuous setup states, no event brings it back
/// to one of them.
pub proof fn lemma_continuous_mode_is_irreversible(state: AcqState, event: SensorEvent)
    ensures
        !is_before_continuous(state) ==> !is_before_continuous(spec_step(state, event).0),
{
}

/// Read-after-fresh-check ordering: a read of either sub-sensor is only ever
/// issued as the answer to a positive freshness poll of that sub-sensor, and
/// a heading is only ever computed from a sample pair completed by a
/// magnetometer read, never from stale or partial data.
pub proof fn lemma_reads_follow_fresh_polls(state: AcqState, event: SensorEvent)
    ensures
        spec_step(state, event).1 is ReadAcceleration ==> state is AwaitingAccelStatus && event
            == SensorEvent::FreshData(true),
        spec_step(state, event).1 is ReadMagneticField ==> state is AwaitingMagStatus && event
            == SensorEvent::FreshData(true),
        spec_step(state, event).1 is ComputeHeading ==> state is AwaitingMagSample && event
            is MagneticField,
{
}

/// Halting is final: no sequence of events leads anywhere else.
pub proof fn lemma_halted_is_absorbing(events: Seq<SensorEvent>)
    ensures
        run(AcqState::Halted, events) == AcqState::Halted,
    decreases events.len(),
{
    if events.len() > 0 {
        lemma_halted_is_absorbing(events.drop_first());
    }
}

/// Every failure after the identity probe is fatal: a communication failure
/// during initialization, either configuration step, the continuous-mode
/// transition, the low-pass filter, or a steady-state poll or read halts the
/// session at once, and no sequence of later events ever brings it into the
/// steady sampling loop. In particular, a failed initialization prevents the
/// steady loop from ever starting.
pub proof fn lemma_failure_prevents_sampling(state: AcqState, events: Seq<SensorEvent>)
    requires
        !(state is AwaitingIdentity),
    ensures
        spec_step(state, SensorEvent::Failed).0 == AcqState::Halted,
        spec_step(state, SensorEvent::Failed).1 == Action::Halt,
        !is_steady(run(spec_step(state, SensorEvent::Failed).0, events)),
{
    lemma_halted_is_absorbing(events);
}

} // verus!
