//! Timestamp bookkeeping of the inertial orientation integrator, the shared
//! orientation snapshot, and the per-tick camera rotation policy.
//!
//! The orientation filter itself — the complementary-filter arithmetic that
//! fuses angular rates with a gravity reference — works on floating-point
//! numbers and runs outside the verified core. This module decides, for each
//! incoming sample, whether the filter runs at all and with which time delta,
//! and it carries the filter's resulting angles through to the camera.
//!
//! Angles and sensor readings are carried as the bit patterns of IEEE-754
//! single-precision values. The verified pipeline moves and reorders these
//! values and flips at most a sign bit; it never does arithmetic on them, so
//! the encoding is lossless.

use vstd::prelude::*;

verus! {

/// The bit patterns of a three-axis sensor reading.
#[derive(PartialEq, Eq, Structural, Debug, Clone, Copy)]
pub struct Axes {
    /// Bit pattern of the x component.
    pub x_bits: u32,
    /// Bit pattern of the y component.
    pub y_bits: u32,
    /// Bit pattern of the z component.
    pub z_bits: u32,
}

/// One inertial reading: angular rates, accelerations and the time it was
/// taken, in microseconds. Within a session timestamps are expected to be
/// non-decreasing.
#[derive(PartialEq, Eq, Structural, Debug, Clone, Copy)]
pub struct OrientationSample {
    /// Gyroscope angular rates.
    pub gyro: Axes,
    /// Accelerometer readings.
    pub accel: Axes,
    /// When the sample was taken, in microseconds.
    pub timestamp_micros: u64,
}

/// What the integrator decides for one incoming sample.
#[derive(PartialEq, Eq, Structural, Debug, Clone, Copy)]
pub enum IntegrationStep {
    /// First sample of the session: record its timestamp as the baseline and
    /// run no integration step — there is no valid time delta yet.
    Baseline,
    /// Run one integration step, feeding the sample's rates and this time
    /// delta (microseconds since the previous sample) to the filter.
    Integrate {
        /// Time since the previous sample, in microseconds.
        dt_micros: u64,
    },
    /// The timestamp went backwards, which the sensor protocol rules out.
    /// The sample is discarded whole and the integrator state is unchanged,
    /// so one bad reading cannot corrupt later time deltas.
    OutOfOrder,
}

/// Decides, per sample, whether and with which time delta the orientation
/// filter runs. It consumes timestamps; the angles themselves never enter it.
pub struct OrientationIntegrator {
    prev_timestamp: Option<u64>,
}

impl OrientationIntegrator {
    /// The timestamp of the last accepted sample, if any.
    pub closed spec fn last_timestamp(self) -> Option<u64> {
        self.prev_timestamp
    }

    /// A fresh session: no sample seen yet.
    pub fn new() -> (s: OrientationIntegrator)
        ensures
            s.last_timestamp() is None,
    {
        OrientationIntegrator { prev_timestamp: None }
    }

    /// Consume one sample. The first sample of a session, whatever its
    /// timestamp, only records the baseline and changes no orientation
    /// state. Every later in-order sample yields exactly one integration
    /// step whose time delta is the difference of the two timestamps in
    /// microseconds; the caller divides by one million to get seconds.
    pub fn ingest(&mut self, sample: &OrientationSample) -> (r: IntegrationStep)
        ensures
            old(self).last_timestamp() is None ==> r == IntegrationStep::Baseline
                && final(self).last_timestamp() == Some(sample.timestamp_micros),
            old(self).last_timestamp() matches Some(p) ==> (if p <= sample.timestamp_micros {
                r == (IntegrationStep::Integrate {
                    dt_micros: (sample.timestamp_micros - p) as u64,
                }) && final(self).last_timestamp() == Some(sample.timestamp_micros)
            } else {
                r == IntegrationStep::OutOfOrder && *final(self) == *old(self)
            }),
            // The recorded timestamp of a session never decreases.
            old(self).last_timestamp() matches Some(p) ==> (final(self).last_timestamp()
                matches Some(q) && p <= q),
    {
        match self.prev_timestamp {
            None => {
                self.prev_timestamp = Some(sample.timestamp_micros);
                IntegrationStep::Baseline
            },
            Some(p) => {
                if p <= sample.timestamp_micros {
                    self.prev_timestamp = Some(sample.timestamp_micros);
                    IntegrationStep::Integrate { dt_micros: sample.timestamp_micros - p }
                } else {
                    IntegrationStep::OutOfOrder
                }
            },
        }
    }
}

/// A head orientation as three Euler angles in radians, each carried as the
/// bit pattern of an IEEE-754 single-precision value.
#[derive(PartialEq, Eq, Structural, Debug, Clone, Copy)]
pub struct Orientation {
    /// Bit pattern of the yaw angle.
    pub yaw_bits: u32,
    /// Bit pattern of the pitch angle.
    pub pitch_bits: u32,
    /// Bit pattern of the roll angle.
    pub roll_bits: u32,
}

impl Orientation {
    /// The all-zero orientation: every angle is positive zero.
    pub open spec fn identity() -> Orientation {
        Orientation { yaw_bits: 0, pitch_bits: 0, roll_bits: 0 }
    }
}

/// The shared, read-mostly holder of the latest orientation estimate:
/// written by the sensor thread after each integration step, read once per
/// render tick. At run time it sits behind a lock held only across these
/// short copy operations. Reading the same value across several ticks is
/// valid and expected; orientation has no freshness flag.
pub struct OrientationStore {
    current: Orientation,
}

impl OrientationStore {
    /// The orientation a reader would snapshot now.
    pub closed spec fn current(self) -> Orientation {
        self.current
    }

    /// A store holding the identity orientation.
    pub fn new() -> (s: OrientationStore)
        ensures
            s.current() == Orientation::identity(),
    {
        OrientationStore { current: Orientation { yaw_bits: 0, pitch_bits: 0, roll_bits: 0 } }
    }

    /// Replace the estimate with a newer one.
    pub fn publish(&mut self, o: Orientation)
        ensures
            final(self).current() == o,
    {
        self.current = o;
    }

    /// Copy the current estimate out; the store is unchanged.
    pub fn snapshot(&self) -> (r: Orientation)
        ensures
            r == self.current(),
    {
        self.current
    }
}

/// The bit pattern of the negated IEEE-754 single-precision value: the sign
/// bit flipped, everything else kept.
pub open spec fn negated_bits(b: u32) -> u32 {
    b ^ 0x8000_0000
}

/// The three angles handed to the engine's Euler-rotation constructor, in
/// the yaw-axis, then x-axis, then z-axis order the sensor mounting calls
/// for.
#[derive(PartialEq, Eq, Structural, Debug, Clone, Copy)]
pub struct CameraAngles {
    /// Rotation about the yaw axis: the yaw angle.
    pub y_axis_bits: u32,
    /// Rotation about the x axis: the roll angle, sign-inverted.
    pub x_axis_bits: u32,
    /// Rotation about the z axis: the pitch angle.
    pub z_axis_bits: u32,
}

/// The camera rotation an orientation snapshot maps to: yaw first, then roll
/// with its sign inverted, then pitch. This order and the sign flip match
/// the sensor's physical mounting convention and must be kept exactly.
pub open spec fn camera_angles_of(o: Orientation) -> CameraAngles {
    CameraAngles {
        y_axis_bits: o.yaw_bits,
        x_axis_bits: negated_bits(o.roll_bits),
        z_axis_bits: o.pitch_bits,
    }
}

/// Derive the camera rotation for one orientation snapshot.
pub fn camera_angles(o: &Orientation) -> (r: CameraAngles)
    ensures
        r == camera_angles_of(*o),
{
    CameraAngles {
        y_axis_bits: o.yaw_bits,
        x_axis_bits: o.roll_bits ^ 0x8000_0000,
        z_axis_bits: o.pitch_bits,
    }
}

/// Apply one orientation snapshot identically to every tracked camera. The
/// system has exactly one camera, but the rule holds for any number.
pub fn apply_to_cameras(cameras: &mut Vec<CameraAngles>, o: &Orientation)
    ensures
        final(cameras)@.len() == old(cameras)@.len(),
        forall|i: int|
            0 <= i < final(cameras)@.len() ==> final(cameras)@[i] == camera_angles_of(*o),
{
    let rot = camera_angles(o);
    let n = cameras.len();
    let mut i: usize = 0;
    while i < n
        invariant
            n == cameras@.len(),
            cameras@.len() == old(cameras)@.len(),
            i <= n,
            rot == camera_angles_of(*o),
            forall|j: int| 0 <= j < i ==> cameras@[j] == camera_angles_of(*o),
        decreases n - i,
    {
        cameras.set(i, rot);
        i += 1;
    }
}

} // verus!
