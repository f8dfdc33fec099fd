//! The decisions of the sampling loop: what one timer tick does, and what the
//! status indicator shows after a write to the host.
//!
//! The loop itself (the timer, the transport, the indicator pin) belongs to the
//! board; it calls `Scheduler::tick` when the timer fires and
//! `Scheduler::on_write` after each write attempt.
use vstd::prelude::*;

use crate::bus::{one_more, I2c};
use crate::codec::{imu_sample_of, mag_field_of, Axes};
use crate::driver::{imu_block_transfer, mag_block_transfer, Imc20948};

verus! {

/// Successful ticks between two diagnostic logs of a sample: one tick in
/// `LOG_EVERY + 1` is logged.
pub const LOG_EVERY: u32 = 20;

/// Period of the sampling timer, in milliseconds. The orientation filter must
/// be built for the same sample period: it has no time input of its own.
pub const TICK_PERIOD_MS: u32 = 100;

/// The orientation estimator: it takes one sample per tick, in raw counts, and
/// returns the updated orientation. Any fusion algorithm with a fixed sample
/// period can stand behind it.
pub trait OrientationFilter {
    type Orientation;
    type Error;

    /// Takes one sample and returns the orientation after it.
    fn update(&mut self, gyro: Axes, acc: Axes, mag: Axes) -> Result<Self::Orientation, Self::Error>;
}

/// One sample from both sub-devices, in raw counts.
#[derive(Clone, Copy, Debug, PartialEq, Eq, Structural)]
pub struct Sample {
    pub gyro: Axes,
    pub acc: Axes,
    pub mag: Axes,
    /// Whether this sample is due for the diagnostic log.
    pub log: bool,
}

/// What one successful tick hands on to the telemetry encoder.
pub struct Frame<Q> {
    pub acc: Axes,
    pub mag: Axes,
    pub orientation: Q,
    /// Whether this sample is due for the diagnostic log.
    pub log: bool,
}

/// Why a tick produced no frame.
#[derive(Debug)]
pub enum TickError<B, F> {
    /// A sample read failed with this bus error.
    Bus(B),
    /// The orientation filter rejected the sample.
    Filter(F),
}

/// What to do with the status indicator.
#[derive(Clone, Copy, Debug, PartialEq, Eq, Structural)]
pub enum LedCommand {
    /// The frame went out: toggle, for a visible heartbeat.
    Toggle,
    /// The transport refused the frame: switch off.
    Off,
}

/// The state that the loop carries from tick to tick, besides the filter.
#[derive(Clone, Copy, Debug, PartialEq, Eq, Structural)]
pub struct Scheduler {
    /// Successful reads since the last logged one.
    pub since_log: u32,
    /// Whether the status indicator is on.
    pub led_on: bool,
}

/// The scheduler after a tick whose two reads succeeded (`read_ok`) or not.
pub open spec fn after_reads(s: Scheduler, read_ok: bool) -> Scheduler {
    if !read_ok {
        s
    } else if s.since_log >= LOG_EVERY {
        Scheduler { since_log: 0, ..s }
    } else {
        Scheduler { since_log: (s.since_log + 1) as u32, ..s }
    }
}

/// What `Scheduler::sample` returns, given the replies to its two reads.
pub open spec fn reads_result<E>(s: Scheduler, mag: Result<Seq<u8>, E>, imu: Result<Seq<u8>, E>) -> Result<Sample, E> {
    match (mag, imu) {
        (Err(e), _) => Err(e),
        (Ok(_), Err(e)) => Err(e),
        (Ok(m), Ok(g)) => Ok(
            Sample {
                gyro: imu_sample_of(g).gyro,
                acc: imu_sample_of(g).acc,
                mag: mag_field_of(m),
                log: s.since_log >= LOG_EVERY,
            },
        ),
    }
}

/// The scheduler after a write that the transport `accepted` or not.
pub open spec fn after_write(s: Scheduler, accepted: bool) -> Scheduler {
    Scheduler { led_on: accepted && !s.led_on, ..s }
}

impl Scheduler {
    /// Nothing logged yet, indicator off.
    pub fn new() -> (r: Scheduler)
        ensures
            r == (Scheduler { since_log: 0, led_on: false }),
    {
        Scheduler { since_log: 0, led_on: false }
    }

    /// The sampling half of a tick: reads a magnetic sample, then an
    /// inertial sample, both always. If either read failed, the scheduler is
    /// left as it was and the first error is returned; otherwise the sample is
    /// returned and counted towards the diagnostic log.
    pub fn sample<I: I2c>(&mut self, imc: &mut Imc20948<I>) -> (r: Result<Sample, I::Error>)
        ensures
            ({
                let t0 = old(imc).transcript();
                let t = final(imc).transcript();
                let m = t.drop_last().last();
                let g = t.last();
                &&& t.len() == t0.len() + 2
                &&& one_more(t0, t.drop_last(), mag_block_transfer())
                &&& one_more(t.drop_last(), t, imu_block_transfer())
                &&& *final(self) == after_reads(*old(self), m.reply is Ok && g.reply is Ok)
                &&& r == reads_result(*old(self), m.reply, g.reply)
            }),
    {
        let mag = imc.mag_read();
        let imu = imc.imu_read();
        let (mag, imu) = match (mag, imu) {
            (Err(e), _) => {
                return Err(e);
            },
            (Ok(_), Err(e)) => {
                return Err(e);
            },
            (Ok(m), Ok(g)) => (m, g),
        };
        let log = self.since_log >= LOG_EVERY;
        if log {
            self.since_log = 0;
        } else {
            self.since_log = self.since_log + 1;
        }
        Ok(Sample { gyro: imu.gyro, acc: imu.acc, mag, log })
    }

    /// One timer tick: `sample`, then, if both reads succeeded, the sample
    /// goes to the filter and `frame_of` makes the frame from what the filter
    /// returned. A tick whose read failed leaves the filter untouched.
    pub fn tick<I: I2c, F: OrientationFilter>(&mut self, imc: &mut Imc20948<I>, filter: &mut F) -> (r:
        Result<Frame<F::Orientation>, TickError<I::Error, F::Error>>)
        ensures
            ({
                let t0 = old(imc).transcript();
                let t = final(imc).transcript();
                let m = t.drop_last().last();
                let g = t.last();
                let read = reads_result(*old(self), m.reply, g.reply);
                &&& t.len() == t0.len() + 2
                &&& one_more(t0, t.drop_last(), mag_block_transfer())
                &&& one_more(t.drop_last(), t, imu_block_transfer())
                &&& *final(self) == after_reads(*old(self), m.reply is Ok && g.reply is Ok)
                &&& match read {
                    Err(e) => {
                        &&& r == Err::<Frame<F::Orientation>, TickError<I::Error, F::Error>>(
                            TickError::Bus(e),
                        )
                        &&& *final(filter) == *old(filter)
                    },
                    Ok(s) => match r {
                        Ok(frame) => frame.acc == s.acc && frame.mag == s.mag && frame.log == s.log,
                        Err(e) => e is Filter,
                    },
                }
            }),
    {
        let s = match self.sample(imc) {
            Ok(s) => s,
            Err(e) => {
                return Err(TickError::Bus(e));
            },
        };
        let fused = filter.update(s.gyro, s.acc, s.mag);
        frame_of(s, fused)
    }

    /// Records the outcome of a write of a frame to the host: an accepted
    /// write toggles the indicator, a refused one switches it off.
    pub fn on_write(&mut self, accepted: bool) -> (r: LedCommand)
        ensures
            *final(self) == after_write(*old(self), accepted),
            r == (if accepted {
                LedCommand::Toggle
            } else {
                LedCommand::Off
            }),
    {
        self.led_on = accepted && !self.led_on;
        if accepted {
            LedCommand::Toggle
        } else {
            LedCommand::Off
        }
    }
}

/// Makes the frame of a tick from its sample and what the filter returned
/// for it; a rejection by the filter abandons the tick.
pub fn frame_of<Q, B, F>(s: Sample, fused: Result<Q, F>) -> (r: Result<Frame<Q>, TickError<B, F>>)
    ensures
        match fused {
            Ok(q) => r == Ok::<Frame<Q>, TickError<B, F>>(
                Frame { acc: s.acc, mag: s.mag, orientation: q, log: s.log },
            ),
            Err(e) => r == Err::<Frame<Q>, TickError<B, F>>(TickError::Filter(e)),
        },
{
    match fused {
        Ok(orientation) => Ok(Frame { acc: s.acc, mag: s.mag, orientation, log: s.log }),
        Err(e) => Err(TickError::Filter(e)),
    }
}

/// A tick whose sample read failed leaves the scheduler as it was, and the
/// next tick whose reads succeed goes on exactly as it would have without the
/// failed one before it.
pub proof fn lemma_failed_tick_leaves_no_trace<E>(s: Scheduler, mag: Seq<u8>, imu: Seq<u8>)
    ensures
        after_reads(s, false) == s,
        after_reads(after_reads(s, false), true) == after_reads(s, true),
        reads_result(after_reads(s, false), Ok::<Seq<u8>, E>(mag), Ok::<Seq<u8>, E>(imu))
            == reads_result(s, Ok::<Seq<u8>, E>(mag), Ok::<Seq<u8>, E>(imu)),
{
}

} // verus!
