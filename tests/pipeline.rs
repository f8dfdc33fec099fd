use std::cell::RefCell;
use std::collections::HashSet;
use std::rc::Rc;

use imu_playground::bus::I2c;
use imu_playground::codec::Axes;
use imu_playground::driver::{ImcError, Imc20948};
use imu_playground::registers::{IMU_ADDR, MAG_ADDR};
use imu_playground::schedule::{
    frame_of, Frame, LedCommand, OrientationFilter, Sample, Scheduler, TickError, LOG_EVERY,
};

#[derive(Debug, Clone, PartialEq)]
enum Op {
    Write(u8, Vec<u8>),
    WriteRead(u8, Vec<u8>, usize),
}

#[derive(Debug, Clone, Copy, PartialEq)]
struct BusFault;

/// A simulated sensor package: fixed register contents, a log of every
/// transaction, and a set of transaction numbers that fail.
struct SimBus {
    ops: Rc<RefCell<Vec<Op>>>,
    imu_id: u8,
    mag_id: [u8; 2],
    failing: HashSet<usize>,
}

const IMU_BLOCK: [u8; 12] = [
    0x40, 0x00, 0x00, 0x00, 0xC0, 0x00, 0x00, 0x83, 0x00, 0x00, 0xFF, 0x7D,
];
const MAG_BLOCK: [u8; 9] = [0x01, 0x0A, 0x00, 0xF6, 0xFF, 0x00, 0x01, 0x00, 0x00];

impl SimBus {
    fn new(ops: Rc<RefCell<Vec<Op>>>) -> SimBus {
        SimBus { ops, imu_id: 0xEA, mag_id: [0x48, 0x09], failing: HashSet::new() }
    }

    fn record(&mut self, op: Op) -> Result<(), BusFault> {
        let n = self.ops.borrow().len();
        self.ops.borrow_mut().push(op);
        if self.failing.contains(&n) {
            Err(BusFault)
        } else {
            Ok(())
        }
    }
}

impl I2c for SimBus {
    type Error = BusFault;

    fn write(&mut self, address: u8, bytes: &[u8]) -> Result<(), BusFault> {
        self.record(Op::Write(address, bytes.to_vec()))
    }

    fn write_read(&mut self, address: u8, bytes: &[u8], buffer: &mut [u8]) -> Result<(), BusFault> {
        self.record(Op::WriteRead(address, bytes.to_vec(), buffer.len()))?;
        let reply: Vec<u8> = match (address, bytes[0]) {
            (IMU_ADDR, 0x00) => vec![self.imu_id],
            (IMU_ADDR, 0x06) => vec![0x41],
            (IMU_ADDR, 0x2D) => IMU_BLOCK.to_vec(),
            (MAG_ADDR, 0x00) => self.mag_id.to_vec(),
            (MAG_ADDR, 0x10) => MAG_BLOCK.to_vec(),
            _ => vec![0; buffer.len()],
        };
        buffer.copy_from_slice(&reply[..buffer.len()]);
        Ok(())
    }
}

/// A stand-in filter: it counts its updates and returns the running sum of
/// the angular-rate x lanes it was given.
#[derive(Debug, Clone, PartialEq)]
struct CountingFilter {
    updates: u32,
    sum: i64,
    reject: bool,
}

impl OrientationFilter for CountingFilter {
    type Orientation = i64;
    type Error = &'static str;

    fn update(&mut self, gyro: Axes, _acc: Axes, _mag: Axes) -> Result<i64, &'static str> {
        if self.reject {
            return Err("degenerate sample");
        }
        self.updates += 1;
        self.sum += i64::from(gyro.x);
        Ok(self.sum)
    }
}

fn fresh_filter() -> CountingFilter {
    CountingFilter { updates: 0, sum: 0, reject: false }
}

fn startup_ops() -> Vec<Op> {
    vec![
        Op::WriteRead(0x68, vec![0x00], 1),
        Op::Write(0x68, vec![0x7F, 0x00]),
        Op::WriteRead(0x68, vec![0x06], 1),
        Op::Write(0x68, vec![0x06, 0x01]),
        Op::Write(0x68, vec![0x06, 0x01]),
        Op::Write(0x68, vec![0x03, 0x02]),
        Op::Write(0x68, vec![0x0F, 0x02]),
        Op::WriteRead(0x0C, vec![0x00], 2),
        Op::Write(0x0C, vec![0x31, 0x08]),
    ]
}

#[test]
fn startup_runs_the_whole_sequence() {
    let ops = Rc::new(RefCell::new(Vec::new()));
    let mut imc = Imc20948::new(SimBus::new(ops.clone()));
    assert!(imc.startup().is_ok());
    assert_eq!(*ops.borrow(), startup_ops());
}

#[test]
fn inertial_identity_mismatch_stops_before_any_write() {
    for id in [0x00u8, 0x01, 0xE9, 0xEB, 0xFF] {
        let ops = Rc::new(RefCell::new(Vec::new()));
        let mut bus = SimBus::new(ops.clone());
        bus.imu_id = id;
        let mut imc = Imc20948::new(bus);
        assert!(matches!(imc.startup(), Err(ImcError::BadId)));
        assert_eq!(*ops.borrow(), vec![Op::WriteRead(0x68, vec![0x00], 1)]);
        assert!(!ops.borrow().iter().any(|op| matches!(op, Op::Write(..))));
    }
}

#[test]
fn magnetic_identity_mismatch_fails_startup() {
    let ops = Rc::new(RefCell::new(Vec::new()));
    let mut bus = SimBus::new(ops.clone());
    bus.mag_id = [0x09, 0x48];
    let mut imc = Imc20948::new(bus);
    assert!(matches!(imc.startup(), Err(ImcError::BadId)));
    assert_eq!(*ops.borrow(), startup_ops()[..8].to_vec());
}

#[test]
fn startup_passes_on_the_first_bus_error() {
    for k in 0..9 {
        let ops = Rc::new(RefCell::new(Vec::new()));
        let mut bus = SimBus::new(ops.clone());
        bus.failing.insert(k);
        let mut imc = Imc20948::new(bus);
        assert!(matches!(imc.startup(), Err(ImcError::I2c(BusFault))));
        assert_eq!(*ops.borrow(), startup_ops()[..k + 1].to_vec());
    }
}

#[test]
fn identity_reads() {
    let ops = Rc::new(RefCell::new(Vec::new()));
    let mut imc = Imc20948::new(SimBus::new(ops.clone()));
    assert_eq!(imc.imu_who_am_i(), Ok(0xEA));
    assert_eq!(imc.mag_who_am_i(), Ok(0x0948));
    assert_eq!(imc.imu_wake(), Ok(()));
    assert_eq!(imc.mag_wake(), Ok(()));
    assert_eq!(imc.imu_enable_i2c_bypass(), Ok(()));
    assert_eq!(
        *ops.borrow(),
        vec![
            Op::WriteRead(0x68, vec![0x00], 1),
            Op::WriteRead(0x0C, vec![0x00], 2),
            Op::Write(0x68, vec![0x06, 0x01]),
            Op::Write(0x0C, vec![0x31, 0x08]),
            Op::Write(0x68, vec![0x03, 0x02]),
            Op::Write(0x68, vec![0x0F, 0x02]),
        ]
    );
}

#[test]
fn sample_reads_decode_their_blocks() {
    let ops = Rc::new(RefCell::new(Vec::new()));
    let mut imc = Imc20948::new(SimBus::new(ops.clone()));
    let s = imc.imu_read().unwrap();
    assert_eq!(s.acc, Axes { x: 16384, y: 0, z: -16384 });
    assert_eq!(s.gyro, Axes { x: 131, y: 0, z: -131 });
    assert_eq!(imc.mag_read(), Ok(Axes { x: 10, y: -10, z: 256 }));
    assert_eq!(
        *ops.borrow(),
        vec![Op::WriteRead(0x68, vec![0x2D], 12), Op::WriteRead(0x0C, vec![0x10], 9)]
    );
}

#[test]
fn tick_reads_both_sub_devices_and_fuses() {
    let ops = Rc::new(RefCell::new(Vec::new()));
    let mut imc = Imc20948::new(SimBus::new(ops.clone()));
    let mut filter = fresh_filter();
    let mut sched = Scheduler::new();
    let frame = sched.tick(&mut imc, &mut filter).unwrap();
    assert_eq!(frame.acc, Axes { x: 16384, y: 0, z: -16384 });
    assert_eq!(frame.mag, Axes { x: 10, y: -10, z: 256 });
    assert_eq!(frame.orientation, 131);
    assert!(!frame.log);
    assert_eq!(filter.updates, 1);
    assert_eq!(sched.since_log, 1);
    assert_eq!(
        *ops.borrow(),
        vec![Op::WriteRead(0x0C, vec![0x10], 9), Op::WriteRead(0x68, vec![0x2D], 12)]
    );
}

#[test]
fn failed_read_leaves_filter_and_scheduler_untouched() {
    for failing in [0usize, 1] {
        let ops = Rc::new(RefCell::new(Vec::new()));
        let mut bus = SimBus::new(ops.clone());
        // Transactions 0 and 1 are the first tick, 2 and 3 the second, 4 and 5 the third.
        bus.failing.insert(2 + failing);
        let mut imc = Imc20948::new(bus);
        let mut filter = fresh_filter();
        let mut sched = Scheduler::new();

        assert_eq!(sched.tick(&mut imc, &mut filter).unwrap().orientation, 131);
        let filter_before = filter.clone();
        let sched_before = sched;

        let failed = sched.tick(&mut imc, &mut filter);
        assert!(matches!(failed, Err(TickError::Bus(BusFault))));
        assert_eq!(filter, filter_before);
        assert_eq!(sched, sched_before);
        // Both reads were attempted even when the first one failed.
        assert_eq!(ops.borrow().len(), 4);

        let next = sched.tick(&mut imc, &mut filter).unwrap();
        assert_eq!(next.orientation, 262);
        assert_eq!(filter.updates, 2);
        assert_eq!(sched.since_log, 2);
    }
}

#[test]
fn filter_rejection_abandons_the_tick() {
    let ops = Rc::new(RefCell::new(Vec::new()));
    let mut imc = Imc20948::new(SimBus::new(ops));
    let mut filter = fresh_filter();
    filter.reject = true;
    let mut sched = Scheduler::new();
    let r = sched.tick(&mut imc, &mut filter);
    assert!(matches!(r, Err(TickError::Filter("degenerate sample"))));
    assert_eq!(filter.updates, 0);
}

#[test]
fn every_twenty_first_sample_is_logged() {
    let ops = Rc::new(RefCell::new(Vec::new()));
    let mut imc = Imc20948::new(SimBus::new(ops));
    let mut filter = fresh_filter();
    let mut sched = Scheduler::new();
    let mut logged = Vec::new();
    for i in 0..(2 * (LOG_EVERY as usize + 1)) {
        if sched.tick(&mut imc, &mut filter).unwrap().log {
            logged.push(i);
        }
    }
    assert_eq!(logged, vec![20, 41]);
    assert_eq!(sched.since_log, 0);
}

#[test]
fn indicator_follows_write_outcome() {
    let mut sched = Scheduler::new();
    assert_eq!(sched.on_write(true), LedCommand::Toggle);
    assert!(sched.led_on);
    assert_eq!(sched.on_write(true), LedCommand::Toggle);
    assert!(!sched.led_on);
    assert_eq!(sched.on_write(true), LedCommand::Toggle);
    assert!(sched.led_on);
    assert_eq!(sched.on_write(false), LedCommand::Off);
    assert!(!sched.led_on);
    assert_eq!(sched.on_write(false), LedCommand::Off);
    assert!(!sched.led_on);
    assert_eq!(sched.since_log, 0);
}

#[test]
fn sample_returns_both_readings() {
    let ops = Rc::new(RefCell::new(Vec::new()));
    let mut imc = Imc20948::new(SimBus::new(ops));
    let mut sched = Scheduler { since_log: LOG_EVERY, led_on: true };
    let s = sched.sample(&mut imc).unwrap();
    assert_eq!(
        s,
        Sample {
            gyro: Axes { x: 131, y: 0, z: -131 },
            acc: Axes { x: 16384, y: 0, z: -16384 },
            mag: Axes { x: 10, y: -10, z: 256 },
            log: true,
        }
    );
    assert_eq!(sched, Scheduler { since_log: 0, led_on: true });
}

#[test]
fn sample_passes_on_the_first_read_error() {
    let ops = Rc::new(RefCell::new(Vec::new()));
    let mut bus = SimBus::new(ops.clone());
    bus.failing.insert(0);
    bus.failing.insert(1);
    let mut imc = Imc20948::new(bus);
    let mut sched = Scheduler::new();
    assert_eq!(sched.sample(&mut imc), Err(BusFault));
    assert_eq!(sched, Scheduler::new());
    assert_eq!(ops.borrow().len(), 2);
}

#[test]
fn frame_of_follows_the_filter() {
    let s = Sample {
        gyro: Axes { x: 1, y: 2, z: 3 },
        acc: Axes { x: 4, y: 5, z: 6 },
        mag: Axes { x: 7, y: 8, z: 9 },
        log: false,
    };
    let ok: Result<Frame<u8>, TickError<BusFault, ()>> = frame_of(s, Ok(42u8));
    let frame = ok.unwrap();
    assert_eq!((frame.acc, frame.mag, frame.orientation, frame.log), (s.acc, s.mag, 42, false));
    let rejected: Result<Frame<u8>, TickError<BusFault, ()>> = frame_of(s, Err(()));
    assert!(matches!(rejected, Err(TickError::Filter(()))));
}
