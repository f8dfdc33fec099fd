//! Decoding of the raw sample blocks that the two sub-devices return.
//!
//! The inertial sub-device sends its lanes high byte first, the magnetic
//! sub-device low byte first; each decoder here keeps to its own order.
use vstd::prelude::*;

use crate::registers::{IMU_BLOCK_LEN, MAG_BLOCK_LEN};

verus! {

/// Three signed lanes of one physical quantity, in raw counts.
#[derive(Clone, Copy, Debug, PartialEq, Eq, Structural)]
pub struct Axes {
    pub x: i16,
    pub y: i16,
    pub z: i16,
}

/// One inertial sample: angular rate and acceleration, in raw counts.
#[derive(Clone, Copy, Debug, PartialEq, Eq, Structural)]
pub struct ImuSample {
    pub gyro: Axes,
    pub acc: Axes,
}

/// The signed value of two bytes read high byte first.
pub open spec fn be_i16(hi: u8, lo: u8) -> int {
    let v = hi * 256 + lo;
    if v < 32768 {
        v
    } else {
        v - 65536
    }
}

/// The signed value of two bytes read low byte first.
pub open spec fn le_i16(lo: u8, hi: u8) -> int {
    be_i16(hi, lo)
}

/// The unsigned value of two bytes read low byte first.
pub open spec fn le_u16(lo: u8, hi: u8) -> int {
    hi * 256 + lo
}

/// The lanes that start at `i` in `b`, each high byte first.
pub open spec fn be_axes_at(b: Seq<u8>, i: int) -> Axes {
    Axes {
        x: be_i16(b[i], b[i + 1]) as i16,
        y: be_i16(b[i + 2], b[i + 3]) as i16,
        z: be_i16(b[i + 4], b[i + 5]) as i16,
    }
}

/// The lanes that start at `i` in `b`, each low byte first.
pub open spec fn le_axes_at(b: Seq<u8>, i: int) -> Axes {
    Axes {
        x: le_i16(b[i], b[i + 1]) as i16,
        y: le_i16(b[i + 2], b[i + 3]) as i16,
        z: le_i16(b[i + 4], b[i + 5]) as i16,
    }
}

/// What an inertial block holds: acceleration in bytes 0 to 5, angular rate in
/// bytes 6 to 11.
pub open spec fn imu_sample_of(b: Seq<u8>) -> ImuSample {
    ImuSample { acc: be_axes_at(b, 0), gyro: be_axes_at(b, 6) }
}

/// What a magnetic block holds: the lanes in bytes 1 to 6, after the status
/// byte; the padding byte and the second status byte are not read.
pub open spec fn mag_field_of(b: Seq<u8>) -> Axes {
    le_axes_at(b, 1)
}

/// The two bytes of `v`, high byte first.
pub open spec fn be_bytes(v: i16) -> Seq<u8> {
    let u = if v < 0 { v + 65536 } else { v as int };
    seq![(u / 256) as u8, (u % 256) as u8]
}

/// The inertial block that holds `s`.
pub open spec fn imu_block_of(s: ImuSample) -> Seq<u8> {
    be_bytes(s.acc.x) + be_bytes(s.acc.y) + be_bytes(s.acc.z) + be_bytes(s.gyro.x) + be_bytes(
        s.gyro.y,
    ) + be_bytes(s.gyro.z)
}

/// Reads a signed 16-bit integer sent high byte first.
pub fn i16_from_be(hi: u8, lo: u8) -> (r: i16)
    ensures
        r == be_i16(hi, lo),
{
    let v: i32 = (hi as i32) * 256 + (lo as i32);
    if v < 32768 {
        v as i16
    } else {
        (v - 65536) as i16
    }
}

/// Reads a signed 16-bit integer sent low byte first.
pub fn i16_from_le(lo: u8, hi: u8) -> (r: i16)
    ensures
        r == le_i16(lo, hi),
{
    i16_from_be(hi, lo)
}

/// Reads an unsigned 16-bit integer sent low byte first.
pub fn u16_from_le(lo: u8, hi: u8) -> (r: u16)
    ensures
        r == le_u16(lo, hi),
{
    (hi as u16) * 256 + (lo as u16)
}

/// Decodes a raw inertial block.
pub fn decode_imu_block(b: &[u8; IMU_BLOCK_LEN]) -> (r: ImuSample)
    ensures
        r == imu_sample_of(b@),
{
    let acc = Axes {
        x: i16_from_be(b[0], b[1]),
        y: i16_from_be(b[2], b[3]),
        z: i16_from_be(b[4], b[5]),
    };
    let gyro = Axes {
        x: i16_from_be(b[6], b[7]),
        y: i16_from_be(b[8], b[9]),
        z: i16_from_be(b[10], b[11]),
    };
    ImuSample { gyro, acc }
}

/// Decodes a raw magnetic block, skipping its status and padding bytes.
pub fn decode_mag_block(b: &[u8; MAG_BLOCK_LEN]) -> (r: Axes)
    ensures
        r == mag_field_of(b@),
{
    Axes { x: i16_from_le(b[1], b[2]), y: i16_from_le(b[3], b[4]), z: i16_from_le(b[5], b[6]) }
}

proof fn lemma_be_i16_bytes(hi: u8, lo: u8)
    ensures
        be_bytes(be_i16(hi, lo) as i16) == seq![hi, lo],
{
    let v = be_i16(hi, lo);
    let u: int = hi * 256 + lo;
    assert(v as i16 == v);
    assert((if v < 0 { v + 65536 } else { v }) == u);
    assert(u / 256 == hi && u % 256 == lo) by (nonlinear_arith)
        requires
            u == hi * 256 + lo,
            0 <= lo < 256,
            0 <= hi < 256,
    ;
    assert(be_bytes(v as i16) =~= seq![hi, lo]);
}

/// Decoding an inertial block loses nothing: writing the decoded lanes back,
/// high byte first, gives the same bytes. So two blocks decode to the same
/// sample exactly when they are the same bytes.
pub proof fn lemma_imu_block_round_trip(b: Seq<u8>, c: Seq<u8>)
    requires
        b.len() == IMU_BLOCK_LEN,
        c.len() == IMU_BLOCK_LEN,
    ensures
        imu_block_of(imu_sample_of(b)) == b,
        imu_sample_of(b) == imu_sample_of(c) <==> b == c,
{
    assert forall|d: Seq<u8>| d.len() == IMU_BLOCK_LEN implies imu_block_of(imu_sample_of(d)) == d by {
        lemma_be_i16_bytes(d[0], d[1]);
        lemma_be_i16_bytes(d[2], d[3]);
        lemma_be_i16_bytes(d[4], d[5]);
        lemma_be_i16_bytes(d[6], d[7]);
        lemma_be_i16_bytes(d[8], d[9]);
        lemma_be_i16_bytes(d[10], d[11]);
        assert(imu_block_of(imu_sample_of(d)) =~= d);
    }
    assert(imu_block_of(imu_sample_of(c)) == c);
}

} // verus!
