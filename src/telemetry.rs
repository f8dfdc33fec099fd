//! The telemetry line: nine comma-separated decimal fields, acceleration,
//! magnetic field and roll, pitch and yaw, ended by a carriage return and a
//! line feed.
//!
//! Acceleration and the angles are physical values that the board formats; the
//! magnetic field is sent in raw counts, and its fields are written here.
use vstd::prelude::*;

use crate::codec::Axes;

verus! {

/// The longest line that the encoder produces, terminator included.
pub const MAX_LINE_LEN: usize = 256;

/// The decimal digits of `n`, most significant first, in ASCII.
pub open spec fn digits(n: nat) -> Seq<u8>
    decreases n,
{
    if n < 10 {
        seq![(48 + n) as u8]
    } else {
        digits(n / 10).push((48 + n % 10) as u8)
    }
}

/// `v` in decimal, in ASCII, with a leading minus sign when negative.
pub open spec fn decimal(v: int) -> Seq<u8> {
    if v < 0 {
        seq![45u8] + digits((-v) as nat)
    } else {
        digits(v as nat)
    }
}

/// The fields `fs` with a comma between each two.
pub open spec fn joined(fs: Seq<Seq<u8>>) -> Seq<u8>
    decreases fs.len(),
{
    if fs.len() == 0 {
        Seq::empty()
    } else if fs.len() == 1 {
        fs[0]
    } else {
        joined(fs.drop_last()) + seq![44u8] + fs.last()
    }
}

/// The nine fields of a line, in order.
pub open spec fn line_fields(acc: Seq<Seq<u8>>, mag: Axes, angles: Seq<Seq<u8>>) -> Seq<Seq<u8>> {
    seq![
        acc[0],
        acc[1],
        acc[2],
        decimal(mag.x as int),
        decimal(mag.y as int),
        decimal(mag.z as int),
        angles[0],
        angles[1],
        angles[2],
    ]
}

/// The line for the given fields: joined by commas, then `\r\n`.
pub open spec fn line_of(acc: Seq<Seq<u8>>, mag: Axes, angles: Seq<Seq<u8>>) -> Seq<u8> {
    joined(line_fields(acc, mag, angles)) + seq![13u8, 10u8]
}

fn push_digits(n: u32, out: &mut Vec<u8>)
    ensures
        final(out)@ == old(out)@ + digits(n as nat),
    decreases n,
{
    if n >= 10 {
        push_digits(n / 10, out);
    }
    out.push((48 + n % 10) as u8);
    proof {
        if n >= 10 {
            assert(digits(n as nat) == digits((n / 10) as nat).push((48 + n % 10) as u8));
        }
        assert(final(out)@ =~= old(out)@ + digits(n as nat));
    }
}

/// Writes a raw count in decimal.
pub fn format_count(v: i16) -> (r: Vec<u8>)
    ensures
        r@ == decimal(v as int),
{
    let mut out: Vec<u8> = Vec::new();
    if v < 0 {
        out.push(45u8);
        push_digits((-(v as i32)) as u32, &mut out);
    } else {
        push_digits(v as u32, &mut out);
    }
    proof {
        if v >= 0 {
            assert(out@ =~= decimal(v as int));
        }
    }
    out
}

fn append(out: &mut Vec<u8>, src: &Vec<u8>)
    ensures
        final(out)@ == old(out)@ + src@,
{
    let mut i: usize = 0;
    while i < src.len()
        invariant
            i <= src.len(),
            out@ == old(out)@ + src@.subrange(0, i as int),
        decreases src.len() - i,
    {
        out.push(src[i]);
        i = i + 1;
        proof {
            assert(out@ =~= old(out)@ + src@.subrange(0, i as int));
        }
    }
    assert(src@.subrange(0, i as int) =~= src@);
}

fn join(fields: &Vec<Vec<u8>>) -> (r: Vec<u8>)
    ensures
        r@ == joined(fields@.map_values(|f: Vec<u8>| f@)),
{
    let ghost fs = fields@.map_values(|f: Vec<u8>| f@);
    let mut out: Vec<u8> = Vec::new();
    let mut i: usize = 0;
    while i < fields.len()
        invariant
            i <= fields.len(),
            fs == fields@.map_values(|f: Vec<u8>| f@),
            out@ == joined(fs.subrange(0, i as int)),
        decreases fields.len() - i,
    {
        proof {
            let next = fs.subrange(0, i + 1);
            assert(next.drop_last() =~= fs.subrange(0, i as int));
        }
        if i > 0 {
            out.push(44u8);
        }
        append(&mut out, &fields[i]);
        i = i + 1;
        proof {
            let cur = fs.subrange(0, i as int);
            if i == 1 {
                assert(joined(cur) == cur[0]);
                assert(out@ =~= joined(cur));
            } else {
                assert(out@ =~= joined(cur));
            }
        }
    }
    assert(fs.subrange(0, i as int) =~= fs);
    out
}

/// Encodes one telemetry line from the three acceleration fields, the raw
/// magnetic field and the three angle fields. Returns `None` exactly when the
/// line would be longer than `MAX_LINE_LEN`.
pub fn encode_line(acc: &[Vec<u8>; 3], mag: Axes, angles: &[Vec<u8>; 3]) -> (r: Option<Vec<u8>>)
    ensures
        ({
            let line = line_of(seq![acc[0]@, acc[1]@, acc[2]@], mag, seq![angles[0]@, angles[1]@, angles[2]@]);
            match r {
                Some(bytes) => bytes@ == line && line.len() <= MAX_LINE_LEN,
                None => line.len() > MAX_LINE_LEN,
            }
        }),
{
    let mut fields: Vec<Vec<u8>> = Vec::new();
    fields.push(acc[0].clone());
    fields.push(acc[1].clone());
    fields.push(acc[2].clone());
    fields.push(format_count(mag.x));
    fields.push(format_count(mag.y));
    fields.push(format_count(mag.z));
    fields.push(angles[0].clone());
    fields.push(angles[1].clone());
    fields.push(angles[2].clone());
    proof {
        assert(fields@.map_values(|f: Vec<u8>| f@) =~= line_fields(
            seq![acc[0]@, acc[1]@, acc[2]@],
            mag,
            seq![angles[0]@, angles[1]@, angles[2]@],
        ));
    }
    let mut out = join(&fields);
    if out.len() > MAX_LINE_LEN - 2 {
        return None;
    }
    out.push(13u8);
    out.push(10u8);
    proof {
        assert(out@ =~= line_of(
            seq![acc[0]@, acc[1]@, acc[2]@],
            mag,
            seq![angles[0]@, angles[1]@, angles[2]@],
        ));
    }
    Some(out)
}

} // verus!
