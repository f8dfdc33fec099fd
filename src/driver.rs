//! Register-level driver of the sensor package.
//!
//! Every transaction goes through the driver's own bus handle, and the driver
//! keeps a ghost transcript of each one: what it handed to the bus and what
//! came back. The contracts below state each operation over that transcript.
use vstd::prelude::*;

use crate::bus::{
    answers, is_register_write, one_more, read_of, write_of, Exchange, I2c, Transfer,
};
use crate::codec::{
    decode_imu_block, decode_mag_block, imu_sample_of, le_u16, mag_field_of, u16_from_le, Axes,
    ImuSample,
};
use crate::registers::{
    BYPASS_EN, I2C_MST_RST, IMU_ACCEL_XOUT_H, IMU_ADDR, IMU_AWAKE, IMU_BLOCK_LEN, IMU_ID,
    IMU_INT_PIN_CFG, IMU_PWR_MGMT_1, IMU_REG_BANK_SEL, IMU_USER_CTRL, IMU_WHO_AM_I,
    MAG_ADDR, MAG_BLOCK_LEN, MAG_CNTL2, MAG_CONTINUOUS_100HZ, MAG_ID, MAG_ST1, MAG_WIA,
};

verus! {

/// Why start-up failed.
#[derive(Debug)]
pub enum ImcError<E> {
    /// The bus reported this error; it is passed on unchanged.
    I2c(E),
    /// An identity register did not hold its expected value.
    BadId,
}

/// Reading the inertial identity register.
pub open spec fn imu_id_transfer() -> Transfer {
    read_of(IMU_ADDR, IMU_WHO_AM_I, 1)
}

/// Reading the two magnetic identity registers.
pub open spec fn mag_id_transfer() -> Transfer {
    read_of(MAG_ADDR, MAG_WIA, 2)
}

/// The value of the bank-select register for `bank`: the bank number in bits 4 and 5.
pub open spec fn bank_bits(bank: u8) -> u8 {
    ((bank % 4) * 16) as u8
}

/// Selecting register bank `bank`.
pub open spec fn bank_transfer(bank: u8) -> Transfer {
    write_of(IMU_ADDR, seq![IMU_REG_BANK_SEL, bank_bits(bank)])
}

/// Reading the power management register, the first half of a soft reset.
pub open spec fn power_probe_transfer() -> Transfer {
    read_of(IMU_ADDR, IMU_PWR_MGMT_1, 1)
}

/// Writing the power management register so that the inertial sub-device
/// leaves sleep: the second half of a soft reset, and the wake-up.
pub open spec fn wake_transfer() -> Transfer {
    write_of(IMU_ADDR, seq![IMU_PWR_MGMT_1, IMU_AWAKE])
}

/// Resetting the internal bus master of the inertial sub-device.
pub open spec fn master_reset_transfer() -> Transfer {
    write_of(IMU_ADDR, seq![IMU_USER_CTRL, I2C_MST_RST])
}

/// Turning pass-through on, which puts the magnetic sub-device on the bus.
pub open spec fn bypass_transfer() -> Transfer {
    write_of(IMU_ADDR, seq![IMU_INT_PIN_CFG, BYPASS_EN])
}

/// Starting continuous measurement on the magnetic sub-device.
pub open spec fn mag_wake_transfer() -> Transfer {
    write_of(MAG_ADDR, seq![MAG_CNTL2, MAG_CONTINUOUS_100HZ])
}

/// Reading the inertial sample block in one transaction.
pub open spec fn imu_block_transfer() -> Transfer {
    read_of(IMU_ADDR, IMU_ACCEL_XOUT_H, IMU_BLOCK_LEN as nat)
}

/// Reading the magnetic sample block in one transaction.
pub open spec fn mag_block_transfer() -> Transfer {
    read_of(MAG_ADDR, MAG_ST1, MAG_BLOCK_LEN as nat)
}

/// What an operation that reads nothing returns, given its exchange.
pub open spec fn unit_result<E>(x: Exchange<E>) -> Result<(), E> {
    match x.reply {
        Ok(_) => Ok(()),
        Err(e) => Err(e),
    }
}

/// Whether the exchange lets a sequence of transactions go on: the bus
/// answered, and an identity read found the expected value.
pub open spec fn accepted<E>(x: Exchange<E>) -> bool {
    match x.reply {
        Err(_) => false,
        Ok(b) => {
            &&& x.transfer == imu_id_transfer() ==> b[0] == IMU_ID
            &&& x.transfer == mag_id_transfer() ==> le_u16(b[0], b[1]) == MAG_ID
        },
    }
}

/// How a sequence of transactions ends, given its last exchange.
pub open spec fn run_result<E>(last: Exchange<E>) -> Result<(), ImcError<E>> {
    match last.reply {
        Err(e) => Err(ImcError::I2c(e)),
        Ok(_) => if accepted(last) {
            Ok(())
        } else {
            Err(ImcError::BadId)
        },
    }
}

/// The exchanges `d` carried the first transfers of `plan`, in order, and
/// each but the last was accepted.
pub open spec fn follows<E>(d: Seq<Exchange<E>>, plan: Seq<Transfer>) -> bool {
    &&& d.len() <= plan.len()
    &&& forall|i: int| 0 <= i < d.len() ==> (#[trigger] d[i]).transfer == plan[i] && answers(d[i])
    &&& forall|i: int| 0 <= i < d.len() - 1 ==> accepted(#[trigger] d[i])
}

/// `after` is `before` followed by a run of `plan` that went on while each
/// exchange was accepted, and stopped at the first one that was not, or at
/// the end of the plan.
pub open spec fn ran<E>(before: Seq<Exchange<E>>, after: Seq<Exchange<E>>, plan: Seq<Transfer>) -> bool {
    let d = after.skip(before.len() as int);
    &&& before.len() < after.len()
    &&& after.take(before.len() as int) == before
    &&& follows(d, plan)
    &&& d.len() < plan.len() ==> !accepted(d.last())
}

/// `after` is `before` followed by exchanges that carried the first `n`
/// transfers of `plan`, all accepted.
pub open spec fn ran_accepted<E>(
    before: Seq<Exchange<E>>,
    after: Seq<Exchange<E>>,
    plan: Seq<Transfer>,
    n: int,
) -> bool {
    let d = after.skip(before.len() as int);
    &&& after.len() == before.len() + n
    &&& after.take(before.len() as int) == before
    &&& 0 <= n <= plan.len()
    &&& forall|i: int|
        0 <= i < n ==> (#[trigger] d[i]).transfer == plan[i] && answers(d[i]) && accepted(d[i])
}

/// The start-up sequence, in order: check the inertial identity, select bank 0,
/// soft reset, wake the inertial sub-device, turn pass-through on, check the
/// magnetic identity, start continuous magnetic measurement.
pub open spec fn startup_plan() -> Seq<Transfer> {
    seq![
        imu_id_transfer(),
        bank_transfer(0),
        power_probe_transfer(),
        wake_transfer(),
        wake_transfer(),
        master_reset_transfer(),
        bypass_transfer(),
        mag_id_transfer(),
        mag_wake_transfer(),
    ]
}

proof fn lemma_ran_nothing<E>(before: Seq<Exchange<E>>, plan: Seq<Transfer>)
    ensures
        ran_accepted(before, before, plan, 0),
{
    assert(before.take(before.len() as int) =~= before);
}

proof fn lemma_one_more_ran<E>(before: Seq<Exchange<E>>, after: Seq<Exchange<E>>, t: Transfer)
    requires
        one_more(before, after, t),
    ensures
        ran(before, after, seq![t]),
{
    assert(after.take(before.len() as int) =~= after.drop_last());
    assert(after.skip(before.len() as int) =~= seq![after.last()]);
}

/// A run of `sub`, where `sub` is the part of `plan` after its first `k`
/// transfers, extends a run of those `k`.
proof fn lemma_chain<E>(
    before: Seq<Exchange<E>>,
    mid: Seq<Exchange<E>>,
    after: Seq<Exchange<E>>,
    plan: Seq<Transfer>,
    k: int,
    sub: Seq<Transfer>,
)
    requires
        ran_accepted(before, mid, plan, k),
        ran(mid, after, sub),
        k + sub.len() <= plan.len(),
        forall|i: int| 0 <= i < sub.len() ==> sub[i] == plan[k + i],
    ensures
        accepted(after.last()) ==> after.len() == mid.len() + sub.len() && ran_accepted(
            before,
            after,
            plan,
            k + sub.len(),
        ),
        !accepted(after.last()) || k + sub.len() == plan.len() ==> ran(before, after, plan),
{
    let dm = mid.skip(before.len() as int);
    let ds = after.skip(mid.len() as int);
    let d = after.skip(before.len() as int);
    assert(mid.take(before.len() as int) == before);
    assert(after.take(mid.len() as int) == mid);
    assert(after.take(before.len() as int) =~= before) by {
        assert forall|i: int| 0 <= i < before.len() implies after.take(before.len() as int)[i]
            == before[i] by {
            assert(after[i] == after.take(mid.len() as int)[i]);
            assert(mid[i] == mid.take(before.len() as int)[i]);
        }
    }
    assert(d =~= dm + ds) by {
        assert forall|i: int| 0 <= i < d.len() implies d[i] == (dm + ds)[i] by {
            if i < k {
                assert(after[before.len() + i] == after.take(mid.len() as int)[before.len() + i]);
            }
        }
    }
    assert forall|i: int| 0 <= i < d.len() implies (#[trigger] d[i]).transfer == plan[i] && answers(
        d[i],
    ) by {
        if i < k {
            assert(d[i] == dm[i]);
        } else {
            assert(d[i] == ds[i - k]);
        }
    }
    assert forall|i: int| 0 <= i < d.len() - 1 implies accepted(#[trigger] d[i]) by {
        if i < k {
            assert(d[i] == dm[i]);
        } else {
            assert(d[i] == ds[i - k]);
        }
    }
    assert(d.last() == ds.last());
    assert(after.last() == ds.last());
    if accepted(after.last()) {
        assert(ds.len() == sub.len());
        assert forall|i: int| 0 <= i < k + sub.len() implies (#[trigger] d[i]).transfer == plan[i]
            && answers(d[i]) && accepted(d[i]) by {
            if i < k {
                assert(d[i] == dm[i]);
            } else {
                assert(d[i] == ds[i - k]);
            }
        }
    }
}

/// A start-up whose inertial identity read comes back with any value other
/// than `IMU_ID` fails with `BadId` right there: that read is its only
/// transaction, and it writes no register.
pub proof fn lemma_identity_mismatch_stops_startup<E>(
    before: Seq<Exchange<E>>,
    after: Seq<Exchange<E>>,
    r: Result<(), ImcError<E>>,
)
    requires
        ran(before, after, startup_plan()),
        r == run_result(after.last()),
        after[before.len() as int].reply is Ok,
        after[before.len() as int].reply->Ok_0[0] != IMU_ID,
    ensures
        r matches Err(ImcError::BadId),
        after.len() == before.len() + 1,
        after[before.len() as int].transfer == imu_id_transfer(),
        forall|i: int| before.len() <= i < after.len() ==> !is_register_write(#[trigger] after[i].transfer),
{
    let d = after.skip(before.len() as int);
    assert(d[0] == after[before.len() as int]);
    assert(!accepted(d[0]));
    assert(d.len() == 1);
    assert(after.last() == d[0]);
}

/// The sensor package on its bus.
pub struct Imc20948<I: I2c> {
    i2c: I,
    log: Ghost<Seq<Exchange<I::Error>>>,
}

impl<I: I2c> Imc20948<I> {
    /// Every transaction issued through this driver, oldest first.
    pub closed spec fn transcript(&self) -> Seq<Exchange<I::Error>> {
        self.log@
    }

    /// Takes the bus; nothing is sent.
    pub fn new(i2c: I) -> (r: Self)
        ensures
            r.transcript() == Seq::<Exchange<I::Error>>::empty(),
    {
        Imc20948 { i2c, log: Ghost(Seq::empty()) }
    }

    fn write_reg(&mut self, address: u8, reg: u8, value: u8) -> (r: Result<(), I::Error>)
        ensures
            one_more(old(self).transcript(), final(self).transcript(), write_of(address, seq![reg, value])),
            r == unit_result(final(self).transcript().last()),
    {
        let bytes = [reg, value];
        let res = self.i2c.write(address, &bytes);
        proof {
            let t = write_of(address, seq![reg, value]);
            assert(bytes@ =~= seq![reg, value]);
            let reply = if res is Ok {
                Ok(Seq::<u8>::empty())
            } else {
                Err(res->Err_0)
            };
            let before = self.log@;
            self.log@ = self.log@.push(Exchange { transfer: t, reply });
            assert(self.log@.drop_last() =~= before);
        }
        match res {
            Ok(()) => Ok(()),
            Err(e) => Err(e),
        }
    }

    fn read_regs<const N: usize>(&mut self, address: u8, reg: u8) -> (r: Result<[u8; N], I::Error>)
        ensures
            one_more(old(self).transcript(), final(self).transcript(), read_of(address, reg, N as nat)),
            match final(self).transcript().last().reply {
                Ok(b) => r is Ok && r->Ok_0@ == b,
                Err(e) => r == Err::<[u8; N], I::Error>(e),
            },
    {
        let mut buffer = [0u8; N];
        let bytes = [reg];
        let res = self.i2c.write_read(address, &bytes, &mut buffer);
        proof {
            let t = read_of(address, reg, N as nat);
            assert(bytes@ =~= seq![reg]);
            let reply = if res is Ok {
                Ok(buffer@)
            } else {
                Err(res->Err_0)
            };
            let before = self.log@;
            self.log@ = self.log@.push(Exchange { transfer: t, reply });
            assert(self.log@.drop_last() =~= before);
        }
        match res {
            Ok(()) => Ok(buffer),
            Err(e) => Err(e),
        }
    }
}

impl<I: I2c> Imc20948<I> {
    /// Runs the start-up sequence of `startup_plan`, stopping at the first
    /// bus error or identity mismatch, which it returns.
    pub fn startup(&mut self) -> (r: Result<(), ImcError<I::Error>>)
        ensures
            ran(old(self).transcript(), final(self).transcript(), startup_plan()),
            r == run_result(final(self).transcript().last()),
    {
        let ghost before = self.transcript();
        let ghost plan = startup_plan();
        proof {
            lemma_ran_nothing(before, plan);
        }
        let ghost mid = self.transcript();
        let id = self.imu_who_am_i();
        proof {
            lemma_one_more_ran(mid, self.transcript(), imu_id_transfer());
            lemma_chain(before, mid, self.transcript(), plan, 0, seq![imu_id_transfer()]);
        }
        match id {
            Err(e) => {
                return Err(ImcError::I2c(e));
            },
            Ok(v) => {
                if v != IMU_ID {
                    return Err(ImcError::BadId);
                }
            },
        }
        let ghost mid = self.transcript();
        let res = self.imu_set_bank(0);
        proof {
            lemma_one_more_ran(mid, self.transcript(), bank_transfer(0));
            lemma_chain(before, mid, self.transcript(), plan, 1, seq![bank_transfer(0)]);
        }
        if let Err(e) = res {
            return Err(ImcError::I2c(e));
        }
        let ghost mid = self.transcript();
        let res = self.imu_soft_reset();
        proof {
            let after = self.transcript();
            let d = after.skip(mid.len() as int);
            assert(after.last() == d.last());
            assert(power_probe_transfer().sent[0] != imu_id_transfer().sent[0]);
            assert(power_probe_transfer().sent[0] != mag_id_transfer().sent[0]);
            lemma_chain(
                before,
                mid,
                self.transcript(),
                plan,
                2,
                seq![power_probe_transfer(), wake_transfer()],
            );
        }
        if let Err(e) = res {
            return Err(ImcError::I2c(e));
        }
        let ghost mid = self.transcript();
        let res = self.imu_wake();
        proof {
            lemma_one_more_ran(mid, self.transcript(), wake_transfer());
            lemma_chain(before, mid, self.transcript(), plan, 4, seq![wake_transfer()]);
        }
        if let Err(e) = res {
            return Err(ImcError::I2c(e));
        }
        let ghost mid = self.transcript();
        let res = self.imu_enable_i2c_bypass();
        proof {
            lemma_chain(
                before,
                mid,
                self.transcript(),
                plan,
                5,
                seq![master_reset_transfer(), bypass_transfer()],
            );
        }
        if let Err(e) = res {
            return Err(ImcError::I2c(e));
        }
        let ghost mid = self.transcript();
        let id = self.mag_who_am_i();
        proof {
            lemma_one_more_ran(mid, self.transcript(), mag_id_transfer());
            lemma_chain(before, mid, self.transcript(), plan, 7, seq![mag_id_transfer()]);
        }
        match id {
            Err(e) => {
                return Err(ImcError::I2c(e));
            },
            Ok(v) => {
                if v != MAG_ID {
                    return Err(ImcError::BadId);
                }
            },
        }
        let ghost mid = self.transcript();
        let res = self.mag_wake();
        proof {
            lemma_one_more_ran(mid, self.transcript(), mag_wake_transfer());
            lemma_chain(before, mid, self.transcript(), plan, 8, seq![mag_wake_transfer()]);
        }
        match res {
            Err(e) => Err(ImcError::I2c(e)),
            Ok(()) => Ok(()),
        }
    }

    /// Reads the inertial identity register.
    pub fn imu_who_am_i(&mut self) -> (r: Result<u8, I::Error>)
        ensures
            one_more(old(self).transcript(), final(self).transcript(), imu_id_transfer()),
            match final(self).transcript().last().reply {
                Ok(b) => r == Ok::<u8, I::Error>(b[0]),
                Err(e) => r == Err::<u8, I::Error>(e),
            },
    {
        let buffer = self.read_regs::<1>(IMU_ADDR, IMU_WHO_AM_I);
        match buffer {
            Ok(b) => Ok(b[0]),
            Err(e) => Err(e),
        }
    }

    /// Resets the internal bus master of the inertial sub-device, then turns
    /// pass-through on, so that the magnetic sub-device answers on the bus.
    pub fn imu_enable_i2c_bypass(&mut self) -> (r: Result<(), I::Error>)
        ensures
            ran(
                old(self).transcript(),
                final(self).transcript(),
                seq![master_reset_transfer(), bypass_transfer()],
            ),
            r == unit_result(final(self).transcript().last()),
    {
        let ghost before = self.transcript();
        let res = self.write_reg(IMU_ADDR, IMU_USER_CTRL, I2C_MST_RST);
        let ghost mid = self.transcript();
        proof {
            assert(mid.take(before.len() as int) =~= before);
            assert(mid.skip(before.len() as int) =~= seq![mid.last()]);
        }
        if let Err(e) = res {
            return Err(e);
        }
        let res = self.write_reg(IMU_ADDR, IMU_INT_PIN_CFG, BYPASS_EN);
        proof {
            let after = self.transcript();
            assert(after.take(before.len() as int) =~= before);
            assert(after.skip(before.len() as int) =~= seq![mid.last(), after.last()]);
        }
        res
    }

    /// Wakes the inertial sub-device from sleep.
    pub fn imu_wake(&mut self) -> (r: Result<(), I::Error>)
        ensures
            one_more(old(self).transcript(), final(self).transcript(), wake_transfer()),
            r == unit_result(final(self).transcript().last()),
    {
        self.write_reg(IMU_ADDR, IMU_PWR_MGMT_1, IMU_AWAKE)
    }

    /// Reads one inertial sample block in one transaction and decodes it.
    pub fn imu_read(&mut self) -> (r: Result<ImuSample, I::Error>)
        ensures
            one_more(old(self).transcript(), final(self).transcript(), imu_block_transfer()),
            match final(self).transcript().last().reply {
                Ok(b) => r == Ok::<ImuSample, I::Error>(imu_sample_of(b)),
                Err(e) => r == Err::<ImuSample, I::Error>(e),
            },
    {
        match self.read_regs::<IMU_BLOCK_LEN>(IMU_ADDR, IMU_ACCEL_XOUT_H) {
            Ok(b) => Ok(decode_imu_block(&b)),
            Err(e) => Err(e),
        }
    }

    /// Reads one magnetic sample block in one transaction and decodes it.
    pub fn mag_read(&mut self) -> (r: Result<Axes, I::Error>)
        ensures
            one_more(old(self).transcript(), final(self).transcript(), mag_block_transfer()),
            match final(self).transcript().last().reply {
                Ok(b) => r == Ok::<Axes, I::Error>(mag_field_of(b)),
                Err(e) => r == Err::<Axes, I::Error>(e),
            },
    {
        match self.read_regs::<MAG_BLOCK_LEN>(MAG_ADDR, MAG_ST1) {
            Ok(b) => Ok(decode_mag_block(&b)),
            Err(e) => Err(e),
        }
    }

    /// Reads the two magnetic identity registers, low byte first.
    pub fn mag_who_am_i(&mut self) -> (r: Result<u16, I::Error>)
        ensures
            one_more(old(self).transcript(), final(self).transcript(), mag_id_transfer()),
            match final(self).transcript().last().reply {
                Ok(b) => r == Ok::<u16, I::Error>(le_u16(b[0], b[1]) as u16),
                Err(e) => r == Err::<u16, I::Error>(e),
            },
    {
        match self.read_regs::<2>(MAG_ADDR, MAG_WIA) {
            Ok(b) => Ok(u16_from_le(b[0], b[1])),
            Err(e) => Err(e),
        }
    }

    /// Starts continuous measurement at 100 Hz on the magnetic sub-device.
    pub fn mag_wake(&mut self) -> (r: Result<(), I::Error>)
        ensures
            one_more(old(self).transcript(), final(self).transcript(), mag_wake_transfer()),
            r == unit_result(final(self).transcript().last()),
    {
        self.write_reg(MAG_ADDR, MAG_CNTL2, MAG_CONTINUOUS_100HZ)
    }

    /// Reads the power management register, then writes it so that the
    /// inertial sub-device leaves sleep.
    fn imu_soft_reset(&mut self) -> (r: Result<(), I::Error>)
        ensures
            ran(
                old(self).transcript(),
                final(self).transcript(),
                seq![power_probe_transfer(), wake_transfer()],
            ),
            r == unit_result(final(self).transcript().last()),
    {
        let ghost before = self.transcript();
        let res = self.read_regs::<1>(IMU_ADDR, IMU_PWR_MGMT_1);
        let ghost mid = self.transcript();
        proof {
            assert(power_probe_transfer().sent[0] != imu_id_transfer().sent[0]);
            assert(power_probe_transfer().sent[0] != mag_id_transfer().sent[0]);
            assert(mid.take(before.len() as int) =~= before);
            assert(mid.skip(before.len() as int) =~= seq![mid.last()]);
        }
        if let Err(e) = res {
            return Err(e);
        }
        let res = self.write_reg(IMU_ADDR, IMU_PWR_MGMT_1, IMU_AWAKE);
        proof {
            let after = self.transcript();
            assert(after.take(before.len() as int) =~= before);
            assert(after.skip(before.len() as int) =~= seq![mid.last(), after.last()]);
        }
        res
    }

    /// Selects register bank `bank`; only its two low bits count.
    fn imu_set_bank(&mut self, bank: u8) -> (r: Result<(), I::Error>)
        ensures
            one_more(old(self).transcript(), final(self).transcript(), bank_transfer(bank)),
            r == unit_result(final(self).transcript().last()),
    {
        let bits: u8 = (bank << 4u8) & 0x30u8;
        assert(bits == bank_bits(bank)) by (bit_vector)
            requires
                bits == (bank << 4u8) & 0x30u8,
        ;
        self.write_reg(IMU_ADDR, IMU_REG_BANK_SEL, bits)
    }
}

} // verus!
