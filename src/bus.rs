//! The register bus that the driver talks through, and the record of what was
//! said on it.
use vstd::prelude::*;

verus! {

/// A bus of addressed devices with 7-bit addresses.
///
/// The driver is generic over it; a board implements it for its bus
/// peripheral, a test for a simulated bus.
pub trait I2c {
    type Error;

    /// Writes `bytes` to the device at `address`.
    fn write(&mut self, address: u8, bytes: &[u8]) -> Result<(), Self::Error>;

    /// Writes `bytes` to the device at `address`, then reads `buffer.len()`
    /// bytes back into `buffer`, as one transaction.
    fn write_read(&mut self, address: u8, bytes: &[u8], buffer: &mut [u8]) -> Result<(), Self::Error>;
}

/// One transaction as the driver hands it to the bus: the device address, the
/// bytes written, and how many bytes are read back (none for a plain write).
pub struct Transfer {
    pub address: u8,
    pub sent: Seq<u8>,
    pub read_len: nat,
}

/// A transaction together with what came back: the bytes read, or the bus error.
pub struct Exchange<E> {
    pub transfer: Transfer,
    pub reply: Result<Seq<u8>, E>,
}

/// A plain write of `sent` to the device at `address`.
pub open spec fn write_of(address: u8, sent: Seq<u8>) -> Transfer {
    Transfer { address, sent, read_len: 0 }
}

/// A write of the register address `reg`, then a read of `len` bytes.
pub open spec fn read_of(address: u8, reg: u8, len: nat) -> Transfer {
    Transfer { address, sent: seq![reg], read_len: len }
}

/// Whether a transfer changes a register of the device: it reads nothing back.
pub open spec fn is_register_write(t: Transfer) -> bool {
    t.read_len == 0
}

/// An exchange that answers its transfer: on success, as many bytes as were asked for.
pub open spec fn answers<E>(x: Exchange<E>) -> bool {
    x.reply is Ok ==> x.reply->Ok_0.len() == x.transfer.read_len
}

/// `after` is `before` with one more exchange, which carried `t`.
pub open spec fn one_more<E>(before: Seq<Exchange<E>>, after: Seq<Exchange<E>>, t: Transfer) -> bool {
    &&& after.len() == before.len() + 1
    &&& after.drop_last() == before
    &&& after.last().transfer == t
    &&& answers(after.last())
}

} // verus!
