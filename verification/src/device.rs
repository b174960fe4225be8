use vstd::prelude::*;

use crate::pressure::{convert, pressure_den, pressure_num, Pressure};
use crate::types::{address_byte, Address, Error, PressureUnit};

verus! {

/// Milliseconds the sequencer must wait between triggering a measurement
/// and reading it back, for the device to complete a conversion.
pub const SETTLE_MS: u32 = 20;

/// Driver handle for one MPR pressure sensor: exclusively owns the bus
/// transport, the device's fixed bus address, and the delay provider. The
/// decision logic here is synchronous; an unverified front end performs the
/// bus transfers and delays around it.
pub struct MPR<I2C, D> {
    /// The byte-transfer capability for the shared two-wire bus.
    pub i2c: I2C,
    /// The device's bus address.
    pub address: Address,
    /// The suspend-for-duration capability used for the settle interval.
    pub delay: D,
}

/// Outcome of validating a status byte: the first set flag in the fixed
/// precedence order busy, integrity failure, math saturation; success when
/// none of the three is set.
pub open spec fn status_outcome<E>(s: u8) -> Result<(), Error<E>> {
    if s & 0x20 != 0 {
        Err(Error::Busy)
    } else if s & 0x04 != 0 {
        Err(Error::IntegrityFailure)
    } else if s & 0x01 != 0 {
        Err(Error::MathSaturation)
    } else {
        Ok(())
    }
}

/// The raw 24-bit count held in a 4-byte read response: bytes 1 to 3 as a
/// big-endian unsigned integer (byte 0 is the status byte).
pub open spec fn raw_count(buf: Seq<u8>) -> int
    recommends
        buf.len() == 4,
{
    buf[1] * 0x10000 + buf[2] * 0x100 + buf[3]
}

/// Outcome of evaluating one 4-byte read response in a given unit: the
/// validation error of its status byte, or the exact pressure its raw
/// count converts to.
pub open spec fn reading_outcome<E>(buf: Seq<u8>, unit: PressureUnit) -> Result<Pressure, Error<E>>
    recommends
        buf.len() == 4,
{
    match status_outcome::<E>(buf[0]) {
        Err(e) => Err(e),
        Ok(()) => Ok((Pressure {
            num: pressure_num(raw_count(buf), unit) as i64,
            den: pressure_den() as u64,
        })),
    }
}

/// The fixed 3-byte command sequence that starts a measurement.
pub open spec fn trigger_bytes() -> Seq<u8> {
    seq![0xaau8, 0x00u8, 0x00u8]
}

impl<I2C, D> MPR<I2C, D> {
    /// Creates a driver handle owning the given bus transport, device
    /// address and delay provider.
    pub fn new(i2c: I2C, address: Address, delay: D) -> (r: Self)
        ensures
            r.i2c == i2c,
            r.address == address,
            r.delay == delay,
    {
        MPR { i2c, address, delay }
    }

    /// Validates a status byte, failing fast on the first set flag in the
    /// fixed precedence order busy, integrity failure, math saturation.
    /// Purely a classification; no side effects.
    pub fn check_status<E>(&self, status_byte: u8) -> (r: Result<(), Error<E>>)
        ensures
            r == status_outcome::<E>(status_byte),
    {
        if status_byte & 0x20 != 0 {
            return Err(Error::Busy);
        }
        if status_byte & 0x04 != 0 {
            return Err(Error::IntegrityFailure);
        }
        if status_byte & 0x01 != 0 {
            return Err(Error::MathSaturation);
        }
        Ok(())
    }

    /// The trigger frame for this device: the bus address to write to and
    /// the fixed measurement command bytes.
    pub fn trigger_command(&self) -> (r: (u8, Vec<u8>))
        ensures
            r.0 == address_byte(self.address),
            r.1@ == trigger_bytes(),
    {
        let mut cmd: Vec<u8> = Vec::new();
        cmd.push(0xaa);
        cmd.push(0x00);
        cmd.push(0x00);
        assert(cmd@ =~= trigger_bytes());
        (self.address.value(), cmd)
    }

    /// Evaluates one 4-byte read response: validates the status byte,
    /// assembles the three data bytes into the big-endian 24-bit raw count,
    /// and converts it to the requested unit. A raw sample is converted
    /// only after its status byte has passed validation.
    pub fn read_sample<E>(&self, buffer: &[u8; 4], unit: PressureUnit) -> (r: Result<
        Pressure,
        Error<E>,
    >)
        ensures
            r == reading_outcome::<E>(buffer@, unit),
    {
        match self.check_status::<E>(buffer[0]) {
            Err(e) => Err(e),
            Ok(()) => {
                let reading: u32 = (buffer[1] as u32) * 0x10000 + (buffer[2] as u32) * 0x100
                    + (buffer[3] as u32);
                Ok(convert(reading, unit))
            },
        }
    }
}

/// Busy takes precedence: a status byte with the busy bit set is rejected
/// as `Busy`, whatever the other bits hold.
pub proof fn lemma_busy_takes_precedence<E>(s: u8)
    requires
        s & 0x20 != 0,
    ensures
        status_outcome::<E>(s) == Err::<(), Error<E>>(Error::Busy),
{
}

/// The read-and-convert path is a pure function of the bus response: two
/// evaluations of identical 4-byte responses in the same unit yield
/// identical pressure values — there is no hidden accumulating state.
pub proof fn lemma_reading_deterministic<E>(b1: Seq<u8>, b2: Seq<u8>, unit: PressureUnit)
    requires
        b1 == b2,
    ensures
        reading_outcome::<E>(b1, unit) == reading_outcome::<E>(b2, unit),
{
}

} // verus!
