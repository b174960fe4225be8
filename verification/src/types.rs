use vstd::prelude::*;

verus! {

/// Errors a measurement transaction can produce.
#[derive(Debug)]
pub enum Error<E> {
    /// The bus transport reported a failure; carries the transport's own
    /// error value.
    I2cError(E),
    /// The device had not finished a conversion when it was read; the data
    /// bytes must be discarded.
    Busy,
    /// The device reported an internal memory/checksum fault.
    IntegrityFailure,
    /// The device's internal math pipeline overflowed; the reading is out
    /// of the sensor's valid range.
    MathSaturation,
}

/// Bus address of the device: the standard address or one of seven
/// alternates. Fixed once the device handle is constructed.
#[derive(Copy, Clone, Debug)]
pub enum Address {
    Standard,
    Alt1,
    Alt2,
    Alt3,
    Alt4,
    Alt5,
    Alt6,
    Alt7,
}

/// The 7-bit bus address value each `Address` variant stands for.
pub open spec fn address_byte(a: Address) -> u8 {
    match a {
        Address::Standard => 0x18,
        Address::Alt1 => 0x08,
        Address::Alt2 => 0x28,
        Address::Alt3 => 0x38,
        Address::Alt4 => 0x48,
        Address::Alt5 => 0x58,
        Address::Alt6 => 0x68,
        Address::Alt7 => 0x78,
    }
}

impl Address {
    /// The address byte to put on the bus for this address.
    pub fn value(&self) -> (b: u8)
        ensures
            b == address_byte(*self),
    {
        match self {
            Address::Standard => 0x18,
            Address::Alt1 => 0x08,
            Address::Alt2 => 0x28,
            Address::Alt3 => 0x38,
            Address::Alt4 => 0x48,
            Address::Alt5 => 0x58,
            Address::Alt6 => 0x68,
            Address::Alt7 => 0x78,
        }
    }
}

/// Pressure unit a converted reading is expressed in. The unit does not
/// affect the underlying measurement, only the final scale factor.
#[derive(Copy, Clone, Debug)]
pub enum PressureUnit {
    /// Pound-force per square inch.
    PSI,
    /// Pascal.
    PA,
    /// Kilopascal.
    KPA,
    /// Torr (millimetre of mercury).
    TORR,
    /// Inch of mercury.
    INHG,
    /// Atmosphere.
    ATM,
    /// Bar.
    BAR,
}

} // verus!
