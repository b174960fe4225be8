use vstd::prelude::*;

use crate::types::PressureUnit;

verus! {

/// Lowest raw count of the sensor's calibrated output span.
pub const OUTPUT_MIN: u32 = 0x19999A;

/// Highest raw count of the sensor's calibrated output span.
pub const OUTPUT_MAX: u32 = 0xE66666;

/// Pressure, in PSI, that a raw count of `OUTPUT_MIN` stands for.
pub const MINIMUM_PSI: u32 = 0;

/// Pressure, in PSI, that a raw count of `OUTPUT_MAX` stands for.
pub const MAXIMUM_PSI: u32 = 25;

/// Denominator of the fixed per-unit scale factors: the factor from PSI to
/// a unit `u` is the rational `unit_factor_num(u) / FACTOR_DEN`.
pub const FACTOR_DEN: u64 = 100000;

/// Numerator of the fixed scale factor from PSI to the given unit, over a
/// denominator of `FACTOR_DEN` (so PSI itself has factor one).
pub open spec fn unit_factor_num(u: PressureUnit) -> int {
    match u {
        PressureUnit::PSI => 100000,
        PressureUnit::PA => 689475730,
        PressureUnit::KPA => 689476,
        PressureUnit::TORR => 5171490,
        PressureUnit::INHG => 203602,
        PressureUnit::ATM => 6805,
        PressureUnit::BAR => 6895,
    }
}

/// Numerator of the PSI value of a raw count, over a denominator of
/// `OUTPUT_MAX - OUTPUT_MIN`: the linear transfer function evaluated on the
/// full calibration range,
/// `(raw - OUTPUT_MIN) * (MAXIMUM_PSI - MINIMUM_PSI) + MINIMUM_PSI * (OUTPUT_MAX - OUTPUT_MIN)`.
pub open spec fn psi_num(raw: int) -> int {
    (raw - OUTPUT_MIN) * (MAXIMUM_PSI - MINIMUM_PSI) + MINIMUM_PSI * (OUTPUT_MAX - OUTPUT_MIN)
}

/// Numerator of the exact pressure value of a raw count in the given unit:
/// the PSI numerator scaled by the unit's factor numerator.
pub open spec fn pressure_num(raw: int, u: PressureUnit) -> int {
    psi_num(raw) * unit_factor_num(u)
}

/// Denominator of the exact pressure value: the raw output span times the
/// scale-factor denominator.
pub open spec fn pressure_den() -> int {
    (OUTPUT_MAX - OUTPUT_MIN) * FACTOR_DEN
}

/// A pressure value as an exact rational number `num / den` in the unit the
/// conversion was asked for. No rounding or clamping is applied.
pub struct Pressure {
    /// Numerator; negative when the raw count lies below `OUTPUT_MIN`.
    pub num: i64,
    /// Denominator; always positive.
    pub den: u64,
}

impl Pressure {
    /// A pressure value is well formed when its denominator is positive.
    pub open spec fn wf(self) -> bool {
        self.den > 0
    }
}

/// Maps a raw 24-bit count to the exact pressure it stands for in the
/// requested unit: the linear transfer function over the full calibration
/// range, then the unit's fixed scale factor. Out-of-range raw counts
/// produce out-of-range pressure values, never an error.
pub fn convert(raw: u32, unit: PressureUnit) -> (p: Pressure)
    requires
        raw <= 0xFFFFFF,
    ensures
        p.num == pressure_num(raw as int, unit),
        p.den == pressure_den(),
        p.wf(),
{
    let diff: i64 = raw as i64 - OUTPUT_MIN as i64;
    let base: i64 = diff * 25;
    let num: i64 = match unit {
        PressureUnit::PSI => base * 100000,
        PressureUnit::PA => base * 689475730,
        PressureUnit::KPA => base * 689476,
        PressureUnit::TORR => base * 5171490,
        PressureUnit::INHG => base * 203602,
        PressureUnit::ATM => base * 6805,
        PressureUnit::BAR => base * 6895,
    };
    let den: u64 = (OUTPUT_MAX as u64 - OUTPUT_MIN as u64) * FACTOR_DEN;
    Pressure { num, den }
}

/// At the bottom of the calibration range the computed pressure is exactly
/// the minimum of the pressure span: a raw count of `OUTPUT_MIN` converts
/// to `MINIMUM_PSI` (0 PSI).
pub proof fn lemma_output_min_is_minimum_psi()
    ensures
        pressure_num(OUTPUT_MIN as int, PressureUnit::PSI) == MINIMUM_PSI * pressure_den(),
{
}

/// At the top of the calibration range the computed pressure is exactly the
/// maximum of the pressure span: a raw count of `OUTPUT_MAX` converts to
/// `MAXIMUM_PSI` (25 PSI).
pub proof fn lemma_output_max_is_maximum_psi()
    ensures
        pressure_num(OUTPUT_MAX as int, PressureUnit::PSI) == MAXIMUM_PSI * pressure_den(),
{
}

/// Consistency of the conversion table: for every raw count and unit, the
/// value in that unit equals the PSI value scaled by the unit's fixed
/// factor. As rationals,
/// `pressure_num(raw, u) / pressure_den()` equals
/// `(pressure_num(raw, PSI) / pressure_den()) * (unit_factor_num(u) / FACTOR_DEN)`,
/// stated here with denominators cleared.
pub proof fn lemma_unit_scaling_consistent(raw: int, u: PressureUnit)
    ensures
        pressure_num(raw, u) * FACTOR_DEN == pressure_num(raw, PressureUnit::PSI) * unit_factor_num(u),
{
    lemma_mul_shuffle(psi_num(raw), unit_factor_num(u));
}

/// Multiplying by the two factor parts in either order gives the same
/// product.
proof fn lemma_mul_shuffle(d: int, f: int) by (nonlinear_arith)
    ensures
        (d * f) * 100000 == (d * 100000) * f,
{
}

} // verus!
