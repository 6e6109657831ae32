//! Fixed-point unit conversions used by the bridge.
//!
//! Scalars are integers in small units: angles received from the autonomy
//! stack are in microradians, angles handed to the actuation side are in
//! millidegrees, and the published heading rate is in nano-units (1e-9 of
//! the dimensionless convention value).

use vstd::prelude::*;

verus! {

/// Largest magnitude any physical scalar handled by the bridge may take.
/// Keeps every fixed-point product inside this crate within `i64`/`u64`.
pub const SCALAR_LIMIT: i64 = 1_000_000_000_000;

/// Radians-to-degrees scale expressed over the fixed-point units:
/// one microradian is 180000 / (pi * 1e9) millidegrees, approximated by
/// the ratio `MDEG_PER_URAD_NUM / MDEG_PER_URAD_DEN` = 0.05729578.
pub const MDEG_PER_URAD_NUM: u64 = 5_729_578;

/// Denominator of the millidegrees-per-microradian ratio.
pub const MDEG_PER_URAD_DEN: u64 = 100_000_000;

/// Heading-rate convention: one millidegree of wheel angle maps to 8660
/// nano-units of heading rate (0.00866 per degree), sign-inverted by the
/// caller.
pub const HEADING_RATE_NANO_PER_MDEG: i64 = 8660;

/// Mathematical value of the microradian-to-millidegree conversion:
/// truncation toward zero of `x * 0.05729578`.
pub open spec fn urad_to_mdeg_spec(x: int) -> int {
    if x >= 0 {
        (x * 5_729_578) / 100_000_000
    } else {
        -((-x * 5_729_578) / 100_000_000)
    }
}

/// Mathematical value of the published heading rate for a wheel steer
/// angle in millidegrees: the fixed scale, sign-inverted.
pub open spec fn heading_rate_nano_spec(wheel_mdeg: int) -> int {
    -8660 * wheel_mdeg
}

/// Converts an angle in microradians to millidegrees, truncating toward
/// zero.
pub fn urad_to_mdeg(x: i64) -> (r: i64)
    requires
        -SCALAR_LIMIT <= x <= SCALAR_LIMIT,
    ensures
        r == urad_to_mdeg_spec(x as int),
{
    if x >= 0 {
        (((x as u64) * MDEG_PER_URAD_NUM) / MDEG_PER_URAD_DEN) as i64
    } else {
        let m: u64 = (-x) as u64;
        -(((m * MDEG_PER_URAD_NUM) / MDEG_PER_URAD_DEN) as i64)
    }
}

/// Computes the heading rate (nano-units) published for a wheel steer
/// angle given in millidegrees.
pub fn heading_rate_nano(wheel_mdeg: i64) -> (r: i64)
    requires
        -SCALAR_LIMIT <= wheel_mdeg <= SCALAR_LIMIT,
    ensures
        r == heading_rate_nano_spec(wheel_mdeg as int),
{
    -(HEADING_RATE_NANO_PER_MDEG * wheel_mdeg)
}

/// The conversion to millidegrees is an odd function: negating the input
/// angle negates the output exactly, so a sign inversion may be applied on
/// either side of the unit conversion.
pub proof fn lemma_urad_to_mdeg_odd(x: int)
    ensures
        urad_to_mdeg_spec(-x) == -urad_to_mdeg_spec(x),
{
}

/// Error bound of the conversion: the millidegree result is the exact
/// rational value `x * 5729578 / 100000000` truncated, so it is within one
/// millidegree of it.
pub proof fn lemma_urad_to_mdeg_close(x: int)
    requires
        0 <= x,
    ensures
        100_000_000 * urad_to_mdeg_spec(x) <= 5_729_578 * x,
        5_729_578 * x < 100_000_000 * (urad_to_mdeg_spec(x) + 1),
{
    vstd::arithmetic::div_mod::lemma_fundamental_div_mod(5_729_578 * x, 100_000_000);
}

} // verus!
