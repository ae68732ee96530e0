//! Distance from an HC-SR04 ultrasonic echo.

use vstd::prelude::*;

verus! {

/// Distance to the target in inches for an echo pulse of `echo_micros` microseconds, by
/// the datasheet formula (microseconds / 148 = inches), kept to its low eight bits as the
/// display and the rattle take it.
pub fn get_distance_as_inches(echo_micros: u64) -> (inches: u8)
    ensures
        inches == (echo_micros / 148) % 256,
{
    let d: u64 = echo_micros / 148;
    proof {
        assert((d as u8) == d % 256) by (bit_vector);
    }
    #[verifier::truncate]
    (d as u8)
}

} // verus!
