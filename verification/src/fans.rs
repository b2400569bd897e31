//! The per-channel fan test: command a fixed duty value, read the duty
//! back and the tachometer, and pass a channel only if the readback is
//! exact and the rotation rate reaches the minimum.

use vstd::prelude::*;

use crate::errors::TestError;

verus! {

/// Duty value commanded on every fan channel during the test.
pub const EXPECTED_PWM: u8 = 127;

/// Lowest acceptable rotation rate, inclusive, once the duty is applied.
pub const MINIMUM_RPM: u16 = 300;

/// Number of fan channels the controller drives.
pub const FAN_CHANNELS: usize = 4;

/// What one fan channel reported after the commanded duty settled: the
/// duty read back and the measured rotation rate.
#[derive(Clone, Copy, PartialEq, Eq, Structural, Debug)]
pub struct FanReading {
    pub pwm: u8,
    pub rpm: u16,
}

/// A channel passes exactly when it reads back the commanded duty and
/// spins at least at the minimum rate.
pub open spec fn fan_passes(r: FanReading) -> bool {
    r.pwm == EXPECTED_PWM && r.rpm >= MINIMUM_RPM
}

/// The error a failing channel reports: a wrong duty readback takes
/// precedence over a low rotation rate, and both carry the measured and
/// the required value.
pub open spec fn fan_failure(channel: u8, r: FanReading) -> TestError {
    if r.pwm != EXPECTED_PWM {
        TestError::FanPwm { channel, found: r.pwm, expected: EXPECTED_PWM }
    } else {
        TestError::FanRpm { channel, found: r.rpm, minimum: MINIMUM_RPM }
    }
}

/// Judges one fan channel from its reading.
pub fn check_fan(channel: u8, reading: FanReading) -> (r: Result<(), TestError>)
    ensures
        fan_passes(reading) ==> r is Ok,
        !fan_passes(reading) ==> r == Err::<(), TestError>(fan_failure(channel, reading)),
{
    if reading.pwm != EXPECTED_PWM {
        Err(TestError::FanPwm { channel, found: reading.pwm, expected: EXPECTED_PWM })
    } else if reading.rpm < MINIMUM_RPM {
        Err(TestError::FanRpm { channel, found: reading.rpm, minimum: MINIMUM_RPM })
    } else {
        Ok(())
    }
}

/// Judges all fan channels in order, one reading per channel. The test
/// passes only when every channel passes; otherwise it reports the first
/// failing channel's error.
pub fn run_fan_test(readings: &Vec<FanReading>) -> (r: Result<(), TestError>)
    requires
        readings@.len() == FAN_CHANNELS,
    ensures
        (r is Ok) <==> (forall|i: int| 0 <= i < readings@.len() ==> fan_passes(readings@[i])),
        r matches Err(e) ==> exists|i: int|
            {
                &&& 0 <= i < readings@.len()
                &&& !fan_passes(#[trigger] readings@[i])
                &&& e == fan_failure(i as u8, readings@[i])
                &&& forall|k: int| 0 <= k < i ==> fan_passes(readings@[k])
            },
{
    let n = readings.len();
    let mut i: usize = 0;
    while i < n
        invariant
            n == readings@.len() == FAN_CHANNELS,
            0 <= i <= n,
            forall|k: int| 0 <= k < i ==> fan_passes(readings@[k]),
        decreases n - i,
    {
        let verdict = check_fan(i as u8, readings[i]);
        if let Err(e) = verdict {
            return Err(e);
        }
        i = i + 1;
    }
    Ok(())
}

} // verus!
