use vstd::prelude::*;

verus! {

/// Lowest percent position any actuator may be configured with.
pub const SERVO_MOTOR_MIN_ANGLE_PERCENT: u8 = 0;

/// Highest percent position any actuator may be configured with.
pub const SERVO_MOTOR_MAX_ANGLE_PERCENT: u8 = 100;

/// Pulse width, in microseconds, that encodes position 0.
pub const SERVO_MOTOR_MIN_PULSE_WIDTH: u16 = 500;

/// Total length of one pulse period, in microseconds.
pub const SERVO_MOTOR_PULSE_PERIOD: u16 = 20000;

/// Extra microseconds of high time per percent of position.
pub const SERVO_MIN_MICRO_SECONDS_SENSITIVITY: u16 = 20;

/// Number of pulse periods sent when the previous position is unknown,
/// giving an uncalibrated actuator time to settle.
pub const PERIOD_NUMBER_FOR_UNKNOWN_PREVIOUS_ANGLE: u16 = 150;

/// Number of pulse periods sent when moving from a known position.
pub const PERIOD_NUMBER_FOR_KNOWN_PREVIOUS_ANGLE: u16 = 50;

#[derive(Clone, Copy, Debug, PartialEq, Eq, Structural)]
pub enum Error {
    InvalidAngle { min: u8, max: u8, angle: u8 },
    GpioCreationError,
    GpioPinError { pin_number: u8 },
    MinMaxAngleError { min_angle_percent: u8, max_angle_percent: u8 },
    MinMaxAngleRangeError {
        min_angle_percent: u8,
        max_angle_percent: u8,
        min_allowed_angle: u8,
        max_allowed_angle: u8,
    },
}

/// One software-PWM pulse train: the line is held high for `high_us`
/// microseconds and low for `low_us` microseconds, `period_count` times.
#[derive(Clone, Copy, Debug, PartialEq, Eq, Structural)]
pub struct PulseTrain {
    pub high_us: u64,
    pub low_us: u64,
    pub period_count: u16,
}

impl PulseTrain {
    /// A pulse train is well formed when its high and low times split one
    /// whole pulse period.
    pub open spec fn wf(self) -> bool {
        &&& self.high_us + self.low_us == SERVO_MOTOR_PULSE_PERIOD
        &&& self.high_us >= SERVO_MOTOR_MIN_PULSE_WIDTH
    }
}

/// The bounds validator: accepts exactly the targets inside the safe range
/// `min..max`, and rejects everything else without touching any hardware.
pub fn validate(min: u8, max: u8, target: u8) -> (r: Result<(), Error>)
    ensures
        min <= target < max ==> r == Ok::<(), Error>(()),
        !(min <= target < max) ==> r == Err::<(), Error>(
            Error::InvalidAngle { min, max, angle: target },
        ),
{
    if min <= target && target < max {
        Ok(())
    } else {
        Err(Error::InvalidAngle { min, max, angle: target })
    }
}

/// Computes the pulse train that encodes `angle_percent`: the high time
/// grows linearly with the position, starting from the minimum pulse width.
pub fn pulse_train(angle_percent: u8, period_count: u16) -> (t: PulseTrain)
    ensures
        t.high_us == SERVO_MOTOR_MIN_PULSE_WIDTH + angle_percent
            * SERVO_MIN_MICRO_SECONDS_SENSITIVITY,
        t.low_us == SERVO_MOTOR_PULSE_PERIOD - t.high_us,
        t.period_count == period_count,
        t.wf(),
{
    let high_us: u64 = (angle_percent as u64) * 20 + 500;
    proof {
        assert(high_us == SERVO_MOTOR_MIN_PULSE_WIDTH + angle_percent
            * SERVO_MIN_MICRO_SECONDS_SENSITIVITY);
    }
    let low_us: u64 = 20000 - high_us;
    PulseTrain { high_us, low_us, period_count }
}

/// State of one angular actuator bound to one output line. The physical
/// line itself is owned by the caller; this type tracks the configured
/// safe range and the last commanded position.
#[derive(Clone, Copy, Debug, PartialEq, Eq, Structural)]
pub struct ServoMotor {
    pub pin_number: u8,
    pub min_angle_percent: u8,
    pub max_angle_percent: u8,
    pub current_angle_percent: Option<u8>,
}

impl ServoMotor {
    /// Configured bounds are ordered and inside the hardware limits, and the
    /// tracked position, once known, lies inside the configured bounds.
    pub open spec fn wf(self) -> bool {
        &&& self.min_angle_percent < self.max_angle_percent
        &&& self.max_angle_percent <= SERVO_MOTOR_MAX_ANGLE_PERCENT
        &&& match self.current_angle_percent {
            Some(p) => self.min_angle_percent <= p < self.max_angle_percent,
            None => true,
        }
    }

    /// Validates the configured bounds and records the actuator state; the
    /// position starts out unknown. Claiming the physical line is the
    /// caller's task.
    pub fn new(pin_number: u8, min_angle_percent: u8, max_angle_percent: u8) -> (r: Result<
        ServoMotor,
        Error,
    >)
        ensures
            min_angle_percent >= max_angle_percent ==> r == Err::<ServoMotor, Error>(
                Error::MinMaxAngleError { min_angle_percent, max_angle_percent },
            ),
            min_angle_percent < max_angle_percent && max_angle_percent
                > SERVO_MOTOR_MAX_ANGLE_PERCENT ==> r == Err::<ServoMotor, Error>(
                Error::MinMaxAngleRangeError {
                    min_angle_percent,
                    max_angle_percent,
                    min_allowed_angle: SERVO_MOTOR_MIN_ANGLE_PERCENT,
                    max_allowed_angle: SERVO_MOTOR_MAX_ANGLE_PERCENT,
                },
            ),
            min_angle_percent < max_angle_percent && max_angle_percent
                <= SERVO_MOTOR_MAX_ANGLE_PERCENT ==> r == Ok::<ServoMotor, Error>(
                ServoMotor {
                    pin_number,
                    min_angle_percent,
                    max_angle_percent,
                    current_angle_percent: None,
                },
            ),
            r matches Ok(m) ==> m.wf() && m.current_angle_percent is None,
    {
        if min_angle_percent >= max_angle_percent {
            return Err(Error::MinMaxAngleError { min_angle_percent, max_angle_percent });
        }
        if max_angle_percent > SERVO_MOTOR_MAX_ANGLE_PERCENT {
            return Err(Error::MinMaxAngleRangeError {
                min_angle_percent,
                max_angle_percent,
                min_allowed_angle: SERVO_MOTOR_MIN_ANGLE_PERCENT,
                max_allowed_angle: SERVO_MOTOR_MAX_ANGLE_PERCENT,
            });
        }
        Ok(ServoMotor { pin_number, min_angle_percent, max_angle_percent, current_angle_percent: None })
    }

    /// Moves the actuator to an absolute position. A target inside the
    /// configured bounds yields the pulse train to emit on the line — a
    /// long settle train on the first move, a short holding train after —
    /// and the tracked position becomes the target. A target outside the
    /// bounds is rejected and the state is left untouched.
    pub fn move_to_angle_percent(&mut self, angle_percent: u8) -> (r: Result<PulseTrain, Error>)
        requires
            old(self).wf(),
        ensures
            final(self).wf(),
            old(self).min_angle_percent <= angle_percent < old(self).max_angle_percent ==> {
                &&& r matches Ok(t)
                &&& t.high_us == SERVO_MOTOR_MIN_PULSE_WIDTH + angle_percent
                    * SERVO_MIN_MICRO_SECONDS_SENSITIVITY
                &&& t.low_us == SERVO_MOTOR_PULSE_PERIOD - t.high_us
                &&& t.period_count == (if old(self).current_angle_percent is Some {
                    PERIOD_NUMBER_FOR_KNOWN_PREVIOUS_ANGLE as int
                } else {
                    PERIOD_NUMBER_FOR_UNKNOWN_PREVIOUS_ANGLE as int
                })
                &&& *final(self) == ServoMotor {
                    current_angle_percent: Some(angle_percent),
                    ..*old(self)
                }
            },
            !(old(self).min_angle_percent <= angle_percent < old(self).max_angle_percent) ==> {
                &&& r == Err::<PulseTrain, Error>(Error::InvalidAngle {
                    min: old(self).min_angle_percent,
                    max: old(self).max_angle_percent,
                    angle: angle_percent,
                })
                &&& *final(self) == *old(self)
            },
    {
        if let Err(e) = validate(self.min_angle_percent, self.max_angle_percent, angle_percent) {
            return Err(e);
        }
        let period_count: u16 = match self.current_angle_percent {
            Some(_) => PERIOD_NUMBER_FOR_KNOWN_PREVIOUS_ANGLE,
            None => PERIOD_NUMBER_FOR_UNKNOWN_PREVIOUS_ANGLE,
        };
        let train = pulse_train(angle_percent, period_count);
        self.current_angle_percent = Some(angle_percent);
        Ok(train)
    }
}

} // verus!
