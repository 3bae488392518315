use vstd::prelude::*;

use crate::servo_motor::{
    Error, PulseTrain, ServoMotor, PERIOD_NUMBER_FOR_KNOWN_PREVIOUS_ANGLE,
    SERVO_MIN_MICRO_SECONDS_SENSITIVITY, SERVO_MOTOR_MIN_PULSE_WIDTH, SERVO_MOTOR_PULSE_PERIOD,
};
use crate::text::{bytes_eq, host_prefix, host_prefix_of, replace_all, replaced};

verus! {

/// Bytes of the path that serves the viewer page: "/".
pub open spec fn view_page_path() -> Seq<u8> {
    seq![47u8]
}

/// Bytes of the path that serves a telemetry reading: "/humiditytemp".
pub open spec fn telemetry_path() -> Seq<u8> {
    seq![47u8, 104u8, 117u8, 109u8, 105u8, 100u8, 105u8, 116u8, 121u8, 116u8, 101u8, 109u8, 112u8]
}

/// Bytes of the path that nudges the tilt actuator upward: "/up".
pub open spec fn up_path() -> Seq<u8> {
    seq![47u8, 117u8, 112u8]
}

/// Bytes of the path that nudges the tilt actuator downward: "/down".
pub open spec fn down_path() -> Seq<u8> {
    seq![47u8, 100u8, 111u8, 119u8, 110u8]
}

/// Bytes of the path that nudges the pan actuator leftward: "/left".
pub open spec fn left_path() -> Seq<u8> {
    seq![47u8, 108u8, 101u8, 102u8, 116u8]
}

/// Bytes of the path that nudges the pan actuator rightward: "/right".
pub open spec fn right_path() -> Seq<u8> {
    seq![47u8, 114u8, 105u8, 103u8, 104u8, 116u8]
}

/// Bytes of the placeholder token in the page template: "{CAMERA_URL}".
pub open spec fn camera_url_pattern() -> Seq<u8> {
    seq![123u8, 67u8, 65u8, 77u8, 69u8, 82u8, 65u8, 95u8, 85u8, 82u8, 76u8, 125u8]
}

/// Bytes of the stream-URL substring that is rewritten to the requesting
/// client's own host: "//localhost".
pub open spec fn localhost_pattern() -> Seq<u8> {
    seq![47u8, 47u8, 108u8, 111u8, 99u8, 97u8, 108u8, 104u8, 111u8, 115u8, 116u8]
}

/// Bytes of the authority marker that precedes a host in a URL: "//".
pub open spec fn double_slash() -> Seq<u8> {
    seq![47u8, 47u8]
}

/// The two angular actuators of the camera head.
#[derive(Clone, Copy, Debug, PartialEq, Eq, Structural)]
pub enum ActuatorRef {
    Vertical,
    Horizontal,
}

/// One inbound control command, constructed per request and consumed once.
#[derive(Clone, Copy, Debug, PartialEq, Eq, Structural)]
pub enum Command {
    ViewPage,
    ReadTelemetry,
    Nudge { actuator: ActuatorRef, delta: i8 },
}

/// What the transport layer must do with one inbound request.
#[derive(Clone, Copy, Debug, PartialEq, Eq, Structural)]
pub enum RequestPlan {
    /// The method was not GET: answer 405 without touching any hardware.
    MethodNotAllowed,
    /// The viewer page was asked for without a usable Host header: answer 400.
    BadRequest,
    /// The path names no resource: answer 404.
    NotFound,
    /// Run the command and answer 200 with its payload.
    Execute(Command),
}

/// A nudge rejected by the coordinator or by the actuator.
#[derive(Clone, Copy, Debug, PartialEq, Eq, Structural)]
pub enum NudgeError {
    /// The actuator has never been positioned, so there is no position to
    /// move relative to.
    UnknownPosition,
    /// The actuator refused the resulting absolute move.
    Motor(Error),
}

/// The routing table: which command each path names, with nudge deltas of
/// the configured magnitude, positive for up and left, negative for down
/// and right.
pub open spec fn route_of(path: Seq<u8>, nudge_step: u8) -> Option<Command> {
    if path == view_page_path() {
        Some(Command::ViewPage)
    } else if path == telemetry_path() {
        Some(Command::ReadTelemetry)
    } else if path == up_path() {
        Some(Command::Nudge { actuator: ActuatorRef::Vertical, delta: nudge_step as i8 })
    } else if path == down_path() {
        Some(Command::Nudge { actuator: ActuatorRef::Vertical, delta: (0 - nudge_step) as i8 })
    } else if path == left_path() {
        Some(Command::Nudge { actuator: ActuatorRef::Horizontal, delta: nudge_step as i8 })
    } else if path == right_path() {
        Some(Command::Nudge { actuator: ActuatorRef::Horizontal, delta: (0 - nudge_step) as i8 })
    } else {
        None
    }
}

/// The full request-dispatch decision: a method other than GET is refused
/// whatever the path; the viewer page needs a Host header with a non-empty
/// host part; everything else follows the routing table.
pub open spec fn plan_of(
    is_get: bool,
    path: Seq<u8>,
    host: Option<Seq<u8>>,
    nudge_step: u8,
) -> RequestPlan {
    if !is_get {
        RequestPlan::MethodNotAllowed
    } else {
        match route_of(path, nudge_step) {
            None => RequestPlan::NotFound,
            Some(Command::ViewPage) => match host {
                Some(h) => if host_prefix_of(h).len() > 0 {
                    RequestPlan::Execute(Command::ViewPage)
                } else {
                    RequestPlan::BadRequest
                },
                None => RequestPlan::BadRequest,
            },
            Some(c) => RequestPlan::Execute(c),
        }
    }
}

/// The HTTP status code each plan is answered with. Commands that run
/// report their own failures inside a 200 body.
pub open spec fn status_of(plan: RequestPlan) -> u16 {
    match plan {
        RequestPlan::MethodNotAllowed => 405,
        RequestPlan::BadRequest => 400,
        RequestPlan::NotFound => 404,
        RequestPlan::Execute(_) => 200,
    }
}

/// The view of an optional Host header value.
pub open spec fn opt_bytes_view(host: Option<&Vec<u8>>) -> Option<Seq<u8>> {
    match host {
        Some(h) => Some(h@),
        None => None,
    }
}

/// Law: a request whose method is not GET is answered with status 405,
/// whatever its path, Host header and configured nudge step.
pub proof fn lemma_non_get_is_405(
    is_get: bool,
    path: Seq<u8>,
    host: Option<Seq<u8>>,
    nudge_step: u8,
)
    requires
        !is_get,
    ensures
        status_of(plan_of(is_get, path, host, nudge_step)) == 405,
{
}

/// Maps a path to the command it names.
pub fn route(path: &Vec<u8>, nudge_step: u8) -> (cmd: Option<Command>)
    requires
        nudge_step <= 127,
    ensures
        cmd == route_of(path@, nudge_step),
{
    let view_page: [u8; 1] = [47];
    let telemetry: [u8; 13] = [47, 104, 117, 109, 105, 100, 105, 116, 121, 116, 101, 109, 112];
    let up: [u8; 3] = [47, 117, 112];
    let down: [u8; 5] = [47, 100, 111, 119, 110];
    let left: [u8; 5] = [47, 108, 101, 102, 116];
    let right: [u8; 6] = [47, 114, 105, 103, 104, 116];
    proof {
        assert(view_page@ =~= view_page_path());
        assert(telemetry@ =~= telemetry_path());
        assert(up@ =~= up_path());
        assert(down@ =~= down_path());
        assert(left@ =~= left_path());
        assert(right@ =~= right_path());
    }
    if bytes_eq(path.as_slice(), view_page.as_slice()) {
        Some(Command::ViewPage)
    } else if bytes_eq(path.as_slice(), telemetry.as_slice()) {
        Some(Command::ReadTelemetry)
    } else if bytes_eq(path.as_slice(), up.as_slice()) {
        Some(Command::Nudge { actuator: ActuatorRef::Vertical, delta: nudge_step as i8 })
    } else if bytes_eq(path.as_slice(), down.as_slice()) {
        Some(Command::Nudge { actuator: ActuatorRef::Vertical, delta: -(nudge_step as i8) })
    } else if bytes_eq(path.as_slice(), left.as_slice()) {
        Some(Command::Nudge { actuator: ActuatorRef::Horizontal, delta: nudge_step as i8 })
    } else if bytes_eq(path.as_slice(), right.as_slice()) {
        Some(Command::Nudge { actuator: ActuatorRef::Horizontal, delta: -(nudge_step as i8) })
    } else {
        None
    }
}

/// Decides what the transport layer must do with one inbound request.
pub fn plan_request(
    is_get: bool,
    path: &Vec<u8>,
    host: Option<&Vec<u8>>,
    nudge_step: u8,
) -> (plan: RequestPlan)
    requires
        nudge_step <= 127,
    ensures
        plan == plan_of(is_get, path@, opt_bytes_view(host), nudge_step),
{
    if !is_get {
        return RequestPlan::MethodNotAllowed;
    }
    match route(path, nudge_step) {
        None => RequestPlan::NotFound,
        Some(Command::ViewPage) => match host {
            Some(h) => {
                let prefix = host_prefix(h);
                if prefix.len() > 0 {
                    RequestPlan::Execute(Command::ViewPage)
                } else {
                    RequestPlan::BadRequest
                }
            },
            None => RequestPlan::BadRequest,
        },
        Some(c) => RequestPlan::Execute(c),
    }
}

/// The HTTP status code the transport layer answers a plan with.
pub fn http_status(plan: &RequestPlan) -> (code: u16)
    ensures
        code == status_of(*plan),
{
    match plan {
        RequestPlan::MethodNotAllowed => 405,
        RequestPlan::BadRequest => 400,
        RequestPlan::NotFound => 404,
        RequestPlan::Execute(_) => 200,
    }
}

/// Renders the viewer page: the placeholder token in the page template is
/// replaced by the stream URL, whose "//localhost" authority has first been
/// rewritten to point at the requesting client's own host.
pub fn render_page(
    html_template: &Vec<u8>,
    stream_url_template: &Vec<u8>,
    host: &Vec<u8>,
) -> (body: Vec<u8>)
    ensures
        body@ == replaced(
            html_template@,
            camera_url_pattern(),
            replaced(
                stream_url_template@,
                localhost_pattern(),
                double_slash() + host_prefix_of(host@),
            ),
        ),
{
    let prefix = host_prefix(host);
    let mut client_authority: Vec<u8> = Vec::new();
    client_authority.push(47);
    client_authority.push(47);
    client_authority.extend_from_slice(prefix.as_slice());
    proof {
        assert(client_authority@ =~= double_slash() + host_prefix_of(host@));
    }
    let localhost: [u8; 11] = [47, 47, 108, 111, 99, 97, 108, 104, 111, 115, 116];
    let placeholder: [u8; 12] = [123, 67, 65, 77, 69, 82, 65, 95, 85, 82, 76, 125];
    let localhost_vec = vstd::slice::slice_to_vec(localhost.as_slice());
    let placeholder_vec = vstd::slice::slice_to_vec(placeholder.as_slice());
    proof {
        assert(localhost_vec@ =~= localhost_pattern());
        assert(placeholder_vec@ =~= camera_url_pattern());
    }
    let stream_url = replace_all(stream_url_template, &localhost_vec, &client_authority);
    replace_all(html_template, &placeholder_vec, &stream_url)
}

/// The position a relative shift asks for: the current position plus the
/// shift, wrapped into the range of a byte, exactly as unsigned byte
/// arithmetic computes it.
pub open spec fn wrapped_target(current: u8, shift: i8) -> u8 {
    ((current + shift) % 256) as u8
}

/// Applies the actuator's inversion flag to a relative shift: an inverted
/// actuator moves the opposite way from the logical direction asked for.
pub fn inverted_shift(inverted: bool, shift: i8) -> (s: i8)
    requires
        -127 <= shift,
    ensures
        s as int == if inverted {
            0 - shift
        } else {
            shift as int
        },
{
    if inverted {
        -shift
    } else {
        shift
    }
}

/// Nudges an actuator by a relative shift. An actuator that has never been
/// positioned is not moved: there is no position to move relative to, and
/// the caller is told so. Otherwise the shifted position goes through the
/// ordinary absolute move, whose bounds check decides.
pub fn shift_servo_motor_pos(servo_motor: &mut ServoMotor, angle_percent_shift: i8) -> (r: Result<
    PulseTrain,
    NudgeError,
>)
    requires
        old(servo_motor).wf(),
    ensures
        final(servo_motor).wf(),
        old(servo_motor).current_angle_percent is None ==> r == Err::<PulseTrain, NudgeError>(
            NudgeError::UnknownPosition,
        ) && *final(servo_motor) == *old(servo_motor),
        old(servo_motor).current_angle_percent matches Some(c) ==> {
            let target = wrapped_target(c, angle_percent_shift);
            &&& (old(servo_motor).min_angle_percent <= target < old(
                servo_motor,
            ).max_angle_percent) ==> {
                &&& r matches Ok(t)
                &&& t.high_us == SERVO_MOTOR_MIN_PULSE_WIDTH + target
                    * SERVO_MIN_MICRO_SECONDS_SENSITIVITY
                &&& t.low_us == SERVO_MOTOR_PULSE_PERIOD - t.high_us
                &&& t.period_count == PERIOD_NUMBER_FOR_KNOWN_PREVIOUS_ANGLE
                &&& *final(servo_motor) == ServoMotor {
                    current_angle_percent: Some(target),
                    ..*old(servo_motor)
                }
            }
            &&& !(old(servo_motor).min_angle_percent <= target < old(
                servo_motor,
            ).max_angle_percent) ==> {
                &&& r == Err::<PulseTrain, NudgeError>(NudgeError::Motor(Error::InvalidAngle {
                    min: old(servo_motor).min_angle_percent,
                    max: old(servo_motor).max_angle_percent,
                    angle: target,
                }))
                &&& *final(servo_motor) == *old(servo_motor)
            }
        },
{
    let current: u8 = match servo_motor.current_angle_percent {
        Some(c) => c,
        None => {
            return Err(NudgeError::UnknownPosition);
        },
    };
    let sum: i16 = current as i16 + angle_percent_shift as i16;
    let reduced: i16 = if sum < 0 {
        sum + 256
    } else {
        sum
    };
    proof {
        assert(0 <= reduced < 256);
        assert(reduced == (current + angle_percent_shift) % 256);
    }
    let target: u8 = reduced as u8;
    match servo_motor.move_to_angle_percent(target) {
        Ok(train) => Ok(train),
        Err(e) => Err(NudgeError::Motor(e)),
    }
}

} // verus!
