use camera_driver::coordinator::{
    http_status, inverted_shift, plan_request, render_page, route, shift_servo_motor_pos,
    ActuatorRef, Command, NudgeError, RequestPlan,
};
use camera_driver::servo_motor::{Error, ServoMotor};

fn bytes(s: &str) -> Vec<u8> {
    s.as_bytes().to_vec()
}

#[test]
fn route_maps_each_path_to_its_command() {
    assert_eq!(route(&bytes("/"), 2), Some(Command::ViewPage));
    assert_eq!(route(&bytes("/humiditytemp"), 2), Some(Command::ReadTelemetry));
    assert_eq!(
        route(&bytes("/up"), 2),
        Some(Command::Nudge { actuator: ActuatorRef::Vertical, delta: 2 })
    );
    assert_eq!(
        route(&bytes("/down"), 2),
        Some(Command::Nudge { actuator: ActuatorRef::Vertical, delta: -2 })
    );
    assert_eq!(
        route(&bytes("/left"), 2),
        Some(Command::Nudge { actuator: ActuatorRef::Horizontal, delta: 2 })
    );
    assert_eq!(
        route(&bytes("/right"), 2),
        Some(Command::Nudge { actuator: ActuatorRef::Horizontal, delta: -2 })
    );
    assert_eq!(route(&bytes("/reboot"), 2), None);
}

#[test]
fn non_get_gets_405_whatever_the_path() {
    for path in ["/", "/humiditytemp", "/up", "/nowhere"] {
        let plan = plan_request(false, &bytes(path), Some(&bytes("10.0.0.5:8000")), 2);
        assert_eq!(plan, RequestPlan::MethodNotAllowed);
        assert_eq!(http_status(&plan), 405);
    }
    let plan = plan_request(false, &bytes("/"), None, 2);
    assert_eq!(plan, RequestPlan::MethodNotAllowed);
    assert_eq!(http_status(&plan), 405);
}

#[test]
fn view_page_without_host_is_bad_request() {
    let plan = plan_request(true, &bytes("/"), None, 2);
    assert_eq!(plan, RequestPlan::BadRequest);
    assert_eq!(http_status(&plan), 400);
}

#[test]
fn view_page_with_empty_host_part_is_bad_request() {
    let plan = plan_request(true, &bytes("/"), Some(&bytes(":8000")), 2);
    assert_eq!(plan, RequestPlan::BadRequest);
    assert_eq!(http_status(&plan), 400);
}

#[test]
fn view_page_with_host_is_served() {
    let plan = plan_request(true, &bytes("/"), Some(&bytes("10.0.0.5:8000")), 2);
    assert_eq!(plan, RequestPlan::Execute(Command::ViewPage));
    assert_eq!(http_status(&plan), 200);
}

#[test]
fn unknown_path_is_not_found() {
    let plan = plan_request(true, &bytes("/reboot"), Some(&bytes("10.0.0.5")), 2);
    assert_eq!(plan, RequestPlan::NotFound);
    assert_eq!(http_status(&plan), 404);
}

#[test]
fn nudge_paths_are_planned_without_a_host_header() {
    let plan = plan_request(true, &bytes("/up"), None, 2);
    assert_eq!(
        plan,
        RequestPlan::Execute(Command::Nudge { actuator: ActuatorRef::Vertical, delta: 2 })
    );
    assert_eq!(http_status(&plan), 200);
}

#[test]
fn page_points_stream_at_requesting_host() {
    let html = bytes("<html><body><img src=\"{CAMERA_URL}\"></body></html>");
    let url = bytes("rtsp://localhost/stream");
    let body = render_page(&html, &url, &bytes("10.0.0.5:8000"));
    assert_eq!(
        body,
        bytes("<html><body><img src=\"rtsp://10.0.0.5/stream\"></body></html>")
    );
    let rendered = String::from_utf8(body).unwrap();
    assert!(rendered.contains("rtsp://10.0.0.5/stream"));
}

#[test]
fn nudge_moves_up_from_known_position() {
    let mut m = ServoMotor::new(12, 0, 100).unwrap();
    m.move_to_angle_percent(50).unwrap();
    let shift = inverted_shift(false, 2);
    assert_eq!(shift, 2);
    let t = shift_servo_motor_pos(&mut m, shift).unwrap();
    assert_eq!(m.current_angle_percent, Some(52));
    assert_eq!(t.period_count, 50);
    assert_eq!(t.high_us, 500 + 52 * 20);
}

#[test]
fn inverted_actuator_moves_the_opposite_way() {
    let mut m = ServoMotor::new(12, 0, 100).unwrap();
    m.move_to_angle_percent(50).unwrap();
    let shift = inverted_shift(true, 2);
    assert_eq!(shift, -2);
    shift_servo_motor_pos(&mut m, shift).unwrap();
    assert_eq!(m.current_angle_percent, Some(48));
}

#[test]
fn nudge_before_any_positioning_is_refused() {
    let mut m = ServoMotor::new(12, 0, 100).unwrap();
    let r = shift_servo_motor_pos(&mut m, 2);
    assert_eq!(r, Err(NudgeError::UnknownPosition));
    assert_eq!(m.current_angle_percent, None);
}

#[test]
fn nudge_wrapping_below_zero_is_rejected_by_bounds() {
    let mut m = ServoMotor::new(12, 0, 100).unwrap();
    m.move_to_angle_percent(0).unwrap();
    let r = shift_servo_motor_pos(&mut m, -2);
    assert_eq!(
        r,
        Err(NudgeError::Motor(Error::InvalidAngle { min: 0, max: 100, angle: 254 }))
    );
    assert_eq!(m.current_angle_percent, Some(0));
}

#[test]
fn nudge_outside_bounds_leaves_position_unchanged() {
    let mut m = ServoMotor::new(12, 0, 100).unwrap();
    m.move_to_angle_percent(99).unwrap();
    let r = shift_servo_motor_pos(&mut m, 2);
    assert_eq!(
        r,
        Err(NudgeError::Motor(Error::InvalidAngle { min: 0, max: 100, angle: 101 }))
    );
    assert_eq!(m.current_angle_percent, Some(99));
}
