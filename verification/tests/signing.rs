use hmac::Mac;
use neato_bridge::neato::{build_auth_body, build_signed_request, current_date, date_line, RobotCmd};
use neato_bridge::neato_types::{NeatoState, Robot, RobotAction, RobotState, RobotStateDetails};

const DATE: &str = "Sun, 06 Nov 1994 08:49:37 GMT";

fn mk_robot(name: &str, serial: &str, secret: &str) -> Robot {
    Robot {
        mac_address: "aa:bb:cc:dd:ee:ff".to_string(),
        model: "botvac".to_string(),
        name: name.to_string(),
        nucleo_url: "https://nucleo.neatocloud.com:4443".to_string(),
        secret_key: secret.to_string(),
        serial: serial.to_string(),
        state: None,
    }
}

fn expected_signature(secret: &str, serial_lower: &str, date: &str, body: &str) -> String {
    let string_to_sign = format!("{}\n{}\n{}", serial_lower, date, body);
    let mut mac = hmac::Hmac::<sha2::Sha256>::new_from_slice(secret.as_bytes()).unwrap();
    mac.update(string_to_sign.as_bytes());
    hex::encode(mac.finalize().into_bytes())
}

#[test]
fn start_cleaning_body_is_canonical() {
    let body = RobotCmd::StartCleaning.build_robot_message().to_json();
    assert_eq!(
        body,
        "{\"reqId\":\"77\",\"cmd\":\"startCleaning\",\"params\":{\"category\":4,\"mode\":1,\"navigationMode\":2}}"
    );
}

#[test]
fn other_commands_carry_null_params() {
    let body = RobotCmd::SendToBase.build_robot_message().to_json();
    assert_eq!(body, "{\"reqId\":\"77\",\"cmd\":\"sendToBase\",\"params\":null}");
    let body2 = RobotCmd::GetRobotState.build_robot_message().to_json();
    assert_eq!(body2, "{\"reqId\":\"77\",\"cmd\":\"getRobotState\",\"params\":null}");
}

#[test]
fn signed_request_matches_reference_computation() {
    let robot = mk_robot("kitchen", "Serial-77X", "per-robot-test-key");
    let req = build_signed_request(&robot, &RobotCmd::SendToBase, DATE);
    assert_eq!(
        req.url,
        "https://nucleo.neatocloud.com:4443/vendors/neato/robots/Serial-77X/messages"
    );
    assert_eq!(req.date, DATE);
    assert_eq!(req.body, "{\"reqId\":\"77\",\"cmd\":\"sendToBase\",\"params\":null}");
    let expected = expected_signature(
        "per-robot-test-key",
        "serial-77x",
        DATE,
        "{\"reqId\":\"77\",\"cmd\":\"sendToBase\",\"params\":null}",
    );
    assert_eq!(req.signature, expected);
    assert_eq!(req.auth_header(), format!("NEATOAPP {}", expected));
}

#[test]
fn signature_is_lowercase_hex() {
    let robot = mk_robot("kitchen", "S1", "k1");
    let req = build_signed_request(&robot, &RobotCmd::PauseCleaning, DATE);
    assert_eq!(req.signature.len(), 64);
    assert!(req.signature.chars().all(|c| c.is_ascii_hexdigit() && !c.is_ascii_uppercase()));
}

#[test]
fn signing_is_deterministic_and_serial_case_insensitive() {
    let a = mk_robot("kitchen", "MixedCase", "k1");
    let b = mk_robot("kitchen", "mixedcase", "k1");
    let ra1 = build_signed_request(&a, &RobotCmd::StopCleaning, DATE);
    let ra2 = build_signed_request(&a, &RobotCmd::StopCleaning, DATE);
    let rb = build_signed_request(&b, &RobotCmd::StopCleaning, DATE);
    assert_eq!(ra1.signature, ra2.signature);
    assert_eq!(ra1.signature, rb.signature);
    let other_date = build_signed_request(&a, &RobotCmd::StopCleaning, "Mon, 07 Nov 1994 08:49:37 GMT");
    assert_ne!(ra1.signature, other_date.signature);
}

#[test]
fn date_line_renders_rfc1123() {
    let d = date_line(784111777).unwrap();
    assert_eq!(d, DATE);
    let independent = chrono::DateTime::<chrono::Utc>::from_timestamp(784111777, 0)
        .unwrap()
        .format("%a, %d %b %Y %H:%M:%S GMT")
        .to_string();
    assert_eq!(d, independent);
    assert!(date_line(-1).is_none());
    assert!(date_line(i64::MAX).is_none());
}

#[test]
fn current_date_reads_the_clock() {
    let d = current_date().unwrap();
    assert!(d.ends_with("GMT"));
    assert_eq!(d.len(), 29);
}

#[test]
fn auth_body_escapes_credentials() {
    let body = build_auth_body("user@example.com", "pa\"ss\\word");
    assert_eq!(body, "{\"email\":\"user@example.com\",\"password\":\"pa\\\"ss\\\\word\"}");
}

#[test]
fn public_projection_hides_the_secret() {
    let mut robot = mk_robot("ro\"bot", "SER1", "hush-hush-key");
    robot.state = Some(NeatoState {
        alert: None,
        error: Some("ui_alert_invalid".to_string()),
        details: RobotStateDetails {
            is_charging: false,
            is_docked: true,
            is_schedule_enabled: false,
            dock_has_been_seen: true,
            charge: -5,
        },
        state: RobotState::Idle,
        action: RobotAction::Invalid,
    });
    let payload = robot.to_public().to_json();
    assert!(!payload.contains("hush-hush-key"));
    assert!(!payload.contains("secret"));
    assert_eq!(
        payload,
        "{\"mac_address\":\"aa:bb:cc:dd:ee:ff\",\"model\":\"botvac\",\"name\":\"ro\\\"bot\",\"nucleo_url\":\"https://nucleo.neatocloud.com:4443\",\"serial\":\"SER1\",\"state\":{\"alert\":null,\"error\":\"ui_alert_invalid\",\"details\":{\"isCharging\":false,\"isDocked\":true,\"isScheduleEnabled\":false,\"dockHasBeenSeen\":true,\"charge\":-5},\"state\":1,\"action\":0}}"
    );
}

#[test]
fn control_characters_are_escaped_in_payloads() {
    let robot = Robot {
        mac_address: "m".to_string(),
        model: "line\nbreak".to_string(),
        name: "tab\there".to_string(),
        nucleo_url: "u".to_string(),
        secret_key: "s".to_string(),
        serial: "\u{1}".to_string(),
        state: None,
    };
    let payload = robot.to_public().to_json();
    assert_eq!(
        payload,
        "{\"mac_address\":\"m\",\"model\":\"line\\nbreak\",\"name\":\"tab\\there\",\"nucleo_url\":\"u\",\"serial\":\"\\u0001\",\"state\":null}"
    );
}
