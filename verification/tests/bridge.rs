use neato_bridge::mqtt::{
    get_id_from_topic, has_placeholder, parse_set_message, substitute_id, CommandMailbox,
    SendAction, TopicError,
};
use neato_bridge::neato::{
    plan_relay, Registry, RefreshDecision, RefreshThrottle, RelayPlan, RobotCmd,
};
use neato_bridge::neato_types::{
    NeatoState, Robot, RobotAction, RobotState, RobotStateDetails,
};
use neato_bridge::settings::{default_cache_timeout, default_poll_interval};

fn mk_robot(name: &str, serial: &str, secret: &str) -> Robot {
    Robot {
        mac_address: "aa:bb:cc:dd:ee:ff".to_string(),
        model: "botvac".to_string(),
        name: name.to_string(),
        nucleo_url: "https://nucleo.neatocloud.com:4443".to_string(),
        secret_key: secret.to_string(),
        serial: serial.to_string(),
        state: None,
    }
}

#[test]
fn extracts_id_from_topic() {
    let topic = "home/devices/neato/D1/set".to_string();
    let id = get_id_from_topic(&topic, "home/devices/neato/{id}/set").unwrap();
    assert_eq!(id, "D1");
}

#[test]
fn round_trips_awkward_identifier() {
    let template = "home/devices/neato/{id}/set";
    let id = "dev 7/x{id";
    let topic = substitute_id(template, id).unwrap();
    let back = get_id_from_topic(&topic, template).unwrap();
    assert_eq!(back, id);
}

#[test]
fn substitutes_id_into_template() {
    let t = substitute_id("home/devices/neato/{id}", "robo").unwrap();
    assert_eq!(t, "home/devices/neato/robo");
}

#[test]
fn rejects_template_without_placeholder() {
    let topic = "home/devices/neato/D1/set".to_string();
    let r = get_id_from_topic(&topic, "home/devices/neato/set");
    assert_eq!(r, Err(TopicError::MissingPlaceholder));
    assert!(!has_placeholder("home/devices/neato/set"));
    assert!(has_placeholder("home/devices/neato/{id}/set"));
}

#[test]
fn rejects_topic_not_matching_template() {
    let topic = "other/devices/neato/D1/set".to_string();
    let r = get_id_from_topic(&topic, "home/devices/neato/{id}/set");
    assert_eq!(r, Err(TopicError::MalformedTopic));
    let short = "home".to_string();
    let r2 = get_id_from_topic(&short, "home/devices/neato/{id}/set");
    assert_eq!(r2, Err(TopicError::MalformedTopic));
}

#[test]
fn parses_set_payload() {
    let m = parse_set_message("{\"action\":\"StopCleaning\"}").unwrap();
    assert_eq!(m.action, RobotCmd::StopCleaning);
    let m2 = parse_set_message("  {\n\t\"action\" :  \"SendToBase\"  }\r\n").unwrap();
    assert_eq!(m2.action, RobotCmd::SendToBase);
}

#[test]
fn rejects_bad_set_payloads() {
    assert!(parse_set_message("").is_none());
    assert!(parse_set_message("{}").is_none());
    assert!(parse_set_message("{\"action\":\"FlyToMoon\"}").is_none());
    assert!(parse_set_message("{\"action\":\"StopCleaning\"} trailing").is_none());
    assert!(parse_set_message("{\"action\":\"StopCleaning\"").is_none());
    assert!(parse_set_message("{\"action\":StopCleaning}").is_none());
    assert!(parse_set_message("[\"action\",\"StopCleaning\"]").is_none());
}

#[test]
fn command_names_map_exactly() {
    assert_eq!(RobotCmd::StartCleaning.cmd_str(), "startCleaning");
    assert_eq!(RobotCmd::StopCleaning.cmd_str(), "stopCleaning");
    assert_eq!(RobotCmd::PauseCleaning.cmd_str(), "pauseCleaning");
    assert_eq!(RobotCmd::ResumeCleaning.cmd_str(), "resumeCleaning");
    assert_eq!(RobotCmd::SendToBase.cmd_str(), "sendToBase");
    assert_eq!(RobotCmd::GetRobotState.cmd_str(), "getRobotState");
}

#[test]
fn command_name_parsing_inverts_printing() {
    let all = [
        RobotCmd::StartCleaning,
        RobotCmd::StopCleaning,
        RobotCmd::PauseCleaning,
        RobotCmd::ResumeCleaning,
        RobotCmd::SendToBase,
        RobotCmd::GetRobotState,
    ];
    for c in all {
        assert_eq!(RobotCmd::from_name(c.cmd_str().as_str()), Some(c));
    }
    assert_eq!(RobotCmd::from_name("StartCleaning"), None);
    assert_eq!(RobotCmd::from_name(""), None);
    for c in all {
        assert_eq!(RobotCmd::from_action_name(&format!("{:?}", c)), Some(c));
    }
    assert_eq!(RobotCmd::from_action_name("startCleaning"), None);
    assert_eq!(RobotCmd::from_action_name(""), None);
}

#[test]
fn mailbox_keeps_only_latest_value() {
    let mut mb = CommandMailbox::new();
    let seen = mb.generation();
    mb.set(Some(SendAction { id: "a".to_string(), action: RobotCmd::StartCleaning }));
    mb.set(Some(SendAction { id: "b".to_string(), action: RobotCmd::StopCleaning }));
    mb.set(Some(SendAction { id: "c".to_string(), action: RobotCmd::SendToBase }));
    assert!(mb.changed(seen));
    let current = mb.current().clone().unwrap();
    assert_eq!(current.id, "c");
    assert_eq!(current.action, RobotCmd::SendToBase);
}

#[test]
fn mailbox_wakes_only_on_change() {
    let mut mb = CommandMailbox::new();
    let seen = mb.generation();
    assert!(!mb.changed(seen));
    mb.set(None);
    assert!(mb.changed(seen));
}

#[test]
fn registry_finds_by_name() {
    let reg = Registry::initialize(vec![mk_robot("kitchen", "S1", "k1"), mk_robot("attic", "S2", "k2")]);
    assert_eq!(reg.len(), 2);
    assert_eq!(reg.find(&"attic".to_string()), Some(1));
    assert_eq!(reg.find(&"kitchen".to_string()), Some(0));
    assert_eq!(reg.find(&"cellar".to_string()), None);
}

#[test]
fn registry_replaces_state_wholesale() {
    let mut reg = Registry::initialize(vec![mk_robot("kitchen", "S1", "k1"), mk_robot("attic", "S2", "k2")]);
    let snapshot = NeatoState {
        alert: None,
        error: None,
        details: RobotStateDetails {
            is_charging: true,
            is_docked: true,
            is_schedule_enabled: false,
            dock_has_been_seen: true,
            charge: 87,
        },
        state: RobotState::Idle,
        action: RobotAction::Invalid,
    };
    reg.set_state(0, snapshot);
    assert!(reg.robots[0].state.is_some());
    assert_eq!(reg.robots[0].name, "kitchen");
    assert_eq!(reg.robots[0].serial, "S1");
    assert!(reg.robots[1].state.is_none());
}

#[test]
fn publish_plans_cover_every_robot() {
    let mut reg = Registry::initialize(vec![mk_robot("kitchen", "S1", "k1"), mk_robot("attic", "S2", "k2")]);
    let snapshot = NeatoState {
        alert: None,
        error: None,
        details: RobotStateDetails {
            is_charging: false,
            is_docked: false,
            is_schedule_enabled: true,
            dock_has_been_seen: false,
            charge: 42,
        },
        state: RobotState::Busy,
        action: RobotAction::HouseCleaning,
    };
    reg.set_state(1, snapshot);
    let plans = reg.publish_plans("home/devices/neato/{id}").unwrap();
    assert_eq!(plans.len(), 2);
    assert_eq!(plans[0].topic, "home/devices/neato/kitchen");
    assert_eq!(plans[1].topic, "home/devices/neato/attic");
    assert_eq!(plans[0].payload, "{\"mac_address\":\"aa:bb:cc:dd:ee:ff\",\"model\":\"botvac\",\"name\":\"kitchen\",\"nucleo_url\":\"https://nucleo.neatocloud.com:4443\",\"serial\":\"S1\",\"state\":null}");
    assert_eq!(plans[1].payload, "{\"mac_address\":\"aa:bb:cc:dd:ee:ff\",\"model\":\"botvac\",\"name\":\"attic\",\"nucleo_url\":\"https://nucleo.neatocloud.com:4443\",\"serial\":\"S2\",\"state\":{\"alert\":null,\"error\":null,\"details\":{\"isCharging\":false,\"isDocked\":false,\"isScheduleEnabled\":true,\"dockHasBeenSeen\":false,\"charge\":42},\"state\":2,\"action\":1}}");
    assert!(reg.publish_plans("home/devices/neato").is_err());
}

#[test]
fn throttle_is_single_flight_and_windowed() {
    let mut th = RefreshThrottle::new();
    assert_eq!(th.decide(false, 1000, 60), RefreshDecision::SkipBusy);
    assert_eq!(th.decide(true, 1000, 60), RefreshDecision::Refresh);
    th.record(1000);
    assert_eq!(th.decide(true, 1030, 60), RefreshDecision::SkipFresh);
    assert_eq!(th.decide(true, 1059, 60), RefreshDecision::SkipFresh);
    assert_eq!(th.decide(true, 1060, 60), RefreshDecision::Refresh);
    th.record(1060);
    assert_eq!(th.decide(true, 1061, 60), RefreshDecision::SkipFresh);
}

#[test]
fn relay_ignores_state_queries() {
    let reg = Registry::initialize(vec![mk_robot("kitchen", "S1", "k1")]);
    let msg = SendAction { id: "kitchen".to_string(), action: RobotCmd::GetRobotState };
    let plan = plan_relay(&reg, &msg, false, "Sun, 06 Nov 1994 08:49:37 GMT");
    assert!(matches!(plan, RelayPlan::IgnoreStateQuery));
}

#[test]
fn relay_drops_unknown_device_and_keeps_serving() {
    let reg = Registry::initialize(vec![mk_robot("kitchen", "S1", "k1")]);
    let stray = SendAction { id: "cellar".to_string(), action: RobotCmd::SendToBase };
    let plan = plan_relay(&reg, &stray, false, "Sun, 06 Nov 1994 08:49:37 GMT");
    assert!(matches!(plan, RelayPlan::UnknownDevice));
    let next = SendAction { id: "kitchen".to_string(), action: RobotCmd::SendToBase };
    let plan2 = plan_relay(&reg, &next, false, "Sun, 06 Nov 1994 08:49:37 GMT");
    assert!(matches!(plan2, RelayPlan::Send { robot_index: 0, .. }));
}

#[test]
fn relay_dry_run_builds_no_request() {
    let reg = Registry::initialize(vec![mk_robot("kitchen", "S1", "k1")]);
    let msg = SendAction { id: "kitchen".to_string(), action: RobotCmd::SendToBase };
    let plan = plan_relay(&reg, &msg, true, "Sun, 06 Nov 1994 08:49:37 GMT");
    assert!(matches!(plan, RelayPlan::DryRun { robot_index: 0 }));
}

#[test]
fn state_and_action_codes_round_trip() {
    assert_eq!(RobotState::Invalid.code(), 0);
    assert_eq!(RobotState::Error.code(), 4);
    assert_eq!(RobotState::from_code(3), Some(RobotState::Paused));
    assert_eq!(RobotState::from_code(5), None);
    assert_eq!(RobotAction::Invalid.code(), 0);
    assert_eq!(RobotAction::SuspendedExploration.code(), 15);
    assert_eq!(RobotAction::from_code(11), Some(RobotAction::MapCleaning));
    assert_eq!(RobotAction::from_code(16), None);
}

#[test]
fn default_settings_depend_on_debug_logging() {
    assert_eq!(default_poll_interval(true), 5);
    assert_eq!(default_poll_interval(false), 60);
    assert_eq!(default_cache_timeout(true), 30);
    assert_eq!(default_cache_timeout(false), 300);
}
