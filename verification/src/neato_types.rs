use vstd::prelude::*;
use vstd::string::*;
use crate::json::{
    append_bool, append_dec_i8, append_dec_u32, append_json_string, append_json_string_opt,
    append_str_chars, bool_chars, chars_to_string, dec_chars, dec_chars_signed, json_string,
    json_string_opt,
};

verus! {

/// One physical robot as the cloud fleet listing describes it.  The
/// `secret_key` is the per-device signing secret; it must never appear in
/// any outward-facing representation — `PublicRobot` is the redacted
/// projection used for publication.
pub struct Robot {
    pub mac_address: String,
    pub model: String,
    pub name: String,
    pub nucleo_url: String,
    pub secret_key: String,
    pub serial: String,
    pub state: Option<NeatoState>,
}

/// The outward-facing projection of a `Robot`: every field but the signing
/// secret.
pub struct PublicRobot {
    pub mac_address: String,
    pub model: String,
    pub name: String,
    pub nucleo_url: String,
    pub serial: String,
    pub state: Option<NeatoState>,
}

/// Fixed cleaning parameters sent along with a start-cleaning command.
pub struct HouseCleaningParams {
    /// Should be set to 4 for persistent map, 2 without persistent map.
    pub category: u32,
    /// 1 is eco, 2 is turbo.
    pub mode: u32,
    /// 1 is normal, 2 is extra care, 3 is deep.  3 requires mode = 2.
    pub navigation_mode: u32,
}

/// The body of one command request to the cloud API.
pub struct RobotMessage {
    pub req_id: String,
    pub cmd: String,
    pub params: Option<HouseCleaningParams>,
}

/// The boolean flags and charge level inside a robot state snapshot.
#[derive(Clone, Copy)]
pub struct RobotStateDetails {
    pub is_charging: bool,
    pub is_docked: bool,
    pub is_schedule_enabled: bool,
    pub dock_has_been_seen: bool,
    pub charge: i8,
}

/// The coarse operational state of a robot.  On the wire it is the small
/// integer that `code` returns.
#[derive(Clone, Copy, PartialEq, Eq, Structural, Debug)]
pub enum RobotState {
    Invalid,
    Idle,
    Busy,
    Paused,
    Error,
}

/// What a robot is or was busy doing; meaningful only when the state is
/// Busy, Paused or Error.  On the wire it is the small integer that `code`
/// returns.
#[derive(Clone, Copy, PartialEq, Eq, Structural, Debug)]
pub enum RobotAction {
    Invalid,
    HouseCleaning,
    SpotCleaning,
    ManualCleaning,
    Docking,
    UserMenuActive,
    SuspendedCleaning,
    Updating,
    CopyingLogs,
    RecoveringLocation,
    IECTest,
    MapCleaning,
    ExploringMap,
    AcquiringPersisntentMapIDs,
    CreatingAndUploadingMap,
    SuspendedExploration,
}

/// One robot's last-known operational snapshot, replaced wholesale on each
/// successful refresh.
pub struct NeatoState {
    pub alert: Option<String>,
    pub error: Option<String>,
    pub details: RobotStateDetails,
    pub state: RobotState,
    pub action: RobotAction,
}

/// The wire code of a `RobotState`.
pub open spec fn state_code(s: RobotState) -> int {
    match s {
        RobotState::Invalid => 0,
        RobotState::Idle => 1,
        RobotState::Busy => 2,
        RobotState::Paused => 3,
        RobotState::Error => 4,
    }
}

/// The wire code of a `RobotAction`.
pub open spec fn action_code(a: RobotAction) -> int {
    match a {
        RobotAction::Invalid => 0,
        RobotAction::HouseCleaning => 1,
        RobotAction::SpotCleaning => 2,
        RobotAction::ManualCleaning => 3,
        RobotAction::Docking => 4,
        RobotAction::UserMenuActive => 5,
        RobotAction::SuspendedCleaning => 6,
        RobotAction::Updating => 7,
        RobotAction::CopyingLogs => 8,
        RobotAction::RecoveringLocation => 9,
        RobotAction::IECTest => 10,
        RobotAction::MapCleaning => 11,
        RobotAction::ExploringMap => 12,
        RobotAction::AcquiringPersisntentMapIDs => 13,
        RobotAction::CreatingAndUploadingMap => 14,
        RobotAction::SuspendedExploration => 15,
    }
}

impl RobotState {
    /// The integer this state is written as on the wire.
    pub fn code(&self) -> (r: u8)
        ensures
            r as int == state_code(*self),
    {
        match self {
            RobotState::Invalid => 0,
            RobotState::Idle => 1,
            RobotState::Busy => 2,
            RobotState::Paused => 3,
            RobotState::Error => 4,
        }
    }

    /// The state a wire integer stands for, if any.
    pub fn from_code(c: u8) -> (r: Option<RobotState>)
        ensures
            match r {
                Some(s) => state_code(s) == c as int,
                None => c > 4,
            },
    {
        match c {
            0 => Some(RobotState::Invalid),
            1 => Some(RobotState::Idle),
            2 => Some(RobotState::Busy),
            3 => Some(RobotState::Paused),
            4 => Some(RobotState::Error),
            _ => None,
        }
    }
}

impl RobotAction {
    /// The integer this activity is written as on the wire.
    pub fn code(&self) -> (r: u8)
        ensures
            r as int == action_code(*self),
    {
        match self {
            RobotAction::Invalid => 0,
            RobotAction::HouseCleaning => 1,
            RobotAction::SpotCleaning => 2,
            RobotAction::ManualCleaning => 3,
            RobotAction::Docking => 4,
            RobotAction::UserMenuActive => 5,
            RobotAction::SuspendedCleaning => 6,
            RobotAction::Updating => 7,
            RobotAction::CopyingLogs => 8,
            RobotAction::RecoveringLocation => 9,
            RobotAction::IECTest => 10,
            RobotAction::MapCleaning => 11,
            RobotAction::ExploringMap => 12,
            RobotAction::AcquiringPersisntentMapIDs => 13,
            RobotAction::CreatingAndUploadingMap => 14,
            RobotAction::SuspendedExploration => 15,
        }
    }

    /// The activity a wire integer stands for, if any.
    pub fn from_code(c: u8) -> (r: Option<RobotAction>)
        ensures
            match r {
                Some(a) => action_code(a) == c as int,
                None => c > 15,
            },
    {
        match c {
            0 => Some(RobotAction::Invalid),
            1 => Some(RobotAction::HouseCleaning),
            2 => Some(RobotAction::SpotCleaning),
            3 => Some(RobotAction::ManualCleaning),
            4 => Some(RobotAction::Docking),
            5 => Some(RobotAction::UserMenuActive),
            6 => Some(RobotAction::SuspendedCleaning),
            7 => Some(RobotAction::Updating),
            8 => Some(RobotAction::CopyingLogs),
            9 => Some(RobotAction::RecoveringLocation),
            10 => Some(RobotAction::IECTest),
            11 => Some(RobotAction::MapCleaning),
            12 => Some(RobotAction::ExploringMap),
            13 => Some(RobotAction::AcquiringPersisntentMapIDs),
            14 => Some(RobotAction::CreatingAndUploadingMap),
            15 => Some(RobotAction::SuspendedExploration),
            _ => None,
        }
    }
}

/// The JSON rendering of the detail flags, with the wire field names.
pub open spec fn details_json(d: RobotStateDetails) -> Seq<char> {
    "{\"isCharging\":"@ + bool_chars(d.is_charging) + ",\"isDocked\":"@ + bool_chars(d.is_docked)
        + ",\"isScheduleEnabled\":"@ + bool_chars(d.is_schedule_enabled)
        + ",\"dockHasBeenSeen\":"@ + bool_chars(d.dock_has_been_seen) + ",\"charge\":"@
        + dec_chars_signed(d.charge as int) + "}"@
}

/// The view of an optional string field.
pub open spec fn opt_str_view(s: Option<String>) -> Option<Seq<char>> {
    match s {
        Some(v) => Some(v@),
        None => None,
    }
}

/// The JSON rendering of a state snapshot.
pub open spec fn neato_state_json(s: NeatoState) -> Seq<char> {
    "{\"alert\":"@ + json_string_opt(opt_str_view(s.alert)) + ",\"error\":"@ + json_string_opt(
        opt_str_view(s.error),
    ) + ",\"details\":"@ + details_json(s.details) + ",\"state\":"@ + dec_chars(
        state_code(s.state),
    ) + ",\"action\":"@ + dec_chars(action_code(s.action)) + "}"@
}

/// The JSON rendering of an optional state snapshot.
pub open spec fn neato_state_json_opt(s: Option<NeatoState>) -> Seq<char> {
    match s {
        Some(v) => neato_state_json(v),
        None => "null"@,
    }
}

/// The JSON rendering of the outward-facing robot record.  It holds every
/// field of the robot but the signing secret.
pub open spec fn public_robot_json(r: PublicRobot) -> Seq<char> {
    "{\"mac_address\":"@ + json_string(r.mac_address@) + ",\"model\":"@ + json_string(r.model@)
        + ",\"name\":"@ + json_string(r.name@) + ",\"nucleo_url\":"@ + json_string(r.nucleo_url@)
        + ",\"serial\":"@ + json_string(r.serial@) + ",\"state\":"@ + neato_state_json_opt(r.state)
        + "}"@
}

impl RobotStateDetails {
    /// Append this record's JSON rendering to `out`.
    fn append_json(&self, out: &mut Vec<char>)
        ensures
            final(out)@ == old(out)@ + details_json(*self),
    {
        append_str_chars(out, "{\"isCharging\":");
        append_bool(out, self.is_charging);
        append_str_chars(out, ",\"isDocked\":");
        append_bool(out, self.is_docked);
        append_str_chars(out, ",\"isScheduleEnabled\":");
        append_bool(out, self.is_schedule_enabled);
        append_str_chars(out, ",\"dockHasBeenSeen\":");
        append_bool(out, self.dock_has_been_seen);
        append_str_chars(out, ",\"charge\":");
        append_dec_i8(out, self.charge);
        append_str_chars(out, "}");
        proof {
            assert(out@ =~= old(out)@ + details_json(*self));
        }
    }
}

impl NeatoState {
    /// Append this snapshot's JSON rendering to `out`.
    fn append_json(&self, out: &mut Vec<char>)
        ensures
            final(out)@ == old(out)@ + neato_state_json(*self),
    {
        append_str_chars(out, "{\"alert\":");
        append_json_string_opt(out, &self.alert);
        append_str_chars(out, ",\"error\":");
        append_json_string_opt(out, &self.error);
        append_str_chars(out, ",\"details\":");
        self.details.append_json(out);
        append_str_chars(out, ",\"state\":");
        append_dec_u32(out, self.state.code() as u32);
        append_str_chars(out, ",\"action\":");
        append_dec_u32(out, self.action.code() as u32);
        append_str_chars(out, "}");
        proof {
            assert(out@ =~= old(out)@ + neato_state_json(*self));
        }
    }

    /// An equal snapshot, built field by field.
    pub fn duplicate(&self) -> (r: NeatoState)
        ensures
            r == *self,
    {
        NeatoState {
            alert: match &self.alert {
                Some(a) => Some(a.clone()),
                None => None,
            },
            error: match &self.error {
                Some(e) => Some(e.clone()),
                None => None,
            },
            details: self.details,
            state: self.state,
            action: self.action,
        }
    }
}

impl Robot {
    /// The redacted projection for publication: every field of the robot but
    /// `secret_key`, unchanged.
    pub fn to_public(&self) -> (r: PublicRobot)
        ensures
            r.mac_address == self.mac_address,
            r.model == self.model,
            r.name == self.name,
            r.nucleo_url == self.nucleo_url,
            r.serial == self.serial,
            r.state == self.state,
    {
        PublicRobot {
            mac_address: self.mac_address.clone(),
            model: self.model.clone(),
            name: self.name.clone(),
            nucleo_url: self.nucleo_url.clone(),
            serial: self.serial.clone(),
            state: match &self.state {
                Some(s) => Some(s.duplicate()),
                None => None,
            },
        }
    }
}

impl PublicRobot {
    /// The JSON text published on the bus for this robot.
    pub fn to_json(&self) -> (r: String)
        ensures
            r@ == public_robot_json(*self),
    {
        let mut out: Vec<char> = Vec::new();
        append_str_chars(&mut out, "{\"mac_address\":");
        append_json_string(&mut out, self.mac_address.as_str());
        append_str_chars(&mut out, ",\"model\":");
        append_json_string(&mut out, self.model.as_str());
        append_str_chars(&mut out, ",\"name\":");
        append_json_string(&mut out, self.name.as_str());
        append_str_chars(&mut out, ",\"nucleo_url\":");
        append_json_string(&mut out, self.nucleo_url.as_str());
        append_str_chars(&mut out, ",\"serial\":");
        append_json_string(&mut out, self.serial.as_str());
        append_str_chars(&mut out, ",\"state\":");
        match &self.state {
            Some(s) => s.append_json(&mut out),
            None => append_str_chars(&mut out, "null"),
        }
        append_str_chars(&mut out, "}");
        proof {
            assert(out@ =~= public_robot_json(*self));
        }
        chars_to_string(&out)
    }
}

} // verus!
