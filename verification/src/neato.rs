use vstd::prelude::*;
use vstd::string::*;
use hmac::Mac;
use crate::json::{
    append_dec_u32, append_json_string, append_str_chars, chars_to_string, dec_chars, hex_digit,
    json_string,
};
use crate::mqtt::{find_marker_spec, substituted_at, SendAction, TopicError};
use crate::neato_types::{
    public_robot_json, HouseCleaningParams, NeatoState, PublicRobot, Robot, RobotMessage,
};

verus! {

/// A command addressed to one robot.  Only `StartCleaning` carries
/// parameters, and they are fixed; `GetRobotState` is a pure observation.
#[derive(Clone, Copy, PartialEq, Eq, Structural, Debug)]
pub enum RobotCmd {
    StartCleaning,
    StopCleaning,
    PauseCleaning,
    ResumeCleaning,
    SendToBase,
    GetRobotState,
}

/// The exact wire name of a command, camel-cased.
pub open spec fn cmd_name(c: RobotCmd) -> Seq<char> {
    match c {
        RobotCmd::StartCleaning => "startCleaning"@,
        RobotCmd::StopCleaning => "stopCleaning"@,
        RobotCmd::PauseCleaning => "pauseCleaning"@,
        RobotCmd::ResumeCleaning => "resumeCleaning"@,
        RobotCmd::SendToBase => "sendToBase"@,
        RobotCmd::GetRobotState => "getRobotState"@,
    }
}

impl RobotCmd {
    /// The wire name of this command.
    pub fn cmd_str(&self) -> (r: String)
        ensures
            r@ == cmd_name(*self),
    {
        match self {
            RobotCmd::StartCleaning => String::from_str("startCleaning"),
            RobotCmd::StopCleaning => String::from_str("stopCleaning"),
            RobotCmd::PauseCleaning => String::from_str("pauseCleaning"),
            RobotCmd::ResumeCleaning => String::from_str("resumeCleaning"),
            RobotCmd::SendToBase => String::from_str("sendToBase"),
            RobotCmd::GetRobotState => String::from_str("getRobotState"),
        }
    }

    /// The command a wire name stands for, if any: the exact inverse of
    /// `cmd_str` on the six command names, `None` on every other string.
    pub fn from_name(s: &str) -> (r: Option<RobotCmd>)
        ensures
            match r {
                Some(c) => s@ == cmd_name(c),
                None => forall|c: RobotCmd| s@ != cmd_name(c),
            },
    {
        let candidates: [RobotCmd; 6] = [
            RobotCmd::StartCleaning,
            RobotCmd::StopCleaning,
            RobotCmd::PauseCleaning,
            RobotCmd::ResumeCleaning,
            RobotCmd::SendToBase,
            RobotCmd::GetRobotState,
        ];
        let mut k: usize = 0;
        while k < 6
            invariant
                k <= 6,
                candidates@.len() == 6,
                candidates@[0] == RobotCmd::StartCleaning,
                candidates@[1] == RobotCmd::StopCleaning,
                candidates@[2] == RobotCmd::PauseCleaning,
                candidates@[3] == RobotCmd::ResumeCleaning,
                candidates@[4] == RobotCmd::SendToBase,
                candidates@[5] == RobotCmd::GetRobotState,
                forall|j: int| 0 <= j < k ==> s@ != cmd_name(#[trigger] candidates@[j]),
            decreases 6 - k,
        {
            let c: RobotCmd = candidates[k];
            let name: String = c.cmd_str();
            if str_eq(s, name.as_str()) {
                return Some(c);
            }
            k += 1;
        }
        proof {
            assert forall|c: RobotCmd| s@ != cmd_name(c) by {
                assert(c == candidates@[0] || c == candidates@[1] || c == candidates@[2] || c
                    == candidates@[3] || c == candidates@[4] || c == candidates@[5]);
            }
        }
        None
    }

    /// The request body for this command: request id `"77"`, the wire name,
    /// and — for `StartCleaning` only — the fixed cleaning parameters
    /// (category 4, eco mode, extra-care navigation).
    pub fn build_robot_message(&self) -> (r: RobotMessage)
        ensures
            r.req_id@ == "77"@,
            r.cmd@ == cmd_name(*self),
            match r.params {
                Some(p) => *self == RobotCmd::StartCleaning && p.category == 4 && p.mode == 1
                    && p.navigation_mode == 2,
                None => *self != RobotCmd::StartCleaning,
            },
    {
        match self {
            RobotCmd::StartCleaning => RobotMessage {
                req_id: String::from_str("77"),
                cmd: String::from_str("startCleaning"),
                params: Some(
                    HouseCleaningParams { category: 4, mode: 1, navigation_mode: 2 },
                ),
            },
            other => RobotMessage { req_id: String::from_str("77"), cmd: other.cmd_str(), params: None },
        }
    }
}

/// The name a command goes by on the bus, as inbound payloads spell it:
/// the plain variant name, distinct from the camel-cased cloud wire name.
pub open spec fn action_name(c: RobotCmd) -> Seq<char> {
    match c {
        RobotCmd::StartCleaning => "StartCleaning"@,
        RobotCmd::StopCleaning => "StopCleaning"@,
        RobotCmd::PauseCleaning => "PauseCleaning"@,
        RobotCmd::ResumeCleaning => "ResumeCleaning"@,
        RobotCmd::SendToBase => "SendToBase"@,
        RobotCmd::GetRobotState => "GetRobotState"@,
    }
}

/// The command a bus action name stands for: the inverse of `action_name`.
pub open spec fn cmd_of_action_name(name: Seq<char>) -> Option<RobotCmd> {
    if name == action_name(RobotCmd::StartCleaning) {
        Some(RobotCmd::StartCleaning)
    } else if name == action_name(RobotCmd::StopCleaning) {
        Some(RobotCmd::StopCleaning)
    } else if name == action_name(RobotCmd::PauseCleaning) {
        Some(RobotCmd::PauseCleaning)
    } else if name == action_name(RobotCmd::ResumeCleaning) {
        Some(RobotCmd::ResumeCleaning)
    } else if name == action_name(RobotCmd::SendToBase) {
        Some(RobotCmd::SendToBase)
    } else if name == action_name(RobotCmd::GetRobotState) {
        Some(RobotCmd::GetRobotState)
    } else {
        None
    }
}

impl RobotCmd {
    /// The command a bus action name stands for, if any: the six variant
    /// names exactly, every other string refused.
    pub fn from_action_name(s: &str) -> (r: Option<RobotCmd>)
        ensures
            r == cmd_of_action_name(s@),
    {
        if str_eq(s, "StartCleaning") {
            Some(RobotCmd::StartCleaning)
        } else if str_eq(s, "StopCleaning") {
            Some(RobotCmd::StopCleaning)
        } else if str_eq(s, "PauseCleaning") {
            Some(RobotCmd::PauseCleaning)
        } else if str_eq(s, "ResumeCleaning") {
            Some(RobotCmd::ResumeCleaning)
        } else if str_eq(s, "SendToBase") {
            Some(RobotCmd::SendToBase)
        } else if str_eq(s, "GetRobotState") {
            Some(RobotCmd::GetRobotState)
        } else {
            None
        }
    }
}

/// The two strings hold the same characters.
fn str_eq(a: &str, b: &str) -> (r: bool)
    ensures
        r <==> a@ == b@,
{
    let na: usize = a.unicode_len();
    let nb: usize = b.unicode_len();
    if na != nb {
        return false;
    }
    let mut k: usize = 0;
    while k < na
        invariant
            na == a@.len(),
            nb == b@.len(),
            na == nb,
            k <= na,
            forall|j: int| 0 <= j < k ==> #[trigger] a@[j] == b@[j],
        decreases na - k,
    {
        if a.get_char(k) != b.get_char(k) {
            return false;
        }
        k += 1;
    }
    proof {
        assert(a@ =~= b@);
    }
    true
}

/// The JSON rendering of the optional cleaning parameters.
pub open spec fn params_json(p: Option<HouseCleaningParams>) -> Seq<char> {
    match p {
        Some(hp) => "{\"category\":"@ + dec_chars(hp.category as int) + ",\"mode\":"@ + dec_chars(
            hp.mode as int,
        ) + ",\"navigationMode\":"@ + dec_chars(hp.navigation_mode as int) + "}"@,
        None => "null"@,
    }
}

/// The canonical JSON rendering of a request body.  The signature covers
/// this text byte for byte, so its shape is fixed: `reqId`, then `cmd`,
/// then `params`.
pub open spec fn robot_message_json(m: RobotMessage) -> Seq<char> {
    "{\"reqId\":"@ + json_string(m.req_id@) + ",\"cmd\":"@ + json_string(m.cmd@) + ",\"params\":"@
        + params_json(m.params) + "}"@
}

impl RobotMessage {
    /// The canonical JSON text of this request body.
    pub fn to_json(&self) -> (r: String)
        ensures
            r@ == robot_message_json(*self),
    {
        let mut out: Vec<char> = Vec::new();
        append_str_chars(&mut out, "{\"reqId\":");
        append_json_string(&mut out, self.req_id.as_str());
        append_str_chars(&mut out, ",\"cmd\":");
        append_json_string(&mut out, self.cmd.as_str());
        append_str_chars(&mut out, ",\"params\":");
        match &self.params {
            Some(p) => {
                append_str_chars(&mut out, "{\"category\":");
                append_dec_u32(&mut out, p.category);
                append_str_chars(&mut out, ",\"mode\":");
                append_dec_u32(&mut out, p.mode);
                append_str_chars(&mut out, ",\"navigationMode\":");
                append_dec_u32(&mut out, p.navigation_mode);
                append_str_chars(&mut out, "}");
            },
            None => append_str_chars(&mut out, "null"),
        }
        append_str_chars(&mut out, "}");
        proof {
            assert(out@ =~= robot_message_json(*self));
        }
        chars_to_string(&out)
    }
}

/// The canonical request body text for a command.
pub open spec fn command_body(c: RobotCmd) -> Seq<char> {
    "{\"reqId\":"@ + json_string("77"@) + ",\"cmd\":"@ + json_string(cmd_name(c)) + ",\"params\":"@
        + (if c == RobotCmd::StartCleaning {
        "{\"category\":"@ + dec_chars(4) + ",\"mode\":"@ + dec_chars(1) + ",\"navigationMode\":"@
            + dec_chars(2) + "}"@
    } else {
        "null"@
    }) + "}"@
}

/// The lowercase hexadecimal rendering of a byte string, two digits per
/// byte, most significant digit first.
pub open spec fn hex_of(b: Seq<u8>) -> Seq<char>
    decreases b.len(),
{
    if b.len() == 0 {
        Seq::<char>::empty()
    } else {
        hex_of(b.drop_last()) + seq![
            hex_digit(b.last() as int / 16),
            hex_digit(b.last() as int % 16),
        ]
    }
}

/// What `str::to_lowercase` returns for a string: a function of its
/// characters alone.
pub uninterp spec fn lower_of(s: Seq<char>) -> Seq<char>;

/// What HMAC-SHA256 yields for a key string and a message string, both
/// taken as their UTF-8 bytes: a function of the two strings alone.
pub uninterp spec fn hmac_sha256(key: Seq<char>, msg: Seq<char>) -> Seq<u8>;

/// What the RFC 1123 date line (`%a, %d %b %Y %H:%M:%S GMT`) is for a
/// second of the Unix epoch: a function of the timestamp alone.
pub uninterp spec fn rfc1123_of(ts: i64) -> Seq<char>;

/// Relies on `str::to_lowercase`: the result depends on the characters of
/// the input alone.
#[verifier::external_body]
fn lowercase(s: &str) -> (r: String)
    ensures
        r@ == lower_of(s@),
        s@.len() == 0 ==> r@.len() == 0,
{
    s.to_lowercase()
}

/// Relies on hmac's `Hmac<sha2::Sha256>`: the HMAC-SHA256 tag of the UTF-8
/// bytes of `msg` under the UTF-8 bytes of `key`, 32 bytes long.
/// `Hmac::new_from_slice` accepts a key of any length, so it cannot fail.
#[verifier::external_body]
fn hmac_sha256_tag(key: &str, msg: &str) -> (r: Vec<u8>)
    ensures
        r@ == hmac_sha256(key@, msg@),
        r@.len() == 32,
{
    let mut mac = <hmac::Hmac<sha2::Sha256>>::new_from_slice(key.as_bytes())
        .expect("HMAC accepts a key of any length");
    mac.update(msg.as_bytes());
    mac.finalize().into_bytes().to_vec()
}

/// Relies on `hex::encode`: the lowercase hexadecimal digits of the bytes,
/// two per byte, most significant first.
#[verifier::external_body]
fn hex_encode(b: &Vec<u8>) -> (r: String)
    ensures
        r@ == hex_of(b@),
{
    hex::encode(b.as_slice())
}

/// The last second the date formatter is asked to name: the end of year
/// 9999, beyond which the cloud's date header has no defined shape here.
pub const MAX_DATE_TS: i64 = 253402300799;

/// Relies on chrono's `Utc::now`: the wall clock as seconds since the Unix
/// epoch.  Nothing is promised of the value; callers must cope with every
/// outcome.
#[verifier::external_body]
fn now_timestamp() -> (r: i64) {
    chrono::Utc::now().timestamp()
}

/// Relies on chrono's date formatting: the RFC 1123 date line for the given
/// epoch second, a function of the timestamp alone.  `from_timestamp` is
/// `Some` for every second up to the end of year 9999.
#[verifier::external_body]
fn format_rfc1123(ts: i64) -> (r: String)
    requires
        0 <= ts <= MAX_DATE_TS,
    ensures
        r@ == rfc1123_of(ts),
{
    let dt = chrono::DateTime::<chrono::Utc>::from_timestamp(ts, 0)
        .expect("timestamp is within range");
    dt.format("%a, %d %b %Y %H:%M:%S GMT").to_string()
}

/// The RFC 1123 date line for an epoch second, or `None` outside the
/// representable range.
pub fn date_line(ts: i64) -> (r: Option<String>)
    ensures
        match r {
            Some(d) => 0 <= ts <= MAX_DATE_TS && d@ == rfc1123_of(ts),
            None => !(0 <= ts <= MAX_DATE_TS),
        },
{
    if 0 <= ts && ts <= MAX_DATE_TS {
        Some(format_rfc1123(ts))
    } else {
        None
    }
}

/// The RFC 1123 date line for the present moment, read from the wall
/// clock, or `None` if the clock is outside the representable range.
pub fn current_date() -> (r: Option<String>)
    ensures
        match r {
            Some(d) => exists|ts: i64| 0 <= ts && d@ == rfc1123_of(ts),
            None => true,
        },
{
    let ts: i64 = now_timestamp();
    match date_line(ts) {
        Some(d) => {
            proof {
                assert(0 <= ts && d@ == rfc1123_of(ts));
            }
            Some(d)
        },
        None => None,
    }
}

/// The body of the cloud session request: the credentials as a JSON
/// object, `email` first.
pub open spec fn auth_body_json(email: Seq<char>, password: Seq<char>) -> Seq<char> {
    "{\"email\":"@ + json_string(email) + ",\"password\":"@ + json_string(password) + "}"@
}

/// Render the session-request body for the given credentials.
pub fn build_auth_body(email: &str, password: &str) -> (r: String)
    ensures
        r@ == auth_body_json(email@, password@),
{
    let mut out: Vec<char> = Vec::new();
    append_str_chars(&mut out, "{\"email\":");
    append_json_string(&mut out, email);
    append_str_chars(&mut out, ",\"password\":");
    append_json_string(&mut out, password);
    append_str_chars(&mut out, "}");
    proof {
        assert(out@ =~= auth_body_json(email@, password@));
    }
    chars_to_string(&out)
}

/// The string the signature is computed over: the lower-cased serial, the
/// date line and the canonical body, joined by newlines.
pub open spec fn string_to_sign(serial_lower: Seq<char>, date: Seq<char>, body: Seq<char>) -> Seq<
    char,
> {
    serial_lower + "\n"@ + date + "\n"@ + body
}

/// The hexadecimal signature of a command for a robot on a date: HMAC-SHA256
/// under the robot's secret key over the string to sign.
pub open spec fn signature_of(
    secret: Seq<char>,
    serial: Seq<char>,
    date: Seq<char>,
    c: RobotCmd,
) -> Seq<char> {
    hex_of(hmac_sha256(secret, string_to_sign(lower_of(serial), date, command_body(c))))
}

/// The cloud endpoint a robot's commands are posted to.
pub open spec fn message_url(nucleo_url: Seq<char>, serial: Seq<char>) -> Seq<char> {
    nucleo_url + "/vendors/neato/robots/"@ + serial + "/messages"@
}

/// One fully signed command request, ready to be posted: the endpoint, the
/// date header, the `NEATOAPP` signature and the exact body the signature
/// covers.  The signature is bound to this date and body and must never be
/// reused for another request.
#[derive(Debug)]
pub struct SignedRequest {
    pub url: String,
    pub date: String,
    pub signature: String,
    pub body: String,
}

impl SignedRequest {
    /// The value of the request's `Authorization` header.
    pub fn auth_header(&self) -> (r: String)
        ensures
            r@ == "NEATOAPP "@ + self.signature@,
    {
        let mut h: String = String::from_str("NEATOAPP ");
        h.append(self.signature.as_str());
        h
    }
}

/// Build the signed request that sends `cmd` to `robot` on the given date
/// line, per the vendor's signing scheme: the canonical body is rendered,
/// the string to sign is the lower-cased serial, the date and the body
/// joined by newlines, and the signature is the hexadecimal HMAC-SHA256 tag
/// of that string under the robot's secret key.  Deterministic in
/// `(robot, cmd, date)`.
pub fn build_signed_request(robot: &Robot, cmd: &RobotCmd, date: &str) -> (r: SignedRequest)
    ensures
        r.url@ == message_url(robot.nucleo_url@, robot.serial@),
        r.date@ == date@,
        r.body@ == command_body(*cmd),
        r.signature@ == signature_of(robot.secret_key@, robot.serial@, date@, *cmd),
{
    let message: RobotMessage = cmd.build_robot_message();
    let body: String = message.to_json();
    proof {
        assert(robot_message_json(message) =~= command_body(*cmd));
    }
    let serial_lower: String = lowercase(robot.serial.as_str());
    let mut sts: String = serial_lower;
    sts.append("\n");
    sts.append(date);
    sts.append("\n");
    sts.append(body.as_str());
    proof {
        assert(sts@ =~= string_to_sign(lower_of(robot.serial@), date@, command_body(*cmd)));
    }
    let tag: Vec<u8> = hmac_sha256_tag(robot.secret_key.as_str(), sts.as_str());
    let signature: String = hex_encode(&tag);
    let mut url: String = robot.nucleo_url.clone();
    url.append("/vendors/neato/robots/");
    url.append(robot.serial.as_str());
    url.append("/messages");
    proof {
        assert(url@ =~= message_url(robot.nucleo_url@, robot.serial@));
    }
    SignedRequest { url, date: String::from_str(date), signature, body }
}

/// The Signing Protocol is deterministic: equal secret, serial, date and
/// command always yield the same signature.  (That a different date yields
/// a different signature is a cryptographic expectation, not a provable
/// one.)
pub proof fn lemma_signing_deterministic(
    secret1: Seq<char>,
    serial1: Seq<char>,
    date1: Seq<char>,
    c1: RobotCmd,
    secret2: Seq<char>,
    serial2: Seq<char>,
    date2: Seq<char>,
    c2: RobotCmd,
)
    requires
        secret1 == secret2,
        serial1 == serial2,
        date1 == date2,
        c1 == c2,
    ensures
        signature_of(secret1, serial1, date1, c1) == signature_of(secret2, serial2, date2, c2),
{
}

/// Position of the first robot named `name` in `robots`, at or after `i`.
pub open spec fn find_robot_from(robots: Seq<Robot>, name: Seq<char>, i: int) -> Option<int>
    decreases robots.len() - i,
{
    if i < 0 || i >= robots.len() {
        None
    } else if robots[i].name@ == name {
        Some(i)
    } else {
        find_robot_from(robots, name, i + 1)
    }
}

/// A found robot position lies inside the collection and carries the name.
pub proof fn lemma_find_robot_from_some(robots: Seq<Robot>, name: Seq<char>, i: int, pos: int)
    requires
        find_robot_from(robots, name, i) == Some(pos),
    ensures
        0 <= pos < robots.len(),
        robots[pos].name@ == name,
    decreases robots.len() - i,
{
    if i < 0 || i >= robots.len() {
    } else if robots[i].name@ == name {
    } else {
        lemma_find_robot_from_some(robots, name, i + 1, pos);
    }
}

/// The redacted projection of a robot, as a value.
pub open spec fn public_view(r: Robot) -> PublicRobot {
    PublicRobot {
        mac_address: r.mac_address,
        model: r.model,
        name: r.name,
        nucleo_url: r.nucleo_url,
        serial: r.serial,
        state: r.state,
    }
}

/// The shared collection of known robots: the single source of truth for
/// what the bridge currently knows.  Filled once from the cloud fleet
/// listing; afterwards only each robot's `state` field mutates, during
/// refresh.
pub struct Registry {
    pub robots: Vec<Robot>,
}

/// What is published for one robot on one tick: the device topic and the
/// redacted JSON payload.
pub struct PublishPlan {
    pub topic: String,
    pub payload: String,
}

impl Registry {
    /// Install the fleet, replacing whatever was known.
    pub fn initialize(robots: Vec<Robot>) -> (r: Registry)
        ensures
            r.robots@ == robots@,
    {
        Registry { robots }
    }

    /// How many robots are known.
    pub fn len(&self) -> (n: usize)
        ensures
            n == self.robots@.len(),
    {
        self.robots.len()
    }

    /// The position of the first robot with the given name, or `None` when
    /// no robot carries it.
    pub fn find(&self, name: &String) -> (r: Option<usize>)
        ensures
            match r {
                Some(i) => find_robot_from(self.robots@, name@, 0) == Some(i as int),
                None => find_robot_from(self.robots@, name@, 0) is None,
            },
    {
        let n: usize = self.robots.len();
        let mut k: usize = 0;
        while k < n
            invariant
                n == self.robots@.len(),
                k <= n,
                find_robot_from(self.robots@, name@, 0) == find_robot_from(
                    self.robots@,
                    name@,
                    k as int,
                ),
            decreases n - k,
        {
            if str_eq(self.robots[k].name.as_str(), name.as_str()) {
                return Some(k);
            }
            k += 1;
        }
        None
    }

    /// Replace the state snapshot of the robot at position `i`, leaving its
    /// identity fields and every other robot untouched.
    pub fn set_state(&mut self, i: usize, state: NeatoState)
        requires
            i < old(self).robots@.len(),
        ensures
            final(self).robots@.len() == old(self).robots@.len(),
            final(self).robots@[i as int].mac_address == old(self).robots@[i as int].mac_address,
            final(self).robots@[i as int].model == old(self).robots@[i as int].model,
            final(self).robots@[i as int].name == old(self).robots@[i as int].name,
            final(self).robots@[i as int].nucleo_url == old(self).robots@[i as int].nucleo_url,
            final(self).robots@[i as int].secret_key == old(self).robots@[i as int].secret_key,
            final(self).robots@[i as int].serial == old(self).robots@[i as int].serial,
            final(self).robots@[i as int].state == Some(state),
            forall|j: int|
                0 <= j < old(self).robots@.len() && j != i ==> final(self).robots@[j] == old(
                    self,
                ).robots@[j],
    {
        let r: Robot = self.robots.remove(i);
        let updated: Robot = Robot {
            mac_address: r.mac_address,
            model: r.model,
            name: r.name,
            nucleo_url: r.nucleo_url,
            secret_key: r.secret_key,
            serial: r.serial,
            state: Some(state),
        };
        self.robots.insert(i, updated);
        proof {
            assert forall|j: int|
                0 <= j < old(self).robots@.len() && j != i implies final(self).robots@[j] == old(
                self,
            ).robots@[j] by {}
        }
    }

    /// What one polling tick publishes: for every robot, its device topic —
    /// the identifier substituted into the template — and the redacted JSON
    /// of its current record.  Fails only when the template holds no
    /// placeholder.
    pub fn publish_plans(&self, topic_template: &str) -> (r: Result<Vec<PublishPlan>, TopicError>)
        ensures
            match find_marker_spec(topic_template@, 0) {
                None => r == Err::<Vec<PublishPlan>, TopicError>(TopicError::MissingPlaceholder),
                Some(pos) => match r {
                    Ok(plans) => plans@.len() == self.robots@.len() && forall|j: int|
                        0 <= j < plans@.len() ==> (#[trigger] plans@[j].topic@ == substituted_at(
                            topic_template@,
                            pos,
                            self.robots@[j].name@,
                        ) && plans@[j].payload@ == public_robot_json(public_view(self.robots@[j]))),
                    Err(_) => false,
                },
            },
    {
        if !crate::mqtt::has_placeholder(topic_template) {
            return Err(TopicError::MissingPlaceholder);
        }
        let n: usize = self.robots.len();
        let mut plans: Vec<PublishPlan> = Vec::new();
        let mut k: usize = 0;
        while k < n
            invariant
                n == self.robots@.len(),
                k <= n,
                plans@.len() == k,
                find_marker_spec(topic_template@, 0) matches Some(pos) ==> forall|j: int|
                    0 <= j < k ==> (#[trigger] plans@[j].topic@ == substituted_at(
                        topic_template@,
                        pos,
                        self.robots@[j].name@,
                    ) && plans@[j].payload@ == public_robot_json(public_view(self.robots@[j]))),
            decreases n - k,
        {
            let robot: &Robot = &self.robots[k];
            let topic: String = match crate::mqtt::substitute_id(
                topic_template,
                robot.name.as_str(),
            ) {
                Ok(t) => t,
                Err(e) => {
                    return Err(e);
                },
            };
            let public: PublicRobot = robot.to_public();
            proof {
                assert(public == public_view(self.robots@[k as int]));
            }
            let payload: String = public.to_json();
            plans.push(PublishPlan { topic, payload });
            k += 1;
        }
        Ok(plans)
    }
}

/// A refresh is due: either none has happened yet, or the cache window has
/// elapsed since the last one.
pub open spec fn refresh_due(last: Option<i64>, now: i64, cache_timeout: u16) -> bool {
    match last {
        None => true,
        Some(t) => now - t >= cache_timeout,
    }
}

/// What one refresh trigger does: run a refresh, skip because the state is
/// still fresh, or skip because another refresh is already in flight.
#[derive(Clone, Copy, PartialEq, Eq, Structural, Debug)]
pub enum RefreshDecision {
    Refresh,
    SkipFresh,
    SkipBusy,
}

/// The refresh coordinator's own record: when the last full refresh
/// finished.  Held behind a non-blocking exclusive guard, so that a trigger
/// arriving while a refresh runs no-ops instead of queueing.
pub struct RefreshThrottle {
    pub last_refresh: Option<i64>,
}

impl RefreshThrottle {
    /// No refresh has happened yet.
    pub fn new() -> (r: RefreshThrottle)
        ensures
            r.last_refresh is None,
    {
        RefreshThrottle { last_refresh: None }
    }

    /// Decide one trigger.  `acquired` says whether the caller won the
    /// non-blocking exclusive guard: a loser skips at once (single-flight);
    /// a winner refreshes exactly when the cache window has elapsed.
    pub fn decide(&self, acquired: bool, now: i64, cache_timeout: u16) -> (r: RefreshDecision)
        ensures
            !acquired ==> r == RefreshDecision::SkipBusy,
            acquired ==> r == (if refresh_due(self.last_refresh, now, cache_timeout) {
                RefreshDecision::Refresh
            } else {
                RefreshDecision::SkipFresh
            }),
    {
        if !acquired {
            return RefreshDecision::SkipBusy;
        }
        match self.last_refresh {
            None => RefreshDecision::Refresh,
            Some(t) => {
                let elapsed: i128 = now as i128 - t as i128;
                if elapsed >= cache_timeout as i128 {
                    RefreshDecision::Refresh
                } else {
                    RefreshDecision::SkipFresh
                }
            },
        }
    }

    /// Record that a full refresh finished at `now`.
    pub fn record(&mut self, now: i64)
        ensures
            final(self).last_refresh == Some(now),
    {
        self.last_refresh = Some(now);
    }
}

/// Throttling of back-to-back refreshes: once a refresh runs at `t1` and is
/// recorded, a second trigger at `t2` within the cache window is skipped —
/// at most one underlying fetch per robot — while a trigger after the
/// window has elapsed refreshes again.
pub proof fn lemma_refresh_throttle(last: Option<i64>, t1: i64, t2: i64, cache_timeout: u16)
    requires
        refresh_due(last, t1, cache_timeout),
    ensures
        t2 - t1 < cache_timeout ==> !refresh_due(Some(t1), t2, cache_timeout),
        t2 - t1 >= cache_timeout ==> refresh_due(Some(t1), t2, cache_timeout),
{
}

/// What the command relay does with one pending dispatch.
#[derive(Debug)]
pub enum RelayPlan {
    /// A state query is ignored: observation is the polling loop's job
    /// alone, never a relayed command's.
    IgnoreStateQuery,
    /// No robot carries the named identifier: the command is dropped and
    /// the relay keeps serving.
    UnknownDevice,
    /// Dry-run mode: the command is only logged, nothing is sent.
    DryRun { robot_index: usize },
    /// Dispatch: post the signed request for the robot at `robot_index`.
    Send { robot_index: usize, request: SignedRequest },
}

/// Decide one pending dispatch.  A `GetRobotState` command never reaches the
/// cloud from here; an unknown device identifier drops the command; dry-run
/// mode stops short of building traffic for the wire; otherwise the signed
/// request for the resolved robot is built for the given date line.
pub fn plan_relay(registry: &Registry, msg: &SendAction, dry_run: bool, date: &str) -> (r:
    RelayPlan)
    ensures
        msg.action == RobotCmd::GetRobotState ==> r matches RelayPlan::IgnoreStateQuery,
        msg.action != RobotCmd::GetRobotState ==> match find_robot_from(
            registry.robots@,
            msg.id@,
            0,
        ) {
            None => r matches RelayPlan::UnknownDevice,
            Some(i) => {
                let robot = registry.robots@[i];
                if dry_run {
                    r matches RelayPlan::DryRun { robot_index } && robot_index == i
                } else {
                    r matches RelayPlan::Send { robot_index, request } && robot_index == i
                        && request.url@ == message_url(robot.nucleo_url@, robot.serial@)
                        && request.date@ == date@ && request.body@ == command_body(msg.action)
                        && request.signature@ == signature_of(
                        robot.secret_key@,
                        robot.serial@,
                        date@,
                        msg.action,
                    )
                }
            },
        },
{
    if matches!(msg.action, RobotCmd::GetRobotState) {
        return RelayPlan::IgnoreStateQuery;
    }
    let i: usize = match registry.find(&msg.id) {
        Some(i) => i,
        None => {
            return RelayPlan::UnknownDevice;
        },
    };
    proof {
        lemma_find_robot_from_some(registry.robots@, msg.id@, 0, i as int);
    }
    if dry_run {
        return RelayPlan::DryRun { robot_index: i };
    }
    let request: SignedRequest = build_signed_request(&registry.robots[i], &msg.action, date);
    RelayPlan::Send { robot_index: i, request }
}

} // verus!
