use vstd::prelude::*;
use vstd::string::*;
use crate::neato::RobotCmd;

verus! {

/// The payload of an inbound `set` message: the command to apply.
#[derive(Clone, Debug)]
pub struct MqttSetMessage {
    pub action: RobotCmd,
}

/// One pending dispatch: a command addressed to the device that the
/// incoming topic named.  Ferried through the command mailbox; superseded by
/// the next value, never queued.
#[derive(Clone, Debug)]
pub struct SendAction {
    pub id: String,
    pub action: RobotCmd,
}

/// The single-slot command mailbox: the carrier between the subscription
/// path and the dispatch path.  `set` overwrites the slot and bumps the
/// generation; a waiter that saw generation `g` is woken exactly when the
/// generation has moved past `g`, and then reads the current value — the
/// latest value wins, earlier ones are never replayed.
pub struct CommandMailbox {
    pub slot: Option<SendAction>,
    pub generation: u64,
}

/// The mailbox after one `set`: the new value in the slot, the generation
/// advanced by one.
pub open spec fn after_set(m: CommandMailbox, v: Option<SendAction>) -> CommandMailbox {
    CommandMailbox { slot: v, generation: (m.generation + 1) as u64 }
}

impl CommandMailbox {
    /// An empty mailbox: nothing pending yet.
    pub fn new() -> (r: CommandMailbox)
        ensures
            r.slot is None,
            r.generation == 0,
    {
        CommandMailbox { slot: None, generation: 0 }
    }

    /// Overwrite the slot with `v`.  Whatever was there before is gone: a
    /// waiter that has not read yet will only ever see the newest value.
    pub fn set(&mut self, v: Option<SendAction>)
        requires
            old(self).generation < u64::MAX,
        ensures
            *final(self) == after_set(*old(self), v),
    {
        self.slot = v;
        self.generation = self.generation + 1;
    }

    /// Has the slot changed since a waiter last saw generation `last_seen`?
    pub fn changed(&self, last_seen: u64) -> (r: bool)
        ensures
            r <==> self.generation != last_seen,
    {
        self.generation != last_seen
    }

    /// The current slot value.
    pub fn current(&self) -> (r: &Option<SendAction>)
        ensures
            *r == self.slot,
    {
        &self.slot
    }

    /// The current generation, for a waiter to remember.
    pub fn generation(&self) -> (r: u64)
        ensures
            r == self.generation,
    {
        self.generation
    }
}

/// Latest value wins: if three values are sent before a waiter reads, the
/// slot holds only the third — the first two can never be observed.
pub proof fn lemma_latest_value_wins(
    m: CommandMailbox,
    v1: Option<SendAction>,
    v2: Option<SendAction>,
    v3: Option<SendAction>,
)
    ensures
        after_set(after_set(after_set(m, v1), v2), v3).slot == v3,
{
}

/// Errors of the topic-addressing scheme.
///
/// `MissingPlaceholder` is a configuration fault: the topic template holds no
/// `{id}` marker, so no device identifier can ever be substituted or
/// recovered.  `MalformedTopic` is a runtime fault: a concrete topic does not
/// start with the template's prefix or does not end with its suffix.
#[derive(Clone, Copy, PartialEq, Eq, Structural, Debug)]
pub enum TopicError {
    MissingPlaceholder,
    MalformedTopic,
}

/// The placeholder marker `{id}` stands at position `i` of `t`.
pub open spec fn marker_at(t: Seq<char>, i: int) -> bool {
    0 <= i && i + 4 <= t.len() && t.subrange(i, i + 4) == "{id}"@
}

/// Position of the first `{id}` marker of `t` at or after `i`, if any.
pub open spec fn find_marker_spec(t: Seq<char>, i: int) -> Option<int>
    decreases t.len() - i,
{
    if i < 0 || i + 4 > t.len() {
        None
    } else if marker_at(t, i) {
        Some(i)
    } else {
        find_marker_spec(t, i + 1)
    }
}

/// A found marker position really carries a marker, and lies at or after the
/// start of the search.
pub proof fn lemma_find_marker_spec_some(t: Seq<char>, i: int, pos: int)
    requires
        find_marker_spec(t, i) == Some(pos),
    ensures
        marker_at(t, pos),
        i <= pos,
    decreases t.len() - i,
{
    if i < 0 || i + 4 > t.len() {
    } else if marker_at(t, i) {
    } else {
        lemma_find_marker_spec_some(t, i + 1, pos);
    }
}

/// The template's prefix: what stands before the marker at `pos`.
pub open spec fn prefix_at(t: Seq<char>, pos: int) -> Seq<char> {
    t.subrange(0, pos)
}

/// The template's suffix: what stands after the marker at `pos`.
pub open spec fn suffix_at(t: Seq<char>, pos: int) -> Seq<char> {
    t.subrange(pos + 4, t.len() as int)
}

/// The concrete topic built by substituting `id` for the marker at `pos`.
pub open spec fn substituted_at(t: Seq<char>, pos: int, id: Seq<char>) -> Seq<char> {
    prefix_at(t, pos) + id + suffix_at(t, pos)
}

/// The concrete `topic` matches the template `t` split at `pos`: it is long
/// enough, starts with the template's prefix and ends with its suffix.
pub open spec fn topic_matches_at(t: Seq<char>, pos: int, topic: Seq<char>) -> bool {
    let p = prefix_at(t, pos);
    let s = suffix_at(t, pos);
    &&& topic.len() >= p.len() + s.len()
    &&& topic.subrange(0, p.len() as int) == p
    &&& topic.subrange(topic.len() - s.len(), topic.len() as int) == s
}

/// The identifier read back out of `topic`: what stands between the
/// template's prefix and suffix.
pub open spec fn extracted_at(t: Seq<char>, pos: int, topic: Seq<char>) -> Seq<char> {
    let s_len = t.len() - pos - 4;
    topic.subrange(pos, topic.len() - s_len)
}

/// The characters of `a` starting at `ai` and of `b` starting at `bi` agree
/// for `n` positions.
fn chars_match(a: &str, ai: usize, b: &str, bi: usize, n: usize) -> (r: bool)
    requires
        ai + n <= a@.len(),
        bi + n <= b@.len(),
        ai + n <= usize::MAX,
        bi + n <= usize::MAX,
    ensures
        r <==> a@.subrange(ai as int, ai + n) == b@.subrange(bi as int, bi + n),
{
    let mut k: usize = 0;
    while k < n
        invariant
            k <= n,
            ai + n <= a@.len(),
            bi + n <= b@.len(),
            ai + n <= usize::MAX,
            bi + n <= usize::MAX,
            forall|j: int| 0 <= j < k ==> #[trigger] a@[ai + j] == b@[bi + j],
        decreases n - k,
    {
        if a.get_char(ai + k) != b.get_char(bi + k) {
            proof {
                assert(a@.subrange(ai as int, ai + n)[k as int] != b@.subrange(
                    bi as int,
                    bi + n,
                )[k as int]);
            }
            return false;
        }
        k += 1;
    }
    proof {
        assert forall|j: int| 0 <= j < n implies #[trigger] a@.subrange(ai as int, ai + n)[j]
            == b@.subrange(bi as int, bi + n)[j] by {
            assert(a@[ai + j] == b@[bi + j]);
        }
        assert(a@.subrange(ai as int, ai + n) =~= b@.subrange(bi as int, bi + n));
    }
    true
}

/// Position of the first `{id}` marker of `t`, if any.
fn find_marker(t: &str) -> (r: Option<usize>)
    ensures
        match r {
            Some(i) => find_marker_spec(t@, 0) == Some(i as int),
            None => find_marker_spec(t@, 0) is None,
        },
{
    let marker: &str = "{id}";
    proof {
        reveal_strlit("{id}");
    }
    let n: usize = t.unicode_len();
    if n < 4 {
        return None;
    }
    let mut i: usize = 0;
    while i <= n - 4
        invariant
            n == t@.len(),
            4 <= n,
            marker@ == "{id}"@,
            marker@.len() == 4,
            i <= n,
            find_marker_spec(t@, 0) == find_marker_spec(t@, i as int),
        decreases n - i,
    {
        proof {
            assert(marker@.subrange(0, 4) =~= "{id}"@);
        }
        if chars_match(t, i, marker, 0, 4) {
            proof {
                assert(marker_at(t@, i as int));
            }
            return Some(i);
        }
        proof {
            assert(t@.subrange(i as int, i + 4) != "{id}"@);
            assert(!marker_at(t@, i as int));
        }
        i += 1;
    }
    None
}

/// Does the topic template hold an `{id}` placeholder?  A template without
/// one is a configuration fault, fatal at startup.
pub fn has_placeholder(topic_template: &str) -> (r: bool)
    ensures
        r <==> find_marker_spec(topic_template@, 0) is Some,
{
    match find_marker(topic_template) {
        Some(_) => true,
        None => false,
    }
}

/// Read the device identifier out of a concrete `topic`, given the topic
/// template `set_topic` that holds one `{id}` placeholder.
///
/// The template is split at its first placeholder into a prefix and a suffix;
/// the topic must start with the prefix and end with the suffix, and the
/// identifier is exactly what stands in between.  A template without a
/// placeholder is a configuration fault; a topic that does not carry the
/// prefix and suffix is malformed and is rejected rather than yielding a
/// wrong identifier.
pub fn get_id_from_topic(topic: &String, set_topic: &str) -> (r: Result<String, TopicError>)
    ensures
        match find_marker_spec(set_topic@, 0) {
            None => r == Err::<String, TopicError>(TopicError::MissingPlaceholder),
            Some(pos) => match r {
                Ok(id) => topic_matches_at(set_topic@, pos, topic@) && id@ == extracted_at(
                    set_topic@,
                    pos,
                    topic@,
                ),
                Err(e) => e == TopicError::MalformedTopic && !topic_matches_at(
                    set_topic@,
                    pos,
                    topic@,
                ),
            },
        },
{
    let pos: usize = match find_marker(set_topic) {
        Some(p) => p,
        None => {
            return Err(TopicError::MissingPlaceholder);
        },
    };
    proof {
        lemma_find_marker_spec_some(set_topic@, 0, pos as int);
    }
    let t_len: usize = set_topic.unicode_len();
    let p_len: usize = pos;
    let s_len: usize = t_len - pos - 4;
    let topic_len: usize = topic.as_str().unicode_len();
    if topic_len < p_len || topic_len - p_len < s_len {
        proof {
            assert(!topic_matches_at(set_topic@, pos as int, topic@));
        }
        return Err(TopicError::MalformedTopic);
    }
    if !chars_match(topic.as_str(), 0, set_topic, 0, p_len) {
        proof {
            assert(topic@.subrange(0, p_len as int) != prefix_at(set_topic@, pos as int));
        }
        return Err(TopicError::MalformedTopic);
    }
    if !chars_match(topic.as_str(), topic_len - s_len, set_topic, pos + 4, s_len) {
        proof {
            assert(topic@.subrange(topic@.len() - s_len, topic@.len() as int) != suffix_at(
                set_topic@,
                pos as int,
            ));
        }
        return Err(TopicError::MalformedTopic);
    }
    let id: &str = topic.as_str().substring_char(p_len, topic_len - s_len);
    proof {
        assert(topic@.subrange(0, p_len as int) =~= prefix_at(set_topic@, pos as int));
        assert(topic@.subrange(topic@.len() - s_len, topic@.len() as int) =~= suffix_at(
            set_topic@,
            pos as int,
        ));
        assert(id@ =~= extracted_at(set_topic@, pos as int, topic@));
    }
    Ok(String::from_str(id))
}

/// Build the concrete topic for device `id` by substituting it for the first
/// `{id}` placeholder of the template `topic_template`.
pub fn substitute_id(topic_template: &str, id: &str) -> (r: Result<String, TopicError>)
    ensures
        match find_marker_spec(topic_template@, 0) {
            None => r == Err::<String, TopicError>(TopicError::MissingPlaceholder),
            Some(pos) => match r {
                Ok(t) => t@ == substituted_at(topic_template@, pos, id@),
                Err(_) => false,
            },
        },
{
    let pos: usize = match find_marker(topic_template) {
        Some(p) => p,
        None => {
            return Err(TopicError::MissingPlaceholder);
        },
    };
    proof {
        lemma_find_marker_spec_some(topic_template@, 0, pos as int);
    }
    let t_len: usize = topic_template.unicode_len();
    let prefix: &str = topic_template.substring_char(0, pos);
    let suffix: &str = topic_template.substring_char(pos + 4, t_len);
    let mut out: String = String::from_str(prefix);
    out.append(id);
    out.append(suffix);
    proof {
        assert(out@ =~= substituted_at(topic_template@, pos as int, id@));
    }
    Ok(out)
}

/// A JSON whitespace character.
pub open spec fn is_json_ws(c: char) -> bool {
    c == ' ' || c == '\t' || c == '\n' || c == '\r'
}

/// The first position at or after `i` that holds no JSON whitespace (the
/// length of `s` when only whitespace remains).
pub open spec fn skip_ws_spec(s: Seq<char>, i: int) -> int
    decreases s.len() - i,
{
    if i < 0 || i >= s.len() {
        i
    } else if is_json_ws(s[i]) {
        skip_ws_spec(s, i + 1)
    } else {
        i
    }
}

/// The position of the first `"` at or after `i`, if any.
pub open spec fn close_quote_spec(s: Seq<char>, i: int) -> Option<int>
    decreases s.len() - i,
{
    if i < 0 || i >= s.len() {
        None
    } else if s[i] == '"' {
        Some(i)
    } else {
        close_quote_spec(s, i + 1)
    }
}

/// What an inbound `set` payload means, if anything: a single JSON object
/// `{"action": "<command>"}` — arbitrary whitespace between the tokens, no
/// other members, no escapes inside the name — where `<command>` is one of
/// the six command names as the bus spells them.  Anything else is rejected.
pub open spec fn parse_set_message_spec(s: Seq<char>) -> Option<RobotCmd> {
    let i0 = skip_ws_spec(s, 0);
    if !(i0 < s.len() && s[i0] == '{') {
        None
    } else {
        let i1 = skip_ws_spec(s, i0 + 1);
        if !(i1 + 8 <= s.len() && s.subrange(i1, i1 + 8) == "\"action\""@) {
            None
        } else {
            let i2 = skip_ws_spec(s, i1 + 8);
            if !(i2 < s.len() && s[i2] == ':') {
                None
            } else {
                let i3 = skip_ws_spec(s, i2 + 1);
                if !(i3 < s.len() && s[i3] == '"') {
                    None
                } else {
                    match close_quote_spec(s, i3 + 1) {
                        None => None,
                        Some(j) => {
                            let i4 = skip_ws_spec(s, j + 1);
                            if !(i4 < s.len() && s[i4] == '}') {
                                None
                            } else if skip_ws_spec(s, i4 + 1) != s.len() {
                                None
                            } else {
                                crate::neato::cmd_of_action_name(s.subrange(i3 + 1, j))
                            }
                        },
                    }
                }
            }
        }
    }
}

/// Is the character at `i` JSON whitespace?
fn ws_at(s: &str, i: usize) -> (r: bool)
    requires
        i < s@.len(),
    ensures
        r == is_json_ws(s@[i as int]),
{
    let c: char = s.get_char(i);
    c == ' ' || c == '\t' || c == '\n' || c == '\r'
}

/// The first position at or after `start` holding no JSON whitespace.
fn skip_ws(s: &str, start: usize) -> (r: usize)
    requires
        start <= s@.len(),
    ensures
        r == skip_ws_spec(s@, start as int),
        start <= r <= s@.len(),
        r < s@.len() ==> !is_json_ws(s@[r as int]),
{
    let n: usize = s.unicode_len();
    let mut i: usize = start;
    while i < n && ws_at(s, i)
        invariant
            n == s@.len(),
            start <= i <= n,
            skip_ws_spec(s@, start as int) == skip_ws_spec(s@, i as int),
        decreases n - i,
    {
        i += 1;
    }
    i
}

/// The position of the first `"` at or after `start`, if any.
fn close_quote(s: &str, start: usize) -> (r: Option<usize>)
    requires
        start <= s@.len(),
    ensures
        match r {
            Some(j) => close_quote_spec(s@, start as int) == Some(j as int) && start <= j
                < s@.len(),
            None => close_quote_spec(s@, start as int) is None,
        },
{
    let n: usize = s.unicode_len();
    let mut i: usize = start;
    while i < n
        invariant
            n == s@.len(),
            start <= i <= n,
            close_quote_spec(s@, start as int) == close_quote_spec(s@, i as int),
        decreases n - i,
    {
        if s.get_char(i) == '"' {
            return Some(i);
        }
        i += 1;
    }
    None
}

/// Parse one inbound `set` payload: accepted exactly when it is the JSON
/// object `{"action": "<command>"}` naming one of the six commands as the
/// bus spells them, with arbitrary whitespace between the tokens and
/// nothing else around them.
pub fn parse_set_message(payload: &str) -> (r: Option<MqttSetMessage>)
    ensures
        match r {
            Some(m) => parse_set_message_spec(payload@) == Some(m.action),
            None => parse_set_message_spec(payload@) is None,
        },
{
    let n: usize = payload.unicode_len();
    let i0: usize = skip_ws(payload, 0);
    if !(i0 < n && payload.get_char(i0) == '{') {
        return None;
    }
    let i1: usize = skip_ws(payload, i0 + 1);
    let key: &str = "\"action\"";
    proof {
        reveal_strlit("\"action\"");
    }
    if n - i1 < 8 {
        return None;
    }
    if !chars_match(payload, i1, key, 0, 8) {
        proof {
            assert(key@.subrange(0, 8) =~= "\"action\""@);
        }
        return None;
    }
    proof {
        assert(key@.subrange(0, 8) =~= "\"action\""@);
    }
    let i2: usize = skip_ws(payload, i1 + 8);
    if !(i2 < n && payload.get_char(i2) == ':') {
        return None;
    }
    let i3: usize = skip_ws(payload, i2 + 1);
    if !(i3 < n && payload.get_char(i3) == '"') {
        return None;
    }
    let j: usize = match close_quote(payload, i3 + 1) {
        Some(j) => j,
        None => {
            return None;
        },
    };
    let i4: usize = skip_ws(payload, j + 1);
    if !(i4 < n && payload.get_char(i4) == '}') {
        return None;
    }
    if skip_ws(payload, i4 + 1) != n {
        return None;
    }
    let name: &str = payload.substring_char(i3 + 1, j);
    match RobotCmd::from_action_name(name) {
        Some(c) => Some(MqttSetMessage { action: c }),
        None => None,
    }
}

/// Substituting an identifier into a topic template and reading it back
/// yields the identifier again: the substituted topic matches the template,
/// and what is extracted from it is exactly `id` — for every identifier, with
/// no restriction on its characters.
pub proof fn lemma_topic_round_trip(t: Seq<char>, pos: int, id: Seq<char>)
    requires
        find_marker_spec(t, 0) == Some(pos),
    ensures
        topic_matches_at(t, pos, substituted_at(t, pos, id)),
        extracted_at(t, pos, substituted_at(t, pos, id)) == id,
{
    lemma_find_marker_spec_some(t, 0, pos);
    let p = prefix_at(t, pos);
    let s = suffix_at(t, pos);
    let topic = substituted_at(t, pos, id);
    assert(topic.len() == p.len() + id.len() + s.len());
    assert(topic.subrange(0, p.len() as int) =~= p);
    assert(topic.subrange(topic.len() - s.len(), topic.len() as int) =~= s);
    assert(extracted_at(t, pos, topic) =~= id);
}

} // verus!
