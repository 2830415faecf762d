//! Messages exchanged between shells.
use crate::clock::current_time_nanos;
use crate::kinds::MessagePriority;
use crate::kinds::ShellMessageType;
use crate::text::decimal_string;
use crate::text::decimal_text;
use crate::text::short_hash;
use crate::text::simple_hash;
use vstd::prelude::*;

verus! {

/// A typed, timestamped message.
#[derive(Debug, Clone)]
pub struct ShellMessage {
    pub id: String,
    pub from: String,
    pub to: String,
    pub message_type: ShellMessageType,
    pub payload: String,
    pub timestamp: u64,
    pub priority: MessagePriority,
    pub requires_ack: bool,
    pub acknowledged: bool,
}

/// The identifier of a message: `msg-` and the short hash of sender,
/// recipient, payload and the creation time in nanoseconds, written one
/// after the other.
pub open spec fn message_id_text(from: Seq<char>, to: Seq<char>, payload: Seq<char>, nanos: nat) -> Seq<char> {
    "msg-"@ + decimal_text(short_hash(from + to + payload + decimal_text(nanos)) as nat)
}

/// `m` is the message built from these parts at creation time `nanos`
/// (nanoseconds) and `tick` (seconds).
pub open spec fn is_stamped(
    m: ShellMessage,
    from: Seq<char>,
    to: Seq<char>,
    message_type: ShellMessageType,
    payload: Seq<char>,
    nanos: u128,
    tick: u64,
) -> bool {
    &&& m.id@ == message_id_text(from, to, payload, nanos as nat)
    &&& m.from@ == from
    &&& m.to@ == to
    &&& m.message_type == message_type
    &&& m.payload@ == payload
    &&& m.timestamp == tick
    &&& m.priority == MessagePriority::Normal
    &&& !m.requires_ack
    &&& !m.acknowledged
}

/// `m` is the message built from these parts from one clock reading of
/// `nanos` nanoseconds since the Unix epoch: the identifier hashes `nanos`,
/// and the timestamp is the same reading in whole seconds.
pub open spec fn created_at(
    m: ShellMessage,
    from: Seq<char>,
    to: Seq<char>,
    message_type: ShellMessageType,
    payload: Seq<char>,
    nanos: u128,
) -> bool {
    &&& is_stamped(m, from, to, message_type, payload, nanos, m.timestamp)
    &&& m.timestamp as int == nanos as int / 1_000_000_000
}

/// `m` is the message built from these parts from some clock reading.
pub open spec fn is_fresh(
    m: ShellMessage,
    from: Seq<char>,
    to: Seq<char>,
    message_type: ShellMessageType,
    payload: Seq<char>,
) -> bool {
    exists|nanos: u128| #[trigger] created_at(m, from, to, message_type, payload, nanos)
}

/// `copy` is `original` sent to `to` instead: every other field is kept.
pub open spec fn is_readdressed(original: ShellMessage, copy: ShellMessage, to: Seq<char>) -> bool {
    &&& copy.id == original.id
    &&& copy.from == original.from
    &&& copy.to@ == to
    &&& copy.message_type == original.message_type
    &&& copy.payload == original.payload
    &&& copy.timestamp == original.timestamp
    &&& copy.priority == original.priority
    &&& copy.requires_ack == original.requires_ack
    &&& copy.acknowledged == original.acknowledged
}

/// A message created at tick `timestamp` with time-to-live `ttl` has expired
/// at tick `now` when `now` lies strictly beyond `timestamp + ttl`.
pub open spec fn expired_at(timestamp: u64, ttl: u64, now: u64) -> bool {
    now > timestamp + ttl
}

impl ShellMessage {
    /// Builds the message that `new` builds, for a given clock reading:
    /// `nanos` nanoseconds and `tick` seconds since the Unix epoch.
    pub fn stamped(
        from: &str,
        to: &str,
        msg_type: ShellMessageType,
        payload: &str,
        nanos: u128,
        tick: u64,
    ) -> (m: ShellMessage)
        ensures
            is_stamped(m, from@, to@, msg_type, payload@, nanos, tick),
    {
        let mut seed = String::from_str(from);
        seed.append(to);
        seed.append(payload);
        let nanos_text = decimal_string(nanos);
        seed.append(nanos_text.as_str());
        let hash = simple_hash(seed);
        let mut id = String::from_str("msg-");
        let hash_text = decimal_string(hash as u128);
        id.append(hash_text.as_str());
        ShellMessage {
            id,
            from: String::from_str(from),
            to: String::from_str(to),
            message_type: msg_type,
            payload: String::from_str(payload),
            timestamp: tick,
            priority: MessagePriority::Normal,
            requires_ack: false,
            acknowledged: false,
        }
    }

    /// A new message of normal priority, stamped from one reading of the
    /// clock: its identifier hashes the reading in nanoseconds, its
    /// timestamp is the reading in whole seconds.
    pub fn new(from: &str, to: &str, msg_type: ShellMessageType, payload: &str) -> (m: ShellMessage)
        ensures
            is_fresh(m, from@, to@, msg_type, payload@),
    {
        let nanos = current_time_nanos();
        let tick = (nanos / 1_000_000_000) as u64;
        let m = Self::stamped(from, to, msg_type, payload, nanos, tick);
        assert(created_at(m, from@, to@, msg_type, payload@, nanos));
        m
    }

    /// Marks the message as acknowledged; nothing else changes.
    pub fn acknowledge(&mut self)
        ensures
            final(self).acknowledged,
            final(self).id == old(self).id,
            final(self).from == old(self).from,
            final(self).to == old(self).to,
            final(self).message_type == old(self).message_type,
            final(self).payload == old(self).payload,
            final(self).timestamp == old(self).timestamp,
            final(self).priority == old(self).priority,
            final(self).requires_ack == old(self).requires_ack,
    {
        self.acknowledged = true;
    }

    /// Whether the message has outlived `ttl_ticks` at tick `current_tick`.
    pub fn is_expired(&self, current_tick: u64, ttl_ticks: u64) -> (r: bool)
        ensures
            r == expired_at(self.timestamp, ttl_ticks, current_tick),
    {
        current_tick > self.timestamp && current_tick - self.timestamp > ttl_ticks
    }

    /// A copy of this message sent to `to`.
    pub fn readdressed(&self, to: &str) -> (copy: ShellMessage)
        ensures
            is_readdressed(*self, copy, to@),
    {
        ShellMessage {
            id: self.id.clone(),
            from: self.from.clone(),
            to: String::from_str(to),
            message_type: self.message_type,
            payload: self.payload.clone(),
            timestamp: self.timestamp,
            priority: self.priority,
            requires_ack: self.requires_ack,
            acknowledged: self.acknowledged,
        }
    }
}

/// Expiry is a hard deadline: once expired, a message stays expired.
pub proof fn law_expiry_is_permanent(timestamp: u64, ttl: u64, earlier: u64, later: u64)
    requires
        earlier <= later,
        expired_at(timestamp, ttl, earlier),
    ensures
        expired_at(timestamp, ttl, later),
{
}

/// A message is valid for exactly `ttl` ticks after its creation: it has
/// not expired at `timestamp + ttl`, and has one tick later.
pub proof fn law_valid_for_exactly_ttl(timestamp: u64, ttl: u64)
    requires
        timestamp + ttl < u64::MAX,
    ensures
        !expired_at(timestamp, ttl, (timestamp + ttl) as u64),
        expired_at(timestamp, ttl, (timestamp + ttl + 1) as u64),
{
}

/// The clock reading behind a fresh message's identifier lies within the
/// second that its timestamp names: the timestamp is in seconds and comes
/// from the same reading as the identifier.
pub proof fn law_fresh_message_id_and_timestamp_agree(
    m: ShellMessage,
    from: Seq<char>,
    to: Seq<char>,
    message_type: ShellMessageType,
    payload: Seq<char>,
)
    requires
        is_fresh(m, from, to, message_type, payload),
    ensures
        exists|nanos: u128|
            #![trigger message_id_text(from, to, payload, nanos as nat)]
            m.id@ == message_id_text(from, to, payload, nanos as nat) && m.timestamp * 1_000_000_000 <= nanos
                < m.timestamp * 1_000_000_000 + 1_000_000_000,
{
    let nanos = choose|nanos: u128| #[trigger] created_at(m, from, to, message_type, payload, nanos);
    let t = m.timestamp as int;
    let n = nanos as int;
    assert(t * 1_000_000_000 <= n < t * 1_000_000_000 + 1_000_000_000) by (nonlinear_arith)
        requires
            t == n / 1_000_000_000,
            n >= 0,
    ;
    assert(m.id@ == message_id_text(from, to, payload, nanos as nat));
}

/// Of two fresh messages, the one with the later timestamp was made from the
/// later clock reading: timestamps order messages as their creation does.
pub proof fn law_fresh_messages_ordered_by_timestamp(
    m1: ShellMessage,
    m2: ShellMessage,
    from: Seq<char>,
    to: Seq<char>,
    message_type: ShellMessageType,
    payload: Seq<char>,
    n1: u128,
    n2: u128,
)
    requires
        created_at(m1, from, to, message_type, payload, n1),
        created_at(m2, from, to, message_type, payload, n2),
        m1.timestamp < m2.timestamp,
    ensures
        n1 < n2,
{
    let a = n1 as int;
    let b = n2 as int;
    assert(a < b) by (nonlinear_arith)
        requires
            a / 1_000_000_000 < b / 1_000_000_000,
            a >= 0,
            b >= 0,
    ;
}

/// Every message identifier starts with `msg-`.
pub proof fn law_message_id_prefix(from: Seq<char>, to: Seq<char>, payload: Seq<char>, nanos: nat)
    ensures
        message_id_text(from, to, payload, nanos).subrange(0, 4) == "msg-"@,
{
    reveal_strlit("msg-");
    let id = message_id_text(from, to, payload, nanos);
    assert(id.subrange(0, 4) =~= "msg-"@);
}

} // verus!
