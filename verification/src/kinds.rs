//! The small vocabularies of the bus: trust levels, priorities, message
//! types and the errors a bus operation answers with.
use vstd::prelude::*;

verus! {

/// How far a peer shell is trusted.
#[derive(Debug, Clone, Copy, PartialEq, Eq, Structural)]
pub enum TrustLevel {
    Full,
    Partial,
    Minimal,
    Untrusted,
}

impl TrustLevel {
    /// Position in the order `Untrusted < Minimal < Partial < Full`.
    pub open spec fn rank(self) -> int {
        match self {
            TrustLevel::Full => 3,
            TrustLevel::Partial => 2,
            TrustLevel::Minimal => 1,
            TrustLevel::Untrusted => 0,
        }
    }

    /// Full and partial trust admit receiving state.
    pub open spec fn admits_state(self) -> bool {
        self == TrustLevel::Full || self == TrustLevel::Partial
    }

    /// Only full trust admits sending commands.
    pub open spec fn admits_commands(self) -> bool {
        self == TrustLevel::Full
    }

    /// The lower-case name of the level.
    pub open spec fn label(self) -> Seq<char> {
        match self {
            TrustLevel::Full => "full"@,
            TrustLevel::Partial => "partial"@,
            TrustLevel::Minimal => "minimal"@,
            TrustLevel::Untrusted => "untrusted"@,
        }
    }

    /// Whether a peer at this level may be sent state (briefings).
    pub fn can_receive_state(&self) -> (r: bool)
        ensures
            r == self.admits_state(),
    {
        match self {
            TrustLevel::Full | TrustLevel::Partial => true,
            _ => false,
        }
    }

    /// Whether a peer at this level may send commands.
    pub fn can_send_commands(&self) -> (r: bool)
        ensures
            r == self.admits_commands(),
    {
        match self {
            TrustLevel::Full => true,
            _ => false,
        }
    }

    /// The lower-case name of the level, such as `full`.
    pub fn to_string(&self) -> (s: String)
        ensures
            s@ == self.label(),
    {
        match self {
            TrustLevel::Full => String::from_str("full"),
            TrustLevel::Partial => String::from_str("partial"),
            TrustLevel::Minimal => String::from_str("minimal"),
            TrustLevel::Untrusted => String::from_str("untrusted"),
        }
    }
}

/// A peer that may send commands may also receive state.
pub proof fn law_commands_imply_state(t: TrustLevel)
    ensures
        t.admits_commands() ==> t.admits_state(),
{
}

/// Both capabilities are monotone in the trust order: a level at least as
/// high as one that has a capability has it too.
pub proof fn law_capabilities_monotone(lower: TrustLevel, higher: TrustLevel)
    requires
        lower.rank() <= higher.rank(),
    ensures
        lower.admits_state() ==> higher.admits_state(),
        lower.admits_commands() ==> higher.admits_commands(),
{
}

/// How urgent a message is.
#[derive(Debug, Clone, Copy, PartialEq, Eq, Structural)]
pub enum MessagePriority {
    Critical,
    High,
    Normal,
    Low,
}

impl MessagePriority {
    /// The lower-case name of the priority.
    pub open spec fn label(self) -> Seq<char> {
        match self {
            MessagePriority::Critical => "critical"@,
            MessagePriority::High => "high"@,
            MessagePriority::Normal => "normal"@,
            MessagePriority::Low => "low"@,
        }
    }

    /// The lower-case name of the priority, such as `critical`.
    pub fn to_string(&self) -> (s: String)
        ensures
            s@ == self.label(),
    {
        match self {
            MessagePriority::Critical => String::from_str("critical"),
            MessagePriority::High => String::from_str("high"),
            MessagePriority::Normal => String::from_str("normal"),
            MessagePriority::Low => String::from_str("low"),
        }
    }
}

impl Default for MessagePriority {
    /// Messages are of normal priority unless said otherwise.
    fn default() -> (p: Self)
        ensures
            p == MessagePriority::Normal,
    {
        MessagePriority::Normal
    }
}

/// What a message carries.
#[derive(Debug, Clone, Copy, PartialEq, Eq, Structural)]
pub enum ShellMessageType {
    Briefing,
    StateUpdate,
    Command,
    Query,
    Response,
    Alert,
    Heartbeat,
    Handshake,
}

impl ShellMessageType {
    /// The snake-case name of the type.
    pub open spec fn label(self) -> Seq<char> {
        match self {
            ShellMessageType::Briefing => "briefing"@,
            ShellMessageType::StateUpdate => "state_update"@,
            ShellMessageType::Command => "command"@,
            ShellMessageType::Query => "query"@,
            ShellMessageType::Response => "response"@,
            ShellMessageType::Alert => "alert"@,
            ShellMessageType::Heartbeat => "heartbeat"@,
            ShellMessageType::Handshake => "handshake"@,
        }
    }

    /// The snake-case name of the type, such as `state_update`.
    pub fn to_string(&self) -> (s: String)
        ensures
            s@ == self.label(),
    {
        match self {
            ShellMessageType::Briefing => String::from_str("briefing"),
            ShellMessageType::StateUpdate => String::from_str("state_update"),
            ShellMessageType::Command => String::from_str("command"),
            ShellMessageType::Query => String::from_str("query"),
            ShellMessageType::Response => String::from_str("response"),
            ShellMessageType::Alert => String::from_str("alert"),
            ShellMessageType::Heartbeat => String::from_str("heartbeat"),
            ShellMessageType::Handshake => String::from_str("handshake"),
        }
    }
}

/// Why a bus operation was refused.
#[derive(Debug, Clone, PartialEq, Eq)]
pub enum ShellCommError {
    PeerNotFound,
    PeerUnreachable,
    ProtocolError(String),
    MessageExpired,
    TrustViolation,
    RateLimited,
}

impl ShellCommError {
    /// The human-readable description of the error.
    pub open spec fn label(self) -> Seq<char> {
        match self {
            ShellCommError::PeerNotFound => "peer not found"@,
            ShellCommError::PeerUnreachable => "peer unreachable"@,
            ShellCommError::ProtocolError(msg) => "protocol error: "@ + msg@,
            ShellCommError::MessageExpired => "message expired"@,
            ShellCommError::TrustViolation => "trust violation"@,
            ShellCommError::RateLimited => "rate limited"@,
        }
    }

    /// The human-readable description, such as `protocol error: route denied`.
    pub fn to_string(&self) -> (s: String)
        ensures
            s@ == self.label(),
    {
        match self {
            ShellCommError::PeerNotFound => String::from_str("peer not found"),
            ShellCommError::PeerUnreachable => String::from_str("peer unreachable"),
            ShellCommError::ProtocolError(msg) => {
                let mut s = String::from_str("protocol error: ");
                s.append(msg.as_str());
                s
            },
            ShellCommError::MessageExpired => String::from_str("message expired"),
            ShellCommError::TrustViolation => String::from_str("trust violation"),
            ShellCommError::RateLimited => String::from_str("rate limited"),
        }
    }
}

} // verus!
