//! Peer shells known to a bus.
use crate::kinds::TrustLevel;
use crate::text::decimal_string;
use crate::text::decimal_text;
use crate::text::short_hash;
use crate::text::simple_hash;
use vstd::prelude::*;

verus! {

/// Another shell this one can talk to.
#[derive(Debug, Clone)]
pub struct PeerShell {
    pub id: String,
    pub name: String,
    pub kind: String,
    pub address: String,
    pub protocol: String,
    pub connected: bool,
    pub last_contact: u64,
    pub briefing_interval: u64,
    pub last_briefing: Option<u64>,
    pub trust_level: TrustLevel,
}

/// The identifier of a peer: `peer-` and the short hash of its name.
pub open spec fn peer_id_text(name: Seq<char>) -> Seq<char> {
    "peer-"@ + decimal_text(short_hash(name) as nat)
}

/// A peer last briefed at `last_briefing` (if ever) with interval `interval`
/// is due for a briefing at tick `now`.
pub open spec fn briefing_due(last_briefing: Option<u64>, interval: u64, now: u64) -> bool {
    match last_briefing {
        None => true,
        Some(last) => now >= last + interval,
    }
}

/// The text after the trust level in a description: empty for a peer never
/// briefed, else ` last_briefing:` and the tick.
pub open spec fn last_briefing_note(last_briefing: Option<u64>) -> Seq<char> {
    match last_briefing {
        None => Seq::empty(),
        Some(t) => " last_briefing:"@ + decimal_text(t as nat),
    }
}

impl PeerShell {
    /// `[status] name (kind) @ address via protocol — trust:level ` and the
    /// last-briefing note.
    pub open spec fn description(self) -> Seq<char> {
        let status = if self.connected {
            "connected"@
        } else {
            "disconnected"@
        };
        "["@ + status + "] "@ + self.name@ + " ("@ + self.kind@ + ") @ "@ + self.address@ + " via "@
            + self.protocol@ + " — trust:"@ + self.trust_level.label() + " "@ + last_briefing_note(
            self.last_briefing,
        )
    }

    /// A disconnected shell peer of partial trust, never contacted or
    /// briefed, with a briefing interval of 300 ticks.
    pub fn new(name: &str, address: &str, protocol: &str) -> (p: PeerShell)
        ensures
            p.id@ == peer_id_text(name@),
            p.name@ == name@,
            p.kind@ == "shell"@,
            p.address@ == address@,
            p.protocol@ == protocol@,
            !p.connected,
            p.last_contact == 0,
            p.briefing_interval == 300,
            p.last_briefing is None,
            p.trust_level == TrustLevel::Partial,
    {
        let hash = simple_hash(String::from_str(name));
        let mut id = String::from_str("peer-");
        let hash_text = decimal_string(hash as u128);
        id.append(hash_text.as_str());
        PeerShell {
            id,
            name: String::from_str(name),
            kind: String::from_str("shell"),
            address: String::from_str(address),
            protocol: String::from_str(protocol),
            connected: false,
            last_contact: 0,
            briefing_interval: 300,
            last_briefing: None,
            trust_level: TrustLevel::Partial,
        }
    }

    /// A peer is reachable exactly when it is connected.
    pub fn is_reachable(&self) -> (r: bool)
        ensures
            r == self.connected,
    {
        self.connected
    }

    /// Whether the briefing interval has elapsed at `current_tick`; a peer
    /// never briefed always needs one.
    pub fn needs_briefing(&self, current_tick: u64) -> (r: bool)
        ensures
            r == briefing_due(self.last_briefing, self.briefing_interval, current_tick),
    {
        match self.last_briefing {
            None => true,
            Some(last) => current_tick >= last && current_tick - last >= self.briefing_interval,
        }
    }

    /// A one-line human-readable summary of the peer.
    pub fn describe(&self) -> (s: String)
        ensures
            s@ == self.description(),
    {
        let mut s = String::from_str("[");
        if self.connected {
            s.append("connected");
        } else {
            s.append("disconnected");
        }
        s.append("] ");
        s.append(self.name.as_str());
        s.append(" (");
        s.append(self.kind.as_str());
        s.append(") @ ");
        s.append(self.address.as_str());
        s.append(" via ");
        s.append(self.protocol.as_str());
        s.append(" — trust:");
        let level = self.trust_level.to_string();
        s.append(level.as_str());
        s.append(" ");
        match self.last_briefing {
            None => {
                assert(s@ + Seq::<char>::empty() =~= s@);
            },
            Some(t) => {
                let ghost before = s@;
                s.append(" last_briefing:");
                let t_text = decimal_string(t as u128);
                s.append(t_text.as_str());
                assert(s@ =~= before + (" last_briefing:"@ + decimal_text(t as nat)));
            },
        }
        s
    }
}

/// Once a peer is due for a briefing it stays due as time goes on.
pub proof fn law_briefing_due_stays_due(last_briefing: Option<u64>, interval: u64, earlier: u64, later: u64)
    requires
        earlier <= later,
        briefing_due(last_briefing, interval, earlier),
    ensures
        briefing_due(last_briefing, interval, later),
{
}

/// Every peer identifier starts with `peer-`.
pub proof fn law_peer_id_prefix(name: Seq<char>)
    ensures
        peer_id_text(name).subrange(0, 5) == "peer-"@,
{
    reveal_strlit("peer-");
    assert(peer_id_text(name).subrange(0, 5) =~= "peer-"@);
}

} // verus!
