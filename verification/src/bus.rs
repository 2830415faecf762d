//! The inter-shell bus: known peers, routing rules and the message queues.
//!
//! Peers are kept in registration order; registering a peer whose id is
//! already known replaces that peer in place, so ids stay unique.
use crate::kinds::ShellCommError;
use crate::kinds::ShellMessageType;
use crate::message::is_fresh;
use crate::message::is_readdressed;
use crate::message::ShellMessage;
use crate::peer::PeerShell;
use crate::route::routes_allow;
use crate::route::routes_permit;
use crate::route::ShellRoute;
use crate::text::text_eq;
use vstd::prelude::*;

verus! {

/// The communication hub of one shell.
#[derive(Debug, Clone)]
pub struct InterShellBus {
    pub local_shell_id: String,
    pub peers: Vec<PeerShell>,
    pub outbox: Vec<ShellMessage>,
    pub inbox: Vec<ShellMessage>,
    pub routes: Vec<ShellRoute>,
}

/// A peer answers to a target that is its name or its id.
pub open spec fn answers_to(p: PeerShell, target: Seq<char>) -> bool {
    p.name@ == target || p.id@ == target
}

/// `i` is the first peer that answers to `target`.
pub open spec fn first_answering(peers: Seq<PeerShell>, target: Seq<char>, i: int) -> bool {
    &&& 0 <= i < peers.len()
    &&& answers_to(peers[i], target)
    &&& forall|j: int| 0 <= j < i ==> !answers_to(#[trigger] peers[j], target)
}

/// No peer answers to `target`.
pub open spec fn none_answering(peers: Seq<PeerShell>, target: Seq<char>) -> bool {
    forall|j: int| 0 <= j < peers.len() ==> !answers_to(#[trigger] peers[j], target)
}

/// `i` is the first peer whose id is `id`.
pub open spec fn first_with_id(peers: Seq<PeerShell>, id: Seq<char>, i: int) -> bool {
    &&& 0 <= i < peers.len()
    &&& peers[i].id@ == id
    &&& forall|j: int| 0 <= j < i ==> (#[trigger] peers[j]).id@ != id
}

/// No peer has id `id`.
pub open spec fn none_with_id(peers: Seq<PeerShell>, id: Seq<char>) -> bool {
    forall|j: int| 0 <= j < peers.len() ==> (#[trigger] peers[j]).id@ != id
}

/// The peer registered under `id`, if any.
pub open spec fn lookup_id(peers: Seq<PeerShell>, id: Seq<char>) -> Option<PeerShell> {
    if exists|i: int| #[trigger] first_with_id(peers, id, i) {
        Some(peers[choose|i: int| #[trigger] first_with_id(peers, id, i)])
    } else {
        None
    }
}

/// The peers after registering `p`: it replaces the peer with its id, or
/// joins at the end where no peer has that id.
pub open spec fn peers_after_register(peers: Seq<PeerShell>, p: PeerShell) -> Seq<PeerShell> {
    if exists|i: int| #[trigger] first_with_id(peers, p.id@, i) {
        peers.update(choose|i: int| #[trigger] first_with_id(peers, p.id@, i), p)
    } else {
        peers.push(p)
    }
}

/// No two peers share an id.
pub open spec fn ids_unique(peers: Seq<PeerShell>) -> bool {
    forall|i: int, j: int|
        0 <= i < peers.len() && 0 <= j < peers.len() && i != j ==> (#[trigger] peers[i]).id@ != (#[trigger] peers[j]).id@
}

/// The ids of the connected peers, in order.
pub open spec fn reachable_ids(peers: Seq<PeerShell>) -> Seq<Seq<char>>
    decreases peers.len(),
{
    if peers.len() == 0 {
        Seq::empty()
    } else if peers.last().connected {
        reachable_ids(peers.drop_last()).push(peers.last().id@)
    } else {
        reachable_ids(peers.drop_last())
    }
}

/// `after` is `before` with only its outbox changed.
pub open spec fn same_but_outbox(before: InterShellBus, after: InterShellBus) -> bool {
    &&& after.local_shell_id == before.local_shell_id
    &&& after.peers == before.peers
    &&& after.inbox == before.inbox
    &&& after.routes == before.routes
}

/// `after` is `before` with one message appended to the outbox.
pub open spec fn posted_one(before: InterShellBus, after: InterShellBus) -> bool {
    &&& same_but_outbox(before, after)
    &&& after.outbox@.len() == before.outbox@.len() + 1
    &&& after.outbox@.drop_last() == before.outbox@
}

/// The first peer that answers to `target`, if any.
fn find_answering(peers: &Vec<PeerShell>, target: &str) -> (r: Option<usize>)
    ensures
        match r {
            Some(i) => first_answering(peers@, target@, i as int),
            None => none_answering(peers@, target@),
        },
{
    let mut i: usize = 0;
    while i < peers.len()
        invariant
            i <= peers@.len(),
            forall|j: int| 0 <= j < i ==> !answers_to(#[trigger] peers@[j], target@),
        decreases peers@.len() - i,
    {
        if text_eq(peers[i].name.as_str(), target) || text_eq(peers[i].id.as_str(), target) {
            return Some(i);
        }
        i = i + 1;
    }
    None
}

/// The first peer whose id is `id`, if any.
fn find_id(peers: &Vec<PeerShell>, id: &str) -> (r: Option<usize>)
    ensures
        match r {
            Some(i) => first_with_id(peers@, id@, i as int),
            None => none_with_id(peers@, id@),
        },
{
    let mut i: usize = 0;
    while i < peers.len()
        invariant
            i <= peers@.len(),
            forall|j: int| 0 <= j < i ==> (#[trigger] peers@[j]).id@ != id@,
        decreases peers@.len() - i,
    {
        if text_eq(peers[i].id.as_str(), id) {
            return Some(i);
        }
        i = i + 1;
    }
    None
}

/// At most one index is the first with a given id.
proof fn lemma_first_with_id_unique(peers: Seq<PeerShell>, id: Seq<char>, i: int, k: int)
    requires
        first_with_id(peers, id, i),
        first_with_id(peers, id, k),
    ensures
        i == k,
{
    if i < k {
        assert(peers[i].id@ != id);
    } else if k < i {
        assert(peers[k].id@ != id);
    }
}

/// The lookup of an id is the peer at its first index.
proof fn lemma_lookup_at(peers: Seq<PeerShell>, id: Seq<char>, i: int)
    requires
        first_with_id(peers, id, i),
    ensures
        lookup_id(peers, id) == Some(peers[i]),
{
    let k = choose|k: int| #[trigger] first_with_id(peers, id, k);
    lemma_first_with_id_unique(peers, id, i, k);
}

/// Where no peer has an id, its lookup finds nothing.
proof fn lemma_lookup_none(peers: Seq<PeerShell>, id: Seq<char>)
    requires
        none_with_id(peers, id),
    ensures
        lookup_id(peers, id) is None,
{
    if exists|i: int| #[trigger] first_with_id(peers, id, i) {
        let k = choose|k: int| #[trigger] first_with_id(peers, id, k);
        assert(peers[k].id@ != id);
    }
}

/// The connected peers' ids after one more peer.
proof fn lemma_reachable_step(peers: Seq<PeerShell>, i: int)
    requires
        0 <= i < peers.len(),
    ensures
        reachable_ids(peers.take(i + 1)) == if peers[i].connected {
            reachable_ids(peers.take(i)).push(peers[i].id@)
        } else {
            reachable_ids(peers.take(i))
        },
{
    assert(peers.take(i + 1).drop_last() =~= peers.take(i));
    assert(peers.take(i + 1).last() == peers[i]);
}

impl InterShellBus {
    /// An empty bus for the shell `shell_id`.
    pub fn new(shell_id: &str) -> (bus: InterShellBus)
        ensures
            bus.local_shell_id@ == shell_id@,
            bus.peers@.len() == 0,
            bus.outbox@.len() == 0,
            bus.inbox@.len() == 0,
            bus.routes@.len() == 0,
    {
        InterShellBus {
            local_shell_id: String::from_str(shell_id),
            peers: Vec::new(),
            outbox: Vec::new(),
            inbox: Vec::new(),
            routes: Vec::new(),
        }
    }

    /// Registers `peer` under its id, replacing a peer already known by it.
    pub fn register_peer(&mut self, peer: PeerShell)
        ensures
            final(self).peers@ == peers_after_register(old(self).peers@, peer),
            none_with_id(old(self).peers@, peer.id@) ==> final(self).peers@ == old(self).peers@.push(peer),
            forall|i: int| #[trigger]
                first_with_id(old(self).peers@, peer.id@, i) ==> final(self).peers@ == old(self).peers@.update(
                    i,
                    peer,
                ),
            final(self).local_shell_id == old(self).local_shell_id,
            final(self).outbox == old(self).outbox,
            final(self).inbox == old(self).inbox,
            final(self).routes == old(self).routes,
    {
        match find_id(&self.peers, peer.id.as_str()) {
            Some(i) => {
                proof {
                    let k = choose|k: int| #[trigger] first_with_id(old(self).peers@, peer.id@, k);
                    lemma_first_with_id_unique(old(self).peers@, peer.id@, i as int, k);
                }
                self.peers.set(i, peer);
            },
            None => {
                self.peers.push(peer);
            },
        }
    }

    /// Sends `message` to the peer named or identified by `target`.
    ///
    /// Where routes are set and none admits this shell sending to `target`,
    /// the send is denied; then the peer must be known and reachable. On
    /// success the message joins the outbox; a refused send changes nothing.
    pub fn send(&mut self, target: &str, message: ShellMessage) -> (r: Result<(), ShellCommError>)
        ensures
            !routes_allow(old(self).routes@, old(self).local_shell_id@, target@) ==> {
                &&& r matches Err(ShellCommError::ProtocolError(m)) && m@ == "route denied"@
                &&& *final(self) == *old(self)
            },
            routes_allow(old(self).routes@, old(self).local_shell_id@, target@) && none_answering(
                old(self).peers@,
                target@,
            ) ==> r == Err::<(), ShellCommError>(ShellCommError::PeerNotFound) && *final(self) == *old(self),
            forall|i: int|
                routes_allow(old(self).routes@, old(self).local_shell_id@, target@) && #[trigger] first_answering(
                    old(self).peers@,
                    target@,
                    i,
                ) ==> if old(self).peers@[i].connected {
                    &&& r is Ok
                    &&& same_but_outbox(*old(self), *final(self))
                    &&& final(self).outbox@ == old(self).outbox@.push(message)
                } else {
                    r == Err::<(), ShellCommError>(ShellCommError::PeerUnreachable) && *final(self) == *old(self)
                },
    {
        if !routes_permit(&self.routes, self.local_shell_id.as_str(), target) {
            return Err(ShellCommError::ProtocolError(String::from_str("route denied")));
        }
        match find_answering(&self.peers, target) {
            None => Err(ShellCommError::PeerNotFound),
            Some(i) => {
                if !self.peers[i].is_reachable() {
                    return Err(ShellCommError::PeerUnreachable);
                }
                self.outbox.push(message);
                Ok(())
            },
        }
    }

    /// Sends a copy of `message` to every connected peer, in peer order,
    /// each copy addressed to that peer's id. With no connected peer the
    /// broadcast is refused and nothing changes.
    pub fn broadcast(&mut self, message: ShellMessage) -> (r: Result<(), ShellCommError>)
        ensures
            reachable_ids(old(self).peers@).len() == 0 ==> r == Err::<(), ShellCommError>(
                ShellCommError::PeerUnreachable,
            ) && *final(self) == *old(self),
            reachable_ids(old(self).peers@).len() > 0 ==> {
                let ids = reachable_ids(old(self).peers@);
                let before = old(self).outbox@.len();
                &&& r is Ok
                &&& same_but_outbox(*old(self), *final(self))
                &&& final(self).outbox@.len() == before + ids.len()
                &&& final(self).outbox@.subrange(0, before as int) == old(self).outbox@
                &&& forall|k: int|
                    before <= k < final(self).outbox@.len() ==> is_readdressed(
                        message,
                        #[trigger] final(self).outbox@[k],
                        ids[k - before],
                    )
            },
    {
        let mut copies: Vec<ShellMessage> = Vec::new();
        let mut i: usize = 0;
        while i < self.peers.len()
            invariant
                i <= self.peers@.len(),
                copies@.len() == reachable_ids(self.peers@.take(i as int)).len(),
                forall|k: int|
                    0 <= k < copies@.len() ==> is_readdressed(
                        message,
                        #[trigger] copies@[k],
                        reachable_ids(self.peers@.take(i as int))[k],
                    ),
            decreases self.peers@.len() - i,
        {
            proof {
                lemma_reachable_step(self.peers@, i as int);
            }
            if self.peers[i].is_reachable() {
                let copy = message.readdressed(self.peers[i].id.as_str());
                copies.push(copy);
            }
            i = i + 1;
        }
        assert(self.peers@.take(i as int) =~= self.peers@);
        if copies.len() == 0 {
            return Err(ShellCommError::PeerUnreachable);
        }
        let ghost before = self.outbox@;
        self.outbox.append(&mut copies);
        assert(self.outbox@.subrange(0, before.len() as int) =~= before);
        Ok(())
    }

    /// Takes every received message, leaving the inbox empty.
    pub fn receive(&mut self) -> (msgs: Vec<ShellMessage>)
        ensures
            msgs@ == old(self).inbox@,
            final(self).inbox@.len() == 0,
            final(self).local_shell_id == old(self).local_shell_id,
            final(self).peers == old(self).peers,
            final(self).outbox == old(self).outbox,
            final(self).routes == old(self).routes,
    {
        let mut msgs: Vec<ShellMessage> = Vec::new();
        std::mem::swap(&mut msgs, &mut self.inbox);
        msgs
    }

    /// Sends the serialised briefing `briefing` to the peer named or
    /// identified by `target`, as a message addressed to the peer's id.
    ///
    /// The peer must be known and reachable, its trust level must admit
    /// receiving state, and where routes are set one of them must admit
    /// this shell sending to `target`. A refused briefing changes nothing.
    pub fn send_briefing(&mut self, target: &str, briefing: &str) -> (r: Result<(), ShellCommError>)
        ensures
            none_answering(old(self).peers@, target@) ==> r == Err::<(), ShellCommError>(
                ShellCommError::PeerNotFound,
            ) && *final(self) == *old(self),
            forall|i: int| #[trigger]
                first_answering(old(self).peers@, target@, i) ==> {
                    let p = old(self).peers@[i];
                    if !p.connected {
                        r == Err::<(), ShellCommError>(ShellCommError::PeerUnreachable) && *final(self)
                            == *old(self)
                    } else if !p.trust_level.admits_state() {
                        r == Err::<(), ShellCommError>(ShellCommError::TrustViolation) && *final(self)
                            == *old(self)
                    } else if !routes_allow(old(self).routes@, old(self).local_shell_id@, target@) {
                        &&& r matches Err(ShellCommError::ProtocolError(m)) && m@ == "route denied"@
                        &&& *final(self) == *old(self)
                    } else {
                        &&& r is Ok
                        &&& posted_one(*old(self), *final(self))
                        &&& is_fresh(
                            final(self).outbox@.last(),
                            old(self).local_shell_id@,
                            p.id@,
                            ShellMessageType::Briefing,
                            briefing@,
                        )
                    }
                },
    {
        let i = match find_answering(&self.peers, target) {
            None => {
                return Err(ShellCommError::PeerNotFound);
            },
            Some(i) => i,
        };
        if !self.peers[i].is_reachable() {
            return Err(ShellCommError::PeerUnreachable);
        }
        if !self.peers[i].trust_level.can_receive_state() {
            return Err(ShellCommError::TrustViolation);
        }
        if !routes_permit(&self.routes, self.local_shell_id.as_str(), target) {
            return Err(ShellCommError::ProtocolError(String::from_str("route denied")));
        }
        let msg = ShellMessage::new(
            self.local_shell_id.as_str(),
            self.peers[i].id.as_str(),
            ShellMessageType::Briefing,
            briefing,
        );
        self.outbox.push(msg);
        assert(self.outbox@.drop_last() =~= old(self).outbox@);
        Ok(())
    }

    /// Asks the peer named or identified by `target` for a briefing: a query
    /// with payload `request_briefing`, addressed to the peer's id. The peer
    /// must be known and reachable; a refused request changes nothing.
    pub fn request_briefing(&mut self, target: &str) -> (r: Result<(), ShellCommError>)
        ensures
            none_answering(old(self).peers@, target@) ==> r == Err::<(), ShellCommError>(
                ShellCommError::PeerNotFound,
            ) && *final(self) == *old(self),
            forall|i: int| #[trigger]
                first_answering(old(self).peers@, target@, i) ==> {
                    let p = old(self).peers@[i];
                    if !p.connected {
                        r == Err::<(), ShellCommError>(ShellCommError::PeerUnreachable) && *final(self)
                            == *old(self)
                    } else {
                        &&& r is Ok
                        &&& posted_one(*old(self), *final(self))
                        &&& is_fresh(
                            final(self).outbox@.last(),
                            old(self).local_shell_id@,
                            p.id@,
                            ShellMessageType::Query,
                            "request_briefing"@,
                        )
                    }
                },
    {
        let i = match find_answering(&self.peers, target) {
            None => {
                return Err(ShellCommError::PeerNotFound);
            },
            Some(i) => i,
        };
        if !self.peers[i].is_reachable() {
            return Err(ShellCommError::PeerUnreachable);
        }
        let msg = ShellMessage::new(
            self.local_shell_id.as_str(),
            self.peers[i].id.as_str(),
            ShellMessageType::Query,
            "request_briefing",
        );
        self.outbox.push(msg);
        assert(self.outbox@.drop_last() =~= old(self).outbox@);
        Ok(())
    }

    /// The peer registered under `peer_id`, if any.
    pub fn peer_status(&self, peer_id: &str) -> (r: Option<&PeerShell>)
        ensures
            match r {
                Some(p) => lookup_id(self.peers@, peer_id@) == Some(*p),
                None => lookup_id(self.peers@, peer_id@) is None,
            },
    {
        match find_id(&self.peers, peer_id) {
            Some(i) => {
                proof {
                    lemma_lookup_at(self.peers@, peer_id@, i as int);
                }
                Some(&self.peers[i])
            },
            None => {
                proof {
                    lemma_lookup_none(self.peers@, peer_id@);
                }
                None
            },
        }
    }

    /// Every registered peer, in registration order.
    pub fn list_peers(&self) -> (r: Vec<&PeerShell>)
        ensures
            r@.len() == self.peers@.len(),
            forall|i: int| 0 <= i < r@.len() ==> *#[trigger] r@[i] == self.peers@[i],
    {
        let mut r: Vec<&PeerShell> = Vec::new();
        let mut i: usize = 0;
        while i < self.peers.len()
            invariant
                i <= self.peers@.len(),
                r@.len() == i,
                forall|k: int| 0 <= k < i ==> *#[trigger] r@[k] == self.peers@[k],
            decreases self.peers@.len() - i,
        {
            r.push(&self.peers[i]);
            i = i + 1;
        }
        r
    }
}

/// After registering a peer, looking up its id finds exactly that peer.
pub proof fn law_lookup_after_register(peers: Seq<PeerShell>, p: PeerShell)
    ensures
        lookup_id(peers_after_register(peers, p), p.id@) == Some(p),
{
    let after = peers_after_register(peers, p);
    if exists|i: int| #[trigger] first_with_id(peers, p.id@, i) {
        let i = choose|i: int| #[trigger] first_with_id(peers, p.id@, i);
        assert(first_with_id(after, p.id@, i));
        lemma_lookup_at(after, p.id@, i);
    } else {
        let n = peers.len() as int;
        assert forall|j: int| 0 <= j < n implies (#[trigger] peers[j]).id@ != p.id@ by {
            if peers[j].id@ == p.id@ {
                lemma_some_first_with_id(peers, p.id@, j);
            }
        }
        assert(first_with_id(after, p.id@, n));
        lemma_lookup_at(after, p.id@, n);
    }
}

/// Where some peer has an id, there is a first one.
proof fn lemma_some_first_with_id(peers: Seq<PeerShell>, id: Seq<char>, j: int)
    requires
        0 <= j < peers.len(),
        peers[j].id@ == id,
    ensures
        exists|i: int| #[trigger] first_with_id(peers, id, i),
    decreases j,
{
    if forall|k: int| 0 <= k < j ==> (#[trigger] peers[k]).id@ != id {
        assert(first_with_id(peers, id, j));
    } else {
        let k = choose|k: int| 0 <= k < j && (#[trigger] peers[k]).id@ == id;
        lemma_some_first_with_id(peers, id, k);
    }
}

/// Registering a peer leaves the lookup of every other id unchanged.
pub proof fn law_register_keeps_other_peers(peers: Seq<PeerShell>, p: PeerShell, id: Seq<char>)
    requires
        id != p.id@,
    ensures
        lookup_id(peers_after_register(peers, p), id) == lookup_id(peers, id),
{
    let after = peers_after_register(peers, p);
    if exists|i: int| #[trigger] first_with_id(peers, id, i) {
        let i = choose|i: int| #[trigger] first_with_id(peers, id, i);
        assert(first_with_id(after, id, i));
        lemma_lookup_at(peers, id, i);
        lemma_lookup_at(after, id, i);
    } else {
        assert forall|j: int| 0 <= j < peers.len() implies (#[trigger] peers[j]).id@ != id by {
            if peers[j].id@ == id {
                lemma_some_first_with_id(peers, id, j);
            }
        }
        assert forall|j: int| 0 <= j < after.len() implies (#[trigger] after[j]).id@ != id by {
            if j < peers.len() {
                assert(peers[j].id@ != id);
            }
        }
        lemma_lookup_none(peers, id);
        lemma_lookup_none(after, id);
    }
}

/// Registering a peer keeps the ids of the peers unique.
pub proof fn law_register_keeps_ids_unique(peers: Seq<PeerShell>, p: PeerShell)
    requires
        ids_unique(peers),
    ensures
        ids_unique(peers_after_register(peers, p)),
{
    let after = peers_after_register(peers, p);
    if exists|i: int| #[trigger] first_with_id(peers, p.id@, i) {
        let i = choose|i: int| #[trigger] first_with_id(peers, p.id@, i);
        assert forall|a: int, b: int|
            0 <= a < after.len() && 0 <= b < after.len() && a != b implies (#[trigger] after[a]).id@
            != (#[trigger] after[b]).id@ by {
            if a != i && b != i {
                assert(peers[a].id@ != peers[b].id@);
            } else if a == i {
                assert(peers[i].id@ != peers[b].id@);
            } else {
                assert(peers[a].id@ != peers[i].id@);
            }
        }
    } else {
        assert forall|j: int| 0 <= j < peers.len() implies (#[trigger] peers[j]).id@ != p.id@ by {
            if peers[j].id@ == p.id@ {
                lemma_some_first_with_id(peers, p.id@, j);
            }
        }
        assert forall|a: int, b: int|
            0 <= a < after.len() && 0 <= b < after.len() && a != b implies (#[trigger] after[a]).id@
            != (#[trigger] after[b]).id@ by {
            if a < peers.len() && b < peers.len() {
                assert(peers[a].id@ != peers[b].id@);
            } else if a < peers.len() {
                assert(peers[a].id@ != p.id@);
            } else {
                assert(peers[b].id@ != p.id@);
            }
        }
    }
}

/// Some connected peer has id `id`.
pub open spec fn is_connected_id(peers: Seq<PeerShell>, id: Seq<char>) -> bool {
    exists|i: int| 0 <= i < peers.len() && (#[trigger] peers[i]).connected && peers[i].id@ == id
}

/// A broadcast reaches exactly the connected peers: every id it addresses
/// is a connected peer's, every connected peer's id is addressed, and no
/// more copies are made than there are peers.
pub proof fn law_broadcast_reaches_connected_peers(peers: Seq<PeerShell>)
    ensures
        reachable_ids(peers).len() <= peers.len(),
        forall|k: int| 0 <= k < reachable_ids(peers).len() ==> is_connected_id(peers, #[trigger] reachable_ids(peers)[k]),
        forall|i: int|
            0 <= i < peers.len() && (#[trigger] peers[i]).connected ==> reachable_ids(peers).contains(peers[i].id@),
    decreases peers.len(),
{
    if peers.len() > 0 {
        let rest = peers.drop_last();
        law_broadcast_reaches_connected_peers(rest);
        let ids = reachable_ids(peers);
        let rest_ids = reachable_ids(rest);
        assert forall|k: int| 0 <= k < ids.len() implies is_connected_id(peers, #[trigger] ids[k]) by {
            if k < rest_ids.len() {
                assert(ids[k] == rest_ids[k]);
                assert(is_connected_id(rest, rest_ids[k]));
                let i = choose|i: int| 0 <= i < rest.len() && (#[trigger] rest[i]).connected && rest[i].id@ == rest_ids[k];
                assert(peers[i] == rest[i]);
            } else {
                assert(peers[peers.len() - 1].connected);
            }
        }
        assert forall|i: int| 0 <= i < peers.len() && (#[trigger] peers[i]).connected implies ids.contains(peers[i].id@) by {
            if i < rest.len() {
                assert(rest[i] == peers[i]);
                assert(rest_ids.contains(rest[i].id@));
                let k = choose|k: int| 0 <= k < rest_ids.len() && rest_ids[k] == rest[i].id@;
                assert(ids[k] == rest_ids[k]);
            } else {
                assert(ids[ids.len() - 1] == peers[i].id@);
            }
        }
    }
}

} // verus!
