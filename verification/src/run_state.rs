//! The lifecycle state machine: statuses, events, commands and the
//! transition function that folds one event into the current state.

use std::time::Duration;
use std::time::Instant;
use vstd::prelude::*;

verus! {

/// Identifier of a remote peer: an opaque, comparable value handed in by the
/// network layer together with connection events.
#[derive(Clone, Copy, Debug, PartialEq, Eq, Structural)]
pub struct PeerId(pub u64);

/// Default number of peers a full sync is attempted with upon startup.
pub const DEFAULT_SYNC_MAX_PEERS: usize = 5;

/// Instructions to issue side-effectful operations which are the results
/// from state transitions. The machine never executes them itself.
#[derive(Debug, PartialEq)]
pub enum Command {
    /// Start one announcement broadcast cycle.
    Announce,
    /// Initiate a full sync with the given peer.
    SyncPeer(PeerId),
    /// Arm a one-shot sync timeout of the given duration.
    StartSyncTimeout(Duration),
}

/// Significant events that occur during the peer's lifetime.
#[derive(Clone, Copy, Debug)]
pub enum Event {
    /// Announcement subroutine lifecycle events.
    Announce(AnnounceEvent),
    /// Events from the underlying network protocol.
    Protocol(ProtocolEvent),
    /// Lifecycle events during peer sync operations.
    PeerSync(SyncEvent),
    /// Scheduled timeouts which can occur.
    Timeout(TimeoutEvent),
}

/// Events from the underlying network protocol.
#[derive(Clone, Copy, Debug)]
pub enum ProtocolEvent {
    /// The local peer started listening on its socket.
    Listening,
    /// A connection to the given remote peer was established.
    Connected(PeerId),
    /// The connection to the given remote peer is going away.
    Disconnecting(PeerId),
}

/// Announcement subroutine lifecycle events.
#[derive(Clone, Copy, Debug)]
pub enum AnnounceEvent {
    /// Operation failed.
    Failed,
    /// Operation succeeded and emitted the given number of updates.
    Succeeded(usize),
    /// The ticker duration has elapsed.
    Tick,
}

/// Lifecycle events during peer sync operations.
#[derive(Clone, Copy, Debug)]
pub enum SyncEvent {
    /// A sync has been initiated for the given peer.
    Started(PeerId),
    /// A sync has failed for the given peer.
    Failed(PeerId),
    /// A sync has succeeded for the given peer.
    Succeeded(PeerId),
}

/// Scheduled timeouts which can occur.
#[derive(Clone, Copy, Debug)]
pub enum TimeoutEvent {
    /// The grace period is over: go online no matter how many syncs have
    /// succeeded.
    SyncPeriod,
}

/// The current status of the local peer and its relation to the network.
/// Each variant carries the instant it was entered; the instants are
/// informational and never drive a transition.
#[derive(Clone, Copy, Debug)]
pub enum Status {
    /// Nothing is set up, not even a socket to listen on.
    Stopped(Instant),
    /// The local peer is listening on a socket but has not connected to any
    /// peers yet.
    Started(Instant),
    /// The local peer lost its connections to all its peers.
    Offline(Instant),
    /// Phase where the local peer tries to get up to date, together with the
    /// number of peers it is syncing with.
    Syncing(Instant, usize),
    /// The local peer is operational and is able to interact with the peers
    /// it has connected to.
    Online(Instant),
}

/// Set of knobs to change the behaviour of the state machine.
pub struct Config {
    /// Set of knobs to alter announce behaviour.
    pub announce: AnnounceConfig,
    /// Set of knobs to alter sync behaviour.
    pub sync: SyncConfig,
}

/// Set of knobs to alter announce behaviour.
pub struct AnnounceConfig {
    /// Advisory period the external ticker is expected to use between
    /// announcement runs; not enforced by this machine.
    pub interval: Duration,
}

/// Set of knobs to alter sync behaviour.
pub struct SyncConfig {
    /// Number of peers that a full sync is attempted with upon startup.
    pub max_peers: usize,
    /// Enables the syncing stage when coming online.
    pub on_startup: bool,
    /// Duration until the local peer goes online regardless of if and how
    /// many syncs have succeeded.
    pub period: Duration,
}

impl Default for Config {
    /// Defaults are policy choices of the embedding application: sync on
    /// startup is disabled and at most `DEFAULT_SYNC_MAX_PEERS` syncs are
    /// attempted.
    fn default() -> (config: Self)
        ensures
            config.sync.max_peers == DEFAULT_SYNC_MAX_PEERS,
            !config.sync.on_startup,
    {
        Self { announce: AnnounceConfig::default(), sync: SyncConfig::default() }
    }
}

impl Default for AnnounceConfig {
    /// By default an announcement run is expected every 60 seconds; the
    /// interval is advisory, so nothing further is claimed of it.
    fn default() -> (config: Self)
    {
        Self { interval: Duration::from_secs(60) }
    }
}

impl Default for SyncConfig {
    /// By default the syncing stage is skipped, at most
    /// `DEFAULT_SYNC_MAX_PEERS` syncs are attempted and the sync period
    /// is 5 seconds.
    fn default() -> (config: Self)
        ensures
            config.max_peers == DEFAULT_SYNC_MAX_PEERS,
            !config.on_startup,
    {
        Self {
            max_peers: DEFAULT_SYNC_MAX_PEERS,
            on_startup: false,
            period: Duration::from_secs(5),
        }
    }
}

/// The connected-peer sequence after a `Connected(peer)` event was folded
/// in: the peer is appended unless it is already present.
pub open spec fn peers_after_connect(peers: Seq<PeerId>, peer: PeerId) -> Seq<PeerId> {
    if peers.contains(peer) {
        peers
    } else {
        peers.push(peer)
    }
}

/// The connected-peer sequence after a `Disconnecting(peer)` event was
/// folded in: every occurrence of the peer is gone, the rest keeps its
/// order.
pub open spec fn peers_after_disconnect(peers: Seq<PeerId>, peer: PeerId) -> Seq<PeerId> {
    peers.filter(|q: PeerId| q != peer)
}

/// An absorbed event: the state is untouched and no command is issued.
pub open spec fn no_op(pre: RunState, post: RunState, cmds: Seq<Command>) -> bool {
    &&& post == pre
    &&& cmds == Seq::<Command>::empty()
}

/// The transition table: how one event relates the state before a call of
/// `transition` to the state after it and to the commands returned.
///
/// The relation is deterministic except for the instants stamped into newly
/// entered statuses, which come from the clock. Every (status, event) pair
/// not listed here is absorbed as a no-op: the machine is total and treats
/// unexpected orderings as benign.
pub open spec fn transition_rel(
    pre: RunState,
    event: Event,
    post: RunState,
    cmds: Seq<Command>,
) -> bool {
    &&& post.config == pre.config
    &&& match (pre.status, event) {
        // Once we are listening, go from `Stopped` to `Started`.
        (Status::Stopped(_), Event::Protocol(ProtocolEvent::Listening)) => {
            &&& post.status is Started
            &&& post.connected_peers@ == pre.connected_peers@
            &&& cmds == Seq::<Command>::empty()
        },
        // First incoming peer: start syncing with it if configured to sync
        // on startup, otherwise go online straight away.
        (Status::Started(_), Event::Protocol(ProtocolEvent::Connected(peer))) => {
            &&& post.connected_peers@ == peers_after_connect(pre.connected_peers@, peer)
            &&& if pre.config.sync.on_startup {
                &&& post.status matches Status::Syncing(_, count) && count == 1
                &&& cmds == seq![
                    Command::SyncPeer(peer),
                    Command::StartSyncTimeout(pre.config.sync.period),
                ]
            } else {
                &&& post.status is Online
                &&& cmds == Seq::<Command>::empty()
            }
        },
        // Further peers while syncing: sync with each until the configured
        // maximum is reached, then go online. At the maximum, connections
        // are absorbed until a later status change.
        (Status::Syncing(since, syncs), Event::Protocol(ProtocolEvent::Connected(peer))) => {
            if syncs < pre.config.sync.max_peers {
                &&& post.connected_peers@ == peers_after_connect(pre.connected_peers@, peer)
                &&& if syncs + 1 == pre.config.sync.max_peers {
                    post.status is Online
                } else {
                    post.status == Status::Syncing(since, (syncs + 1) as usize)
                }
                &&& cmds == seq![Command::SyncPeer(peer)]
            } else {
                no_op(pre, post, cmds)
            }
        },
        // The sync period elapsed: go online no matter how many syncs
        // have happened.
        (Status::Syncing(_, _), Event::Timeout(TimeoutEvent::SyncPeriod)) => {
            &&& post.status is Online
            &&& post.connected_peers@ == pre.connected_peers@
            &&& cmds == Seq::<Command>::empty()
        },
        // A peer disconnected, in any status: drop it, and go offline once
        // no connected peer is left.
        (_, Event::Protocol(ProtocolEvent::Disconnecting(peer))) => {
            let remaining = peers_after_disconnect(pre.connected_peers@, peer);
            &&& post.connected_peers@ == remaining
            &&& if remaining.len() == 0 {
                post.status is Offline
            } else {
                post.status == pre.status
            }
            &&& cmds == Seq::<Command>::empty()
        },
        // Announce new updates while the peer is started, syncing or
        // online; never while stopped or offline.
        (
            Status::Online(_) | Status::Started(_) | Status::Syncing(_, _),
            Event::Announce(AnnounceEvent::Tick),
        ) => {
            &&& post == pre
            &&& cmds == seq![Command::Announce]
        },
        // Everything else is absorbed.
        _ => no_op(pre, post, cmds),
    }
}

/// State kept for a running local peer.
pub struct RunState {
    /// Configuration to change how input events are interpreted.
    pub config: Config,
    /// Remote peers that have an active connection, without duplicates as
    /// long as it is only mutated through `transition`.
    pub connected_peers: Vec<PeerId>,
    /// Current internal status.
    pub status: Status,
}

impl RunState {
    /// Constructs a new state from its parts.
    pub fn new(config: Config, connected_peers: Vec<PeerId>, status: Status) -> (state: Self)
        ensures
            state.config == config,
            state.connected_peers == connected_peers,
            state.status == status,
    {
        Self { config, connected_peers, status }
    }

    /// Constructs the initial state for the given configuration: stopped,
    /// with no connected peers.
    pub fn from(config: Config) -> (state: Self)
        ensures
            state.config == config,
            state.connected_peers@.len() == 0,
            state.status is Stopped,
    {
        Self {
            config,
            connected_peers: Vec::new(),
            status: Status::Stopped(Instant::now()),
        }
    }

    /// Applies the `event` and based on the current state transforms to the
    /// new state and in some cases produces commands which should be
    /// executed in the appropriate subroutines, in the order returned.
    ///
    /// The machine is total: it has no precondition, absorbs every
    /// unexpected (status, event) pair as a no-op, and never panics.
    pub fn transition(&mut self, event: Event) -> (cmds: Vec<Command>)
        ensures
            transition_rel(*old(self), event, *final(self), cmds@),
    {
        let status = self.status;
        match (status, event) {
            // Go from `Stopped` to `Started` once we are listening.
            (Status::Stopped(_), Event::Protocol(ProtocolEvent::Listening)) => {
                self.status = Status::Started(Instant::now());

                Vec::new()
            },
            // Sync with the first incoming peer in case the peer is
            // configured to sync on startup, otherwise go online straight
            // away.
            (Status::Started(_), Event::Protocol(ProtocolEvent::Connected(peer_id))) => {
                insert_peer(&mut self.connected_peers, peer_id);

                if self.config.sync.on_startup {
                    self.status = Status::Syncing(Instant::now(), 1);

                    let mut cmds: Vec<Command> = Vec::new();
                    cmds.push(Command::SyncPeer(peer_id));
                    cmds.push(Command::StartSyncTimeout(self.config.sync.period));
                    proof {
                        assert(cmds@ =~= seq![
                            Command::SyncPeer(peer_id),
                            Command::StartSyncTimeout(old(self).config.sync.period),
                        ]);
                    }
                    cmds
                } else {
                    self.status = Status::Online(Instant::now());

                    Vec::new()
                }
            },
            // Sync until the configured maximum of peers is reached.
            (Status::Syncing(since, syncs), Event::Protocol(ProtocolEvent::Connected(peer_id))) => {
                if syncs < self.config.sync.max_peers {
                    insert_peer(&mut self.connected_peers, peer_id);
                    if syncs + 1 == self.config.sync.max_peers {
                        self.status = Status::Online(Instant::now());
                    } else {
                        self.status = Status::Syncing(since, syncs + 1);
                    }

                    let mut cmds: Vec<Command> = Vec::new();
                    cmds.push(Command::SyncPeer(peer_id));
                    proof {
                        assert(cmds@ =~= seq![Command::SyncPeer(peer_id)]);
                    }
                    cmds
                } else {
                    Vec::new()
                }
            },
            // Go online if we exceed the sync period.
            (Status::Syncing(_, _), Event::Timeout(TimeoutEvent::SyncPeriod)) => {
                self.status = Status::Online(Instant::now());

                Vec::new()
            },
            // Remove a peer that just disconnected, and go offline if no
            // connected peer is left.
            (_, Event::Protocol(ProtocolEvent::Disconnecting(peer_id))) => {
                remove_peer(&mut self.connected_peers, peer_id);

                if self.connected_peers.len() == 0 {
                    self.status = Status::Offline(Instant::now());
                }

                Vec::new()
            },
            // Announce new updates while the peer is started, syncing or
            // online.
            (
                Status::Online(_) | Status::Started(_) | Status::Syncing(_, _),
                Event::Announce(AnnounceEvent::Tick),
            ) => {
                let mut cmds: Vec<Command> = Vec::new();
                cmds.push(Command::Announce);
                proof {
                    assert(cmds@ =~= seq![Command::Announce]);
                }
                cmds
            },
            _ => Vec::new(),
        }
    }
}

/// Whether the peer is already recorded as connected.
fn contains_peer(peers: &Vec<PeerId>, peer: PeerId) -> (found: bool)
    ensures
        found == peers@.contains(peer),
{
    let mut i: usize = 0;
    while i < peers.len()
        invariant
            i <= peers@.len(),
            forall|j: int| 0 <= j < i ==> peers@[j] != peer,
        decreases peers@.len() - i,
    {
        if peers[i] == peer {
            return true;
        }
        i = i + 1;
    }
    false
}

/// Records the peer as connected, keeping the record free of duplicates.
fn insert_peer(peers: &mut Vec<PeerId>, peer: PeerId)
    ensures
        final(peers)@ == peers_after_connect(old(peers)@, peer),
{
    if !contains_peer(&*peers, peer) {
        peers.push(peer);
    }
}

/// Drops every record of the peer, keeping the order of the rest.
fn remove_peer(peers: &mut Vec<PeerId>, peer: PeerId)
    ensures
        final(peers)@ == peers_after_disconnect(old(peers)@, peer),
{
    let ghost orig: Seq<PeerId> = peers@;
    let mut kept: Vec<PeerId> = Vec::new();
    let mut i: usize = 0;
    while i < peers.len()
        invariant
            i <= peers@.len(),
            peers@ == orig,
            kept@ == peers_after_disconnect(orig.subrange(0, i as int), peer),
        decreases peers@.len() - i,
    {
        let q = peers[i];
        if q != peer {
            kept.push(q);
        }
        proof {
            reveal_with_fuel(Seq::filter, 2);
            assert(orig.subrange(0, i as int + 1).drop_last() =~= orig.subrange(0, i as int));
            assert(orig.subrange(0, i as int + 1).last() == orig[i as int]);
            assert(kept@ == peers_after_disconnect(orig.subrange(0, i as int + 1), peer));
        }
        i = i + 1;
    }
    proof {
        assert(orig.subrange(0, orig.len() as int) =~= orig);
    }
    *peers = kept;
}

} // verus!
