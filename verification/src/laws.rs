//! The laws the state machine obeys, stated over the transition relation
//! and proved once and for all.
//!
//! The first law — `transition` is total, absorbs every unexpected
//! (status, event) pair and never panics — is `transition`'s own signature:
//! it has no precondition. The laws that relate particular statuses and
//! events to their outcome are stated here.

use crate::run_state::Command;
use crate::run_state::Event;
use crate::run_state::AnnounceEvent;
use crate::run_state::ProtocolEvent;
use crate::run_state::TimeoutEvent;
use crate::run_state::PeerId;
use crate::run_state::RunState;
use crate::run_state::Status;
use crate::run_state::peers_after_connect;
use crate::run_state::peers_after_disconnect;
use crate::run_state::transition_rel;
use vstd::prelude::*;

verus! {

/// Starting from `Stopped`, a `Listening` event always yields `Started`,
/// no commands, and an untouched peer record.
pub proof fn lemma_listening_starts(pre: RunState, post: RunState, cmds: Seq<Command>)
    requires
        transition_rel(pre, Event::Protocol(ProtocolEvent::Listening), post, cmds),
        pre.status is Stopped,
    ensures
        post.status is Started,
        cmds.len() == 0,
        post.connected_peers@ == pre.connected_peers@,
{
}

/// From `Started` with sync on startup disabled, a `Connected` event yields
/// `Online` and no commands, for any peer.
pub proof fn lemma_connect_without_startup_sync_goes_online(
    pre: RunState,
    peer: PeerId,
    post: RunState,
    cmds: Seq<Command>,
)
    requires
        transition_rel(pre, Event::Protocol(ProtocolEvent::Connected(peer)), post, cmds),
        pre.status is Started,
        !pre.config.sync.on_startup,
    ensures
        post.status is Online,
        cmds.len() == 0,
        post.connected_peers@ == peers_after_connect(pre.connected_peers@, peer),
{
}

/// From `Started` with sync on startup enabled, a `Connected` event yields
/// `Syncing` with count 1, and exactly a sync with that peer followed by
/// arming the configured sync timeout.
pub proof fn lemma_connect_with_startup_sync_starts_syncing(
    pre: RunState,
    peer: PeerId,
    post: RunState,
    cmds: Seq<Command>,
)
    requires
        transition_rel(pre, Event::Protocol(ProtocolEvent::Connected(peer)), post, cmds),
        pre.status is Started,
        pre.config.sync.on_startup,
    ensures
        post.status matches Status::Syncing(_, count) && count == 1,
        cmds == seq![
            Command::SyncPeer(peer),
            Command::StartSyncTimeout(pre.config.sync.period),
        ],
{
}

/// From `Syncing` with one slot left before the configured maximum, a
/// `Connected` event yields `Online`, and the last admitted sync is still
/// issued as a command.
pub proof fn lemma_connect_at_last_sync_slot_goes_online(
    pre: RunState,
    peer: PeerId,
    post: RunState,
    cmds: Seq<Command>,
)
    requires
        transition_rel(pre, Event::Protocol(ProtocolEvent::Connected(peer)), post, cmds),
        pre.status matches Status::Syncing(_, syncs) && syncs + 1 == pre.config.sync.max_peers,
    ensures
        post.status is Online,
        cmds == seq![Command::SyncPeer(peer)],
{
}

/// From any `Syncing` state, a `SyncPeriod` timeout always yields `Online`
/// and no commands, regardless of the sync count.
pub proof fn lemma_sync_period_timeout_forces_online(
    pre: RunState,
    post: RunState,
    cmds: Seq<Command>,
)
    requires
        transition_rel(pre, Event::Timeout(TimeoutEvent::SyncPeriod), post, cmds),
        pre.status is Syncing,
    ensures
        post.status is Online,
        cmds.len() == 0,
{
}

/// Disconnecting the sole remaining connected peer yields `Offline` and no
/// commands, from any status.
pub proof fn lemma_disconnect_last_peer_goes_offline(
    pre: RunState,
    peer: PeerId,
    post: RunState,
    cmds: Seq<Command>,
)
    requires
        transition_rel(pre, Event::Protocol(ProtocolEvent::Disconnecting(peer)), post, cmds),
        pre.connected_peers@.contains(peer),
        forall|other: PeerId| pre.connected_peers@.contains(other) ==> other == peer,
    ensures
        post.status is Offline,
        cmds.len() == 0,
{
    let s = pre.connected_peers@;
    assert forall|j: int| 0 <= j < s.len() implies s[j] == peer by {
        assert(s.contains(s[j]));
    }
    lemma_disconnect_removes_all_of_only_peer(s, peer);
}

/// Disconnecting one of several connected peers leaves the status
/// unchanged and issues no commands, from any status.
pub proof fn lemma_disconnect_with_peers_left_keeps_status(
    pre: RunState,
    peer: PeerId,
    other: PeerId,
    post: RunState,
    cmds: Seq<Command>,
)
    requires
        transition_rel(pre, Event::Protocol(ProtocolEvent::Disconnecting(peer)), post, cmds),
        pre.connected_peers@.contains(other),
        other != peer,
    ensures
        post.status == pre.status,
        cmds.len() == 0,
{
    lemma_other_peer_survives_disconnect(pre.connected_peers@, peer, other);
}

/// An `Announce` `Tick` yields exactly one `Announce` command when the
/// status is `Online`, `Started` or `Syncing`, and no commands otherwise;
/// either way the state is untouched.
pub proof fn lemma_announce_tick(pre: RunState, post: RunState, cmds: Seq<Command>)
    requires
        transition_rel(pre, Event::Announce(AnnounceEvent::Tick), post, cmds),
    ensures
        (pre.status is Online || pre.status is Started || pre.status is Syncing)
            <==> cmds == seq![Command::Announce],
        !(pre.status is Online || pre.status is Started || pre.status is Syncing)
            ==> cmds.len() == 0,
        post == pre,
{
    assert(seq![Command::Announce].len() == 1);
}

/// After a disconnect nothing survives of a record in which every entry
/// was the disconnected peer itself.
proof fn lemma_disconnect_removes_all_of_only_peer(s: Seq<PeerId>, peer: PeerId)
    requires
        forall|j: int| 0 <= j < s.len() ==> s[j] == peer,
    ensures
        peers_after_disconnect(s, peer).len() == 0,
    decreases s.len(),
{
    reveal_with_fuel(Seq::filter, 2);
    if s.len() > 0 {
        assert(forall|j: int|
            0 <= j < s.drop_last().len() ==> s.drop_last()[j] == peer);
        lemma_disconnect_removes_all_of_only_peer(s.drop_last(), peer);
        assert(s.last() == peer);
    }
}

/// A disconnect only removes the named peer: any other connected peer is
/// still recorded afterwards.
proof fn lemma_other_peer_survives_disconnect(s: Seq<PeerId>, peer: PeerId, other: PeerId)
    requires
        s.contains(other),
        other != peer,
    ensures
        peers_after_disconnect(s, peer).contains(other),
    decreases s.len(),
{
    reveal_with_fuel(Seq::filter, 2);
    let out = peers_after_disconnect(s, peer);
    if s.last() == other {
        assert(out.last() == other);
        assert(out[out.len() - 1] == other);
        assert(out.contains(other));
    } else {
        let i = choose|i: int| 0 <= i < s.len() && s[i] == other;
        assert(s.drop_last()[i] == other);
        assert(s.drop_last().contains(other));
        lemma_other_peer_survives_disconnect(s.drop_last(), peer, other);
        let sub = peers_after_disconnect(s.drop_last(), peer);
        let j = choose|j: int| 0 <= j < sub.len() && sub[j] == other;
        if s.last() != peer {
            assert(out == sub.push(s.last()));
            assert(out[j] == other);
        } else {
            assert(out == sub);
        }
        assert(out.contains(other));
    }
}

} // verus!

