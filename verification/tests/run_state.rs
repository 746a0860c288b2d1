//! The transition table, one (status, event) pair at a time.

use peer_run_state::run_state::AnnounceEvent;
use peer_run_state::run_state::Command;
use peer_run_state::run_state::Config;
use peer_run_state::run_state::Event;
use peer_run_state::run_state::PeerId;
use peer_run_state::run_state::ProtocolEvent;
use peer_run_state::run_state::RunState;
use peer_run_state::run_state::Status;
use peer_run_state::run_state::SyncConfig;
use peer_run_state::run_state::TimeoutEvent;
use peer_run_state::run_state::DEFAULT_SYNC_MAX_PEERS;
use std::time::Duration;
use std::time::Instant;

#[test]
fn transition_to_started_on_listen() {
    let status = Status::Stopped(Instant::now());
    let mut state = RunState::new(Config::default(), Vec::new(), status);

    let cmds = state.transition(Event::Protocol(ProtocolEvent::Listening));
    assert!(cmds.is_empty());
    assert!(matches!(state.status, Status::Started(_)));
}

#[test]
fn transition_to_online_if_sync_is_disabled() {
    let status = Status::Started(Instant::now());
    let mut state = RunState::new(
        Config {
            sync: SyncConfig {
                on_startup: false,
                ..SyncConfig::default()
            },
            ..Config::default()
        },
        Vec::new(),
        status,
    );

    let cmds = {
        let peer_id = PeerId(1);
        state.transition(Event::Protocol(ProtocolEvent::Connected(peer_id)))
    };
    assert!(cmds.is_empty());
    assert!(matches!(state.status, Status::Online(_)));
}

#[test]
fn transition_to_online_after_sync_max_peers() {
    let status = Status::Syncing(Instant::now(), DEFAULT_SYNC_MAX_PEERS - 1);
    let mut state = RunState::new(Config::default(), Vec::new(), status);

    let _cmds = {
        let peer_id = PeerId(1);
        state.transition(Event::Protocol(ProtocolEvent::Connected(peer_id)))
    };
    assert!(matches!(state.status, Status::Online(_)));
}

#[test]
fn transition_to_online_after_sync_period() {
    let status = Status::Syncing(Instant::now(), 3);
    let mut state = RunState::new(Config::default(), Vec::new(), status);

    let _cmds = state.transition(Event::Timeout(TimeoutEvent::SyncPeriod));
    assert!(matches!(state.status, Status::Online(_)));
}

#[test]
fn transition_to_offline_when_last_peer_disconnects() {
    let peer_id = PeerId(1);
    let status = Status::Online(Instant::now());
    let mut state = RunState::new(Config::default(), vec![peer_id], status);

    let _cmds = state.transition(Event::Protocol(ProtocolEvent::Disconnecting(peer_id)));
    assert!(matches!(state.status, Status::Offline(_)));
}

#[test]
fn issue_sync_command_until_max_peers() {
    let max_peers = 13;
    let status = Status::Started(Instant::now());
    let mut state = RunState::new(
        Config {
            sync: SyncConfig {
                max_peers,
                on_startup: true,
                ..SyncConfig::default()
            },
            ..Config::default()
        },
        Vec::new(),
        status,
    );

    for i in 0..(max_peers - 1) {
        let peer_id = PeerId(i as u64);

        // Expect to sync with each connected peer while below the maximum.
        let cmds = state.transition(Event::Protocol(ProtocolEvent::Connected(peer_id)));
        assert!(!cmds.is_empty(), "expected command");
        match cmds.first() {
            Some(Command::SyncPeer(sync_id)) => assert_eq!(*sync_id, peer_id),
            _ => panic!("expected command"),
        }
        match state.status {
            Status::Syncing(_, syncing_peers) => assert_eq!(i + 1, syncing_peers),
            _ => panic!("expected syncing status"),
        }
    }

    // Issue last sync.
    let cmds = {
        let peer_id = PeerId(100);
        state.transition(Event::Protocol(ProtocolEvent::Connected(peer_id)))
    };
    assert!(!cmds.is_empty(), "expected command");
    assert!(matches!(cmds.first(), Some(Command::SyncPeer(_))));
    // Expect to be online at this point.
    assert!(matches!(state.status, Status::Online(_)));

    // No more syncs should be expected after the maximum of peers have connected.
    let cmd = {
        let peer_id = PeerId(101);
        state.transition(Event::Protocol(ProtocolEvent::Connected(peer_id)))
    };
    assert!(cmd.is_empty(), "should not emit any more commands");
}

#[test]
fn issue_sync_timeout_when_transitioning_to_syncing() {
    let sync_period = Duration::from_secs(60 * 10);
    let status = Status::Started(Instant::now());
    let mut state = RunState::new(
        Config {
            sync: SyncConfig {
                on_startup: true,
                period: sync_period,
                ..SyncConfig::default()
            },
            ..Config::default()
        },
        Vec::new(),
        status,
    );

    let cmds = {
        let peer_id = PeerId(1);
        state.transition(Event::Protocol(ProtocolEvent::Connected(peer_id)))
    };
    match cmds.get(1) {
        Some(Command::StartSyncTimeout(period)) => assert_eq!(*period, sync_period),
        _ => panic!("expected sync timeout command"),
    }
}

#[test]
fn issue_announce_while_online() {
    let status = Status::Online(Instant::now());
    let mut state = RunState::new(Config::default(), Vec::new(), status);
    let cmds = state.transition(Event::Announce(AnnounceEvent::Tick));

    assert!(!cmds.is_empty(), "expected command");
    assert!(matches!(cmds.first(), Some(Command::Announce)));

    let status = Status::Offline(Instant::now());
    let mut state = RunState::new(Config::default(), Vec::new(), status);
    let cmds = state.transition(Event::Announce(AnnounceEvent::Tick));

    assert!(cmds.is_empty(), "expected no command");
}
