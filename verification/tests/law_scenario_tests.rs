use edp::fragmentation::FragmentAssembler;
use edp::builders::AtomKeyMapBuilder;
use edp::errors::Error;
use edp::flags::DistributionFlags;
use edp::pid_allocator::{PidAllocator, MAX_PROCESSES_PER_NODE};
use edp::range::ElixirRange;
use edp::registry::NameRegistry;
use edp::state_machine::{ConnectionState, HandshakeStateMachine};
use edp::types::Creation;
use edp::digest::compute_digest;
use edp::handshake::{Challenge, ChallengeAck, ChallengeReply};
use edp::term::Term;

fn dbg<T: std::fmt::Debug>(t: &T) -> String {
    format!("{:?}", t)
}

#[test]
fn setting_a_key_again_replaces_its_value_in_place() {
    let map = AtomKeyMapBuilder::new()
        .insert("a", Term::Integer(1))
        .insert("b", Term::Integer(2))
        .insert("a", Term::Integer(3))
        .build();
    match map {
        Term::ErlMap(pairs) => {
            assert_eq!(pairs.len(), 2);
            assert_eq!(dbg(&pairs[0].0), dbg(&Term::Atom("a".to_string())));
            assert_eq!(dbg(&pairs[0].1), dbg(&Term::Integer(3)));
            assert_eq!(dbg(&pairs[1].1), dbg(&Term::Integer(2)));
        }
        other => panic!("expected a map, got {:?}", other),
    }
}

#[test]
fn allocated_pids_are_distinct_and_advance() {
    let mut alloc = PidAllocator::new("n@h", 7);
    *alloc.next_id_test_only() = MAX_PROCESSES_PER_NODE - 1;
    let mut seen = Vec::new();
    for _ in 0..4 {
        let pid = alloc.allocate().unwrap();
        assert_eq!(pid.creation, 7);
        assert!(!seen.contains(&(pid.id, pid.serial)));
        seen.push((pid.id, pid.serial));
    }
    assert_eq!(
        seen,
        vec![(MAX_PROCESSES_PER_NODE - 1, 0), (MAX_PROCESSES_PER_NODE, 1), (1, 1), (2, 1)]
    );
}

#[test]
fn every_element_of_a_range_is_contained_in_it() {
    for (first, last, step) in [(1i64, 10i64, 3i64), (10, -4, -5), (5, 5, 1), (-3, 3, 2)] {
        let range = ElixirRange::new(first, last, step);
        let mut it = range.into_iter();
        let mut count = 0usize;
        while let Some(v) = it.next() {
            assert!(range.contains(v));
            count += 1;
        }
        assert_eq!(count, range.len());
    }
    assert!(!ElixirRange::new(1, 10, 3).contains(2));
}

#[test]
fn flag_insert_then_remove_restores_the_mask() {
    let mut flags = DistributionFlags::new(DistributionFlags::PUBLISHED);
    flags.insert(DistributionFlags::DIST_MONITOR);
    assert!(flags.has(DistributionFlags::DIST_MONITOR));
    flags.remove(DistributionFlags::DIST_MONITOR);
    assert_eq!(flags.as_u64(), DistributionFlags::PUBLISHED);
    assert!(DistributionFlags::default_otp26().has_mandatory_otp26());
}

#[test]
fn error_messages_of_library_errors() {
    assert_eq!(Error::ConnectionClosed.to_string(), "Connection closed by peer");
    assert_eq!(Error::AuthenticationFailed.to_string(), "Authentication failed: challenge validation mismatch");
    let e = Error::InvalidStateTransition {
        from: ConnectionState::Connected,
        to: ConnectionState::Connecting,
    };
    assert_eq!(e.to_string(), "Invalid state transition: connected -> connecting");
    assert_eq!(
        Error::MessageTooLarge { size: 10, max: 5 }.to_string(),
        "Message too large: 10 bytes (max 5 bytes)"
    );
}

fn node_pid(id: u32) -> edp::term::Pid {
    edp::term::Pid { node: "n@h".to_string(), id, serial: 0, creation: 1, local_ext_bytes: None }
}

#[test]
fn a_registered_name_is_taken_until_unregistered() {
    let mut names = NameRegistry::new();
    assert!(names.register("logger", node_pid(1)));
    assert!(names.register("store", node_pid(2)));
    assert!(!names.register("logger", node_pid(3)));
    assert_eq!(names.whereis("logger").unwrap().id, 1);
    assert_eq!(names.registered(), vec!["logger".to_string(), "store".to_string()]);
    assert_eq!(names.count(), 2);
    assert!(names.unregister("logger"));
    assert!(!names.unregister("logger"));
    assert!(names.whereis("logger").is_none());
    assert_eq!(names.whereis("store").unwrap().id, 2);
    assert!(names.register("logger", node_pid(4)));
    assert_eq!(names.whereis("logger").unwrap().id, 4);
}

fn collect(range: ElixirRange) -> Vec<i64> {
    let mut it = range.into_iter();
    let mut out = Vec::new();
    while let Some(v) = it.next() {
        out.push(v);
    }
    out
}

#[test]
fn iteration_never_passes_the_last_value_at_the_64_bit_bounds() {
    assert_eq!(collect(ElixirRange::new(i64::MAX - 1, i64::MAX, 2)), vec![i64::MAX - 1]);
    assert_eq!(collect(ElixirRange::new(i64::MIN + 1, i64::MIN, -2)), vec![i64::MIN + 1]);
    assert_eq!(collect(ElixirRange::new(i64::MAX - 5, i64::MAX, 3)), vec![i64::MAX - 5, i64::MAX - 2]);
    let r = ElixirRange::new(i64::MAX - 1, i64::MAX, 2);
    assert!(!r.contains(i64::MAX));
    assert_eq!(r.len(), 1);
}

#[test]
fn expired_sequences_are_removed_by_id() {
    let mut a = FragmentAssembler::new();
    let now = a.now_nanos();
    assert!(a.start_fragment_at(1, 2, None, vec![1], now).is_none());
    assert!(a.add_fragment_at(2, 2, vec![2], now).is_none());
    assert!(a.add_fragment_at(3, 1, vec![3], now).is_none());
    assert_eq!(a.pending_count(), 3);
    assert_eq!(a.remove_expired(&vec![1, 3, 9]), 2);
    assert_eq!(a.pending_count(), 1);
    assert_eq!(a.remove_expired(&vec![]), 0);
    assert_eq!(a.cleanup_expired(), 0);
    assert_eq!(a.pending_count(), 1);
}

fn machine(local: &str) -> HandshakeStateMachine {
    HandshakeStateMachine::new(
        local.to_string(),
        "b@host".to_string(),
        "cookie".to_string(),
        DistributionFlags::default(),
        Creation::new(1),
    )
}

#[test]
fn too_long_name_reports_its_size_and_the_limit() {
    let name = format!("{}@h", "a".repeat(300));
    let mut sm = machine(&name);
    match sm.prepare_send_name() {
        Err(Error::NodeNameTooLong { size, max }) => {
            assert_eq!(size, 302);
            assert_eq!(max, 255);
        }
        other => panic!("expected NodeNameTooLong, got {:?}", other),
    }
    assert_eq!(sm.state(), ConnectionState::SendingName);
}

#[test]
fn refused_status_names_the_status() {
    let mut sm = machine("a@host");
    match sm.handle_status(b"snot_allowed") {
        Err(Error::ConnectionRefused { reason }) => assert_eq!(reason, "Status: not_allowed"),
        other => panic!("expected ConnectionRefused, got {:?}", other),
    }
    match sm.handle_status(b"salive") {
        Err(Error::ConnectionRefused { reason }) => assert_eq!(reason, "Status: alive"),
        other => panic!("expected ConnectionRefused, got {:?}", other),
    }
    assert!(sm.handle_status(b"sok_simultaneous").is_ok());
    assert_eq!(sm.state(), ConnectionState::Disconnected);
}

#[test]
fn contains_answers_on_the_widest_range() {
    let r = ElixirRange::new(i64::MIN, i64::MAX, 1);
    assert!(r.contains(-1));
    assert!(r.contains(-5));
    assert!(r.contains(i64::MIN));
    let d = ElixirRange::new(i64::MAX, i64::MIN, -2);
    assert!(d.contains(i64::MAX));
    assert!(d.contains(i64::MAX - 4));
    assert!(!d.contains(i64::MAX - 1));
}

#[test]
fn iteration_gives_the_elements_then_nothing() {
    let r = ElixirRange::new(1, 10, 3);
    let mut it = r.into_iter();
    let mut seen = Vec::new();
    for _ in 0..10 {
        if let Some(v) = it.next() {
            seen.push(v);
        }
    }
    assert_eq!(seen, vec![1, 4, 7, 10]);
    assert_eq!(seen.len(), r.len());
    assert!(seen.iter().all(|v| r.contains(*v)));
    assert_eq!(it.next(), None);
}

#[test]
fn cleanup_at_a_reading_drops_exactly_the_idle_sequences() {
    let sec: u128 = 1_000_000_000;
    let mut a = FragmentAssembler::with_timeout(std::time::Duration::from_secs(10));
    assert!(a.start_fragment_at(1, 2, None, vec![1], 0).is_none());
    assert!(a.add_fragment_at(2, 2, vec![2], 5 * sec).is_none());
    assert!(a.add_fragment_at(3, 1, vec![3], 9 * sec).is_none());
    // at 15 s: sequence 1 idle 15 s, sequence 2 idle exactly 10 s, 3 idle 6 s
    assert_eq!(a.cleanup_expired_at(15 * sec), 1);
    assert_eq!(a.pending_count(), 2);
    // a fragment refreshes sequence 2
    assert!(a.add_fragment_at(2, 3, vec![4], 14 * sec).is_none());
    assert_eq!(a.cleanup_expired_at(20 * sec), 1);
    assert_eq!(a.pending_count(), 1);
    // a reading before the last update drops nothing
    assert_eq!(a.cleanup_expired_at(0), 0);
    assert_eq!(a.cleanup_expired_at(24 * sec + 1), 1);
    assert_eq!(a.pending_count(), 0);
    let d = FragmentAssembler::new();
    assert_eq!(d.pending_count(), 0);
}

#[test]
fn reply_and_ack_use_the_latest_handled_challenge() {
    let mut sm = machine("a@host");
    assert!(matches!(sm.prepare_challenge_reply(), Err(Error::InvalidStateMessage(_))));
    let flags = DistributionFlags::default();
    let first = Challenge::new(flags, 11, 1, "b@host").encode().unwrap();
    let second = Challenge::new(flags, 22, 1, "b@host").encode().unwrap();
    sm.handle_challenge(&first[2..]).unwrap();
    sm.handle_challenge(&second[2..]).unwrap();
    let reply = sm.prepare_challenge_reply().unwrap();
    let decoded = ChallengeReply::decode(&reply[2..]).unwrap();
    assert_eq!(decoded.digest, compute_digest(22, "cookie"));
    // the ack must carry the digest of the challenge we drew last
    let good = ChallengeAck::new(decoded.challenge, "cookie").encode();
    let bad = ChallengeAck::new(decoded.challenge.wrapping_add(1), "cookie").encode();
    assert!(matches!(sm.handle_challenge_ack(&bad[2..]), Err(Error::AuthenticationFailed)));
    sm.handle_challenge_ack(&good[2..]).unwrap();
    assert_eq!(sm.state(), ConnectionState::Connected);
    sm.disconnect();
    assert!(matches!(sm.prepare_challenge_reply(), Err(Error::InvalidStateMessage(_))));
}
