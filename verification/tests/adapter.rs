use scheduler_adapter::committee::Committee;
use scheduler_adapter::contract::{build_contract_ref, BuildError};
use scheduler_adapter::replay::ReplayScheduler;
use scheduler_adapter::service::{CommitteeFeed, SchedulerService};
use scheduler_adapter::status::{BackendError, StatusCode};
use scheduler_adapter::unary::{construction_failure_outcome, CommitteeRequest, UnaryOutcome};
use scheduler_adapter::watch::{WatchAction, WatchCall, WatchEvent, WatchPhase, WatchRequest};

fn committee(bytes: &[u8]) -> Committee {
    Committee { payload: bytes.to_vec() }
}

fn quiet_backend() -> ReplayScheduler {
    ReplayScheduler {
        committees: Vec::new(),
        resolve_failure: None,
        feed_updates: Vec::new(),
        feed_failure: None,
    }
}

fn drive_to_close(
    feed: &mut scheduler_adapter::replay::ReplayFeed,
    call: &mut WatchCall,
) -> Vec<Vec<u8>> {
    let mut got: Vec<Vec<u8>> = Vec::new();
    loop {
        let ev = feed.next_event();
        match call.on_event(ev) {
            WatchAction::Emit(update) => got.push(update.committee.encoded),
            WatchAction::Close => break,
        }
    }
    got
}

#[test]
fn get_committees_preserves_backend_order_and_count() {
    let mut backend = quiet_backend();
    backend.committees = vec![committee(b"alpha"), committee(b"beta"), committee(b"gamma")];
    let service = SchedulerService::new(backend);
    let reply = service.get_committees(&CommitteeRequest { contract_id: vec![1, 2, 3] });
    match reply {
        UnaryOutcome::Success(snapshot) => {
            let encoded: Vec<Vec<u8>> = snapshot
                .committees
                .into_iter()
                .map(|w| w.encoded)
                .collect();
            assert_eq!(
                encoded,
                vec![b"alpha".to_vec(), b"beta".to_vec(), b"gamma".to_vec()]
            );
        }
        UnaryOutcome::Failure(_) => panic!("expected a snapshot"),
    }
}

#[test]
fn get_committees_with_empty_backend_returns_empty_snapshot() {
    let service = SchedulerService::new(quiet_backend());
    let reply = service.get_committees(&CommitteeRequest { contract_id: vec![42; 32] });
    match reply {
        UnaryOutcome::Success(snapshot) => assert!(snapshot.committees.is_empty()),
        UnaryOutcome::Failure(_) => panic!("an empty resolution is not an error"),
    }
}

#[test]
fn get_committees_maps_backend_failure_to_internal_status() {
    let mut backend = quiet_backend();
    backend.committees = vec![committee(b"never-sent")];
    backend.resolve_failure = Some(BackendError {
        description: String::from("backend exploded"),
    });
    let service = SchedulerService::new(backend);
    let reply = service.get_committees(&CommitteeRequest { contract_id: vec![7] });
    match reply {
        UnaryOutcome::Failure(status) => {
            assert_eq!(status.code, StatusCode::Internal);
            assert!(status.message.contains("backend exploded"));
        }
        UnaryOutcome::Success(_) => panic!("a failing backend must not yield a snapshot"),
    }
}

#[test]
fn construction_failure_becomes_invalid_argument_status() {
    let reply = construction_failure_outcome(BuildError {
        description: String::from("no call could be formed"),
    });
    match reply {
        UnaryOutcome::Failure(status) => {
            assert_eq!(status.code, StatusCode::InvalidArgument);
            assert_eq!(status.message, "no call could be formed");
        }
        UnaryOutcome::Success(_) => panic!("a construction failure is never a snapshot"),
    }
}

#[test]
fn build_contract_ref_copies_bytes_verbatim() {
    let raw = vec![0xde, 0xad, 0xbe, 0xef];
    match build_contract_ref(&raw) {
        Ok(contract) => assert_eq!(contract.id, raw),
        Err(_) => panic!("the builder accepts every byte string today"),
    }
}

#[test]
fn watch_forwards_finite_feed_in_order_then_closes_cleanly() {
    let mut backend = quiet_backend();
    backend.feed_updates = vec![committee(b"u1"), committee(b"u2"), committee(b"u3")];
    let service = SchedulerService::new(backend);
    let (mut feed, mut call) = service.watch_committees(&WatchRequest {});
    assert_eq!(call.phase, WatchPhase::NotStarted);
    let got = drive_to_close(&mut feed, &mut call);
    assert_eq!(got, vec![b"u1".to_vec(), b"u2".to_vec(), b"u3".to_vec()]);
    assert_eq!(call.phase, WatchPhase::Closed);
}

#[test]
fn watch_absorbs_a_stream_failure_after_forwarding() {
    let mut backend = quiet_backend();
    backend.feed_updates = vec![committee(b"u1")];
    backend.feed_failure = Some(BackendError {
        description: String::from("stream broke"),
    });
    let service = SchedulerService::new(backend);
    let (mut feed, mut call) = service.watch_committees(&WatchRequest {});
    let got = drive_to_close(&mut feed, &mut call);
    // the one forwarded item arrives, then only a quiet close: no error kind exists
    assert_eq!(got, vec![b"u1".to_vec()]);
    assert_eq!(call.phase, WatchPhase::Closed);
}

#[test]
fn watch_with_empty_feed_closes_without_items() {
    let service = SchedulerService::new(quiet_backend());
    let (mut feed, mut call) = service.watch_committees(&WatchRequest {});
    let got = drive_to_close(&mut feed, &mut call);
    assert!(got.is_empty());
    assert_eq!(call.phase, WatchPhase::Closed);
}

#[test]
fn concurrent_watchers_each_get_the_full_feed() {
    let mut backend = quiet_backend();
    backend.feed_updates = vec![committee(b"a"), committee(b"b")];
    let service = SchedulerService::new(backend);
    let (mut feed_one, mut call_one) = service.watch_committees(&WatchRequest {});
    let (mut feed_two, mut call_two) = service.watch_committees(&WatchRequest {});
    let mut got_one: Vec<Vec<u8>> = Vec::new();
    let mut got_two: Vec<Vec<u8>> = Vec::new();
    let mut one_open = true;
    let mut two_open = true;
    // interleave the two independent calls event by event
    while one_open || two_open {
        if one_open {
            match call_one.on_event(feed_one.next_event()) {
                WatchAction::Emit(u) => got_one.push(u.committee.encoded),
                WatchAction::Close => one_open = false,
            }
        }
        if two_open {
            match call_two.on_event(feed_two.next_event()) {
                WatchAction::Emit(u) => got_two.push(u.committee.encoded),
                WatchAction::Close => two_open = false,
            }
        }
    }
    assert_eq!(got_one, vec![b"a".to_vec(), b"b".to_vec()]);
    assert_eq!(got_two, vec![b"a".to_vec(), b"b".to_vec()]);
}

#[test]
fn cancelling_one_watcher_leaves_the_other_untouched() {
    let mut backend = quiet_backend();
    backend.feed_updates = vec![committee(b"a"), committee(b"b")];
    let service = SchedulerService::new(backend);
    let (mut feed_one, mut call_one) = service.watch_committees(&WatchRequest {});
    let (mut feed_two, mut call_two) = service.watch_committees(&WatchRequest {});
    // the transport cancels the first call before anything is forwarded
    let action = call_one.on_event(WatchEvent::End);
    assert!(matches!(action, WatchAction::Close));
    assert_eq!(call_one.phase, WatchPhase::Closed);
    // the second call still sees the whole feed
    let got_two = drive_to_close(&mut feed_two, &mut call_two);
    assert_eq!(got_two, vec![b"a".to_vec(), b"b".to_vec()]);
    // and the cancelled one never emits again, even for a late update
    let late = call_one.on_event(feed_one.next_event());
    assert!(matches!(late, WatchAction::Close));
}

#[test]
fn closed_call_emits_nothing_for_any_later_event() {
    let mut call = WatchCall::new();
    assert!(matches!(call.on_event(WatchEvent::End), WatchAction::Close));
    assert_eq!(call.phase, WatchPhase::Closed);
    let after = call.on_event(WatchEvent::Update(committee(b"late")));
    assert!(matches!(after, WatchAction::Close));
    assert_eq!(call.phase, WatchPhase::Closed);
    let failed = call.on_event(WatchEvent::Failed(BackendError {
        description: String::from("ignored"),
    }));
    assert!(matches!(failed, WatchAction::Close));
}

#[test]
fn replay_feed_repeats_its_terminal_event() {
    let mut backend = quiet_backend();
    backend.feed_failure = Some(BackendError {
        description: String::from("gone"),
    });
    let mut feed = {
        let service = SchedulerService::new(backend);
        service.watch_committees(&WatchRequest {}).0
    };
    for _ in 0..3 {
        match feed.next_event() {
            WatchEvent::Failed(e) => assert_eq!(e.description, "gone"),
            _ => panic!("the scripted terminal event is a failure"),
        }
    }
}
