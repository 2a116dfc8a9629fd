use std::collections::BTreeSet;

use gh_alfred::gh_client::RepoPageRead;
use gh_alfred::sync::{SyncAction, SyncError, SyncEvent, SyncRun};

fn page(names: &[&str], cursor: Option<&str>, delay: Option<u64>) -> RepoPageRead {
    RepoPageRead {
        repos: names.iter().map(|n| n.to_string()).collect(),
        end_cursor: cursor.map(|c| c.to_string()),
        delay,
    }
}

/// What a scripted driver saw while running a refresh.
struct Trace {
    requests: Vec<Option<String>>,
    batches: Vec<Vec<String>>,
    waits: Vec<u64>,
    signals: usize,
    store: BTreeSet<String>,
    outcome: Result<(), SyncError>,
}

/// Drives a run: the n-th fetch answers with `pages[n]` (an `Err` is a
/// failed fetch), and the n-th commit fails when `persist_ok[n]` is false.
fn drive(pages: Vec<Result<RepoPageRead, ()>>, persist_ok: Vec<bool>, store: BTreeSet<String>) -> Trace {
    let mut pages = pages.into_iter();
    let mut persist_ok = persist_ok.into_iter();
    let mut trace = Trace { requests: vec![], batches: vec![], waits: vec![], signals: 0, store, outcome: Ok(()) };
    let (mut run, mut action) = SyncRun::start();
    loop {
        let event = match action {
            SyncAction::FetchPage(after) => {
                trace.requests.push(after);
                match pages.next().expect("no more scripted pages") {
                    Ok(p) => SyncEvent::PageFetched(p),
                    Err(()) => SyncEvent::FetchFailed,
                }
            }
            SyncAction::PersistBatch(batch) => {
                if persist_ok.next().unwrap_or(true) {
                    trace.store.extend(batch.iter().cloned());
                    trace.batches.push(batch);
                    SyncEvent::BatchPersisted
                } else {
                    SyncEvent::PersistFailed
                }
            }
            SyncAction::Wait(ms) => {
                trace.waits.push(ms);
                SyncEvent::WaitOver
            }
            SyncAction::Finish => break,
            SyncAction::Abort(e) => {
                trace.outcome = Err(e);
                break;
            }
        };
        if run.signal(&event).is_some() {
            trace.signals += 1;
        }
        action = run.step(event);
    }
    assert!(run.is_over());
    trace
}

fn names(v: &[&str]) -> BTreeSet<String> {
    v.iter().map(|n| n.to_string()).collect()
}

#[test]
fn pagination_stops_after_page_without_cursor() {
    let t = drive(
        vec![Ok(page(&["a/1", "a/2"], Some("B"), None)), Ok(page(&["b/1"], None, None))],
        vec![],
        BTreeSet::new(),
    );
    assert_eq!(t.requests, vec![None, Some("B".to_string())]);
    assert_eq!(t.batches.len(), 2);
    assert_eq!(t.signals, 2);
    assert_eq!(t.store, names(&["a/1", "a/2", "b/1"]));
    assert!(t.waits.is_empty());
    assert_eq!(t.outcome, Ok(()));
}

#[test]
fn rate_limit_wait_comes_before_next_request() {
    let (mut run, first) = SyncRun::start();
    assert!(matches!(first, SyncAction::FetchPage(None)));
    let a = run.step(SyncEvent::PageFetched(page(&["a/1"], Some("B"), Some(2_000))));
    assert!(matches!(a, SyncAction::PersistBatch(ref b) if b == &vec!["a/1".to_string()]));
    let a = run.step(SyncEvent::BatchPersisted);
    assert!(matches!(a, SyncAction::Wait(2_000)));
    let a = run.step(SyncEvent::WaitOver);
    assert!(matches!(a, SyncAction::FetchPage(Some(ref c)) if c == "B"));
    let a = run.step(SyncEvent::PageFetched(page(&["b/1"], None, None)));
    assert!(matches!(a, SyncAction::PersistBatch(_)));
    let a = run.step(SyncEvent::BatchPersisted);
    assert!(matches!(a, SyncAction::Finish));
    assert!(run.is_over());
}

#[test]
fn second_of_three_pages_fails_to_persist() {
    let t = drive(
        vec![
            Ok(page(&["a/1", "a/2"], Some("B"), None)),
            Ok(page(&["b/1"], Some("C"), None)),
            Ok(page(&["c/1"], None, None)),
        ],
        vec![true, false, true],
        BTreeSet::new(),
    );
    assert_eq!(t.outcome, Err(SyncError::Persist));
    assert_eq!(t.store, names(&["a/1", "a/2"]));
    assert_eq!(t.signals, 1);
    assert_eq!(t.requests.len(), 2);
}

#[test]
fn fetch_failure_aborts_and_keeps_earlier_pages() {
    let t = drive(vec![Ok(page(&["a/1"], Some("B"), None)), Err(())], vec![], BTreeSet::new());
    assert_eq!(t.outcome, Err(SyncError::Fetch));
    assert_eq!(t.store, names(&["a/1"]));
}

#[test]
fn empty_page_is_skipped() {
    let t = drive(
        vec![Ok(page(&[], Some("B"), None)), Ok(page(&["b/1"], None, None))],
        vec![],
        BTreeSet::new(),
    );
    assert_eq!(t.batches, vec![vec!["b/1".to_string()]]);
    assert_eq!(t.signals, 1);
    assert_eq!(t.requests, vec![None, Some("B".to_string())]);
    assert_eq!(t.outcome, Ok(()));
}

#[test]
fn empty_last_page_finishes() {
    let t = drive(vec![Ok(page(&[], None, Some(10)))], vec![], BTreeSet::new());
    assert!(t.batches.is_empty());
    assert!(t.waits.is_empty());
    assert_eq!(t.outcome, Ok(()));
}

#[test]
fn same_name_twice_is_one_row() {
    let first = drive(
        vec![Ok(page(&["x/dup"], Some("B"), None)), Ok(page(&["x/dup", "y/1"], None, None))],
        vec![],
        BTreeSet::new(),
    );
    assert_eq!(first.batches.len(), 2);
    let second = drive(vec![Ok(page(&["x/dup"], None, None))], vec![], first.store);
    assert_eq!(second.store, names(&["x/dup", "y/1"]));
}

#[test]
fn out_of_order_event_fails_run() {
    let (mut run, _) = SyncRun::start();
    assert!(matches!(run.step(SyncEvent::BatchPersisted), SyncAction::Abort(SyncError::OutOfOrder)));
    assert!(run.is_over());
    assert!(matches!(run.step(SyncEvent::WaitOver), SyncAction::Abort(SyncError::OutOfOrder)));
}
