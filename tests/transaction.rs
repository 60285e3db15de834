use config_txn::{
    ConfigGuard, IProfiles, NoDraftError, PrfItem, Snapshot, ReconfigureError, RollbackError,
    TeardownReport, Transaction, TransactionError, TxPhase, TxStep, VersionedStore,
};

fn item(uid: &str) -> PrfItem {
    PrfItem { uid: uid.to_string(), name: format!("{} profile", uid) }
}

fn profiles(current: &str, uids: &[&str]) -> IProfiles {
    IProfiles {
        current: Some(current.to_string()),
        items: Some(uids.iter().map(|u| item(u)).collect()),
    }
}

fn uids(p: &IProfiles) -> Vec<String> {
    p.items.as_ref().map(|v| v.iter().map(|i| i.uid.clone()).collect()).unwrap_or_default()
}

fn same(a: &IProfiles, b: &IProfiles) -> bool {
    a.current == b.current && uids(a) == uids(b)
}

/// Runs one transaction; `answers` are the process's replies, in order.
fn run(
    store: &mut VersionedStore<IProfiles>,
    doc: IProfiles,
    answers: Vec<Result<(), ReconfigureError>>,
) -> (Result<(), TransactionError>, TxPhase, TeardownReport, Vec<IProfiles>) {
    let (mut tx, mut to_apply) = Transaction::begin(store, doc);
    let mut applied = Vec::new();
    let mut answers = answers.into_iter();
    loop {
        let answer = answers.next().expect("the process was asked more often than expected");
        applied.push(to_apply);
        match tx.advance(store, answer) {
            TxStep::Apply(next) => to_apply = next,
            TxStep::Committed => {
                return (Ok(()), tx.phase(), tx.guard().teardown(), applied);
            }
            TxStep::Aborted(e) => {
                return (Err(e), tx.phase(), tx.guard().teardown(), applied);
            }
        }
    }
}

#[test]
fn rejected_apply_rolls_back_to_profile_a() {
    let mut store = VersionedStore::new(profiles("profileA", &["A"]));
    let (r, phase, report, applied) = run(
        &mut store,
        profiles("profileB", &["A", "B"]),
        vec![Err(ReconfigureError::Rejected("bad schema".to_string())), Ok(())],
    );
    let err = r.unwrap_err();
    let msg = err.message();
    assert!(msg.contains("bad schema"));
    assert!(!msg.contains("rollback failed"));
    assert_eq!(err, TransactionError::Failed(ReconfigureError::Rejected("bad schema".to_string())));
    assert_eq!(store.latest().current.as_deref(), Some("profileA"));
    assert_eq!(uids(&store.latest()), vec!["A".to_string()]);
    assert!(store.draft_snapshot().is_none());
    assert_eq!(phase, TxPhase::RolledBack);
    assert_eq!(report, TeardownReport::Settled);
    assert_eq!(applied.len(), 2);
    assert_eq!(applied[0].current.as_deref(), Some("profileB"));
    assert_eq!(applied[1].current.as_deref(), Some("profileA"));
}

#[test]
fn rejected_apply_with_unreachable_rollback_reports_both() {
    let mut store = VersionedStore::new(profiles("profileA", &["A"]));
    let (r, phase, report, _) = run(
        &mut store,
        profiles("profileB", &["A", "B"]),
        vec![Err(ReconfigureError::Rejected("bad schema".to_string())), Err(ReconfigureError::Unreachable)],
    );
    let err = r.unwrap_err();
    let msg = err.message();
    assert!(msg.contains("Rejected: bad schema"));
    assert!(msg.contains("rollback failed: Unreachable"));
    assert!(msg.find("bad schema").unwrap() < msg.find("rollback failed").unwrap());
    assert_eq!(
        err,
        TransactionError::RollbackFailed {
            cause: ReconfigureError::Rejected("bad schema".to_string()),
            rollback: RollbackError { cause: ReconfigureError::Unreachable },
        }
    );
    assert_eq!(store.latest().current.as_deref(), Some("profileA"));
    let draft = store.draft_snapshot().expect("the original stays pending");
    assert_eq!(draft.current.as_deref(), Some("profileA"));
    assert!(same(&draft, &store.latest()));
    assert_eq!(phase, TxPhase::RolledBack);
    match report {
        TeardownReport::Unresolved(m) => assert!(m.contains("Unreachable")),
        other => panic!("unexpected teardown report {:?}", other),
    }
}

#[test]
fn accepted_apply_commits_and_repeats() {
    let mut store = VersionedStore::new(profiles("profileA", &["A"]));
    let d = profiles("profileB", &["A", "B"]);
    let (r, phase, report, applied) = run(&mut store, d.snapshot(), vec![Ok(())]);
    assert_eq!(r, Ok(()));
    assert_eq!(phase, TxPhase::Committed);
    assert_eq!(report, TeardownReport::Settled);
    assert_eq!(applied.len(), 1);
    assert!(same(&store.latest(), &d));
    assert!(store.draft_snapshot().is_none());
    let (r, _, _, _) = run(&mut store, d.snapshot(), vec![Ok(())]);
    assert_eq!(r, Ok(()));
    assert!(same(&store.latest(), &d));
}

#[test]
fn failed_transaction_keeps_earlier_commit() {
    let mut store = VersionedStore::new(profiles("profileA", &["A"]));
    let (r, _, _, _) = run(&mut store, profiles("profileB", &["A", "B"]), vec![Ok(())]);
    assert_eq!(r, Ok(()));
    let (r, _, _, _) = run(
        &mut store,
        profiles("profileC", &["C"]),
        vec![Err(ReconfigureError::Timeout), Ok(())],
    );
    assert_eq!(r, Err(TransactionError::Failed(ReconfigureError::Timeout)));
    assert_eq!(store.latest().current.as_deref(), Some("profileB"));
    assert_eq!(uids(&store.latest()), vec!["A".to_string(), "B".to_string()]);
}

#[test]
fn failed_transaction_with_failed_rollback_keeps_earlier_commit() {
    let mut store = VersionedStore::new(profiles("profileA", &["A"]));
    let (r, _, _, _) = run(&mut store, profiles("profileB", &["B"]), vec![Ok(())]);
    assert_eq!(r, Ok(()));
    let (r, _, _, _) = run(
        &mut store,
        profiles("profileC", &["C"]),
        vec![Err(ReconfigureError::Unreachable), Err(ReconfigureError::Timeout)],
    );
    assert!(matches!(r, Err(TransactionError::RollbackFailed { .. })));
    assert_eq!(store.latest().current.as_deref(), Some("profileB"));
    assert_eq!(store.draft_snapshot().unwrap().current.as_deref(), Some("profileB"));
}

#[test]
fn discarded_guard_is_inert() {
    let mut store = VersionedStore::new(profiles("profileA", &["A"]));
    store.stage(profiles("profileB", &["B"]));
    let mut guard = ConfigGuard::new(store.latest());
    assert!(guard.is_armed());
    guard.discard();
    assert!(!guard.is_armed());
    assert!(guard.rollback(&mut store).is_none());
    assert_eq!(store.latest().current.as_deref(), Some("profileA"));
    assert_eq!(store.draft_snapshot().unwrap().current.as_deref(), Some("profileB"));
    assert_eq!(guard.teardown(), TeardownReport::Settled);
}

#[test]
fn untouched_guard_reports_never_attempted() {
    let guard = ConfigGuard::new(profiles("profileA", &["A"]));
    assert_eq!(guard.teardown(), TeardownReport::NeverAttempted);
}

#[test]
fn guard_rollback_restages_original() {
    let mut store = VersionedStore::new(profiles("profileA", &["A"]));
    let mut guard = ConfigGuard::new(store.latest());
    store.stage(profiles("profileB", &["A", "B"]));
    let doc = guard.rollback(&mut store).expect("a rollback is owed");
    assert_eq!(doc.current.as_deref(), Some("profileA"));
    assert_eq!(store.draft_snapshot().unwrap().current.as_deref(), Some("profileA"));
    assert_eq!(guard.complete_rollback(&mut store, Ok(())), Ok(()));
    assert!(store.draft_snapshot().is_none());
    assert!(!guard.is_armed());
    assert_eq!(guard.teardown(), TeardownReport::Settled);
}

#[test]
fn guard_failed_rollback_records_error() {
    let mut store = VersionedStore::new(profiles("profileA", &["A"]));
    let mut guard = ConfigGuard::new(store.latest());
    store.stage(profiles("profileB", &["B"]));
    guard.rollback(&mut store).unwrap();
    let r = guard.complete_rollback(&mut store, Err(ReconfigureError::Timeout));
    assert_eq!(r, Err(RollbackError { cause: ReconfigureError::Timeout }));
    assert!(guard.is_armed());
    assert_eq!(
        guard.teardown(),
        TeardownReport::Unresolved(
            "rollback failed: Timeout: the core process did not answer in time".to_string()
        )
    );
    assert_eq!(store.latest().current.as_deref(), Some("profileA"));
    assert_eq!(store.draft_snapshot().unwrap().current.as_deref(), Some("profileA"));
}

#[test]
fn commit_without_draft_fails() {
    let mut store = VersionedStore::new(profiles("profileA", &["A"]));
    assert_eq!(store.commit(), Err(NoDraftError));
    assert_eq!(store.latest().current.as_deref(), Some("profileA"));
}

#[test]
fn stage_overwrites_and_commit_moves_draft() {
    let mut store = VersionedStore::new(profiles("profileA", &["A"]));
    store.stage(profiles("profileB", &["B"]));
    store.stage(profiles("profileC", &["C"]));
    assert_eq!(store.draft_snapshot().unwrap().current.as_deref(), Some("profileC"));
    assert_eq!(store.latest().current.as_deref(), Some("profileA"));
    assert_eq!(store.commit(), Ok(()));
    assert_eq!(store.latest().current.as_deref(), Some("profileC"));
    assert!(store.draft_snapshot().is_none());
    assert_eq!(store.commit(), Err(NoDraftError));
}

#[test]
fn discard_is_idempotent() {
    let mut store = VersionedStore::new(profiles("profileA", &["A"]));
    store.discard();
    store.stage(profiles("profileB", &["B"]));
    store.discard();
    store.discard();
    assert!(store.draft_snapshot().is_none());
    assert_eq!(store.latest().current.as_deref(), Some("profileA"));
}

#[test]
fn select_current_keeps_items() {
    let p = profiles("profileA", &["A", "B"]);
    let q = p.select_current("B".to_string());
    assert_eq!(q.current.as_deref(), Some("B"));
    assert_eq!(uids(&q), vec!["A".to_string(), "B".to_string()]);
    let empty = IProfiles { current: None, items: None };
    let e = empty.select_current("X".to_string());
    assert_eq!(e.current.as_deref(), Some("X"));
    assert!(e.items.is_none());
}

#[test]
fn reconfigure_error_messages() {
    assert_eq!(ReconfigureError::Rejected("no".to_string()).message(), "Rejected: no");
    assert_eq!(
        ReconfigureError::Unreachable.message(),
        "Unreachable: the core process could not be contacted"
    );
    assert_eq!(
        ReconfigureError::Timeout.message(),
        "Timeout: the core process did not answer in time"
    );
    assert_eq!(ReconfigureError::Timeout.copied(), ReconfigureError::Timeout);
    assert_eq!(
        ReconfigureError::Rejected("x".to_string()).copied(),
        ReconfigureError::Rejected("x".to_string())
    );
}

#[test]
fn transaction_error_messages() {
    let failed = TransactionError::Failed(ReconfigureError::Timeout);
    assert_eq!(
        failed.message(),
        "configuration update failed: Timeout: the core process did not answer in time"
    );
    let both = TransactionError::RollbackFailed {
        cause: ReconfigureError::Rejected("bad".to_string()),
        rollback: RollbackError { cause: ReconfigureError::Unreachable },
    };
    assert_eq!(
        both.message(),
        "configuration update failed: Rejected: bad; rollback failed: Unreachable: the core \
         process could not be contacted; manual intervention may be required"
    );
    assert_eq!(
        RollbackError { cause: ReconfigureError::Timeout }.message(),
        "rollback failed: Timeout: the core process did not answer in time"
    );
}

#[test]
fn empty_profile_set_round_trips() {
    let mut store = VersionedStore::new(IProfiles { current: None, items: None });
    let (r, _, _, _) = run(
        &mut store,
        IProfiles { current: None, items: Some(Vec::new()) },
        vec![Ok(())],
    );
    assert_eq!(r, Ok(()));
    let latest = store.latest();
    assert!(latest.current.is_none());
    assert_eq!(latest.items.map(|v| v.len()), Some(0));
}
