use festerm::diagnostics::init;
use festerm::diagnostics::journal::{
    load_previous_exit, JournalStep, PanicLocation, RunEvidence, RunJournal, MAX_PANIC_BYTES,
};
use festerm::diagnostics::log::{
    flush_outcome, write_outcome, BoundedLog, LogWrite, MAX_LOG_BYTES,
};
use festerm::diagnostics::record::{
    panic_report_name, run_id, ExitIntent, ExitRecord, ExitStatus, PersistedIntent, RunMarker,
};
use festerm::diagnostics::retention::{newest_first, scan_and_prune};
use festerm::diagnostics::startup::{
    choose_diagnostics_directory, lock_catalog, scan_entry, select_diagnostics_directory,
    CatalogWait, DiagnosticsDirectory, JournalLock, JournalStart, RunScan, StartupNotice,
};
use festerm::diagnostics::DiagnosticsGuard;

/// One run's directory, kept in memory.
#[derive(Default)]
struct Disk {
    last_exit: Option<ExitRecord>,
    marker: Option<RunMarker>,
    intent: Option<PersistedIntent>,
    panic_report: Option<Vec<u8>>,
    panic_observed: bool,
    log: Vec<u8>,
    active: bool,
    unreadable_marker: bool,
}

fn copy_record(record: &ExitRecord) -> ExitRecord {
    ExitRecord {
        schema_version: record.schema_version,
        run_id: record.run_id.clone(),
        started_at_unix_ms: record.started_at_unix_ms,
        ended_at_unix_ms: record.ended_at_unix_ms,
        status: record.status,
        reason: record.reason.clone(),
        version: record.version.clone(),
        os: record.os.clone(),
        architecture: record.architecture.clone(),
        artifact: record.artifact.clone(),
    }
}

fn copy_marker(marker: &RunMarker) -> RunMarker {
    RunMarker {
        schema_version: marker.schema_version,
        run_id: marker.run_id.clone(),
        started_at_unix_ms: marker.started_at_unix_ms,
        version: marker.version.clone(),
        os: marker.os.clone(),
        architecture: marker.architecture.clone(),
    }
}

impl Disk {
    fn evidence(&self) -> RunEvidence<&'static str> {
        RunEvidence {
            last_exit: Ok(self.last_exit.as_ref().map(copy_record)),
            marker: if self.unreadable_marker {
                Err("not json")
            } else {
                Ok(self.marker.as_ref().map(copy_marker))
            },
            intent: Ok(self.intent.as_ref().map(|intent| PersistedIntent {
                run_id: intent.run_id.clone(),
                intent: intent.intent,
                recorded_at_unix_ms: intent.recorded_at_unix_ms,
            })),
            panic_report: Ok(self.panic_report.is_some()),
            panic_observed: Ok(self.panic_observed),
        }
    }

    fn apply(&mut self, steps: Vec<JournalStep>) {
        for step in steps {
            match step {
                JournalStep::WriteLastExit(record) => self.last_exit = Some(record),
                JournalStep::WritePanicReport(bytes) => self.panic_report = Some(bytes),
                JournalStep::RemoveIntent => self.intent = None,
                JournalStep::RemoveMarker => self.marker = None,
            }
        }
    }

    fn record_intent(&mut self, journal: &mut RunJournal, intent: ExitIntent, now: u128) {
        if let Some(file) = journal.record_intent(intent, now) {
            self.intent = Some(file);
            assert!(journal.intent_written::<()>(intent, Ok(())).is_ok());
        }
    }

    fn finish(&mut self, journal: &mut RunJournal, succeeded: bool, now: u128) {
        let steps = journal
            .finish::<()>(
                succeeded,
                now,
                Ok(self.panic_observed),
                Ok(self.panic_report.is_some()),
            )
            .unwrap();
        self.apply(steps);
        assert!(journal.finish_applied::<()>(Ok(())).is_ok());
    }
}

/// Every run's directory.
#[derive(Default)]
struct Catalog {
    runs: Vec<Disk>,
    next: u64,
}

impl Catalog {
    fn start(&mut self, now: u128) -> Result<(RunJournal, usize, Option<ExitRecord>), &'static str> {
        let mut inactive: Vec<usize> = Vec::new();
        let mut records: Vec<ExitRecord> = Vec::new();
        let mut discarded: Vec<usize> = Vec::new();
        for (index, run) in self.runs.iter_mut().enumerate() {
            let report = load_previous_exit(run.evidence(), now);
            match scan_entry(true, Ok(!run.active), report)? {
                RunScan::Skip => {}
                RunScan::Discard => discarded.push(index),
                RunScan::Keep(record) => {
                    run.last_exit = Some(copy_record(&record));
                    inactive.push(index);
                    records.push(record);
                }
            }
        }
        let outcome = scan_and_prune(&records);
        let previous = outcome.previous.map(|i| copy_record(&records[i]));
        let removed: Vec<usize> = outcome.removed.iter().map(|i| inactive[*i]).collect();
        let mut kept = Vec::new();
        for (index, run) in std::mem::take(&mut self.runs).into_iter().enumerate() {
            if !removed.contains(&index) && !discarded.contains(&index) {
                kept.push(run);
            }
        }
        self.runs = kept;
        let id = run_id(4242, now, self.next);
        self.next += 1;
        let journal = RunJournal::start(
            id,
            now,
            "0.1.0".to_owned(),
            "linux".to_owned(),
            "x86_64".to_owned(),
        );
        self.runs.push(Disk {
            marker: Some(copy_marker(&journal.marker)),
            active: true,
            ..Disk::default()
        });
        Ok((journal, self.runs.len() - 1, previous))
    }

    fn index_of(&self, id: &str) -> Option<usize> {
        self.runs.iter().position(|run| {
            run.marker.as_ref().is_some_and(|marker| marker.run_id == id)
                || run.last_exit.as_ref().is_some_and(|record| record.run_id == id)
        })
    }
}

#[test]
fn clean_exit_records_the_requested_reason_and_clears_the_run_marker() {
    let mut catalog = Catalog::default();
    let (mut journal, run, previous) = catalog.start(100).unwrap();
    assert!(previous.is_none());

    catalog.runs[run].record_intent(&mut journal, ExitIntent::UserQuit, 110);
    catalog.runs[run].finish(&mut journal, true, 120);

    assert!(catalog.runs[run].marker.is_none());
    assert!(catalog.runs[run].intent.is_none());
    let record = catalog.runs[run].last_exit.as_ref().unwrap();
    assert_eq!(record.status, ExitStatus::Clean);
    assert_eq!(record.reason, "User requested quit");
}

#[test]
fn next_start_reports_a_missing_clean_shutdown_and_preserves_exit_intent() {
    let mut catalog = Catalog::default();
    let (mut abandoned, run, _) = catalog.start(200).unwrap();
    catalog.runs[run].record_intent(&mut abandoned, ExitIntent::UpdateRestart, 210);
    catalog.runs[run].active = false;

    let (_, _, previous) = catalog.start(300).unwrap();
    let previous = previous.expect("the abandoned run must be reported");
    assert_eq!(previous.status, ExitStatus::Unclean);
    assert!(
        previous
            .reason
            .contains("Update installed; restart requested"),
        "persisted user intent should survive the abrupt exit"
    );
}

#[test]
fn first_exit_intent_wins_when_framework_close_delivery_follows_it() {
    let mut catalog = Catalog::default();
    let (mut journal, run, _) = catalog.start(350).unwrap();

    catalog.runs[run].record_intent(&mut journal, ExitIntent::UpdateRestart, 360);
    catalog.runs[run].record_intent(&mut journal, ExitIntent::UserQuit, 370);
    catalog.runs[run].finish(&mut journal, true, 380);

    let record = catalog.runs[run].last_exit.as_ref().unwrap();
    assert_eq!(record.reason, "Update installed; restart requested");
}

#[test]
fn next_start_reuses_the_last_clean_exit_when_no_run_was_abandoned() {
    let mut catalog = Catalog::default();
    let (mut first, run, _) = catalog.start(400).unwrap();
    catalog.runs[run].finish(&mut first, true, 410);
    catalog.runs[run].active = false;

    let (_, _, previous) = catalog.start(500).unwrap();
    let previous = previous.expect("the clean exit should remain available");
    assert_eq!(previous.status, ExitStatus::Clean);
    assert_eq!(previous.reason, "Application event loop returned normally");
}

#[test]
fn bounded_log_never_grows_past_its_per_run_limit() {
    let mut log = BoundedLog::open();
    let mut file: Vec<u8> = Vec::new();
    let chunk = vec![b'x'; 64 * 1024];
    for _ in 0..40 {
        let accepted = log.accepts(chunk.len());
        file.extend_from_slice(&chunk[..accepted]);
        assert_eq!(log.write::<()>(chunk.len(), Ok(())), Ok(65_536));
    }
    assert_eq!(file.len() as u64, MAX_LOG_BYTES);
    assert_eq!(file.len(), 2_097_152);
    assert_eq!(log.accepts(1), 0);
    assert_eq!(log.write(1, Err("disk full")), Ok(1), "a full log never fails");
}

#[test]
fn startup_bounds_inactive_runs_but_protects_active_runs_and_failure_evidence() {
    let mut catalog = Catalog::default();
    let (active, run, _) = catalog.start(1).unwrap();
    catalog.runs[run].log = b"active log".to_vec();
    let active_id = active.marker.run_id.clone();
    let mut failure_id = String::new();
    for now in 2..12 {
        let (mut journal, run, _) = catalog.start(now).unwrap();
        catalog.runs[run].finish(&mut journal, false, now);
        catalog.runs[run].active = false;
        failure_id = journal.marker.run_id.clone();
    }
    for now in 12..22 {
        let (mut journal, run, previous) = catalog.start(now).unwrap();
        assert_eq!(previous.unwrap().status, ExitStatus::RuntimeError);
        catalog.runs[run].finish(&mut journal, true, now);
        catalog.runs[run].active = false;
    }
    let (_, _, previous) = catalog.start(30).unwrap();
    assert_eq!(previous.unwrap().status, ExitStatus::RuntimeError);
    assert!(catalog.index_of(&failure_id).is_some());
    let active_index = catalog.index_of(&active_id).unwrap();
    assert_eq!(catalog.runs[active_index].log, b"active log");
    assert_eq!(catalog.runs.len(), 12);
}

#[test]
fn overlapping_same_process_runs_are_unique_and_do_not_erase_each_other() {
    let mut catalog = Catalog::default();
    let (mut a, a_run, _) = catalog.start(100).unwrap();
    let (b, b_run, previous) = catalog.start(100).unwrap();
    assert!(previous.is_none(), "a live run is not an unclean exit");
    assert_ne!(a.marker.run_id, b.marker.run_id);
    let b_id = b.marker.run_id.clone();
    catalog.runs[a_run].log = b"a".to_vec();
    catalog.runs[b_run].log = b"b".to_vec();
    catalog.runs[a_run].finish(&mut a, true, 110);
    assert!(catalog.runs[b_run].marker.is_some());
    assert_eq!(catalog.runs[a_run].log, b"a");
    assert_eq!(catalog.runs[b_run].log, b"b");
    catalog.runs[a_run].active = false;
    catalog.runs[b_run].active = false;
    let (_, _, previous) = catalog.start(120).unwrap();
    let previous = previous.unwrap();
    assert_eq!(previous.run_id, b_id);
    assert_eq!(previous.status, ExitStatus::Unclean);
}

#[test]
fn failed_atomic_replacement_preserves_evidence_and_intent_can_retry() {
    let mut catalog = Catalog::default();
    let (mut journal, run, _) = catalog.start(100).unwrap();
    assert!(journal.record_intent(ExitIntent::UserQuit, 101).is_some());
    assert!(journal
        .intent_written(ExitIntent::UserQuit, Err("a directory is in the way"))
        .is_err());
    assert!(journal.intent.is_none());
    catalog.runs[run].record_intent(&mut journal, ExitIntent::NativeSmokeComplete, 102);
    catalog.runs[run].finish(&mut journal, false, 103);
    let record = catalog.runs[run].last_exit.as_ref().unwrap();
    assert_eq!(record.status, ExitStatus::RuntimeError);
    assert_eq!(
        record.reason,
        "The application event loop returned an error"
    );
}

#[test]
fn catalog_serializes_same_process_openers_and_incomplete_creation_is_recovered() {
    assert_eq!(lock_catalog(false, 0), CatalogWait::RetryAfterMs(10));
    assert_eq!(lock_catalog(false, 1_999), CatalogWait::RetryAfterMs(10));
    assert_eq!(lock_catalog(false, 2_000), CatalogWait::TimedOut);
    assert_eq!(lock_catalog(true, 5_000), CatalogWait::Acquired);
    let mut catalog = Catalog::default();
    catalog.runs.push(Disk::default());
    let (_, _, previous) = catalog.start(100).unwrap();
    assert!(previous.is_none());
    assert_eq!(catalog.runs.len(), 1);
    assert!(catalog.runs[0].marker.is_some());
}

#[test]
fn unreadable_evidence_and_catalog_errors_are_propagated() {
    let mut catalog = Catalog::default();
    let (_, run, _) = catalog.start(100).unwrap();
    catalog.runs[run].unreadable_marker = true;
    catalog.runs[run].active = false;
    assert!(catalog.start(101).is_err());
    assert!(matches!(
        scan_entry(true, Err("busy"), Ok(None)),
        Err("busy")
    ));
}

#[test]
fn panic_artifact_without_final_record_survives_recovery_and_retention() {
    let mut catalog = Catalog::default();
    for now in 1..8 {
        let (_, run, _) = catalog.start(now).unwrap();
        catalog.runs[run].panic_report = Some(b"controlled report".to_vec());
        catalog.runs[run].active = false;
    }
    let (_, _, previous) = catalog.start(8).unwrap();
    let previous = previous.unwrap();
    assert_eq!(previous.status, ExitStatus::Panic);
    assert!(previous.artifact.is_some());
    assert_eq!(catalog.runs.len(), 6);
}

#[test]
fn native_smoke_exit_is_clean_and_finishing_twice_is_idempotent() {
    let mut catalog = Catalog::default();
    let (mut journal, run, _) = catalog.start(100).unwrap();
    catalog.runs[run].record_intent(&mut journal, ExitIntent::NativeSmokeComplete, 101);
    catalog.runs[run].finish(&mut journal, true, 102);
    catalog.runs[run].finish(&mut journal, false, 103);
    let record = catalog.runs[run].last_exit.as_ref().unwrap();
    assert_eq!(record.status, ExitStatus::Clean);
    assert_eq!(record.reason, "Native smoke completed");
}

#[test]
fn concurrent_child_processes_preserve_killed_and_abrupt_exit_evidence() {
    let mut catalog = Catalog::default();
    let (mut a, a_run, _) = catalog.start(100).unwrap();
    let (mut b, b_run, _) = catalog.start(100).unwrap();
    catalog.runs[b_run].record_intent(&mut b, ExitIntent::UpdateRestart, 101);
    let b_id = b.marker.run_id.clone();
    let (mut probe, probe_run, previous) = catalog.start(105).unwrap();
    assert!(previous.is_none(), "both runs are live");
    catalog.runs[a_run].finish(&mut a, true, 110);
    catalog.runs[a_run].active = false;
    assert!(catalog.runs[b_run].marker.is_some());
    catalog.runs[b_run].active = false;
    let (mut clean, clean_run, previous) = catalog.start(120).unwrap();
    let previous = previous.unwrap();
    assert_eq!(previous.run_id, b_id);
    assert_eq!(previous.status, ExitStatus::Unclean);
    assert!(previous.reason.contains("restart requested"));
    catalog.runs[clean_run].finish(&mut clean, true, 121);
    catalog.runs[clean_run].active = false;
    catalog.runs[probe_run].finish(&mut probe, true, 122);
    let (_, _, previous) = catalog.start(130).unwrap();
    assert_eq!(
        previous.unwrap().run_id,
        b_id,
        "a later clean exit must not hide b"
    );
}

fn guard(catalog: &mut Catalog, now: u128) -> (DiagnosticsGuard, usize) {
    let (journal, run, previous) = catalog.start(now).unwrap();
    let (guard, notices) = init(
        JournalStart::Started { journal, previous },
        true,
        true,
        None,
    );
    assert!(notices.is_empty());
    (guard, run)
}

#[test]
fn child_panics_survive_clean_finish_and_busy_hook_never_deadlocks() {
    for lock in [JournalLock::Free, JournalLock::Busy, JournalLock::Poisoned] {
        let mut catalog = Catalog::default();
        let (mut guard, run) = guard(&mut catalog, 100);
        catalog.runs[run].panic_observed = true;
        let steps = guard.record_panic(
            lock,
            Some("controlled worker panic".to_owned()),
            None,
            "frame 0",
            105,
        );
        assert_eq!(steps.is_empty(), lock != JournalLock::Free);
        catalog.runs[run].apply(steps);
        let steps = guard.finish::<()>(
            true,
            110,
            true,
            lock == JournalLock::Poisoned,
            Ok(true),
            Ok(catalog.runs[run].panic_report.is_some()),
        );
        catalog.runs[run].apply(steps);
        guard.finish_applied::<()>(Ok(()));
        assert_eq!(guard.unavailable, lock != JournalLock::Free);
        let record = catalog.runs[run].last_exit.as_ref().unwrap();
        assert_eq!(record.status, ExitStatus::Panic);
        assert_eq!(record.artifact.is_some(), lock == JournalLock::Free);
        catalog.runs[run].active = false;
        let (_, _, previous) = catalog.start(150).unwrap();
        assert_eq!(previous.unwrap().status, ExitStatus::Panic);
    }
    // The flag alone preserves a panic that follows a clean record.
    let mut catalog = Catalog::default();
    let (mut guard, run) = guard(&mut catalog, 100);
    let steps = guard.finish::<()>(true, 110, false, false, Ok(false), Ok(false));
    catalog.runs[run].apply(steps);
    assert_eq!(
        catalog.runs[run].last_exit.as_ref().unwrap().status,
        ExitStatus::Clean
    );
    catalog.runs[run].panic_observed = true;
    catalog.runs[run].active = false;
    let (_, _, previous) = catalog.start(150).unwrap();
    assert_eq!(previous.unwrap().status, ExitStatus::Panic);
}

#[test]
fn unavailable_diagnostics_do_not_abort_application_initialization() {
    for start in [JournalStart::Failed, JournalStart::NoDirectory] {
        let (mut guard, notices) = init(start, true, true, None);
        assert_eq!(notices, vec![StartupNotice::DurableDiagnosticsUnavailable]);
        assert!(guard.last_exit_summary().unwrap().contains("unavailable"));
        let steps = guard.finish::<()>(true, 10, false, false, Ok(false), Ok(false));
        assert!(steps.is_empty());
    }
}

#[test]
fn native_smoke_diagnostics_never_use_the_user_journal() {
    let user = || Some("d/user".to_owned());
    let result = || Some("d/smoke-result.txt".to_owned());
    assert_eq!(
        select_diagnostics_directory(user(), true, result()).as_deref(),
        Some("d/smoke-result.txt.diagnostics")
    );
    assert!(select_diagnostics_directory(user(), true, None).is_none());
    assert_eq!(
        select_diagnostics_directory(user(), false, result()),
        user()
    );
    assert_eq!(select_diagnostics_directory(None, false, None), None);
    assert_eq!(
        choose_diagnostics_directory(Some(1), true, Some(2)),
        Some(DiagnosticsDirectory::BesideResult(2))
    );
    assert_eq!(
        choose_diagnostics_directory(Some(1), false, Some(2)),
        Some(DiagnosticsDirectory::Native(1))
    );
}

#[test]
fn every_interrupted_finish_is_recovered() {
    for done in 0..4 {
        let mut catalog = Catalog::default();
        let (mut journal, run, _) = catalog.start(1).unwrap();
        catalog.runs[run].record_intent(&mut journal, ExitIntent::UserQuit, 2);
        let mut steps = journal.finish::<()>(true, 3, Ok(false), Ok(false)).unwrap();
        assert_eq!(steps.len(), 3);
        steps.truncate(done);
        catalog.runs[run].apply(steps);
        catalog.runs[run].active = false;
        let (_, _, previous) = catalog.start(9).unwrap();
        let previous = previous.unwrap();
        if done == 0 {
            assert_eq!(previous.status, ExitStatus::Unclean);
            assert_eq!(
                previous.reason,
                "No clean shutdown followed this intent: User requested quit"
            );
            assert_eq!(previous.ended_at_unix_ms, 9);
        } else {
            assert_eq!(previous.status, ExitStatus::Clean);
            assert_eq!(previous.ended_at_unix_ms, 3);
        }
    }
}

#[test]
fn an_intent_of_another_run_does_not_count() {
    let mut catalog = Catalog::default();
    let (_, run, _) = catalog.start(1).unwrap();
    catalog.runs[run].intent = Some(PersistedIntent {
        run_id: "somebody else".to_owned(),
        intent: ExitIntent::UserQuit,
        recorded_at_unix_ms: 2,
    });
    catalog.runs[run].active = false;
    let (_, _, previous) = catalog.start(3).unwrap();
    assert_eq!(previous.unwrap().reason, "No clean shutdown was recorded");
}

#[test]
fn a_failed_read_counts_only_where_its_value_does() {
    let evidence = || RunEvidence {
        last_exit: Ok(None),
        marker: Ok(None),
        intent: Err("intent"),
        panic_report: Err("report"),
        panic_observed: Err("flag"),
    };
    assert!(matches!(load_previous_exit(evidence(), 1), Ok(None)));
    let marker = RunJournal::start(
        "7-8-9".to_owned(),
        5,
        "1".to_owned(),
        "os".to_owned(),
        "arch".to_owned(),
    )
    .marker;
    let mut announced = evidence();
    announced.marker = Ok(Some(copy_marker(&marker)));
    assert!(matches!(load_previous_exit(announced, 1), Err("intent")));
    let mut reported = evidence();
    reported.marker = Ok(Some(marker));
    reported.intent = Ok(None);
    reported.panic_report = Ok(true);
    let record = load_previous_exit(reported, 6).unwrap().unwrap();
    assert_eq!(record.artifact.as_deref(), Some("panic-7-8-9.txt"));
    assert_eq!(
        record.reason,
        "The run encountered a Rust panic; no final exit was recorded"
    );
}

#[test]
fn a_panic_report_names_the_run_and_is_cut_off() {
    let mut journal = RunJournal::start(
        "1-2-3".to_owned(),
        2,
        "0.9".to_owned(),
        "linux".to_owned(),
        "arm".to_owned(),
    );
    let location = PanicLocation {
        file: "main.rs".to_owned(),
        line: 7,
        column: 12,
    };
    let steps = journal.record_panic(Some("boom".to_owned()), Some(location), "trace", 44);
    assert!(journal.panic_seen);
    let expected = "fesTerm panic report\nversion=0.9\nos=linux\narchitecture=arm\nrun_id=1-2-3\n\
                    started_at_unix_ms=2\npanic_at_unix_ms=44\nlocation=main.rs:7:12\nmessage=boom\n\n\
                    backtrace:\ntrace";
    match &steps[0] {
        JournalStep::WritePanicReport(bytes) => assert_eq!(bytes, expected.as_bytes()),
        _ => panic!("the report is written first"),
    }
    match &steps[1] {
        JournalStep::WriteLastExit(record) => {
            assert_eq!(record.status, ExitStatus::Panic);
            assert_eq!(record.reason, "The run encountered a Rust panic");
            assert_eq!(record.artifact.as_deref(), Some("panic-1-2-3.txt"));
            assert_eq!(
                record.support_summary(),
                "Rust panic — The run encountered a Rust panic (local report: panic-1-2-3.txt)"
            );
        }
        _ => panic!("the record follows"),
    }
    let long = "é".repeat(MAX_PANIC_BYTES);
    let steps = journal.record_panic(None, None, &long, 45);
    match &steps[0] {
        JournalStep::WritePanicReport(bytes) => {
            assert_eq!(bytes.len(), MAX_PANIC_BYTES);
            let text = String::from_utf8_lossy(bytes);
            assert!(text.contains("location=unknown\nmessage=non-string panic payload"));
        }
        _ => panic!("the report is written first"),
    }
}

#[test]
fn startup_notices_tell_what_is_missing() {
    let (guard, notices) = init(JournalStart::Failed, false, false, Some("1"));
    assert_eq!(
        notices,
        vec![
            StartupNotice::TracingUnavailable,
            StartupNotice::DurableDiagnosticsUnavailable,
            StartupNotice::ProtocolTracingNotImplemented,
        ]
    );
    assert!(guard.unavailable && guard.journal.is_none());
    let mut catalog = Catalog::default();
    let (journal, _, previous) = catalog.start(5).unwrap();
    let (guard, notices) = init(
        JournalStart::Started { journal, previous },
        false,
        true,
        Some("0"),
    );
    assert_eq!(notices, vec![StartupNotice::LogUnavailable]);
    assert!(guard.unavailable && guard.journal.is_some());
}

#[test]
fn the_summary_tells_of_the_last_exit_and_of_gaps() {
    let mut catalog = Catalog::default();
    let (mut first, run, _) = catalog.start(1).unwrap();
    catalog.runs[run].finish(&mut first, true, 2);
    catalog.runs[run].active = false;
    let (mut guard, _) = guard(&mut catalog, 3);
    assert_eq!(
        guard.last_exit_summary().as_deref(),
        Some("Clean — Application event loop returned normally")
    );
    assert!(guard
        .record_exit_intent(ExitIntent::UserQuit, 4, true)
        .is_none());
    assert_eq!(
        guard.last_exit_summary().as_deref(),
        Some(
            "Clean — Application event loop returned normally; Local diagnostics are unavailable or incomplete for this run"
        )
    );
}

#[test]
fn a_guard_keeps_only_an_intent_that_was_written() {
    let mut catalog = Catalog::default();
    let (mut guard, _) = guard(&mut catalog, 3);
    assert!(guard
        .record_exit_intent(ExitIntent::UserQuit, 4, false)
        .is_some());
    guard.exit_intent_written(ExitIntent::UserQuit, Err("full"));
    assert!(guard.unavailable);
    assert!(guard
        .record_exit_intent(ExitIntent::UpdateRestart, 5, false)
        .is_some());
    guard.exit_intent_written::<()>(ExitIntent::UpdateRestart, Ok(()));
    assert!(guard
        .record_exit_intent(ExitIntent::UserQuit, 6, false)
        .is_none());
}

#[test]
fn a_guard_whose_finish_fails_remembers_it() {
    let mut catalog = Catalog::default();
    let (mut guard, _) = guard(&mut catalog, 3);
    let steps = guard.finish(true, 4, false, false, Ok(false), Err("gone"));
    assert!(steps.is_empty() && guard.unavailable);
    let steps = guard.finish::<()>(true, 5, false, false, Ok(false), Ok(false));
    assert_eq!(steps.len(), 3);
    guard.finish_applied::<()>(Err(()));
    let steps = guard.finish::<()>(true, 6, false, false, Ok(false), Ok(false));
    assert_eq!(steps.len(), 3, "an exit that was not recorded is tried again");
}

#[test]
fn a_log_write_that_fails_takes_up_no_room() {
    let mut log = BoundedLog::open();
    assert_eq!(log.write(10, Err("disk full")), Err("disk full"));
    assert_eq!(log.remaining, MAX_LOG_BYTES);
    assert_eq!(log.write::<()>(10, Ok(())), Ok(10));
    assert_eq!(log.remaining, MAX_LOG_BYTES - 10);
}

#[test]
fn a_panic_report_that_cannot_be_written_is_remembered() {
    let mut catalog = Catalog::default();
    let (mut guard, _) = guard(&mut catalog, 3);
    guard.panic_written::<()>(Ok(()));
    assert!(!guard.unavailable);
    guard.panic_written(Err("full"));
    assert!(guard.unavailable);
}

#[test]
fn run_identifiers_count_up() {
    assert_eq!(run_id(12, 340, 0), "12-340-0");
    assert_eq!(run_id(12, 340, 10), "12-340-10");
    assert_eq!(
        run_id(u32::MAX, u128::MAX, u64::MAX),
        "4294967295-340282366920938463463374607431768211455-18446744073709551615"
    );
    assert_ne!(run_id(1, 2, 3), run_id(1, 2, 4));
    assert_eq!(panic_report_name("a"), "panic-a.txt");
}

fn ended(id: &str, at: u128, status: ExitStatus) -> ExitRecord {
    ExitRecord {
        schema_version: 2,
        run_id: id.to_owned(),
        started_at_unix_ms: 0,
        ended_at_unix_ms: at,
        status,
        reason: String::new(),
        version: String::new(),
        os: String::new(),
        architecture: String::new(),
        artifact: None,
    }
}

#[test]
fn runs_are_ordered_by_end_and_identifier() {
    let runs = vec![
        ended("a", 5, ExitStatus::Clean),
        ended("b", 9, ExitStatus::Clean),
        ended("c", 5, ExitStatus::Clean),
        ended("a", 5, ExitStatus::Clean),
    ];
    assert_eq!(newest_first(&runs), vec![1, 2, 0, 3]);
    assert_eq!(scan_and_prune(&runs).previous, Some(1));
    assert_eq!(scan_and_prune(&Vec::new()).previous, None);
}

#[test]
fn each_class_keeps_its_five_newest_runs() {
    let mut runs = Vec::new();
    for at in 0..8 {
        runs.push(ended("clean", at, ExitStatus::Clean));
        runs.push(ended("failed", at, ExitStatus::Unclean));
    }
    let outcome = scan_and_prune(&runs);
    assert_eq!(outcome.previous, Some(15));
    assert_eq!(outcome.removed, vec![5, 4, 3, 2, 1, 0]);
}

#[test]
fn a_line_counts_as_written_where_either_copy_is() {
    assert_eq!(write_outcome(true, LogWrite::Absent), (true, false));
    assert_eq!(write_outcome(false, LogWrite::Written), (true, false));
    assert_eq!(write_outcome(true, LogWrite::Failed), (true, true));
    assert_eq!(write_outcome(false, LogWrite::Failed), (false, true));
    assert_eq!(write_outcome(false, LogWrite::Absent), (false, false));
    assert_eq!(flush_outcome(true, LogWrite::Written), (true, false));
    assert_eq!(flush_outcome(true, LogWrite::Failed), (false, true));
    assert_eq!(flush_outcome(false, LogWrite::Failed), (false, false));
}

#[test]
fn only_directories_of_ended_runs_are_looked_into() {
    assert!(matches!(
        scan_entry::<()>(false, Ok(true), Ok(None)),
        Ok(RunScan::Skip)
    ));
    assert!(matches!(
        scan_entry::<()>(true, Ok(false), Ok(None)),
        Ok(RunScan::Skip)
    ));
    assert!(matches!(
        scan_entry::<()>(true, Ok(true), Ok(None)),
        Ok(RunScan::Discard)
    ));
    assert!(matches!(
        scan_entry(true, Ok(true), Err("bad")),
        Err("bad")
    ));
}
