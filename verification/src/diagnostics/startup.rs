//! The diagnostics of a process: where they go, how they start, and what each
//! lifecycle event does to them.
use vstd::prelude::*;

use crate::diagnostics::journal::{JournalStep, PanicLocation, RunJournal};
#[allow(unused_imports)]
use crate::diagnostics::journal::{
    intent_view, location_text, payload_text, record_view, report_text,
};
#[allow(unused_imports)]
use crate::diagnostics::record::{ExitRecordView, PersistedIntentView};
use crate::diagnostics::record::{ExitIntent, ExitRecord, PersistedIntent};
#[allow(unused_imports)]
use crate::text::{holds_text, optional_text};
use crate::text::same_text;

verus! {

/// Appended to the result path of a smoke run to name its diagnostics.
pub const SMOKE_DIRECTORY_SUFFIX: &'static str = ".diagnostics";

/// The directory that diagnostics are written to.
#[derive(Debug, PartialEq, Eq)]
pub enum DiagnosticsDirectory<P> {
    /// The user's own directory.
    Native(P),
    /// The path of a smoke result, to be extended by `SMOKE_DIRECTORY_SUFFIX`.
    BesideResult(P),
}

/// Chooses the diagnostics directory. A smoke run never falls back to the
/// user's own directory, even where its result path is missing.
pub fn choose_diagnostics_directory<P>(
    native: Option<P>,
    smoke_requested: bool,
    smoke_result: Option<P>,
) -> (directory: Option<DiagnosticsDirectory<P>>)
    ensures
        directory == if smoke_requested {
            match smoke_result {
                Some(result) => Some(DiagnosticsDirectory::BesideResult(result)),
                None => None,
            }
        } else {
            match native {
                Some(native) => Some(DiagnosticsDirectory::Native(native)),
                None => None,
            }
        },
{
    if smoke_requested {
        match smoke_result {
            Some(result) => Some(DiagnosticsDirectory::BesideResult(result)),
            None => None,
        }
    } else {
        match native {
            Some(native) => Some(DiagnosticsDirectory::Native(native)),
            None => None,
        }
    }
}

/// The directory beside the result of a smoke run: the whole path of the result,
/// extended by a suffix.
pub fn directory_beside(result: &str) -> (directory: String)
    ensures
        directory@ == result@ + SMOKE_DIRECTORY_SUFFIX@,
{
    let mut directory = result.to_owned();
    directory.append(SMOKE_DIRECTORY_SUFFIX);
    directory
}

/// Selects the diagnostics directory among paths in Unicode.
pub fn select_diagnostics_directory(
    native: Option<String>,
    smoke_requested: bool,
    smoke_result: Option<String>,
) -> (directory: Option<String>)
    ensures
        optional_text(directory) == if smoke_requested {
            match smoke_result {
                Some(result) => Some(result@ + SMOKE_DIRECTORY_SUFFIX@),
                None => None,
            }
        } else {
            optional_text(native)
        },
{
    match choose_diagnostics_directory(native, smoke_requested, smoke_result) {
        Some(DiagnosticsDirectory::Native(native)) => Some(native),
        Some(DiagnosticsDirectory::BesideResult(result)) => Some(
            directory_beside(result.as_str()),
        ),
        None => None,
    }
}

/// How starting the journal went.
pub enum JournalStart {
    /// There was no directory to start it in.
    NoDirectory,
    /// The directory could not be used.
    Failed,
    /// The run is announced; `previous` is the report on an earlier one.
    Started { journal: RunJournal, previous: Option<ExitRecord> },
}

/// What is said while diagnostics start.
#[derive(Clone, Copy, Debug, PartialEq, Eq, Structural)]
pub enum StartupNotice {
    LogUnavailable,
    TracingUnavailable,
    DurableDiagnosticsUnavailable,
    ProtocolTracingNotImplemented,
}

/// Whether the journal could be entered from a panic.
#[derive(Clone, Copy, Debug, PartialEq, Eq, Structural)]
pub enum JournalLock {
    Free,
    Poisoned,
    Busy,
}

/// The diagnostics of this process, from start to finish.
pub struct DiagnosticsGuard {
    pub journal: Option<RunJournal>,
    pub last_exit: Option<ExitRecord>,
    /// Something that should have been recorded was not.
    pub unavailable: bool,
}

/// The notices of a start, in the order in which they are given.
pub open spec fn startup_notices(
    started: bool,
    log_opened: bool,
    tracing_installed: bool,
    protocol_trace: bool,
) -> Seq<StartupNotice> {
    (if started && !log_opened {
        seq![StartupNotice::LogUnavailable]
    } else {
        seq![]
    }) + (if !tracing_installed {
        seq![StartupNotice::TracingUnavailable]
    } else {
        seq![]
    }) + (if !started {
        seq![StartupNotice::DurableDiagnosticsUnavailable]
    } else {
        seq![]
    }) + (if protocol_trace {
        seq![StartupNotice::ProtocolTracingNotImplemented]
    } else {
        seq![]
    })
}

/// Puts the diagnostics of this process together. Nothing that failed stops
/// the application: the guard only remembers that the record is incomplete.
/// `log_opened` counts only where the journal started; `protocol_trace` is the
/// value of the variable that asks for protocol tracing.
pub fn init(
    start: JournalStart,
    log_opened: bool,
    tracing_installed: bool,
    protocol_trace: Option<&str>,
) -> (result: (DiagnosticsGuard, Vec<StartupNotice>))
    ensures
        match start {
            JournalStart::Started { journal, previous } => {
                &&& result.0.journal == Some(journal)
                &&& result.0.last_exit == previous
                &&& result.0.unavailable == (!log_opened || !tracing_installed)
            },
            _ => {
                &&& result.0.journal is None
                &&& result.0.last_exit is None
                &&& result.0.unavailable
            },
        },
        result.1@ == startup_notices(
            start is Started,
            log_opened,
            tracing_installed,
            protocol_trace is Some && protocol_trace->Some_0@ == "1"@,
        ),
{
    let mut notices: Vec<StartupNotice> = Vec::new();
    let mut guard = match start {
        JournalStart::Started { journal, previous } => DiagnosticsGuard {
            journal: Some(journal),
            last_exit: previous,
            unavailable: false,
        },
        _ => DiagnosticsGuard { journal: None, last_exit: None, unavailable: true },
    };
    let started = guard.journal.is_some();
    if started && !log_opened {
        guard.unavailable = true;
        notices.push(StartupNotice::LogUnavailable);
    }
    if !tracing_installed {
        guard.unavailable = true;
        notices.push(StartupNotice::TracingUnavailable);
    }
    if !started {
        notices.push(StartupNotice::DurableDiagnosticsUnavailable);
    }
    let trace = match protocol_trace {
        Some(value) => same_text(value, "1"),
        None => false,
    };
    if trace {
        notices.push(StartupNotice::ProtocolTracingNotImplemented);
    }
    assert(notices@ =~= startup_notices(started, log_opened, tracing_installed, trace));
    (guard, notices)
}

impl DiagnosticsGuard {
    /// What About shows of the previous run, and whether this one is recorded.
    pub open spec fn summary_text(self) -> Option<Seq<char>> {
        let last = match self.last_exit {
            Some(record) => Some(record@.summary_text()),
            None => None,
        };
        if self.unavailable {
            Some(
                (match last {
                    Some(summary) => summary + "; "@,
                    None => seq![],
                }) + "Local diagnostics are unavailable or incomplete for this run"@,
            )
        } else {
            last
        }
    }

    pub fn last_exit_summary(&self) -> (summary: Option<String>)
        ensures
            optional_text(summary) == self.summary_text(),
    {
        let last = match &self.last_exit {
            Some(record) => Some(record.support_summary()),
            None => None,
        };
        if !self.unavailable {
            return last;
        }
        let mut summary = match last {
            Some(mut summary) => {
                summary.append("; ");
                summary
            },
            None => String::new(),
        };
        assert(summary@ =~= match self.last_exit {
            Some(record) => record@.summary_text() + "; "@,
            None => seq![],
        });
        summary.append("Local diagnostics are unavailable or incomplete for this run");
        Some(summary)
    }

    /// The intent file to write for a requested exit. `poisoned` says that the
    /// journal could not be entered, which is remembered.
    pub fn record_exit_intent(&mut self, intent: ExitIntent, now: u128, poisoned: bool) -> (file:
        Option<PersistedIntent>)
        ensures
            *final(self) == (DiagnosticsGuard {
                unavailable: old(self).unavailable || (old(self).journal is Some && poisoned),
                ..*old(self)
            }),
            intent_view(file) == match old(self).journal {
                Some(journal) => if poisoned || journal.intent is Some {
                    None::<PersistedIntentView>
                } else {
                    Some(
                        PersistedIntentView {
                            run_id: journal.marker@.run_id,
                            intent,
                            recorded_at_unix_ms: now,
                        },
                    )
                },
                None => None,
            },
    {
        match &self.journal {
            Some(journal) => if poisoned {
                self.unavailable = true;
                None
            } else {
                journal.record_intent(intent, now)
            },
            None => None,
        }
    }

    /// Takes note of how writing the intent file went.
    pub fn exit_intent_written<E>(&mut self, intent: ExitIntent, written: Result<(), E>)
        ensures
            final(self).last_exit == old(self).last_exit,
            match old(self).journal {
                Some(journal) => {
                    &&& final(self).unavailable == (old(self).unavailable || written is Err)
                    &&& final(self).journal == Some(
                        RunJournal {
                            intent: if written is Ok && journal.intent is None {
                                Some(intent)
                            } else {
                                journal.intent
                            },
                            ..journal
                        },
                    )
                },
                None => *final(self) == *old(self),
            },
    {
        if let Some(mut journal) = self.journal.take() {
            if journal.intent_written(intent, written).is_err() {
                self.unavailable = true;
            }
            self.journal = Some(journal);
        }
    }

    /// The steps that a panic takes. A journal that is busy or poisoned is left
    /// alone, and the gap remembered.
    pub fn record_panic(
        &mut self,
        lock: JournalLock,
        payload: Option<String>,
        location: Option<PanicLocation>,
        backtrace: &str,
        now: u128,
    ) -> (steps: Vec<JournalStep>)
        ensures
            final(self).last_exit == old(self).last_exit,
            match old(self).journal {
                Some(journal) => if lock == JournalLock::Free {
                    &&& final(self).unavailable == old(self).unavailable
                    &&& final(self).journal == Some(RunJournal { panic_seen: true, ..journal })
                    &&& journal.reported_by(
                        steps@,
                        report_text(
                            journal.marker@,
                            location_text(location),
                            payload_text(payload),
                            backtrace@,
                            now as nat,
                        ),
                        now,
                    )
                } else {
                    &&& final(self).unavailable
                    &&& final(self).journal == old(self).journal
                    &&& steps@.len() == 0
                },
                None => *final(self) == *old(self) && steps@.len() == 0,
            },
    {
        if let Some(mut journal) = self.journal.take() {
            let steps = match lock {
                JournalLock::Free => journal.record_panic(payload, location, backtrace, now),
                _ => {
                    self.unavailable = true;
                    Vec::new()
                },
            };
            self.journal = Some(journal);
            steps
        } else {
            Vec::new()
        }
    }

    /// Takes note of how the steps of `record_panic` went.
    pub fn panic_written<E>(&mut self, written: Result<(), E>)
        ensures
            *final(self) == (DiagnosticsGuard {
                unavailable: old(self).unavailable || (old(self).journal is Some && written is Err),
                ..*old(self)
            }),
    {
        if self.journal.is_some() && written.is_err() {
            self.unavailable = true;
        }
    }

    /// Ends the run. `panicked` says that a panic was seen anywhere in the
    /// process; a poisoned journal is entered all the same, and remembered.
    pub fn finish<E>(
        &mut self,
        succeeded: bool,
        now: u128,
        panicked: bool,
        poisoned: bool,
        observed: Result<bool, E>,
        report: Result<bool, E>,
    ) -> (steps: Vec<JournalStep>)
        ensures
            final(self).last_exit == old(self).last_exit,
            match old(self).journal {
                Some(journal) => {
                    let ended = RunJournal {
                        panic_seen: journal.panic_seen || panicked || observed == Ok::<bool, E>(
                            true,
                        ),
                        ..journal
                    };
                    &&& final(self).journal == Some(ended)
                    &&& final(self).unavailable == (old(self).unavailable || poisoned || observed
                        is Err || (!journal.finished && report is Err))
                    &&& match (observed, journal.finished, report) {
                        (Ok(_), false, Ok(exists)) => ended.published_by(
                            steps@,
                            succeeded,
                            exists,
                            now,
                        ),
                        _ => steps@.len() == 0,
                    }
                },
                None => *final(self) == *old(self) && steps@.len() == 0,
            },
    {
        if let Some(mut journal) = self.journal.take() {
            if poisoned {
                self.unavailable = true;
            }
            journal.panic_seen = journal.panic_seen || panicked;
            let steps = match journal.finish(succeeded, now, observed, report) {
                Ok(steps) => steps,
                Err(_) => {
                    self.unavailable = true;
                    Vec::new()
                },
            };
            self.journal = Some(journal);
            steps
        } else {
            Vec::new()
        }
    }

    /// Takes note of how the steps of `finish` went.
    pub fn finish_applied<E>(&mut self, applied: Result<(), E>)
        ensures
            final(self).last_exit == old(self).last_exit,
            match old(self).journal {
                Some(journal) => {
                    &&& final(self).unavailable == (old(self).unavailable || applied is Err)
                    &&& final(self).journal == Some(
                        RunJournal { finished: journal.finished || applied is Ok, ..journal },
                    )
                },
                None => *final(self) == *old(self),
            },
    {
        if let Some(mut journal) = self.journal.take() {
            if journal.finish_applied(applied).is_err() {
                self.unavailable = true;
            }
            self.journal = Some(journal);
        }
    }
}

/// What is done with one entry of the runs directory at start.
pub enum RunScan {
    /// Not a run, or one that is still active.
    Skip,
    /// A run that never announced itself: its directory goes.
    Discard,
    /// An ended run: its report is stored back and takes part in retention.
    Keep(ExitRecord),
}

/// Decides on one entry of the runs directory. `locked` says whether the run's
/// lifetime lock could be taken, and `report` what its files say.
pub fn scan_entry<E>(
    is_directory: bool,
    locked: Result<bool, E>,
    report: Result<Option<ExitRecord>, E>,
) -> (result: Result<RunScan, E>)
    ensures
        result == if !is_directory {
            Ok(RunScan::Skip)
        } else {
            match (locked, report) {
                (Err(error), _) => Err(error),
                (Ok(false), _) => Ok(RunScan::Skip),
                (Ok(true), Err(error)) => Err(error),
                (Ok(true), Ok(None)) => Ok(RunScan::Discard),
                (Ok(true), Ok(Some(record))) => Ok(RunScan::Keep(record)),
            }
        },
{
    if !is_directory {
        return Ok(RunScan::Skip);
    }
    match locked {
        Err(error) => Err(error),
        Ok(false) => Ok(RunScan::Skip),
        Ok(true) => match report {
            Err(error) => Err(error),
            Ok(None) => Ok(RunScan::Discard),
            Ok(Some(record)) => Ok(RunScan::Keep(record)),
        },
    }
}

/// The catalog lock is waited for this long.
pub const CATALOG_PATIENCE_MS: u64 = 2_000;

/// The pause between two attempts at the catalog lock.
pub const CATALOG_RETRY_MS: u64 = 10;

/// What follows an attempt at the catalog lock.
#[derive(Clone, Copy, Debug, PartialEq, Eq, Structural)]
pub enum CatalogWait {
    Acquired,
    TimedOut,
    RetryAfterMs(u64),
}

/// Decides what follows an attempt at the catalog lock, `waited_ms` after the
/// first one.
pub fn lock_catalog(acquired: bool, waited_ms: u64) -> (next: CatalogWait)
    ensures
        next == if acquired {
            CatalogWait::Acquired
        } else if waited_ms >= CATALOG_PATIENCE_MS {
            CatalogWait::TimedOut
        } else {
            CatalogWait::RetryAfterMs(CATALOG_RETRY_MS)
        },
{
    if acquired {
        CatalogWait::Acquired
    } else if waited_ms >= CATALOG_PATIENCE_MS {
        CatalogWait::TimedOut
    } else {
        CatalogWait::RetryAfterMs(CATALOG_RETRY_MS)
    }
}

/// Every gap in the diagnostics is told, and nothing else is: a log that could
/// not be opened where a run was announced, tracing that could not be installed,
/// a run that could not be announced, and a request for what is not there.
pub proof fn every_gap_is_told(
    started: bool,
    log_opened: bool,
    tracing_installed: bool,
    protocol_trace: bool,
    i: int,
)
    ensures
        ({
            let notices = startup_notices(started, log_opened, tracing_installed, protocol_trace);
            &&& started && !log_opened ==> notices.len() > 0 && notices[0]
                == StartupNotice::LogUnavailable
            &&& !tracing_installed ==> notices.contains(StartupNotice::TracingUnavailable)
            &&& !started ==> notices.contains(StartupNotice::DurableDiagnosticsUnavailable)
            &&& protocol_trace ==> notices.len() > 0 && notices.last()
                == StartupNotice::ProtocolTracingNotImplemented
            &&& 0 <= i < notices.len() ==> match notices[i] {
                StartupNotice::LogUnavailable => started && !log_opened,
                StartupNotice::TracingUnavailable => !tracing_installed,
                StartupNotice::DurableDiagnosticsUnavailable => !started,
                StartupNotice::ProtocolTracingNotImplemented => protocol_trace,
            }
        }),
{
    let notices = startup_notices(started, log_opened, tracing_installed, protocol_trace);
    let a: int = if started && !log_opened {
        1
    } else {
        0
    };
    let b: int = if !tracing_installed {
        a + 1
    } else {
        a
    };
    if !tracing_installed {
        assert(notices[a] == StartupNotice::TracingUnavailable);
    }
    if !started {
        assert(notices[b] == StartupNotice::DurableDiagnosticsUnavailable);
    }
}

/// About shows the previous run wherever there is one, and says so wherever this
/// one is not fully recorded; with neither it shows nothing.
pub proof fn the_previous_run_is_shown(guard: DiagnosticsGuard)
    ensures
        guard.summary_text() is None <==> guard.last_exit is None && !guard.unavailable,
        guard.last_exit is Some && !guard.unavailable ==> guard.summary_text() == Some(
            guard.last_exit->Some_0@.summary_text(),
        ),
        guard.last_exit is Some ==> holds_text(
            guard.summary_text()->Some_0,
            guard.last_exit->Some_0@.summary_text(),
        ),
        guard.unavailable ==> holds_text(
            guard.summary_text()->Some_0,
            "Local diagnostics are unavailable or incomplete for this run"@,
        ),
{
    let gap = "Local diagnostics are unavailable or incomplete for this run"@;
    let text = guard.summary_text()->Some_0;
    if let Some(record) = guard.last_exit {
        let last = record@.summary_text();
        assert(text.subrange(0int, 0int + last.len()) =~= last);
    }
    if guard.unavailable {
        let at = text.len() - gap.len();
        assert(text.subrange(at, at + gap.len()) =~= gap);
    }
}

} // verus!
