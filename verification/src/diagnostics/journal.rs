//! One run's journal: the files a run writes in order, and how the next start
//! turns the files it finds into a report.
use vstd::prelude::*;
use vstd::slice::{slice_subrange, slice_to_vec};

use crate::diagnostics::record::{
    panic_report_name, ExitIntent, ExitRecord, ExitStatus, PersistedIntent, RunMarker,
    SCHEMA_VERSION,
};
#[allow(unused_imports)]
use crate::diagnostics::record::{
    panic_report_text, ExitRecordView, PersistedIntentView, RunMarkerView,
};
use crate::text::push_decimal;
#[allow(unused_imports)]
use crate::text::{decimal, holds_text, optional_text};

verus! {

/// A panic report is cut off after this many bytes.
pub const MAX_PANIC_BYTES: usize = 262_144;

/// What was found in a run's directory. Each entry is what its own read gave,
/// so that a failed read matters only where its value is needed.
pub struct RunEvidence<E> {
    pub last_exit: Result<Option<ExitRecord>, E>,
    pub marker: Result<Option<RunMarker>, E>,
    pub intent: Result<Option<PersistedIntent>, E>,
    /// Whether the report named after the marker's run exists.
    pub panic_report: Result<bool, E>,
    /// Whether the flag that the panic hook raises exists.
    pub panic_observed: Result<bool, E>,
}

/// The same files, all of them readable.
pub struct RunFiles {
    pub last_exit: Option<ExitRecordView>,
    pub marker: Option<RunMarkerView>,
    pub intent: Option<PersistedIntentView>,
    pub panic_report: bool,
    pub panic_observed: bool,
}

/// The reason given for a run that left only its marker and perhaps an intent.
pub open spec fn unclean_reason(intent: Option<ExitIntent>) -> Seq<char> {
    match intent {
        Some(intent) => "No clean shutdown followed this intent: "@ + intent.description_text(),
        None => "No clean shutdown was recorded"@,
    }
}

/// The intent that counts for `marker`: one that the same run wrote.
pub open spec fn matching_intent(
    intent: Option<PersistedIntentView>,
    marker: RunMarkerView,
) -> Option<ExitIntent> {
    match intent {
        Some(intent) => if intent.run_id == marker.run_id {
            Some(intent.intent)
        } else {
            None
        },
        None => None,
    }
}

/// A final record, once the panic flag has been taken into account.
pub open spec fn with_panic_flag(record: ExitRecordView, observed: bool) -> ExitRecordView {
    if observed {
        ExitRecordView {
            status: ExitStatus::Panic,
            reason: "The run encountered a Rust panic"@,
            ..record
        }
    } else {
        record
    }
}

/// The report on a run that left a marker but no final record.
pub open spec fn abandoned(
    marker: RunMarkerView,
    intent: Option<PersistedIntentView>,
    panic_report: bool,
    panic_observed: bool,
    now: u128,
) -> ExitRecordView {
    if panic_report || panic_observed {
        ExitRecordView::of_run(
            marker,
            now,
            ExitStatus::Panic,
            "The run encountered a Rust panic; no final exit was recorded"@,
            if panic_report {
                Some(panic_report_text(marker.run_id))
            } else {
                None
            },
        )
    } else {
        ExitRecordView::of_run(
            marker,
            now,
            ExitStatus::Unclean,
            unclean_reason(matching_intent(intent, marker)),
            None,
        )
    }
}

/// What the next start reports of `files`, `None` where no run was announced.
pub open spec fn recovered(files: RunFiles, now: u128) -> Option<ExitRecordView> {
    match files.last_exit {
        Some(record) => Some(with_panic_flag(record, files.panic_observed)),
        None => match files.marker {
            Some(marker) => Some(
                abandoned(marker, files.intent, files.panic_report, files.panic_observed, now),
            ),
            None => None,
        },
    }
}

pub open spec fn marker_view(marker: Option<RunMarker>) -> Option<RunMarkerView> {
    match marker {
        Some(marker) => Some(marker@),
        None => None,
    }
}

pub open spec fn intent_view(intent: Option<PersistedIntent>) -> Option<PersistedIntentView> {
    match intent {
        Some(intent) => Some(intent@),
        None => None,
    }
}

pub open spec fn record_view(record: Option<ExitRecord>) -> Option<ExitRecordView> {
    match record {
        Some(record) => Some(record@),
        None => None,
    }
}

impl<E> RunEvidence<E> {
    /// The first read that failed among those whose value decides the report.
    pub open spec fn failure(self) -> Option<E> {
        match self.last_exit {
            Err(error) => Some(error),
            Ok(Some(_)) => match self.panic_observed {
                Err(error) => Some(error),
                Ok(_) => None,
            },
            Ok(None) => match self.marker {
                Err(error) => Some(error),
                Ok(None) => None,
                Ok(Some(_)) => match (self.intent, self.panic_report, self.panic_observed) {
                    (Err(error), _, _) => Some(error),
                    (Ok(_), Err(error), _) => Some(error),
                    (Ok(_), Ok(false), Err(error)) => Some(error),
                    _ => None,
                },
            },
        }
    }

    /// The files as they were read; a failed read counts as an absent file.
    pub open spec fn files(self) -> RunFiles {
        RunFiles {
            last_exit: match self.last_exit {
                Ok(record) => record_view(record),
                Err(_) => None,
            },
            marker: match self.marker {
                Ok(marker) => marker_view(marker),
                Err(_) => None,
            },
            intent: match self.intent {
                Ok(intent) => intent_view(intent),
                Err(_) => None,
            },
            panic_report: self.panic_report == Ok::<bool, E>(true),
            panic_observed: self.panic_observed == Ok::<bool, E>(true),
        }
    }
}

/// Turns the evidence of a run that is no longer active into its report.
pub fn load_previous_exit<E>(evidence: RunEvidence<E>, now: u128) -> (result: Result<
    Option<ExitRecord>,
    E,
>)
    ensures
        match evidence.failure() {
            Some(error) => result == Err::<Option<ExitRecord>, E>(error),
            None => result is Ok && record_view(result->Ok_0) == recovered(evidence.files(), now),
        },
{
    match evidence.last_exit {
        Err(error) => return Err(error),
        Ok(Some(mut record)) => {
            return match evidence.panic_observed {
                Err(error) => Err(error),
                Ok(observed) => {
                    if observed {
                        record.status = ExitStatus::Panic;
                        record.reason = "The run encountered a Rust panic".to_owned();
                    }
                    Ok(Some(record))
                },
            };
        },
        Ok(None) => {},
    }
    let marker = match evidence.marker {
        Err(error) => return Err(error),
        Ok(None) => return Ok(None),
        Ok(Some(marker)) => marker,
    };
    let intent: Option<ExitIntent> = match evidence.intent {
        Err(error) => return Err(error),
        Ok(Some(intent)) => if intent.run_id == marker.run_id {
            Some(intent.intent)
        } else {
            None
        },
        Ok(None) => None,
    };
    let reported = match evidence.panic_report {
        Err(error) => return Err(error),
        Ok(reported) => reported,
    };
    let panicked = if reported {
        true
    } else {
        match evidence.panic_observed {
            Err(error) => return Err(error),
            Ok(observed) => observed,
        }
    };
    let record = if panicked {
        let artifact = if reported {
            Some(panic_report_name(marker.run_id.as_str()))
        } else {
            None
        };
        ExitRecord::of_run(
            &marker,
            now,
            ExitStatus::Panic,
            "The run encountered a Rust panic; no final exit was recorded".to_owned(),
            artifact,
        )
    } else {
        let reason = match intent {
            Some(intent) => {
                let mut reason = "No clean shutdown followed this intent: ".to_owned();
                reason.append(intent.description());
                reason
            },
            None => "No clean shutdown was recorded".to_owned(),
        };
        ExitRecord::of_run(&marker, now, ExitStatus::Unclean, reason, None)
    };
    Ok(Some(record))
}

/// One change to a run's directory. Every write replaces its file atomically.
pub enum JournalStep {
    WriteLastExit(ExitRecord),
    WritePanicReport(Vec<u8>),
    RemoveIntent,
    RemoveMarker,
}

/// What a step does to the directory once it is on disk.
pub open spec fn applied(files: RunFiles, step: JournalStep) -> RunFiles {
    match step {
        JournalStep::WriteLastExit(record) => RunFiles { last_exit: Some(record@), ..files },
        JournalStep::WritePanicReport(_) => RunFiles { panic_report: true, ..files },
        JournalStep::RemoveIntent => RunFiles { intent: None, ..files },
        JournalStep::RemoveMarker => RunFiles { marker: None, ..files },
    }
}

/// The directory after the first `count` of `steps`.
pub open spec fn applied_prefix(
    files: RunFiles,
    steps: Seq<JournalStep>,
    count: nat,
) -> RunFiles
    decreases count,
{
    if count == 0 {
        files
    } else {
        applied(applied_prefix(files, steps, (count - 1) as nat), steps[count - 1])
    }
}

/// Where a panic came from.
pub struct PanicLocation {
    pub file: String,
    pub line: u32,
    pub column: u32,
}

pub open spec fn location_text(location: Option<PanicLocation>) -> Seq<char> {
    match location {
        Some(location) => location.file@ + ":"@ + decimal(location.line as nat) + ":"@ + decimal(
            location.column as nat,
        ),
        None => "unknown"@,
    }
}

pub open spec fn payload_text(payload: Option<String>) -> Seq<char> {
    match payload {
        Some(payload) => payload@,
        None => "non-string panic payload"@,
    }
}

/// The whole text of a panic report, before it is cut off.
pub open spec fn report_text(
    marker: RunMarkerView,
    location: Seq<char>,
    payload: Seq<char>,
    backtrace: Seq<char>,
    now: nat,
) -> Seq<char> {
    "fesTerm panic report\nversion="@ + marker.version + "\nos="@ + marker.os + "\narchitecture="@
        + marker.architecture + "\nrun_id="@ + marker.run_id + "\nstarted_at_unix_ms="@ + decimal(
        marker.started_at_unix_ms as nat,
    ) + "\npanic_at_unix_ms="@ + decimal(now) + "\nlocation="@ + location + "\nmessage="@ + payload
        + "\n\nbacktrace:\n"@ + backtrace
}

/// The journal of the run in progress.
pub struct RunJournal {
    pub marker: RunMarker,
    pub intent: Option<ExitIntent>,
    pub panic_seen: bool,
    pub finished: bool,
}

impl RunJournal {
    /// Begins the journal of run `run_id`. Its marker is what goes to disk first.
    pub fn start(
        run_id: String,
        now: u128,
        version: String,
        os: String,
        architecture: String,
    ) -> (journal: Self)
        ensures
            journal.marker@ == (RunMarkerView {
                schema_version: SCHEMA_VERSION,
                run_id: run_id@,
                started_at_unix_ms: now,
                version: version@,
                os: os@,
                architecture: architecture@,
            }),
            journal.intent is None,
            !journal.panic_seen,
            !journal.finished,
    {
        RunJournal {
            marker: RunMarker {
                schema_version: SCHEMA_VERSION,
                run_id,
                started_at_unix_ms: now,
                version,
                os,
                architecture,
            },
            intent: None,
            panic_seen: false,
            finished: false,
        }
    }

    /// The intent file to write, unless an intent is already on record.
    pub fn record_intent(&self, intent: ExitIntent, now: u128) -> (file: Option<PersistedIntent>)
        ensures
            intent_view(file) == match self.intent {
                Some(_) => None::<PersistedIntentView>,
                None => Some(
                    PersistedIntentView {
                        run_id: self.marker@.run_id,
                        intent,
                        recorded_at_unix_ms: now,
                    },
                ),
            },
    {
        if self.intent.is_some() {
            return None;
        }
        Some(
            PersistedIntent {
                run_id: self.marker.run_id.clone(),
                intent,
                recorded_at_unix_ms: now,
            },
        )
    }

    /// Takes note of how writing the intent file went: only a written intent
    /// is kept, so that a failed write can be tried again.
    pub fn intent_written<E>(&mut self, intent: ExitIntent, written: Result<(), E>) -> (result:
        Result<(), E>)
        ensures
            result == written,
            *final(self) == (RunJournal {
                intent: if written is Ok && old(self).intent is None {
                    Some(intent)
                } else {
                    old(self).intent
                },
                ..*old(self)
            }),
    {
        if self.intent.is_none() && written.is_ok() {
            self.intent = Some(intent);
        }
        written
    }

    /// The status and reason with which the run ends.
    pub open spec fn verdict(self, succeeded: bool) -> (ExitStatus, Seq<char>) {
        if self.panic_seen {
            (
                ExitStatus::Panic,
                "The run encountered a Rust panic (even if the event loop later returned)"@,
            )
        } else if succeeded {
            (
                ExitStatus::Clean,
                match self.intent {
                    Some(intent) => intent.description_text(),
                    None => "Application event loop returned normally"@,
                },
            )
        } else {
            (ExitStatus::RuntimeError, "The application event loop returned an error"@)
        }
    }

    /// The record with which the run ends.
    pub open spec fn final_record(self, succeeded: bool, report: bool, now: u128) -> ExitRecordView {
        ExitRecordView::of_run(
            self.marker@,
            now,
            self.verdict(succeeded).0,
            self.verdict(succeeded).1,
            if report {
                Some(panic_report_text(self.marker@.run_id))
            } else {
                None
            },
        )
    }

    /// Ends the run: the steps that publish its record, in order, and nothing
    /// where the run has ended before. `observed` says whether the panic flag
    /// exists and `report` whether the panic report does.
    pub fn finish<E>(
        &mut self,
        succeeded: bool,
        now: u128,
        observed: Result<bool, E>,
        report: Result<bool, E>,
    ) -> (result: Result<Vec<JournalStep>, E>)
        ensures
            *final(self) == (RunJournal {
                panic_seen: old(self).panic_seen || observed == Ok::<bool, E>(true),
                ..*old(self)
            }),
            match (observed, old(self).finished, report) {
                (Err(error), _, _) => result == Err::<Vec<JournalStep>, E>(error),
                (Ok(_), true, _) => result is Ok && result->Ok_0@.len() == 0,
                (Ok(_), false, Err(error)) => result == Err::<Vec<JournalStep>, E>(error),
                (Ok(_), false, Ok(exists)) => {
                    &&& result is Ok
                    &&& final(self).published_by(result->Ok_0@, succeeded, exists, now)
                },
            },
    {
        match observed {
            Err(error) => return Err(error),
            Ok(seen) => {
                self.panic_seen = self.panic_seen || seen;
            },
        }
        if self.finished {
            return Ok(Vec::new());
        }
        let (status, reason) = if self.panic_seen {
            (
                ExitStatus::Panic,
                "The run encountered a Rust panic (even if the event loop later returned)".to_owned(),
            )
        } else if succeeded {
            (
                ExitStatus::Clean,
                match self.intent {
                    Some(intent) => intent.description().to_owned(),
                    None => "Application event loop returned normally".to_owned(),
                },
            )
        } else {
            (ExitStatus::RuntimeError, "The application event loop returned an error".to_owned())
        };
        let artifact = match report {
            Err(error) => return Err(error),
            Ok(exists) => if exists {
                Some(panic_report_name(self.marker.run_id.as_str()))
            } else {
                None
            },
        };
        let record = ExitRecord::of_run(&self.marker, now, status, reason, artifact);
        let mut steps = Vec::new();
        steps.push(JournalStep::WriteLastExit(record));
        steps.push(JournalStep::RemoveIntent);
        steps.push(JournalStep::RemoveMarker);
        Ok(steps)
    }

    /// `steps` publish the final record and then clear the run's other files.
    pub open spec fn published_by(
        self,
        steps: Seq<JournalStep>,
        succeeded: bool,
        report: bool,
        now: u128,
    ) -> bool {
        &&& steps.len() == 3
        &&& steps[0] is WriteLastExit
        &&& steps[0]->WriteLastExit_0@ == self.final_record(succeeded, report, now)
        &&& steps[1] == JournalStep::RemoveIntent
        &&& steps[2] == JournalStep::RemoveMarker
    }

    /// Takes note of how the steps of `finish` went.
    pub fn finish_applied<E>(&mut self, applied: Result<(), E>) -> (result: Result<(), E>)
        ensures
            result == applied,
            *final(self) == (RunJournal {
                finished: old(self).finished || applied is Ok,
                ..*old(self)
            }),
    {
        if applied.is_ok() {
            self.finished = true;
        }
        applied
    }

    /// The steps that a panic in this run takes: its report, then the record.
    pub fn record_panic(
        &mut self,
        payload: Option<String>,
        location: Option<PanicLocation>,
        backtrace: &str,
        now: u128,
    ) -> (steps: Vec<JournalStep>)
        ensures
            *final(self) == (RunJournal { panic_seen: true, ..*old(self) }),
            old(self).reported_by(
                steps@,
                report_text(
                    old(self).marker@,
                    location_text(location),
                    payload_text(payload),
                    backtrace@,
                    now as nat,
                ),
                now,
            ),
    {
        self.panic_seen = true;
        let mut report = "fesTerm panic report\nversion=".to_owned();
        report.append(self.marker.version.as_str());
        report.append("\nos=");
        report.append(self.marker.os.as_str());
        report.append("\narchitecture=");
        report.append(self.marker.architecture.as_str());
        report.append("\nrun_id=");
        report.append(self.marker.run_id.as_str());
        report.append("\nstarted_at_unix_ms=");
        push_decimal(&mut report, self.marker.started_at_unix_ms);
        report.append("\npanic_at_unix_ms=");
        push_decimal(&mut report, now);
        report.append("\nlocation=");
        let mut place = String::new();
        match &location {
            Some(location) => {
                place.append(location.file.as_str());
                place.append(":");
                push_decimal(&mut place, location.line as u128);
                place.append(":");
                push_decimal(&mut place, location.column as u128);
            },
            None => place.append("unknown"),
        }
        assert(place@ =~= location_text(location));
        report.append(place.as_str());
        report.append("\nmessage=");
        match &payload {
            Some(payload) => report.append(payload.as_str()),
            None => report.append("non-string panic payload"),
        }
        report.append("\n\nbacktrace:\n");
        report.append(backtrace);
        assert(report@ =~= report_text(
            self.marker@,
            location_text(location),
            payload_text(payload),
            backtrace@,
            now as nat,
        ));
        let bytes = report.as_str().as_bytes();
        let length: usize = if bytes.len() <= MAX_PANIC_BYTES {
            bytes.len()
        } else {
            MAX_PANIC_BYTES
        };
        assert(length == bytes@.len() ==> bytes@.subrange(0, length as int) =~= bytes@);
        let name = panic_report_name(self.marker.run_id.as_str());
        let mut steps = Vec::new();
        steps.push(JournalStep::WritePanicReport(slice_to_vec(slice_subrange(bytes, 0, length))));
        steps.push(
            JournalStep::WriteLastExit(
                ExitRecord::of_run(
                    &self.marker,
                    now,
                    ExitStatus::Panic,
                    "The run encountered a Rust panic".to_owned(),
                    Some(name),
                ),
            ),
        );
        steps
    }

    /// `steps` write the report `text`, cut to its limit, and then the record
    /// that points at it.
    pub open spec fn reported_by(
        self,
        steps: Seq<JournalStep>,
        text: Seq<char>,
        now: u128,
    ) -> bool {
        let bytes = vstd::utf8::encode_utf8(text);
        &&& steps.len() == 2
        &&& steps[0] is WritePanicReport
        &&& steps[0]->WritePanicReport_0@ == if bytes.len() <= MAX_PANIC_BYTES {
            bytes
        } else {
            bytes.take(MAX_PANIC_BYTES as int)
        }
        &&& steps[1] is WriteLastExit
        &&& steps[1]->WriteLastExit_0@ == ExitRecordView::of_run(
            self.marker@,
            now,
            ExitStatus::Panic,
            "The run encountered a Rust panic"@,
            Some(panic_report_text(self.marker@.run_id)),
        )
    }
}

/// The files of a run that has announced itself and written at most its intent.
pub open spec fn in_progress(files: RunFiles, journal: RunJournal) -> bool {
    &&& files.last_exit is None
    &&& files.marker == Some(journal.marker@)
    &&& match journal.intent {
        Some(intent) => {
            &&& files.intent is Some
            &&& files.intent->Some_0.run_id == journal.marker@.run_id
            &&& files.intent->Some_0.intent == intent
        },
        None => files.intent is None,
    }
}

/// A run that stops without finishing is never reported as clean: without a
/// panic its report is unclean and names the intent it had recorded.
pub proof fn interrupted_run_is_unclean(files: RunFiles, journal: RunJournal, now: u128)
    requires
        in_progress(files, journal),
        !files.panic_report,
        !files.panic_observed,
    ensures
        recovered(files, now) == Some(
            ExitRecordView::of_run(
                journal.marker@,
                now,
                ExitStatus::Unclean,
                unclean_reason(journal.intent),
                None,
            ),
        ),
{
}

/// A panic outranks every other evidence: whatever else a run left behind, the
/// flag raised by the panic hook makes its report a panic.
pub proof fn panic_flag_takes_precedence(files: RunFiles, now: u128)
    requires
        files.panic_observed,
        recovered(files, now) is Some,
    ensures
        recovered(files, now)->Some_0.status == ExitStatus::Panic,
{
}

/// Finishing is crash-safe. Wherever its steps are interrupted, the next start
/// reports the run as still unfinished before the first step is on disk, and
/// with its final record, unchanged, from the first step on.
pub proof fn finish_survives_interruption(
    files: RunFiles,
    journal: RunJournal,
    steps: Seq<JournalStep>,
    succeeded: bool,
    ended: u128,
    count: nat,
    now: u128,
)
    requires
        in_progress(files, journal),
        !files.panic_observed,
        journal.published_by(steps, succeeded, files.panic_report, ended),
        count <= steps.len(),
    ensures
        recovered(applied_prefix(files, steps, count), now) == Some(
            if count == 0 {
                abandoned(journal.marker@, files.intent, files.panic_report, false, now)
            } else {
                journal.final_record(succeeded, files.panic_report, ended)
            },
        ),
        count == 0 ==> recovered(applied_prefix(files, steps, count), now)->Some_0.status
            != ExitStatus::Clean,
        count == steps.len() ==> {
            &&& applied_prefix(files, steps, count).marker is None
            &&& applied_prefix(files, steps, count).intent is None
        },
{
    reveal_with_fuel(applied_prefix, 4);
}

/// A panic is never lost. From the report's own write on, each of the steps
/// leaves a run that is reported as a panic, with its report attached.
pub proof fn panic_survives_interruption(
    files: RunFiles,
    journal: RunJournal,
    steps: Seq<JournalStep>,
    text: Seq<char>,
    panicked: u128,
    count: nat,
    now: u128,
)
    requires
        in_progress(files, journal),
        journal.reported_by(steps, text, panicked),
        0 < count <= steps.len(),
    ensures
        recovered(applied_prefix(files, steps, count), now) is Some,
        recovered(applied_prefix(files, steps, count), now)->Some_0.status == ExitStatus::Panic,
        recovered(applied_prefix(files, steps, count), now)->Some_0.artifact == Some(
            panic_report_text(journal.marker@.run_id),
        ),
{
    reveal_with_fuel(applied_prefix, 3);
}

/// Storing a report back, as each start does, settles it: every later start
/// finds the same run, times, status and artifact, and the same reason unless
/// the panic flag replaces it.
pub proof fn stored_report_is_stable(files: RunFiles, first: u128, later: u128)
    requires
        recovered(files, first) is Some,
    ensures
        ({
            let report = recovered(files, first)->Some_0;
            let again = recovered(RunFiles { last_exit: Some(report), ..files }, later);
            &&& again == Some(with_panic_flag(report, files.panic_observed))
            &&& again->Some_0.status == report.status
            &&& again->Some_0 == (ExitRecordView { reason: again->Some_0.reason, ..report })
            &&& !files.panic_observed ==> again == Some(report)
        }),
{
}

/// Whatever an earlier run left behind, its report is about that run: the record
/// it wrote keeps everything but what a panic overrules, and an abandoned run is
/// the one that its marker announced, reported at the moment it was found.
pub proof fn reports_are_about_the_run(files: RunFiles, now: u128)
    ensures
        ({
            let report = recovered(files, now)->Some_0;
            &&& recovered(files, now) is None <==> files.last_exit is None && files.marker is None
            &&& files.last_exit is Some ==> {
                let record = files.last_exit->Some_0;
                &&& report.run_id == record.run_id
                &&& report.started_at_unix_ms == record.started_at_unix_ms
                &&& report.ended_at_unix_ms == record.ended_at_unix_ms
                &&& report.artifact == record.artifact
                &&& report.version == record.version
                &&& !files.panic_observed ==> report == record
            }
            &&& files.last_exit is None && files.marker is Some ==> {
                let marker = files.marker->Some_0;
                &&& report.run_id == marker.run_id
                &&& report.started_at_unix_ms == marker.started_at_unix_ms
                &&& report.ended_at_unix_ms == now
                &&& report.version == marker.version
                &&& report.os == marker.os
                &&& report.architecture == marker.architecture
                &&& report.status == ExitStatus::Panic <==> files.panic_report
                    || files.panic_observed
                &&& report.status == ExitStatus::Unclean <==> !files.panic_report
                    && !files.panic_observed
                &&& report.artifact is Some <==> files.panic_report
                &&& report.artifact is Some ==> report.artifact == Some(
                    panic_report_text(marker.run_id),
                )
            }
        }),
{
}

/// The reason for an unclean end names the intent that the run itself had
/// recorded; what another run intended does not count.
pub proof fn unclean_ends_name_their_intent(
    files: RunFiles,
    other: PersistedIntentView,
    now: u128,
)
    requires
        files.last_exit is None,
        files.marker is Some,
        !files.panic_report,
        !files.panic_observed,
    ensures
        files.intent is Some && files.intent->Some_0.run_id == files.marker->Some_0.run_id
            ==> holds_text(
            recovered(files, now)->Some_0.reason,
            files.intent->Some_0.intent.description_text(),
        ),
        other.run_id != files.marker->Some_0.run_id ==> recovered(
            RunFiles { intent: Some(other), ..files },
            now,
        ) == recovered(RunFiles { intent: None, ..files }, now),
{
    if let Some(intent) = files.intent {
        let head = "No clean shutdown followed this intent: "@;
        let text = head + intent.intent.description_text();
        assert(text.subrange(
            head.len() as int,
            head.len() as int + intent.intent.description_text().len(),
        ) =~= intent.intent.description_text());
    }
}

/// A run is recorded as it ended: with a panic wherever one was seen, and without
/// one as its event loop returned. A clean record gives the recorded intent, and
/// a record points at the panic report exactly where there is one.
pub proof fn runs_are_recorded_as_they_ended(
    journal: RunJournal,
    succeeded: bool,
    report: bool,
    now: u128,
)
    ensures
        ({
            let record = journal.final_record(succeeded, report, now);
            &&& record.status == ExitStatus::Panic <==> journal.panic_seen
            &&& record.status == ExitStatus::Clean <==> succeeded && !journal.panic_seen
            &&& record.status == ExitStatus::RuntimeError <==> !succeeded && !journal.panic_seen
            &&& record.status == ExitStatus::Clean && journal.intent is Some ==> record.reason
                == journal.intent->Some_0.description_text()
            &&& record.run_id == journal.marker@.run_id
            &&& record.started_at_unix_ms == journal.marker@.started_at_unix_ms
            &&& record.ended_at_unix_ms == now
            &&& record.artifact is Some <==> report
            &&& report ==> record.artifact == Some(panic_report_text(journal.marker@.run_id))
        }),
{
}

/// Only the reads that a report needs can fail it: where a record is there,
/// nothing but the panic flag; where nothing was announced, nothing more. The
/// error of a read that is needed is given back.
pub proof fn only_needed_reads_fail<E>(evidence: RunEvidence<E>)
    ensures
        evidence.last_exit is Err ==> evidence.failure() == Some(evidence.last_exit->Err_0),
        evidence.last_exit is Ok && evidence.last_exit->Ok_0 is Some ==> {
            &&& evidence.failure() is Some <==> evidence.panic_observed is Err
            &&& evidence.panic_observed is Err ==> evidence.failure() == Some(
                evidence.panic_observed->Err_0,
            )
        },
        evidence.last_exit is Ok && evidence.last_exit->Ok_0 is None ==> {
            &&& evidence.marker is Err ==> evidence.failure() == Some(evidence.marker->Err_0)
            &&& evidence.marker is Ok && evidence.marker->Ok_0 is None ==> evidence.failure() is None
            &&& evidence.marker is Ok && evidence.marker->Ok_0 is Some ==> {
                &&& evidence.intent is Err ==> evidence.failure() == Some(evidence.intent->Err_0)
                &&& evidence.intent is Ok && evidence.panic_report is Err ==> evidence.failure()
                    == Some(evidence.panic_report->Err_0)
                &&& evidence.intent is Ok && evidence.panic_report is Ok ==> (evidence.failure()
                    is Some <==> !evidence.panic_report->Ok_0 && evidence.panic_observed is Err)
            }
        },
        evidence.last_exit is Ok && evidence.marker is Ok && evidence.intent is Ok
            && evidence.panic_report is Ok && evidence.panic_observed is Ok ==> evidence.failure()
            is None,
{
}

proof fn part_is_held(before: Seq<char>, part: Seq<char>, after: Seq<char>)
    ensures
        holds_text(before + part + after, part),
{
    let s = before + part + after;
    assert(s.subrange(before.len() as int, before.len() as int + part.len()) =~= part);
}

/// A panic report names the run, the place and the message, and ends in the
/// backtrace.
pub proof fn panic_reports_tell_everything(
    marker: RunMarkerView,
    location: Seq<char>,
    payload: Seq<char>,
    backtrace: Seq<char>,
    now: nat,
)
    ensures
        ({
            let text = report_text(marker, location, payload, backtrace, now);
            &&& holds_text(text, marker.version)
            &&& holds_text(text, marker.run_id)
            &&& holds_text(text, decimal(now))
            &&& holds_text(text, location)
            &&& holds_text(text, payload)
            &&& text.len() >= backtrace.len()
            &&& text.skip(text.len() - backtrace.len()) == backtrace
        }),
{
    let text = report_text(marker, location, payload, backtrace, now);
    let a = "fesTerm panic report\nversion="@;
    let b = a + marker.version + "\nos="@ + marker.os + "\narchitecture="@ + marker.architecture
        + "\nrun_id="@;
    let c = b + marker.run_id + "\nstarted_at_unix_ms="@ + decimal(
        marker.started_at_unix_ms as nat,
    ) + "\npanic_at_unix_ms="@;
    let d = c + decimal(now) + "\nlocation="@;
    let e = d + location + "\nmessage="@;
    let f = e + payload + "\n\nbacktrace:\n"@;
    assert(text == f + backtrace);
    assert(text.skip(f.len() as int) =~= backtrace);
    assert(b.subrange(a.len() as int, a.len() as int + marker.version.len()) =~= marker.version);
    assert(f.take(b.len() as int) =~= b);
    held_further(a, marker.version, b, backtrace, f);
    assert(c.subrange(b.len() as int, b.len() as int + marker.run_id.len()) =~= marker.run_id);
    assert(f.take(c.len() as int) =~= c);
    held_further(b, marker.run_id, c, backtrace, f);
    assert(d.subrange(c.len() as int, c.len() as int + decimal(now).len()) =~= decimal(now));
    assert(f.take(d.len() as int) =~= d);
    held_further(c, decimal(now), d, backtrace, f);
    assert(e.subrange(d.len() as int, d.len() as int + location.len()) =~= location);
    assert(f.take(e.len() as int) =~= e);
    held_further(d, location, e, backtrace, f);
    assert(f.subrange(e.len() as int, e.len() as int + payload.len()) =~= payload);
    assert(f.take(f.len() as int) =~= f);
    held_further(e, payload, f, backtrace, f);
}

proof fn held_further(
    before: Seq<char>,
    part: Seq<char>,
    longer: Seq<char>,
    rest: Seq<char>,
    all: Seq<char>,
)
    requires
        before.len() + part.len() <= longer.len() <= all.len(),
        longer.subrange(before.len() as int, before.len() as int + part.len()) == part,
        all.take(longer.len() as int) == longer,
    ensures
        holds_text(all + rest, part),
{
    let s = all + rest;
    let i = before.len() as int;
    assert forall|k: int| 0 <= k < part.len() implies s[i + k] == part[k] by {
        assert(all.take(longer.len() as int)[i + k] == all[i + k]);
        assert(longer.subrange(i, i + part.len())[k] == longer[i + k]);
    }
    assert(s.subrange(i, i + part.len()) =~= part);
}

/// A panic report is written from its start and never beyond the limit, and whole
/// where it fits; the record that follows points at it.
pub proof fn panic_reports_are_cut_at_their_end(
    journal: RunJournal,
    steps: Seq<JournalStep>,
    text: Seq<char>,
    now: u128,
)
    requires
        journal.reported_by(steps, text, now),
    ensures
        ({
            let bytes = steps[0]->WritePanicReport_0@;
            let whole = vstd::utf8::encode_utf8(text);
            let record = steps[1]->WriteLastExit_0@;
            &&& bytes.len() <= MAX_PANIC_BYTES
            &&& bytes.len() <= whole.len()
            &&& bytes == whole.take(bytes.len() as int)
            &&& bytes.len() < MAX_PANIC_BYTES ==> bytes == whole
            &&& record.status == ExitStatus::Panic
            &&& record.artifact == Some(panic_report_text(record.run_id))
            &&& record.run_id == journal.marker@.run_id
            &&& record.ended_at_unix_ms == now
        }),
{
    let bytes = steps[0]->WritePanicReport_0@;
    let whole = vstd::utf8::encode_utf8(text);
    assert(bytes =~= whole.take(bytes.len() as int));
}

/// Where a panic came from is given by file, line and column, and what it said as
/// it said it.
pub proof fn panics_are_placed(location: PanicLocation, payload: String)
    ensures
        holds_text(location_text(Some(location)), location.file@),
        holds_text(location_text(Some(location)), decimal(location.line as nat)),
        holds_text(location_text(Some(location)), decimal(location.column as nat)),
        payload_text(Some(payload)) == payload@,
{
    let line = decimal(location.line as nat);
    let column = decimal(location.column as nat);
    let text = location_text(Some(location));
    assert(text =~= Seq::<char>::empty() + location.file@ + (":"@ + line + ":"@ + column));
    part_is_held(Seq::empty(), location.file@, ":"@ + line + ":"@ + column);
    assert(text =~= (location.file@ + ":"@) + line + (":"@ + column));
    part_is_held(location.file@ + ":"@, line, ":"@ + column);
    assert(text =~= (location.file@ + ":"@ + line + ":"@) + column + Seq::empty());
    part_is_held(location.file@ + ":"@ + line + ":"@, column, Seq::empty());
}

} // verus!
