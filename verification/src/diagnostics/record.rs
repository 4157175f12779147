//! The records a run leaves on disk.
use vstd::prelude::*;

use crate::text::push_decimal;
#[allow(unused_imports)]
use crate::text::{decimal, decimal_reads_back, holds_text, optional_text};

verus! {

/// The layout version written into every record.
pub const SCHEMA_VERSION: u32 = 2;

/// Why the application was asked to stop.
#[derive(Clone, Copy, Debug, PartialEq, Eq, Structural)]
pub enum ExitIntent {
    UserQuit,
    UpdateRestart,
    NativeSmokeComplete,
}

impl ExitIntent {
    pub open spec fn description_text(self) -> Seq<char> {
        match self {
            ExitIntent::UserQuit => "User requested quit"@,
            ExitIntent::UpdateRestart => "Update installed; restart requested"@,
            ExitIntent::NativeSmokeComplete => "Native smoke completed"@,
        }
    }

    pub fn description(self) -> (text: &'static str)
        ensures
            text@ == self.description_text(),
    {
        match self {
            ExitIntent::UserQuit => "User requested quit",
            ExitIntent::UpdateRestart => "Update installed; restart requested",
            ExitIntent::NativeSmokeComplete => "Native smoke completed",
        }
    }
}

/// How a run ended.
#[derive(Clone, Copy, Debug, PartialEq, Eq, Structural)]
pub enum ExitStatus {
    Clean,
    RuntimeError,
    Panic,
    Unclean,
}

impl ExitStatus {
    pub open spec fn label_text(self) -> Seq<char> {
        match self {
            ExitStatus::Clean => "Clean"@,
            ExitStatus::RuntimeError => "Runtime error"@,
            ExitStatus::Panic => "Rust panic"@,
            ExitStatus::Unclean => "Unclean"@,
        }
    }

    pub fn label(self) -> (text: &'static str)
        ensures
            text@ == self.label_text(),
    {
        match self {
            ExitStatus::Clean => "Clean",
            ExitStatus::RuntimeError => "Runtime error",
            ExitStatus::Panic => "Rust panic",
            ExitStatus::Unclean => "Unclean",
        }
    }
}

/// Written when a run starts and removed when it has finished.
#[derive(Debug)]
pub struct RunMarker {
    pub schema_version: u32,
    pub run_id: String,
    pub started_at_unix_ms: u128,
    pub version: String,
    pub os: String,
    pub architecture: String,
}

pub struct RunMarkerView {
    pub schema_version: u32,
    pub run_id: Seq<char>,
    pub started_at_unix_ms: u128,
    pub version: Seq<char>,
    pub os: Seq<char>,
    pub architecture: Seq<char>,
}

impl View for RunMarker {
    type V = RunMarkerView;

    open spec fn view(&self) -> RunMarkerView {
        RunMarkerView {
            schema_version: self.schema_version,
            run_id: self.run_id@,
            started_at_unix_ms: self.started_at_unix_ms,
            version: self.version@,
            os: self.os@,
            architecture: self.architecture@,
        }
    }
}

/// The requested exit reason, written before the event loop winds down.
#[derive(Debug)]
pub struct PersistedIntent {
    pub run_id: String,
    pub intent: ExitIntent,
    pub recorded_at_unix_ms: u128,
}

pub struct PersistedIntentView {
    pub run_id: Seq<char>,
    pub intent: ExitIntent,
    pub recorded_at_unix_ms: u128,
}

impl View for PersistedIntent {
    type V = PersistedIntentView;

    open spec fn view(&self) -> PersistedIntentView {
        PersistedIntentView {
            run_id: self.run_id@,
            intent: self.intent,
            recorded_at_unix_ms: self.recorded_at_unix_ms,
        }
    }
}

/// The final word on one run.
#[derive(Debug)]
pub struct ExitRecord {
    pub schema_version: u32,
    pub run_id: String,
    pub started_at_unix_ms: u128,
    pub ended_at_unix_ms: u128,
    pub status: ExitStatus,
    pub reason: String,
    pub version: String,
    pub os: String,
    pub architecture: String,
    pub artifact: Option<String>,
}

pub struct ExitRecordView {
    pub schema_version: u32,
    pub run_id: Seq<char>,
    pub started_at_unix_ms: u128,
    pub ended_at_unix_ms: u128,
    pub status: ExitStatus,
    pub reason: Seq<char>,
    pub version: Seq<char>,
    pub os: Seq<char>,
    pub architecture: Seq<char>,
    pub artifact: Option<Seq<char>>,
}

impl View for ExitRecord {
    type V = ExitRecordView;

    open spec fn view(&self) -> ExitRecordView {
        ExitRecordView {
            schema_version: self.schema_version,
            run_id: self.run_id@,
            started_at_unix_ms: self.started_at_unix_ms,
            ended_at_unix_ms: self.ended_at_unix_ms,
            status: self.status,
            reason: self.reason@,
            version: self.version@,
            os: self.os@,
            architecture: self.architecture@,
            artifact: optional_text(self.artifact),
        }
    }
}

impl ExitRecordView {
    /// The record of the run that `marker` announced.
    pub open spec fn of_run(
        marker: RunMarkerView,
        ended_at_unix_ms: u128,
        status: ExitStatus,
        reason: Seq<char>,
        artifact: Option<Seq<char>>,
    ) -> Self {
        ExitRecordView {
            schema_version: SCHEMA_VERSION,
            run_id: marker.run_id,
            started_at_unix_ms: marker.started_at_unix_ms,
            ended_at_unix_ms,
            status,
            reason,
            version: marker.version,
            os: marker.os,
            architecture: marker.architecture,
            artifact,
        }
    }

    /// The one-line summary offered to support.
    pub open spec fn summary_text(self) -> Seq<char> {
        let line = self.status.label_text() + " — "@ + self.reason;
        match self.artifact {
            Some(artifact) => line + " (local report: "@ + artifact + ")"@,
            None => line,
        }
    }
}

impl ExitRecord {
    /// Builds the record of the run that `marker` announced.
    pub fn of_run(
        marker: &RunMarker,
        ended_at_unix_ms: u128,
        status: ExitStatus,
        reason: String,
        artifact: Option<String>,
    ) -> (record: Self)
        ensures
            record@ == ExitRecordView::of_run(
                marker@,
                ended_at_unix_ms,
                status,
                reason@,
                optional_text(artifact),
            ),
    {
        ExitRecord {
            schema_version: SCHEMA_VERSION,
            run_id: marker.run_id.clone(),
            started_at_unix_ms: marker.started_at_unix_ms,
            ended_at_unix_ms,
            status,
            reason,
            version: marker.version.clone(),
            os: marker.os.clone(),
            architecture: marker.architecture.clone(),
            artifact,
        }
    }

    /// One line for support: status, reason and, where there is one, the report.
    pub fn support_summary(&self) -> (summary: String)
        ensures
            summary@ == self@.summary_text(),
    {
        let mut summary = self.status.label().to_owned();
        summary.append(" — ");
        summary.append(self.reason.as_str());
        if let Some(artifact) = &self.artifact {
            summary.append(" (local report: ");
            summary.append(artifact.as_str());
            summary.append(")");
        }
        summary
    }
}

/// The file name of a run's panic report.
pub open spec fn panic_report_text(run_id: Seq<char>) -> Seq<char> {
    "panic-"@ + run_id + ".txt"@
}

pub fn panic_report_name(run_id: &str) -> (name: String)
    ensures
        name@ == panic_report_text(run_id@),
{
    let mut name = "panic-".to_owned();
    name.append(run_id);
    name.append(".txt");
    name
}

/// The identifier of the `sequence`-th run that process `process` starts at `now`.
pub open spec fn run_id_text(process: nat, now: nat, sequence: nat) -> Seq<char> {
    decimal(process) + "-"@ + decimal(now) + "-"@ + decimal(sequence)
}

pub fn run_id(process: u32, now: u128, sequence: u64) -> (id: String)
    ensures
        id@ == run_id_text(process as nat, now as nat, sequence as nat),
{
    let mut id = String::new();
    push_decimal(&mut id, process as u128);
    id.append("-");
    push_decimal(&mut id, now);
    id.append("-");
    push_decimal(&mut id, sequence as u128);
    assert(id@ =~= run_id_text(process as nat, now as nat, sequence as nat));
    id
}

/// Two runs that one process starts at the same moment have different
/// identifiers.
pub proof fn run_ids_differ(process: nat, now: nat, first: nat, second: nat)
    requires
        first != second,
    ensures
        run_id_text(process, now, first) != run_id_text(process, now, second),
{
    let prefix = decimal(process) + "-"@ + decimal(now) + "-"@;
    decimal_reads_back(first);
    decimal_reads_back(second);
    if run_id_text(process, now, first) == run_id_text(process, now, second) {
        assert(run_id_text(process, now, first).skip(prefix.len() as int) =~= decimal(first));
        assert(run_id_text(process, now, second).skip(prefix.len() as int) =~= decimal(second));
    }
}

proof fn text_before_dash(a: Seq<char>, b: Seq<char>, x: Seq<char>, y: Seq<char>)
    requires
        !a.contains('-'),
        !b.contains('-'),
        a + seq!['-'] + x == b + seq!['-'] + y,
    ensures
        a == b,
        x == y,
{
    let s = a + seq!['-'] + x;
    let t = b + seq!['-'] + y;
    assert((a + seq!['-']).len() == a.len() + 1);
    assert((b + seq!['-']).len() == b.len() + 1);
    assert(s[a.len() as int] == '-');
    assert(t[b.len() as int] == '-');
    if a.len() < b.len() {
        assert(t[a.len() as int] == b[a.len() as int]);
        assert(b.contains('-'));
    }
    if b.len() < a.len() {
        assert(s[b.len() as int] == a[b.len() as int]);
        assert(a.contains('-'));
    }
    assert(a =~= b) by {
        assert forall|i: int| 0 <= i < a.len() implies a[i] == b[i] by {
            assert(s[i] == a[i]);
            assert(t[i] == b[i]);
        }
    }
    assert(s.skip(a.len() as int + 1) =~= x);
    assert(t.skip(b.len() as int + 1) =~= y);
}

proof fn numbers_hold_no_dash(n: nat)
    ensures
        !decimal(n).contains('-'),
{
    decimal_reads_back(n);
    if decimal(n).contains('-') {
        let i = choose|i: int| 0 <= i < decimal(n).len() && decimal(n)[i] == '-';
        assert('0' <= decimal(n)[i] <= '9');
    }
}

/// No two runs share an identifier, or the name of a panic report: the process,
/// the moment and the number of a run can be read from it.
pub proof fn run_ids_tell_runs_apart(
    process: nat,
    now: nat,
    sequence: nat,
    other_process: nat,
    other_now: nat,
    other_sequence: nat,
)
    requires
        panic_report_text(run_id_text(process, now, sequence)) == panic_report_text(
            run_id_text(other_process, other_now, other_sequence),
        ),
    ensures
        process == other_process,
        now == other_now,
        sequence == other_sequence,
{
    let a = run_id_text(process, now, sequence);
    let b = run_id_text(other_process, other_now, other_sequence);
    let head = "panic-"@;
    assert(panic_report_text(a).len() == head.len() + a.len() + ".txt"@.len());
    assert(panic_report_text(b).len() == head.len() + b.len() + ".txt"@.len());
    assert(panic_report_text(a).subrange(head.len() as int, head.len() as int + a.len()) =~= a);
    assert(panic_report_text(b).subrange(head.len() as int, head.len() as int + b.len()) =~= b);
    assert(a == b);
    reveal_strlit("-");
    assert("-"@ =~= seq!['-']);
    let rest = decimal(now) + seq!['-'] + decimal(sequence);
    let other_rest = decimal(other_now) + seq!['-'] + decimal(other_sequence);
    assert(a =~= decimal(process) + seq!['-'] + rest);
    assert(b =~= decimal(other_process) + seq!['-'] + other_rest);
    numbers_hold_no_dash(process);
    numbers_hold_no_dash(other_process);
    numbers_hold_no_dash(now);
    numbers_hold_no_dash(other_now);
    text_before_dash(decimal(process), decimal(other_process), rest, other_rest);
    text_before_dash(
        decimal(now),
        decimal(other_now),
        decimal(sequence),
        decimal(other_sequence),
    );
    decimal_reads_back(process);
    decimal_reads_back(other_process);
    decimal_reads_back(now);
    decimal_reads_back(other_now);
    decimal_reads_back(sequence);
    decimal_reads_back(other_sequence);
}

/// A record names the run that its marker announced, and keeps what it is told of
/// the run's end.
pub proof fn records_name_their_run(
    marker: RunMarkerView,
    ended: u128,
    status: ExitStatus,
    reason: Seq<char>,
    artifact: Option<Seq<char>>,
)
    ensures
        ({
            let record = ExitRecordView::of_run(marker, ended, status, reason, artifact);
            &&& record.run_id == marker.run_id
            &&& record.started_at_unix_ms == marker.started_at_unix_ms
            &&& record.ended_at_unix_ms == ended
            &&& record.status == status
            &&& record.reason == reason
            &&& record.artifact == artifact
            &&& record.version == marker.version
            &&& record.os == marker.os
            &&& record.architecture == marker.architecture
            &&& record.schema_version == SCHEMA_VERSION
        }),
{
}

/// The ways in which a run ends, and the reasons for which it is asked to, are
/// told apart by their words.
pub proof fn endings_are_told_apart(a: ExitStatus, b: ExitStatus, c: ExitIntent, d: ExitIntent)
    ensures
        a.label_text() == b.label_text() <==> a == b,
        c.description_text() == d.description_text() <==> c == d,
{
    reveal_strlit("Clean");
    reveal_strlit("Runtime error");
    reveal_strlit("Rust panic");
    reveal_strlit("Unclean");
    reveal_strlit("User requested quit");
    reveal_strlit("Update installed; restart requested");
    reveal_strlit("Native smoke completed");
    assert("Clean"@.len() == 5);
    assert("Runtime error"@.len() == 13);
    assert("Rust panic"@.len() == 10);
    assert("Unclean"@.len() == 7);
    assert("User requested quit"@.len() == 19);
    assert("Update installed; restart requested"@.len() == 35);
    assert("Native smoke completed"@.len() == 22);
}

/// The summary of a run says how it ended, why, and where its report is.
pub proof fn summaries_hold_the_ending(record: ExitRecordView)
    ensures
        holds_text(record.summary_text(), record.status.label_text()),
        holds_text(record.summary_text(), record.reason),
        record.artifact is Some ==> holds_text(record.summary_text(), record.artifact->Some_0),
        record.artifact is None ==> record.summary_text() == record.status.label_text() + " — "@
            + record.reason,
{
    let text = record.summary_text();
    let label = record.status.label_text();
    let start = (label + " — "@).len() as int;
    assert(text.subrange(0int, 0int + label.len()) =~= label);
    assert(text.subrange(start, start + record.reason.len()) =~= record.reason);
    if let Some(artifact) = record.artifact {
        let at = (label + " — "@ + record.reason + " (local report: "@).len() as int;
        assert(text.subrange(at, at + artifact.len()) =~= artifact);
    }
}

} // verus!
