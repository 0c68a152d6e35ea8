//! The download worker's decision core: given the transport's report for
//! one task, update the task's progress handle, classify any failure, and
//! produce the per-task outcome. The transport itself (connection, TLS,
//! streaming) lives outside this core; the worker only consumes its report.

use crate::dlm_error::{classifies, DlmError};
use crate::progress_bars::{spec_format_label, ProgressHandle};
use vstd::prelude::*;

verus! {

/// A single URL to fetch plus its per-task display label. Immutable, and
/// consumed by exactly one worker.
pub struct DownloadTask {
    pub url: String,
    pub label: String,
}

/// What the transport reported for one task: the body arrived in full, the
/// response carried a failing status, or the transfer failed with the given
/// textual description.
pub enum FetchSignal {
    Success { bytes: u64 },
    BadStatus { detail: String },
    TransportFailure { message: String },
}

/// The lane label after a successful task: a short success indicator in
/// front of the task's label, at the fixed display width.
pub open spec fn success_label(task_label: Seq<char>) -> Seq<char> {
    spec_format_label("ok "@ + task_label)
}

/// The lane label after a failed task: a short failure indicator with the
/// error's diagnosable description, at the fixed display width.
pub open spec fn failure_label(e: DlmError) -> Seq<char> {
    spec_format_label("err: "@ + e.spec_short_text())
}

/// The outcome a worker owes for each possible transport report: the byte
/// count on success, `ResponseStatusNotSuccess` with the status detail on a
/// failing status, and the classified error on a transport failure.
pub open spec fn outcome_for(signal: FetchSignal, out: Result<u64, DlmError>) -> bool {
    match signal {
        FetchSignal::Success { bytes } => out == Ok::<u64, DlmError>(bytes),
        FetchSignal::BadStatus { detail } => out matches Err(e)
            && e matches DlmError::ResponseStatusNotSuccess { detail: d } && d@ == detail@,
        FetchSignal::TransportFailure { message } => out matches Err(e) && classifies(
            message@,
            e,
        ),
    }
}

/// Put the task's label on the freshly acquired handle before the fetch
/// begins streaming.
pub fn start_task(h: &mut ProgressHandle, task: &DownloadTask)
    requires
        !old(h).finished,
    ensures
        final(h).lane == old(h).lane,
        final(h).label@ == spec_format_label(task.label@),
        final(h).position == old(h).position,
        final(h).total == old(h).total,
        !final(h).finished,
{
    h.set_label(task.label.as_str());
}

/// Settle one task from the transport's report: on success record the full
/// byte count and a success label; on failure classify the error and put a
/// short failure indicator on the lane. Returns the per-task outcome. The
/// handle stays mutable so the pool can reset it on release.
pub fn complete_task(h: &mut ProgressHandle, task: &DownloadTask, signal: &FetchSignal) -> (out:
    Result<u64, DlmError>)
    requires
        !old(h).finished,
    ensures
        final(h).lane == old(h).lane,
        !final(h).finished,
        outcome_for(*signal, out),
        match out {
            Ok(bytes) => final(h).label@ == success_label(task.label@) && final(h).position
                == bytes && final(h).total == bytes,
            Err(e) => final(h).label@ == failure_label(e),
        },
{
    match signal {
        FetchSignal::Success { bytes } => {
            let transferred: u64 = *bytes;
            h.set_total(transferred);
            h.set_position(transferred);
            let mut lbl: String = String::from_str("ok ");
            lbl.append(task.label.as_str());
            h.set_label(lbl.as_str());
            Ok(transferred)
        },
        FetchSignal::BadStatus { detail } => {
            let e = DlmError::ResponseStatusNotSuccess { detail: detail.clone() };
            let st = e.short_text();
            let mut lbl: String = String::from_str("err: ");
            lbl.append(st.as_str());
            h.set_label(lbl.as_str());
            Err(e)
        },
        FetchSignal::TransportFailure { message } => {
            let e = DlmError::classify_fetch_text(message.clone());
            let st = e.short_text();
            let mut lbl: String = String::from_str("err: ");
            lbl.append(st.as_str());
            h.set_label(lbl.as_str());
            Err(e)
        },
    }
}

} // verus!
