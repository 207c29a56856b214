//! The launch, termination and exit-reconciliation decisions.
//!
//! A launch request first probes the control channel; reaching it means an
//! instance is already running and is reused, with no registry change.
//! Failing to reach it is not an error: a fresh process is spawned, and the
//! outcome of that spawn decides between registration and a launch failure.
//! The probing, spawning, signalling and waiting are the embedding
//! application's business; it reports what happened as a [`LaunchEvent`],
//! and the functions here make every decision that follows from it.

use vstd::prelude::*;
use vstd::string::StringExecFns;
use crate::record::MpvProcess;
use crate::record::reuse_record;
use crate::record::spawned_record;
use crate::registry::Registry;
use crate::registry::removes;

verus! {

/// What the embedding application observed while carrying out a launch
/// request: either the control channel answered, or a spawn was attempted
/// and succeeded or failed.
pub enum LaunchEvent {
    /// The control channel was reachable and the replace-media directive
    /// was delivered to the running instance.
    ControlReachable,
    /// The control channel was unreachable; a process was spawned and the
    /// operating system assigned it `pid`, at wall-clock time `now` seconds.
    SpawnedOk { pid: u32, now: u64 },
    /// The control channel was unreachable and the spawn failed; `error`
    /// carries the operating-system diagnostic.
    SpawnFailed { error: String },
}

/// What a launch request comes to, and what the embedding application owes
/// for it.
pub enum LaunchOutcome {
    /// An already-running instance was reused: report a "reused" event with
    /// `record` and answer the caller with identifier `0`.  Nothing was
    /// registered.
    Reused { record: MpvProcess },
    /// A spawned process was registered: report an "added" event with
    /// `record`, start an exit watcher for `record.id`, and answer the
    /// caller with `record.id`.
    Added { record: MpvProcess },
    /// The spawn failed: answer the caller with `message`.  Nothing was
    /// registered and no watcher is due.
    Failed { message: String },
}

/// Why an explicit termination request was refused.
#[derive(Debug, Clone, Copy, PartialEq, Eq, Structural)]
pub enum TerminateError {
    /// No entry with the requested identifier is registered.
    NotFound,
    /// The platform cannot send a termination signal by process identifier;
    /// the registry was left untouched.
    PlatformUnsupported,
}

/// The diagnostic returned when a spawn fails, built from the
/// operating-system error text.
pub open spec fn launch_failure_message(error: Seq<char>) -> Seq<char> {
    "Failed to launch MPV: "@ + error
}

/// Completes a launch request, given what the embedding application
/// observed.
///
/// A reachable control channel reuses the running instance: the registry is
/// untouched and the reported record carries the reserved identifier `0`.
/// A successful spawn registers exactly one entry, keyed by the identifier
/// the operating system assigned.  A failed spawn leaves the registry
/// untouched and turns the operating-system diagnostic into the launch
/// failure message.
pub fn complete_launch(
    reg: &mut Registry,
    url: String,
    title: String,
    thumbnail: Option<String>,
    event: LaunchEvent,
) -> (r: LaunchOutcome)
    requires
        old(reg).wf(),
    ensures
        final(reg).wf(),
        event matches LaunchEvent::ControlReachable ==> final(reg)@ == old(reg)@ && r == (
        LaunchOutcome::Reused { record: reuse_record(url, title, thumbnail) }),
        event matches LaunchEvent::SpawnedOk { pid, now } ==> {
            &&& r == (LaunchOutcome::Added { record: spawned_record(pid, now, url, title, thumbnail) })
            &&& final(reg).contains_id(pid)
            &&& final(reg).record_for(pid) == spawned_record(pid, now, url, title, thumbnail)
            &&& forall|q: u32| q != pid ==> (final(reg).contains_id(q) <==> old(reg).contains_id(q))
            &&& forall|q: u32|
                q != pid && old(reg).contains_id(q) ==> final(reg).record_for(q) == old(
                    reg,
                ).record_for(q)
            &&& !old(reg).contains_id(pid) ==> final(reg)@.len() == old(reg)@.len() + 1
            &&& old(reg).contains_id(pid) ==> final(reg)@.len() == old(reg)@.len()
        },
        event matches LaunchEvent::SpawnFailed { error } ==> final(reg)@ == old(reg)@ && (r
            matches LaunchOutcome::Failed { message } && message@ == launch_failure_message(
            error@,
        )),
{
    match event {
        LaunchEvent::ControlReachable => {
            let record = MpvProcess {
                id: 0,
                url,
                start_time: 0,
                last_known_time: None,
                title,
                thumbnail,
            };
            LaunchOutcome::Reused { record }
        },
        LaunchEvent::SpawnedOk { pid, now } => {
            let record = MpvProcess {
                id: pid,
                url,
                start_time: now,
                last_known_time: None,
                title,
                thumbnail,
            };
            reg.insert(record.clone());
            LaunchOutcome::Added { record }
        },
        LaunchEvent::SpawnFailed { error } => {
            let mut message = "Failed to launch MPV: ".to_string();
            message.append(error.as_str());
            LaunchOutcome::Failed { message }
        },
    }
}

/// Explicitly terminates the process registered under `id`.
///
/// On a platform that cannot signal a process by identifier the request is
/// refused before anything is touched.  An identifier with no entry is
/// refused as not found, with no side effect.  Otherwise the one entry
/// under `id` is removed and its record returned: the embedding application
/// then sends the best-effort termination signal and reports the one
/// "removed" event with that record.
pub fn terminate(reg: &mut Registry, id: u32, platform_can_signal: bool) -> (r: Result<
    MpvProcess,
    TerminateError,
>)
    requires
        old(reg).wf(),
    ensures
        final(reg).wf(),
        !platform_can_signal ==> r == Err::<MpvProcess, TerminateError>(
            TerminateError::PlatformUnsupported,
        ) && final(reg)@ == old(reg)@,
        platform_can_signal && !old(reg).contains_id(id) ==> r == Err::<MpvProcess,
            TerminateError,
        >(TerminateError::NotFound) && final(reg)@ == old(reg)@,
        platform_can_signal && old(reg).contains_id(id) ==> r == Ok::<MpvProcess, TerminateError>(
            old(reg).record_for(id),
        ) && removes(*old(reg), *final(reg), id, Some(old(reg).record_for(id))),
{
    if !platform_can_signal {
        return Err(TerminateError::PlatformUnsupported);
    }
    match reg.remove(id) {
        Some(record) => Ok(record),
        None => Err(TerminateError::NotFound),
    }
}

/// Reconciles the registry after the exit watcher saw its process
/// terminate.
///
/// The entry under `id` is deleted if it is still present, and its record
/// returned so that the one "removed" event can be reported with it.  If an
/// explicit termination raced ahead and already removed the entry, nothing
/// is returned and nothing further is due: the explicit path already
/// reported the removal.
pub fn handle_exit(reg: &mut Registry, id: u32) -> (r: Option<MpvProcess>)
    requires
        old(reg).wf(),
    ensures
        final(reg).wf(),
        removes(*old(reg), *final(reg), id, r),
{
    reg.remove(id)
}

/// The query operation: a point-in-time copy of every registered entry,
/// with no filtering and no side effect.
pub fn list_active(reg: &Registry) -> (r: Vec<MpvProcess>)
    ensures
        r@ == reg@,
{
    reg.snapshot()
}

} // verus!
