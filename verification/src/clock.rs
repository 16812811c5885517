//! What the pipeline takes from the machine it runs on: the time of a
//! status, and fresh identifiers.

use vstd::prelude::*;
use std::path::PathBuf;
use crate::job::{next, status_of, submitted, ComicJob, JobAction, JobEvent};
use crate::registry::{advance, record_output, submit, StatusRegistry};

verus! {

/// The present time in UTC, written as RFC 3339: `OffsetDateTime::now_utc`
/// of `time`, formatted with its `Rfc3339` description. The text is empty
/// where the time has no such form. Nothing is promised of a clock.
#[verifier::external_body]
pub fn now_iso() -> (now: String) {
    time::OffsetDateTime::now_utc().format(
        &time::format_description::well_known::Rfc3339,
    ).unwrap_or_default()
}

/// A fresh random identifier: `Uuid::new_v4` of `uuid`, in its hyphenated
/// form. Nothing is promised of a random number.
#[verifier::external_body]
fn random_id() -> (id: String) {
    uuid::Uuid::new_v4().to_string()
}

/// The identifier of an entry that is stored: the one it comes with, or a
/// fresh one for an entry that comes without.
pub fn entry_id_or_new(id: Option<String>) -> (r: String)
    ensures
        id matches Some(given) ==> r == given,
{
    match id {
        Some(given) => given,
        None => random_id(),
    }
}

/// Submits a job for an entry under a fresh identifier and records it as
/// queued, at the present time. The identifier and the time are whatever
/// the machine gives; the job and the registry are as [`submit`] leaves
/// them for that identifier and that time.
pub fn submit_comic_job(
    registry: &mut StatusRegistry,
    entry_id: String,
    style: String,
    remote_configured: bool,
    data_root: PathBuf,
) -> (job: ComicJob)
    ensures
        exists|job_id: Seq<char>, now: Seq<char>|
            {
                &&& job@ == submitted(job_id, entry_id@, style@, remote_configured, data_root)
                &&& final(registry)@ == old(registry)@.insert(
                    job_id,
                    #[trigger] status_of(
                        submitted(job_id, entry_id@, style@, remote_configured, data_root),
                        now,
                        false,
                    ),
                )
            },
{
    let job_id = random_id();
    let now = now_iso();
    let ghost id = job_id@;
    let job = submit(
        registry,
        job_id,
        entry_id,
        style,
        remote_configured,
        data_root,
        now.as_str(),
    );
    assert(registry@ == old(registry)@.insert(
        id,
        status_of(submitted(id, entry_id@, style@, remote_configured, data_root), now@, false),
    ));
    job
}

/// Moves a job on by one event at the present time and records the status
/// that the step yields. The time is whatever the clock gives; the job, the
/// registry and the action are as [`advance`] leaves them for that time.
pub fn advance_now(registry: &mut StatusRegistry, job: &mut ComicJob, event: JobEvent) -> (action:
    JobAction)
    ensures
        exists|now: Seq<char>|
            {
                &&& final(job)@ == (#[trigger] next(old(job)@, event@, now)).0
                &&& action@ == next(old(job)@, event@, now).1.action
                &&& final(registry)@ == record_output(
                    old(registry)@,
                    old(job)@.job_id,
                    next(old(job)@, event@, now).1,
                )
            },
{
    let now = now_iso();
    let ghost before = job@;
    let action = advance(registry, job, event, now.as_str());
    assert(job@ == next(before, event@, now@).0);
    action
}

} // verus!
