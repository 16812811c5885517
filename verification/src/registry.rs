//! The two tables that jobs share with the rest of the program: the status
//! registry, which pollers read, and the handle table, through which a job
//! is cancelled. A table is changed through an exclusive borrow, so every
//! write is whole before the next reader or writer sees the table.

use vstd::prelude::*;
use dashmap::DashMap;
use std::path::PathBuf;
use tokio::task::JoinHandle;
use crate::job::{next, ComicJob, EventModel, JobAction, JobEvent, JobModel, JobPhase, OutputModel, submitted, status_of, ended_job_is_final};
use crate::avatar::{avatar_next, AvatarEvent, AvatarJob, AvatarOutputModel};
use crate::chain::Provider;
use crate::status::{AvatarJobStatus, AvatarStatusModel, ComicJobStatus, StatusModel};

verus! {

/// A `dashmap::DashMap`, which Verus carries without looking inside.
#[verifier::external_type_specification]
#[verifier::external_body]
#[verifier::reject_recursive_types(K)]
#[verifier::reject_recursive_types(V)]
#[verifier::reject_recursive_types(S)]
pub struct ExDashMap<K, V, S>(DashMap<K, V, S>);

/// A `tokio::task::JoinHandle`: the handle of a spawned task.
#[verifier::external_type_specification]
#[verifier::external_body]
#[verifier::reject_recursive_types(T)]
pub struct ExJoinHandle<T>(JoinHandle<T>);

/// A `tokio::task::JoinError`: what awaiting a handle can fail with. No
/// function here names it; Verus asks for it because `JoinHandle` is a
/// future whose output holds it.
#[verifier::external_type_specification]
#[verifier::external_body]
pub struct ExJoinError(tokio::task::JoinError);

/// What a map of statuses holds: the status under each job id.
pub uninterp spec fn status_entries(map: DashMap<String, ComicJobStatus>) -> Map<
    Seq<char>,
    StatusModel,
>;

/// What a map of avatar statuses holds: the status under each job id.
pub uninterp spec fn avatar_entries(map: DashMap<String, AvatarJobStatus>) -> Map<
    Seq<char>,
    AvatarStatusModel,
>;

/// What a map of task handles holds: the job ids that have a handle.
pub uninterp spec fn handle_ids(map: DashMap<String, JoinHandle<()>>) -> Set<Seq<char>>;

/// The registry that knows no job.
pub open spec fn no_statuses() -> Map<Seq<char>, StatusModel> {
    Map::empty()
}

/// `DashMap::new`: a map that holds nothing.
#[verifier::external_body]
fn new_status_map() -> (map: DashMap<String, ComicJobStatus>)
    ensures
        status_entries(map) == no_statuses(),
{
    DashMap::new()
}

/// `DashMap::insert`: afterwards the key maps to the value, whether or not
/// it was present, and every other key to what it mapped to before. The
/// value that was replaced is dropped.
#[verifier::external_body]
fn insert_status(map: &mut DashMap<String, ComicJobStatus>, key: String, status: ComicJobStatus)
    ensures
        status_entries(*final(map)) == status_entries(*old(map)).insert(key@, status@),
{
    let _ = map.insert(key, status);
}

/// `DashMap::get`, the value copied out of the guard: a copy of the status
/// under the key, or nothing where the key is absent.
#[verifier::external_body]
fn get_status(map: &DashMap<String, ComicJobStatus>, key: &str) -> (found: Option<ComicJobStatus>)
    ensures
        match found {
            Some(status) => status_entries(*map).contains_key(key@) && status_entries(*map)[key@]
                == status@,
            None => !status_entries(*map).contains_key(key@),
        },
{
    map.get(key).map(|entry| entry.value().duplicate())
}

/// The registry that knows no avatar job.
pub open spec fn no_avatar_statuses() -> Map<Seq<char>, AvatarStatusModel> {
    Map::empty()
}

/// `DashMap::new`: a map that holds nothing.
#[verifier::external_body]
fn new_avatar_map() -> (map: DashMap<String, AvatarJobStatus>)
    ensures
        avatar_entries(map) == no_avatar_statuses(),
{
    DashMap::new()
}

/// `DashMap::insert`: afterwards the key maps to the value, whether or not
/// it was present, and every other key to what it mapped to before. The
/// value that was replaced is dropped.
#[verifier::external_body]
fn insert_avatar_status(
    map: &mut DashMap<String, AvatarJobStatus>,
    key: String,
    status: AvatarJobStatus,
)
    ensures
        avatar_entries(*final(map)) == avatar_entries(*old(map)).insert(key@, status@),
{
    let _ = map.insert(key, status);
}

/// `DashMap::get`, the value copied out of the guard: a copy of the status
/// under the key, or nothing where the key is absent.
#[verifier::external_body]
fn get_avatar_status(map: &DashMap<String, AvatarJobStatus>, key: &str) -> (found: Option<
    AvatarJobStatus,
>)
    ensures
        match found {
            Some(status) => avatar_entries(*map).contains_key(key@) && avatar_entries(*map)[key@]
                == status@,
            None => !avatar_entries(*map).contains_key(key@),
        },
{
    map.get(key).map(|entry| entry.value().duplicate())
}

/// `DashMap::new`: a map that holds nothing.
#[verifier::external_body]
fn new_handle_map() -> (map: DashMap<String, JoinHandle<()>>)
    ensures
        handle_ids(map) == Set::<Seq<char>>::empty(),
{
    DashMap::new()
}

/// `DashMap::insert`: afterwards the key is present. A handle that it
/// replaces is dropped, which lets its task run on.
#[verifier::external_body]
fn insert_handle(map: &mut DashMap<String, JoinHandle<()>>, key: String, handle: JoinHandle<()>)
    ensures
        handle_ids(*final(map)) == handle_ids(*old(map)).insert(key@),
{
    let _ = map.insert(key, handle);
}

/// `DashMap::remove`: the handle under the key if the key was present, and
/// afterwards the key is absent.
#[verifier::external_body]
fn remove_handle(map: &mut DashMap<String, JoinHandle<()>>, key: &str) -> (found: Option<
    JoinHandle<()>,
>)
    ensures
        (found is Some) == handle_ids(*old(map)).contains(key@),
        handle_ids(*final(map)) == handle_ids(*old(map)).remove(key@),
{
    map.remove(key).map(|entry| entry.1)
}

/// `JoinHandle::abort`: asks the task to stop at its next suspension point.
#[verifier::external_body]
fn abort_task(handle: &JoinHandle<()>) {
    handle.abort()
}

/// The status registry: the present status of every job, by job id.
pub struct StatusRegistry {
    map: DashMap<String, ComicJobStatus>,
}

impl View for StatusRegistry {
    type V = Map<Seq<char>, StatusModel>;

    closed spec fn view(&self) -> Map<Seq<char>, StatusModel> {
        status_entries(self.map)
    }
}

/// The view of an optional status.
pub open spec fn found_status_view(found: Option<ComicJobStatus>) -> Option<StatusModel> {
    match found {
        Some(status) => Some(status@),
        None => None,
    }
}

/// What a registry answers to a poll.
pub open spec fn polled(registry: Map<Seq<char>, StatusModel>, job_id: Seq<char>) -> Option<
    StatusModel,
> {
    if registry.contains_key(job_id) {
        Some(registry[job_id])
    } else {
        None
    }
}

/// Answer to a poll for a job that the registry does not know.
pub const JOB_NOT_FOUND: &'static str = "job not found";

/// The view of a poll's answer.
pub open spec fn poll_view(r: Result<ComicJobStatus, String>) -> Result<StatusModel, Seq<char>> {
    match r {
        Ok(status) => Ok(status@),
        Err(error) => Err(error@),
    }
}

impl StatusRegistry {
    /// A registry that knows no job.
    pub fn new() -> (registry: Self)
        ensures
            registry@ == no_statuses(),
    {
        StatusRegistry { map: new_status_map() }
    }

    /// Records a status under a job id, in place of what was recorded under
    /// it before. Other jobs are not touched.
    pub fn upsert(&mut self, job_id: String, status: ComicJobStatus)
        ensures
            final(self)@ == old(self)@.insert(job_id@, status@),
    {
        insert_status(&mut self.map, job_id, status);
    }

    /// A copy of the status recorded last under a job id.
    pub fn get(&self, job_id: &str) -> (found: Option<ComicJobStatus>)
        ensures
            found_status_view(found) == polled(self@, job_id@),
    {
        get_status(&self.map, job_id)
    }

    /// Answers a poll: the status recorded last, or the report that the job
    /// is not known.
    pub fn get_comic_job_status(&self, job_id: &str) -> (r: Result<ComicJobStatus, String>)
        ensures
            poll_view(r) == match polled(self@, job_id@) {
                Some(status) => Ok::<StatusModel, Seq<char>>(status),
                None => Err(JOB_NOT_FOUND@),
            },
    {
        match self.get(job_id) {
            Some(status) => Ok(status),
            None => Err(JOB_NOT_FOUND.to_owned()),
        }
    }
}

/// The handle table: the task handle of every job that can be cancelled.
pub struct HandleTable {
    map: DashMap<String, JoinHandle<()>>,
}

impl View for HandleTable {
    type V = Set<Seq<char>>;

    closed spec fn view(&self) -> Set<Seq<char>> {
        handle_ids(self.map)
    }
}

impl HandleTable {
    /// A table without handles.
    pub fn new() -> (table: Self)
        ensures
            table@ == Set::<Seq<char>>::empty(),
    {
        HandleTable { map: new_handle_map() }
    }

    /// Puts a job's task handle into the table.
    pub fn register(&mut self, job_id: String, handle: JoinHandle<()>)
        ensures
            final(self)@ == old(self)@.insert(job_id@),
    {
        insert_handle(&mut self.map, job_id, handle);
    }

    /// Takes a job's handle out of the table and asks its task to stop.
    /// Says whether there was a handle. For a job without one nothing
    /// happens.
    pub fn take_and_cancel(&mut self, job_id: &str) -> (found: bool)
        ensures
            found == old(self)@.contains(job_id@),
            final(self)@ == old(self)@.remove(job_id@),
            !found ==> final(self)@ == old(self)@,
    {
        let found = match remove_handle(&mut self.map, job_id) {
            Some(handle) => {
                abort_task(&handle);
                true
            },
            None => false,
        };
        assert(!found ==> old(self)@.remove(job_id@) =~= old(self)@);
        found
    }

    /// Cancels a job. This succeeds whether or not the job has a handle: to
    /// cancel a job that is not known, or that was cancelled before, is no
    /// error and changes nothing.
    pub fn cancel_job(&mut self, job_id: &str) -> (r: Result<(), String>)
        ensures
            r is Ok,
            final(self)@ == old(self)@.remove(job_id@),
            !old(self)@.contains(job_id@) ==> final(self)@ == old(self)@,
    {
        let _ = self.take_and_cancel(job_id);
        Ok(())
    }
}

/// The registry after a step's output has been recorded under a job id.
pub open spec fn record_output(
    registry: Map<Seq<char>, StatusModel>,
    job_id: Seq<char>,
    output: OutputModel,
) -> Map<Seq<char>, StatusModel> {
    match output.status {
        Some(status) => registry.insert(job_id, status),
        None => registry,
    }
}

/// Submits a job: makes it and records it as queued.
pub fn submit(
    registry: &mut StatusRegistry,
    job_id: String,
    entry_id: String,
    style: String,
    remote_configured: bool,
    data_root: PathBuf,
    now: &str,
) -> (job: ComicJob)
    ensures
        job@ == submitted(job_id@, entry_id@, style@, remote_configured, data_root),
        final(registry)@ == old(registry)@.insert(job_id@, status_of(job@, now@, false)),
{
    let key = job_id.clone();
    let job = ComicJob::new(job_id, entry_id, style, remote_configured, data_root);
    registry.upsert(key, job.status(now, false));
    job
}

/// Moves a job on by one event and records the status that the step
/// yields, if it yields one, under the job's id. Says what to do next.
pub fn advance(registry: &mut StatusRegistry, job: &mut ComicJob, event: JobEvent, now: &str) -> (action:
    JobAction)
    ensures
        final(job)@ == next(old(job)@, event@, now@).0,
        action@ == next(old(job)@, event@, now@).1.action,
        final(registry)@ == record_output(
            old(registry)@,
            old(job)@.job_id,
            next(old(job)@, event@, now@).1,
        ),
{
    let out = job.step(event, now);
    match out.status {
        Some(status) => {
            let key = status.job_id.clone();
            registry.upsert(key, status);
        },
        None => {},
    }
    out.action
}

/// What was recorded can be polled: after a status has been recorded under
/// a job id, a poll for that id yields it, and a poll for any other id
/// yields what it yielded before.
pub proof fn poll_sees_last_write(
    registry: Map<Seq<char>, StatusModel>,
    job_id: Seq<char>,
    status: StatusModel,
    other: Seq<char>,
)
    ensures
        polled(registry.insert(job_id, status), job_id) == Some(status),
        other != job_id ==> polled(registry.insert(job_id, status), other) == polled(
            registry,
            other,
        ),
{
}

/// Once a job has ended, its status stays: whatever event arrives for it,
/// the registry is not written, so every later poll yields the same status.
pub proof fn ended_job_status_stays(
    registry: Map<Seq<char>, StatusModel>,
    job: JobModel,
    event: EventModel,
    now: Seq<char>,
    polled_id: Seq<char>,
)
    requires
        job.phase == JobPhase::Done || job.phase == JobPhase::Failed,
    ensures
        record_output(registry, job.job_id, next(job, event, now).1) == registry,
        polled(record_output(registry, job.job_id, next(job, event, now).1), polled_id) == polled(
            registry,
            polled_id,
        ),
{
    ended_job_is_final(job, event, now);
}

/// To cancel a job that has no handle changes nothing.
pub proof fn cancel_unknown_is_no_op(table: Set<Seq<char>>, job_id: Seq<char>)
    requires
        !table.contains(job_id),
    ensures
        table.remove(job_id) == table,
{
    assert(table.remove(job_id) =~= table);
}

/// The registry of avatar jobs: the present status of each, by job id.
pub struct AvatarRegistry {
    map: DashMap<String, AvatarJobStatus>,
}

impl View for AvatarRegistry {
    type V = Map<Seq<char>, AvatarStatusModel>;

    closed spec fn view(&self) -> Map<Seq<char>, AvatarStatusModel> {
        avatar_entries(self.map)
    }
}

/// The view of an optional avatar status.
pub open spec fn found_avatar_view(found: Option<AvatarJobStatus>) -> Option<AvatarStatusModel> {
    match found {
        Some(status) => Some(status@),
        None => None,
    }
}

/// What a registry of avatar jobs answers to a poll.
pub open spec fn avatar_polled(
    registry: Map<Seq<char>, AvatarStatusModel>,
    job_id: Seq<char>,
) -> Option<AvatarStatusModel> {
    if registry.contains_key(job_id) {
        Some(registry[job_id])
    } else {
        None
    }
}

/// The registry after an avatar step's output has been recorded.
pub open spec fn record_avatar_output(
    registry: Map<Seq<char>, AvatarStatusModel>,
    job_id: Seq<char>,
    output: AvatarOutputModel,
) -> Map<Seq<char>, AvatarStatusModel> {
    match output.status {
        Some(status) => registry.insert(job_id, status),
        None => registry,
    }
}

impl AvatarRegistry {
    /// A registry that knows no job.
    pub fn new() -> (registry: Self)
        ensures
            registry@ == no_avatar_statuses(),
    {
        AvatarRegistry { map: new_avatar_map() }
    }

    /// Records a status under a job id, in place of what was recorded under
    /// it before. Other jobs are not touched.
    pub fn upsert(&mut self, job_id: String, status: AvatarJobStatus)
        ensures
            final(self)@ == old(self)@.insert(job_id@, status@),
    {
        insert_avatar_status(&mut self.map, job_id, status);
    }

    /// A copy of the status recorded last under a job id.
    pub fn get(&self, job_id: &str) -> (found: Option<AvatarJobStatus>)
        ensures
            found_avatar_view(found) == avatar_polled(self@, job_id@),
    {
        get_avatar_status(&self.map, job_id)
    }

    /// Moves an avatar job on by one event and records the status that the
    /// step yields, if it yields one, under the job's id. Says which
    /// provider to try next, if any.
    pub fn advance(&mut self, job: &mut AvatarJob, event: AvatarEvent, now: &str) -> (call: Option<
        Provider,
    >)
        ensures
            final(job)@ == avatar_next(old(job)@, event@, now@).0,
            call == avatar_next(old(job)@, event@, now@).1.call,
            final(self)@ == record_avatar_output(
                old(self)@,
                old(job)@.job_id,
                avatar_next(old(job)@, event@, now@).1,
            ),
    {
        let out = job.step(event, now);
        match out.status {
            Some(status) => {
                let key = status.job_id.clone();
                self.upsert(key, status);
            },
            None => {},
        }
        out.call
    }
}

} // verus!
