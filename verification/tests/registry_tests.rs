use toonana::avatar::{AvatarEvent, AvatarJob};
use toonana::chain::{ImageTask, Provider};
use toonana::clock::{advance_now, entry_id_or_new, now_iso, submit_comic_job};
use toonana::job::{JobAction, JobEvent, JobPhase};
use toonana::registry::{
    advance, submit, AvatarRegistry, HandleTable, StatusRegistry, JOB_NOT_FOUND,
};
use toonana::status::{AvatarStage, ComicStage};

fn root() -> std::path::PathBuf {
    std::path::PathBuf::from("/data")
}

fn runtime() -> tokio::runtime::Runtime {
    tokio::runtime::Builder::new_current_thread().enable_time().build().unwrap()
}

#[test]
fn unknown_job_is_not_found() {
    let registry = StatusRegistry::new();
    assert!(registry.get("nope").is_none());
    assert_eq!(registry.get_comic_job_status("nope").unwrap_err(), "job not found");
    assert_eq!(JOB_NOT_FOUND, "job not found");
}

#[test]
fn upsert_overwrites_and_leaves_other_jobs_alone() {
    let mut registry = StatusRegistry::new();
    let a = submit(&mut registry, "a".to_string(), "e1".to_string(), "noir".to_string(), false, root(), "t0");
    let _b = submit(&mut registry, "b".to_string(), "e2".to_string(), "manga".to_string(), true, root(), "t0");
    let mut first = a.status("t1", false);
    first.stage = ComicStage::Parsing;
    registry.upsert("a".to_string(), first);
    let got = registry.get("a").unwrap();
    assert!(matches!(got.stage, ComicStage::Parsing));
    assert_eq!(got.updated_at, "t1");
    let other = registry.get_comic_job_status("b").unwrap();
    assert!(matches!(other.stage, ComicStage::Queued));
    assert_eq!(other.entry_id, "e2");
    assert_eq!(other.style, "manga");
    assert_eq!(other.updated_at, "t0");
}

#[test]
fn submit_records_the_job_as_queued() {
    let mut registry = StatusRegistry::new();
    let job = submit(&mut registry, "j".to_string(), "e".to_string(), "s".to_string(), false, root(), "t0");
    assert_eq!(job.phase(), JobPhase::Submitted);
    let status = registry.get("j").unwrap();
    assert!(matches!(status.stage, ComicStage::Queued));
    assert_eq!(status.job_id, "j");
    assert_eq!(status.result_image_path, None);
    assert_eq!(status.storyboard_text, None);
}

#[test]
fn advance_records_each_stage_for_pollers() {
    let mut registry = StatusRegistry::new();
    let mut job = submit(&mut registry, "j".to_string(), "e".to_string(), "s".to_string(), false, root(), "t0");
    let action = advance(&mut registry, &mut job, JobEvent::Started, "t1");
    assert!(matches!(action, JobAction::Sleep { millis: 150 }));
    assert!(matches!(registry.get("j").unwrap().stage, ComicStage::Parsing));
    // An event out of turn records nothing: the poller sees the same status.
    let action = advance(&mut registry, &mut job, JobEvent::TextFinished, "t2");
    assert!(matches!(action, JobAction::Wait));
    let seen = registry.get("j").unwrap();
    assert!(matches!(seen.stage, ComicStage::Parsing));
    assert_eq!(seen.updated_at, "t1");
}

#[test]
fn polling_after_the_end_yields_the_same_status() {
    let mut registry = StatusRegistry::new();
    let mut job = submit(&mut registry, "j".to_string(), "e".to_string(), "s".to_string(), false, root(), "t0");
    advance(&mut registry, &mut job, JobEvent::Started, "t1");
    advance(&mut registry, &mut job, JobEvent::DelayElapsed, "t2");
    advance(&mut registry, &mut job, JobEvent::EntryFailed { error: "gone".to_string() }, "t3");
    let first = registry.get("j").unwrap();
    assert!(matches!(&first.stage, ComicStage::Failed { error } if error == "load entry failed: gone"));
    advance(&mut registry, &mut job, JobEvent::DelayElapsed, "t4");
    advance(&mut registry, &mut job, JobEvent::EntryLoaded { text: "late".to_string() }, "t5");
    advance(&mut registry, &mut job, JobEvent::AttemptFinished { result: Ok("QQ==".to_string()) }, "t6");
    let again = registry.get("j").unwrap();
    assert!(matches!(&again.stage, ComicStage::Failed { error } if error == "load entry failed: gone"));
    assert_eq!(again.updated_at, "t3");
    assert_eq!(registry.get("j").unwrap().updated_at, first.updated_at);
}

#[test]
fn cancelling_an_unknown_job_succeeds_and_changes_nothing() {
    let mut table = HandleTable::new();
    assert_eq!(table.cancel_job("missing"), Ok(()));
    assert!(!table.take_and_cancel("missing"));
    let rt = runtime();
    let handle = rt.spawn(async {});
    table.register("known".to_string(), handle);
    assert_eq!(table.cancel_job("missing"), Ok(()));
    assert!(table.take_and_cancel("known"));
}

#[test]
fn cancelling_takes_the_handle_out_and_aborts_the_task() {
    let rt = runtime();
    let mut table = HandleTable::new();
    let (tx, rx) = std::sync::mpsc::channel::<u8>();
    let handle = rt.spawn(async move {
        tokio::time::sleep(std::time::Duration::from_millis(50)).await;
        let _ = tx.send(1);
    });
    table.register("job".to_string(), handle);
    assert!(table.take_and_cancel("job"));
    assert!(!table.take_and_cancel("job"));
    assert_eq!(table.cancel_job("job"), Ok(()));
    rt.block_on(async { tokio::time::sleep(std::time::Duration::from_millis(120)).await });
    // The aborted task never got to send.
    assert!(rx.try_recv().is_err());
}

#[test]
fn registering_again_replaces_the_handle() {
    let rt = runtime();
    let mut table = HandleTable::new();
    table.register("job".to_string(), rt.spawn(async {}));
    table.register("job".to_string(), rt.spawn(async {}));
    table.register("other".to_string(), rt.spawn(async {}));
    assert!(table.take_and_cancel("job"));
    assert!(!table.take_and_cancel("job"));
    assert!(table.take_and_cancel("other"));
}

#[test]
fn clock_gives_rfc3339_in_utc() {
    let now = now_iso();
    assert!(now.len() >= 20, "{now}");
    assert_eq!(&now[4..5], "-");
    assert_eq!(&now[7..8], "-");
    assert_eq!(&now[10..11], "T");
    assert!(now.ends_with('Z'));
    let later = now_iso();
    assert!(now <= later);
}

#[test]
fn fresh_ids_are_uuids_and_given_ids_are_kept() {
    assert_eq!(entry_id_or_new(Some("mine".to_string())), "mine");
    let a = entry_id_or_new(None);
    let b = entry_id_or_new(None);
    assert_ne!(a, b);
    assert_eq!(a.len(), 36);
    assert_eq!(a.matches('-').count(), 4);
    assert_eq!(&a[14..15], "4");
}

#[test]
fn submitting_under_a_fresh_id_records_the_job() {
    let mut registry = StatusRegistry::new();
    let job = submit_comic_job(&mut registry, "entry".to_string(), "ink".to_string(), false, root());
    let id = job.status("x", false).job_id;
    assert_eq!(id.len(), 36);
    let status = registry.get(&id).unwrap();
    assert!(matches!(status.stage, ComicStage::Queued));
    assert_eq!(status.entry_id, "entry");
    assert_eq!(status.style, "ink");
    assert!(status.updated_at.ends_with('Z'));
    let mut job = job;
    let action = advance_now(&mut registry, &mut job, JobEvent::Started);
    assert!(matches!(action, JobAction::Sleep { millis: 150 }));
    let status = registry.get(&id).unwrap();
    assert!(matches!(status.stage, ComicStage::Parsing));
    assert!(status.updated_at.ends_with('Z'));
}

#[test]
fn avatar_registry_records_each_step() {
    let mut registry = AvatarRegistry::new();
    assert!(registry.get("a").is_none());
    let mut job = AvatarJob::new("a".to_string(), ImageTask::Generate);
    registry.upsert("a".to_string(), job.status("t0"));
    assert!(matches!(registry.get("a").unwrap().stage, AvatarStage::Queued));
    let call = registry.advance(&mut job, AvatarEvent::Started, "t1");
    assert_eq!(call, Some(Provider::Streaming));
    assert!(matches!(registry.get("a").unwrap().stage, AvatarStage::Rendering { completed: 0, total: 100 }));
    assert_eq!(registry.advance(&mut job, AvatarEvent::Progress { completed: 2, total: 100 }, "t2"), None);
    assert_eq!(registry.get("a").unwrap().updated_at, "t1");
    registry.advance(&mut job, AvatarEvent::AttemptFinished { result: Ok("SU1H".to_string()) }, "t3");
    let done = registry.get("a").unwrap();
    assert!(matches!(done.stage, AvatarStage::Done));
    assert_eq!(done.image_base64.as_deref(), Some("SU1H"));
    registry.advance(&mut job, AvatarEvent::Started, "t4");
    assert_eq!(registry.get("a").unwrap().updated_at, "t3");
    assert!(registry.get("b").is_none());
    assert_eq!(done.duplicate().image_base64.as_deref(), Some("SU1H"));
}
