use ogcapi_poc::asset::Asset;
use ogcapi_poc::classify::{plan_object, Decision, Job, StoredObject, Work};
use ogcapi_poc::document::{Document, PropertyValue};
use ogcapi_poc::eligibility::{SkipReason, SweepMode};
use ogcapi_poc::error::{DecodeError, IngestError};
use ogcapi_poc::policy::Policy;
use ogcapi_poc::sweep::{plan_run, Action, Event, ObjectRun, Outcome, Progress, Stage};
use ogcapi_poc::time::Timestamp;

fn stored(key: &str) -> StoredObject {
    StoredObject { key: key.to_string(), last_modified: Timestamp::at(1655942400), size: 1 }
}

fn job_of(key: &str, mode: SweepMode) -> Job {
    match plan_object(&Policy::standard(), &stored(key), Timestamp::at(1655942420), mode) {
        Decision::Process(job) => job,
        other => panic!("expected a job, got {:?}", other),
    }
}

fn actions(mut run: ObjectRun, events: Vec<Event>) -> (Vec<Action>, ObjectRun) {
    let mut seen = Vec::new();
    for event in events {
        match run.action() {
            Some(action) => seen.push(action),
            None => break,
        }
        run = run.advance(event);
    }
    (seen, run)
}

const MANIFEST: &str = "mhs-upload/ad2b1452-9f3c-4137-9822-9758298bc025/observations-hourly.csv";
const RADAR: &str = "mhs-upload/e2e5132c-85df-417a-8706-f75068d4937e/radar/x.h5";
const ALERT: &str = "mhs-upload/35ff8133-364a-47eb-a145-0d641b706bff/alert.ch.202206231530.cap";

#[test]
fn a_staged_manifest_is_copied_loaded_attached_and_deleted() {
    let run = ObjectRun::begin(job_of(MANIFEST, SweepMode::Staging));
    assert_eq!(run.job.target, "ad2b1452-9f3c-4137-9822-9758298bc025/observations-hourly.csv");
    let (seen, run) = actions(
        run,
        vec![
            Event::Succeeded,
            Event::Succeeded,
            Event::Found(Document::new()),
            Event::Succeeded,
            Event::Succeeded,
        ],
    );
    assert_eq!(
        seen,
        vec![Action::Copy, Action::Reload, Action::Read, Action::Update, Action::Delete]
    );
    assert_eq!(run.outcome(), Some(Outcome::Processed));
    assert_eq!(run.action(), None);
    assert_eq!(
        run.progress,
        Progress { copied: true, reloaded: true, created: false, updated: true, deleted: true }
    );
    let document = run.document.unwrap();
    assert_eq!(document.properties.len(), 0);
    assert_eq!(
        document.assets.get("observations-hourly.csv"),
        Some(&Asset::stored(
            "https://s3.meteoschweiz-poc.swisstopo.cloud",
            "ad2b1452-9f3c-4137-9822-9758298bc025/observations-hourly.csv"
        ))
    );
}

#[test]
fn an_item_gets_its_datetime_and_asset() {
    let mut found = Document::new();
    found.attach("old.h5".to_string(), Asset::new("o".to_string()));
    let run = ObjectRun::begin(job_of(RADAR, SweepMode::Staging));
    let (seen, run) = actions(
        run,
        vec![Event::Succeeded, Event::Found(found), Event::Succeeded, Event::Succeeded],
    );
    assert_eq!(seen, vec![Action::Copy, Action::Read, Action::Update, Action::Delete]);
    assert_eq!(run.outcome(), Some(Outcome::Processed));
    let document = run.document.unwrap();
    assert_eq!(
        document.properties.get("datetime"),
        Some(&PropertyValue::Text("2022-06-23T00:00:00Z".to_string()))
    );
    assert_eq!(document.assets.len(), 2);
    assert_eq!(document.assets.get("x.h5").unwrap().media_type, Some("application/x-hdf5".to_string()));
}

#[test]
fn a_full_sweep_neither_copies_nor_deletes() {
    let run = ObjectRun::begin(job_of("e2e5132c-85df-417a-8706-f75068d4937e/radar/x.h5", SweepMode::Full));
    let (seen, run) = actions(run, vec![Event::Found(Document::new()), Event::Succeeded, Event::Succeeded]);
    assert_eq!(seen, vec![Action::Read, Action::Update]);
    assert_eq!(run.outcome(), Some(Outcome::Processed));
    assert!(!run.progress.deleted);
    assert!(!run.progress.copied);
}

#[test]
fn a_missing_alert_creates_its_own_item() {
    let run = ObjectRun::begin(job_of(ALERT, SweepMode::Staging));
    let (seen, run) = actions(
        run,
        vec![Event::Succeeded, Event::Missing, Event::Succeeded, Event::Succeeded, Event::Succeeded],
    );
    assert_eq!(
        seen,
        vec![Action::Copy, Action::Read, Action::Create, Action::Update, Action::Delete]
    );
    assert_eq!(run.outcome(), Some(Outcome::Processed));
    assert!(run.progress.created);
    let document = run.document.unwrap();
    assert_eq!(
        document.properties.get("datetime"),
        Some(&PropertyValue::Text("2022-06-23T15:30:00Z".to_string()))
    );
    assert_eq!(document.assets.len(), 1);
}

#[test]
fn a_missing_container_is_fatal_for_the_object() {
    let run = ObjectRun::begin(job_of(RADAR, SweepMode::Staging));
    let (seen, run) = actions(run, vec![Event::Succeeded, Event::Missing, Event::Succeeded]);
    assert_eq!(seen, vec![Action::Copy, Action::Read]);
    assert_eq!(run.outcome(), Some(Outcome::Failed(IngestError::MissingFeature)));
    assert!(!run.progress.deleted);
    let run = ObjectRun::begin(job_of(MANIFEST, SweepMode::Staging));
    let (_, run) = actions(run, vec![Event::Succeeded, Event::Succeeded, Event::Missing]);
    assert_eq!(run.outcome(), Some(Outcome::Failed(IngestError::MissingCollection)));
    assert!(!run.progress.deleted);
}

#[test]
fn any_failure_keeps_the_source() {
    let script = || {
        vec![
            Event::Succeeded,
            Event::Succeeded,
            Event::Found(Document::new()),
            Event::Succeeded,
            Event::Succeeded,
        ]
    };
    for fail_at in 0..5 {
        let mut events = script();
        events[fail_at] = Event::Failed(IngestError::Store);
        let run = ObjectRun::begin(job_of(MANIFEST, SweepMode::Staging));
        let (seen, run) = actions(run, events);
        assert_eq!(seen.len(), fail_at + 1);
        assert_eq!(run.outcome(), Some(Outcome::Failed(IngestError::Store)));
        assert!(!run.progress.deleted);
        assert_eq!(run.progress.updated, fail_at > 3);
        assert_eq!(run.action(), None);
    }
    let run = ObjectRun::begin(job_of(MANIFEST, SweepMode::Staging));
    let decode = Event::Failed(IngestError::Decode(DecodeError::Malformed));
    let (seen, run) = actions(run, vec![Event::Succeeded, decode, Event::Succeeded]);
    assert_eq!(seen, vec![Action::Copy, Action::Reload]);
    assert_eq!(run.outcome(), Some(Outcome::Failed(IngestError::Decode(DecodeError::Malformed))));
}

#[test]
fn an_answer_that_does_not_fit_fails_the_object() {
    let run = ObjectRun::begin(job_of(RADAR, SweepMode::Staging));
    let run = run.advance(Event::Missing);
    assert_eq!(run.stage, Stage::Done(Outcome::Failed(IngestError::Store)));
    let ended = run.advance(Event::Succeeded);
    assert_eq!(ended.stage, Stage::Done(Outcome::Failed(IngestError::Store)));
}

#[test]
fn merging_differs_by_kind_of_document() {
    let job = job_of(MANIFEST, SweepMode::Staging);
    assert_eq!(job.work, Work::Collection { reload: true });
    let merged = job.merge(Document::new());
    assert_eq!(merged.properties.len(), 0);
    assert_eq!(merged.assets.len(), 1);
    let job = job_of(RADAR, SweepMode::Staging);
    let merged = job.merge(Document::new());
    assert_eq!(merged.properties.len(), 1);
    assert_eq!(merged.assets.len(), 1);
}

#[test]
fn every_listed_object_gets_one_decision() {
    let objects = vec![
        stored(RADAR),
        stored("mhs-upload/unknown/file.txt"),
        stored("mhs-upload/dir/"),
        stored(MANIFEST),
    ];
    let decisions =
        plan_run(&Policy::standard(), &objects, Timestamp::at(1655942420), SweepMode::Staging);
    assert_eq!(decisions.len(), 4);
    assert!(matches!(decisions[0], Decision::Process(_)));
    assert_eq!(decisions[1], Decision::Unmapped("unknown".to_string()));
    assert_eq!(decisions[2], Decision::Skip(SkipReason::Directory));
    assert!(matches!(decisions[3], Decision::Process(_)));
    let none = plan_run(&Policy::standard(), &vec![], Timestamp::at(0), SweepMode::Full);
    assert_eq!(none.len(), 0);
}
