use ogcapi_poc::classify::{plan_object, Decision, StoredObject};
use ogcapi_poc::document::{Document, PropertyValue};
use ogcapi_poc::eligibility::SweepMode;
use ogcapi_poc::feature::{stage_all, ManifestFormat, Observation, RawFeature};
use ogcapi_poc::loader::{Reload, Statement};
use ogcapi_poc::policy::Policy;
use ogcapi_poc::proj::Proj;
use ogcapi_poc::sweep::{Action, Event, ObjectRun, Outcome};
use ogcapi_poc::time::Timestamp;

fn observation(hour: usize) -> Observation {
    Observation {
        datetime: format!("2022-06-23T{:02}:00:00Z", hour),
        value: "12.5".to_string(),
        station_name: "Bern".to_string(),
        nat_abbr: "BER".to_string(),
        wigos_id: "0-20000-0-06631".to_string(),
        easting: "2601934".to_string(),
        northing: "1204410".to_string(),
        installation_height: Some("2".to_string()),
        param_short: "tre200h0".to_string(),
    }
}

#[test]
fn a_staged_manifest_of_observations_replaces_the_items() {
    let policy = Policy::standard();
    let key = "mhs-upload/ad2b1452-9f3c-4137-9822-9758298bc025/observations-hourly.csv";
    let object = StoredObject { key: key.to_string(), last_modified: Timestamp::at(1000), size: 10 };
    let job = match plan_object(&policy, &object, Timestamp::at(1030), SweepMode::Staging) {
        Decision::Process(job) => job,
        other => panic!("expected a job, got {:?}", other),
    };
    assert_eq!(ManifestFormat::of_key(&job.source), ManifestFormat::Delimited);

    let mut run = ObjectRun::begin(job);
    let mut object_at_source = true;
    let mut object_at_target = false;
    let mut relation: Vec<String> = vec!["stale".to_string()];
    let mut collection = Document::new();
    let mut steps = Vec::new();
    while let Some(action) = run.action() {
        steps.push(action);
        let event = match action {
            Action::Copy => {
                object_at_target = true;
                Event::Succeeded
            }
            Action::Reload => {
                let raw: Vec<RawFeature> = (0..24).map(|hour| observation(hour).to_feature()).collect();
                let staged = stage_all(&policy.service_root, &run.job.collection, raw).unwrap();
                let proj = Proj::canonical();
                let mut rows = Vec::new();
                for feature in staged {
                    let record = feature.settle(&run.job.collection, proj.label(vec![1])).unwrap();
                    let properties = record.properties.as_ref().unwrap();
                    assert!(matches!(properties.get("datetime"), Some(PropertyValue::Text(_))));
                    rows.push(record.id);
                }
                let mut reload = Reload::start(rows.len(), 10);
                let mut pending = Vec::new();
                while let Some(statement) = reload.statement() {
                    match statement {
                        Statement::Begin => pending = relation.clone(),
                        Statement::Clear => pending.clear(),
                        Statement::Insert(batch) => {
                            pending.extend_from_slice(&rows[batch.start..batch.end])
                        }
                        Statement::Commit => relation = pending.clone(),
                        Statement::Rollback => pending.clear(),
                    }
                    reload = reload.advance(true);
                }
                assert_eq!(reload.outcome(), Some(true));
                Event::Succeeded
            }
            Action::Read => Event::Found(Document::new()),
            Action::Create => panic!("a collection is never created"),
            Action::Update => {
                collection = Document::new();
                for at in 0..run.document.as_ref().unwrap().assets.len() {
                    let entry = run.document.as_ref().unwrap().assets.entry(at);
                    collection.attach(entry.name.clone(), entry.value.duplicate());
                }
                Event::Succeeded
            }
            Action::Delete => {
                object_at_source = false;
                Event::Succeeded
            }
        };
        run = run.advance(event);
    }
    assert_eq!(
        steps,
        vec![Action::Copy, Action::Reload, Action::Read, Action::Update, Action::Delete]
    );
    assert_eq!(run.outcome(), Some(Outcome::Processed));
    assert_eq!(relation.len(), 24);
    assert_eq!(relation[0], "BER_tre200h0_2022-06-23T00:00:00Z");
    assert_eq!(relation[23], "BER_tre200h0_2022-06-23T23:00:00Z");
    assert!(!object_at_source);
    assert!(object_at_target);
    assert_eq!(run.job.target, "ad2b1452-9f3c-4137-9822-9758298bc025/observations-hourly.csv");
    assert_eq!(
        collection.assets.get("observations-hourly.csv").unwrap().href,
        "https://s3.meteoschweiz-poc.swisstopo.cloud/ad2b1452-9f3c-4137-9822-9758298bc025/observations-hourly.csv"
    );
}

#[test]
fn an_unmapped_object_is_left_alone() {
    let policy = Policy::standard();
    let object = StoredObject {
        key: "mhs-upload/00000000-0000-0000-0000-000000000000/file.nc".to_string(),
        last_modified: Timestamp::at(1000),
        size: 10,
    };
    let decision = plan_object(&policy, &object, Timestamp::at(1030), SweepMode::Staging);
    assert_eq!(decision, Decision::Unmapped("00000000-0000-0000-0000-000000000000".to_string()));
    assert!(!matches!(decision, Decision::Process(_)));
}
