use ogcapi_poc::asset::Asset;
use ogcapi_poc::classify::{
    collection_id, derive_job, plan_object, resolve_instant, target_key, Decision, Job, Precision,
    Reading, StoredObject, Work,
};
use ogcapi_poc::eligibility::{SkipReason, SweepMode};
use ogcapi_poc::error::KeyError;
use ogcapi_poc::policy::{NameRule, Policy, StampRule};
use ogcapi_poc::time::Timestamp;

fn stored(key: &str) -> StoredObject {
    StoredObject { key: key.to_string(), last_modified: Timestamp::at(1655942400), size: 1 }
}

fn now() -> Timestamp {
    Timestamp::at(1655942420)
}

fn staged(key: &str) -> Decision {
    plan_object(&Policy::standard(), &stored(key), now(), SweepMode::Staging)
}

fn job(decision: Decision) -> Job {
    match decision {
        Decision::Process(job) => job,
        other => panic!("expected a job, got {:?}", other),
    }
}

#[test]
fn target_key_strips_prefix_and_slashes() {
    let policy = Policy::standard();
    assert_eq!(target_key(&policy, "mhs-upload/a/b.csv"), "a/b.csv");
    assert_eq!(target_key(&policy, "mhs-uploadmhs-upload//a/b.csv"), "a/b.csv");
    assert_eq!(target_key(&policy, "a/b.csv"), "a/b.csv");
    assert_eq!(target_key(&policy, "mhs-upload"), "");
    assert_eq!(collection_id("a/b.csv"), "a");
    assert_eq!(collection_id("b.csv"), "b.csv");
    assert_eq!(collection_id(""), "");
}

#[test]
fn radar_objects_go_to_the_fixed_item() {
    let key = "mhs-upload/e2e5132c-85df-417a-8706-f75068d4937e/radar/precip_2022.h5";
    let job = job(staged(key));
    assert_eq!(job.source, key);
    assert_eq!(job.target, "e2e5132c-85df-417a-8706-f75068d4937e/radar/precip_2022.h5");
    assert_eq!(job.collection, "e2e5132c-85df-417a-8706-f75068d4937e");
    assert_eq!(job.asset_id, "precip_2022.h5");
    assert_eq!(
        job.asset,
        Asset {
            href: "https://s3.meteoschweiz-poc.swisstopo.cloud/e2e5132c-85df-417a-8706-f75068d4937e/radar/precip_2022.h5"
                .to_string(),
            title: None,
            description: None,
            media_type: Some("application/x-hdf5".to_string()),
            roles: vec!["data".to_string()],
        }
    );
    assert!(job.copy);
    assert!(job.delete_source);
    assert_eq!(
        job.work,
        Work::Item {
            item: "meteoswiss.radar.precip".to_string(),
            datetime: "2022-06-23T00:00:00Z".to_string(),
            create_missing: false,
        }
    );
}

#[test]
fn normals_go_to_their_item() {
    let job = job(staged("mhs-upload/ed6a30c9-672e-4d8f-95e4-8c5bef8ab417/normals.zip"));
    assert_eq!(job.asset.media_type, Some("application/zip".to_string()));
    assert_eq!(
        job.work,
        Work::Item {
            item: "klimanormwerte.temperatur.1961-1990".to_string(),
            datetime: "2022-06-23T00:00:00Z".to_string(),
            create_missing: false,
        }
    );
}

#[test]
fn station_items_are_named_by_the_second_piece() {
    let job = job(staged("mhs-upload/b46a8f8d-bc48-41d3-b20a-de61d0763318/obs_ABC_2022.csv"));
    assert_eq!(job.asset_id, "obs_ABC_2022.csv");
    assert_eq!(job.asset.media_type, Some("text/csv".to_string()));
    match job.work {
        Work::Item { item, create_missing, .. } => {
            assert_eq!(item, "ABC");
            assert!(!create_missing);
        }
        other => panic!("expected an item, got {:?}", other),
    }
    assert_eq!(
        staged("mhs-upload/b46a8f8d-bc48-41d3-b20a-de61d0763318/nounderscore.csv"),
        Decision::Invalid(KeyError::NoToken)
    );
}

#[test]
fn daily_items_are_named_by_the_day() {
    let job = job(staged("mhs-upload/4ccc5153-cc27-47b8-abee-9d6e12e19701/prod_20220623120000.nc"));
    assert_eq!(job.asset.media_type, Some("application/netcdf".to_string()));
    match job.work {
        Work::Item { item, create_missing, .. } => {
            assert_eq!(item, "20220623");
            assert!(create_missing);
        }
        other => panic!("expected an item, got {:?}", other),
    }
    assert_eq!(
        staged("mhs-upload/4ccc5153-cc27-47b8-abee-9d6e12e19701/x_2022.nc"),
        Decision::Invalid(KeyError::ShortToken)
    );
}

#[test]
fn alerts_take_their_instant_from_the_key() {
    let job = job(staged("mhs-upload/35ff8133-364a-47eb-a145-0d641b706bff/alert.ch.202206231530.cap"));
    assert_eq!(job.target, "35ff8133-364a-47eb-a145-0d641b706bff/alert.ch.202206231530.cap");
    assert_eq!(job.asset.media_type, Some("text/xml".to_string()));
    assert_eq!(
        job.work,
        Work::Item {
            item: "alert.ch.202206231530".to_string(),
            datetime: "2022-06-23T15:30:00Z".to_string(),
            create_missing: true,
        }
    );
    assert_eq!(
        staged("mhs-upload/35ff8133-364a-47eb-a145-0d641b706bff/alert.cap"),
        Decision::Invalid(KeyError::NoToken)
    );
    assert_eq!(
        staged("mhs-upload/35ff8133-364a-47eb-a145-0d641b706bff/alert.ch.notadate.cap"),
        Decision::Invalid(KeyError::BadTimestamp)
    );
}

#[test]
fn model_keys_lose_their_time_of_initialisation() {
    let key = "mhs-upload/a6296aa9-d183-45c3-90fc-f03ec7d637be/cosmo_initime_2022062306_t2m.grib2";
    let job = job(staged(key));
    assert_eq!(job.source, key);
    assert_eq!(job.target, "a6296aa9-d183-45c3-90fc-f03ec7d637be/cosmo_t2m.grib2");
    assert_eq!(job.asset_id, "cosmo_t2m.grib2");
    assert_eq!(
        job.asset.href,
        "https://s3.meteoschweiz-poc.swisstopo.cloud/a6296aa9-d183-45c3-90fc-f03ec7d637be/cosmo_t2m.grib2"
    );
    assert_eq!(job.asset.media_type, Some("application/wmo-grib2".to_string()));
    assert_eq!(
        job.work,
        Work::Item {
            item: "cosmo_t2m".to_string(),
            datetime: "2022-06-23T06:00:00Z".to_string(),
            create_missing: false,
        }
    );
    assert_eq!(
        staged("mhs-upload/a6296aa9-d183-45c3-90fc-f03ec7d637be/cosmo_t2m.grib2"),
        Decision::Invalid(KeyError::NoMarker)
    );
    assert_eq!(
        staged("mhs-upload/a6296aa9-d183-45c3-90fc-f03ec7d637be/cosmo_initime_2022"),
        Decision::Invalid(KeyError::ShortWindow)
    );
    assert_eq!(
        staged("mhs-upload/a6296aa9-d183-45c3-90fc-f03ec7d637be/cosmo_initime_20220623xx_t2m.grib2"),
        Decision::Invalid(KeyError::BadTimestamp)
    );
}

#[test]
fn manifests_reload_their_collection() {
    let job = job(staged(
        "mhs-upload/0a62455f-c39c-4084-bd54-36ee2192d3af/ch.meteoschweiz.messwerte-lufttemperatur-10min_en.json",
    ));
    assert_eq!(job.collection, "0a62455f-c39c-4084-bd54-36ee2192d3af");
    assert_eq!(job.asset_id, "ch.meteoschweiz.messwerte-lufttemperatur-10min_en.json");
    assert_eq!(job.asset.media_type, Some("application/json".to_string()));
    assert_eq!(job.work, Work::Collection { reload: true });
    let job = job_of("mhs-upload/ad2b1452-9f3c-4137-9822-9758298bc025/obs.csv");
    assert_eq!(job.work, Work::Collection { reload: false });
    let job = job_of("mhs-upload/ad2b1452-9f3c-4137-9822-9758298bc025/observations-hourly.csv");
    assert_eq!(job.work, Work::Collection { reload: true });
    assert_eq!(job.target, "ad2b1452-9f3c-4137-9822-9758298bc025/observations-hourly.csv");
}

fn job_of(key: &str) -> Job {
    job(staged(key))
}

#[test]
fn unmapped_collections_are_reported() {
    assert_eq!(staged("mhs-upload/unknown/file.txt"), Decision::Unmapped("unknown".to_string()));
    assert_eq!(staged("mhs-upload"), Decision::Unmapped("".to_string()));
}

#[test]
fn skipped_objects_are_not_classified() {
    assert_eq!(staged("mhs-upload/unknown/"), Decision::Skip(SkipReason::Directory));
    let fresh = plan_object(
        &Policy::standard(),
        &stored("mhs-upload/e2e5132c-85df-417a-8706-f75068d4937e/x.h5"),
        Timestamp::at(1655942405),
        SweepMode::Staging,
    );
    assert_eq!(fresh, Decision::Skip(SkipReason::Unsettled));
}

#[test]
fn full_sweeps_neither_copy_nor_delete() {
    let policy = Policy::standard();
    let key = "e2e5132c-85df-417a-8706-f75068d4937e/radar/x.tiff";
    let job = job(plan_object(&policy, &stored(key), now(), SweepMode::Full));
    assert_eq!(job.source, key);
    assert_eq!(job.target, key);
    assert!(!job.copy);
    assert!(!job.delete_source);
    assert_eq!(job.asset.media_type, Some("image/tiff".to_string()));
    let staged = plan_object(
        &policy,
        &stored("mhs-upload/e2e5132c-85df-417a-8706-f75068d4937e/radar/x.tiff"),
        now(),
        SweepMode::Full,
    );
    assert_eq!(staged, Decision::Skip(SkipReason::Staged));
}

#[test]
fn unknown_extensions_have_no_media_type() {
    let job = job(staged("mhs-upload/e2e5132c-85df-417a-8706-f75068d4937e/readme.txt"));
    assert_eq!(job.asset.media_type, None);
    let job = job_of("mhs-upload/e2e5132c-85df-417a-8706-f75068d4937e/noextension");
    assert_eq!(job.asset.media_type, None);
}

#[test]
fn name_rules_derive_names() {
    assert_eq!(NameRule::Whole.apply("a_b.c"), Ok("a_b.c".to_string()));
    assert_eq!(NameRule::Fixed("x".to_string()).apply("a_b.c"), Ok("x".to_string()));
    assert_eq!(NameRule::Piece { delimiter: '_', index: 0 }.apply("a_b.c"), Ok("a".to_string()));
    assert_eq!(NameRule::Piece { delimiter: '_', index: 2 }.apply("a_b.c"), Err(KeyError::NoToken));
    assert_eq!(
        NameRule::LastPieceHead { delimiter: '_', length: 2 }.apply("a_bcd"),
        Ok("bc".to_string())
    );
    assert_eq!(
        NameRule::LastPieceHead { delimiter: '_', length: 0 }.apply("a_bcd"),
        Ok("".to_string())
    );
    assert_eq!(
        NameRule::LastPieceHead { delimiter: '_', length: 4 }.apply("a_bcd"),
        Err(KeyError::ShortToken)
    );
    assert_eq!(NameRule::TrimSuffix(".c".to_string()).apply("a_b.c.c"), Ok("a_b".to_string()));
}

#[test]
fn stamp_rules_read_keys() {
    assert_eq!(
        StampRule::Modified.read("a/b"),
        Ok(Reading { target: "a/b".to_string(), token: None })
    );
    assert_eq!(
        StampRule::Piece { delimiter: '.', index: 1 }.read("a.b.c"),
        Ok(Reading { target: "a.b.c".to_string(), token: Some((Precision::Minute, "b".to_string())) })
    );
    let window = StampRule::Window { marker: "t".to_string(), width: 4, delimiter: '_', index: 1 };
    assert_eq!(
        window.read("xxt_1_yy"),
        Ok(Reading { target: "xxyy".to_string(), token: Some((Precision::Hour, "1".to_string())) })
    );
    assert_eq!(window.read("xxt_1"), Err(KeyError::ShortWindow));
    assert_eq!(window.read("xx"), Err(KeyError::NoMarker));
    assert_eq!(window.read("xxtabcd"), Err(KeyError::NoToken));
}

#[test]
fn instants_come_from_tokens_or_the_store() {
    let modified = Timestamp::at(5);
    assert_eq!(resolve_instant(&None, modified), Some(modified));
    assert_eq!(
        resolve_instant(&Some((Precision::Minute, "202206230000".to_string())), modified),
        Some(Timestamp::at(1655942400))
    );
    assert_eq!(
        resolve_instant(&Some((Precision::Hour, "2022062300".to_string())), modified),
        Some(Timestamp::at(1655942400))
    );
    assert_eq!(resolve_instant(&Some((Precision::Hour, "202206230000".to_string())), modified), None);
}

#[test]
fn jobs_for_items_need_a_date_and_time() {
    let policy = Policy::standard();
    let route = policy.route("e2e5132c-85df-417a-8706-f75068d4937e").unwrap();
    let decision = derive_job(
        &policy,
        route,
        "mhs-upload/e2e5132c-85df-417a-8706-f75068d4937e/x.h5",
        SweepMode::Staging,
        "e2e5132c-85df-417a-8706-f75068d4937e/x.h5".to_string(),
        None,
    );
    assert_eq!(decision, Decision::Invalid(KeyError::BadTimestamp));
    let manifest = policy.route("0a62455f-c39c-4084-bd54-36ee2192d3af").unwrap();
    let decision = derive_job(
        &policy,
        manifest,
        "0a62455f-c39c-4084-bd54-36ee2192d3af/x.json",
        SweepMode::Full,
        "0a62455f-c39c-4084-bd54-36ee2192d3af/x.json".to_string(),
        None,
    );
    assert_eq!(job(decision).work, Work::Collection { reload: false });
}
