//! The routing table and thresholds of the weather service that this crate
//! was made for.

use vstd::prelude::*;
use vstd::string::*;

use crate::policy::{Mode, NameRule, Policy, Route, StampRule};
use crate::text::views;

verus! {

/// What staged keys begin with.
pub const STAGING_PREFIX: &'static str = "mhs-upload";

/// Address under which stored files are published.
pub const ASSET_BASE: &'static str = "https://s3.meteoschweiz-poc.swisstopo.cloud";

/// Address of the root of the feature service.
pub const SERVICE_ROOT: &'static str = "https://poc.meteoschweiz-poc.swisstopo.cloud/root";

/// Name of the bucket that holds all objects.
pub const BUCKET: &'static str = "met-oapi-poc";

/// Collection of ten-minute measurements, loaded from a manifest.
pub const MEASUREMENTS: &'static str = "0a62455f-c39c-4084-bd54-36ee2192d3af";

/// Collection of hourly observations, loaded from a manifest.
pub const OBSERVATIONS: &'static str = "ad2b1452-9f3c-4137-9822-9758298bc025";

/// First collection of radar composites.
pub const RADAR_FIRST: &'static str = "e2e5132c-85df-417a-8706-f75068d4937e";

/// Second collection of radar composites.
pub const RADAR_SECOND: &'static str = "e74c17ea-0822-44db-bef9-f37135a68245";

/// Third collection of radar composites.
pub const RADAR_THIRD: &'static str = "7880287e-5d4b-4e15-b13f-846df89979a3";

/// Collection of climate normals.
pub const NORMALS: &'static str = "ed6a30c9-672e-4d8f-95e4-8c5bef8ab417";

/// Collection whose items are named by the second piece of the file name.
pub const STATIONS: &'static str = "b46a8f8d-bc48-41d3-b20a-de61d0763318";

/// Collection whose items are named by the day that the file name ends with.
pub const DAILY: &'static str = "4ccc5153-cc27-47b8-abee-9d6e12e19701";

/// Collection of alerts.
pub const ALERTS: &'static str = "35ff8133-364a-47eb-a145-0d641b706bff";

/// Collection of model output.
pub const MODEL: &'static str = "a6296aa9-d183-45c3-90fc-f03ec7d637be";

/// The one item of each collection of radar composites.
pub const RADAR_ITEM: &'static str = "meteoswiss.radar.precip";

/// The one item of the collection of climate normals.
pub const NORMALS_ITEM: &'static str = "klimanormwerte.temperatur.1961-1990";

/// End of the key of the manifest of ten-minute measurements.
pub const MEASUREMENTS_MANIFEST: &'static str =
    "ch.meteoschweiz.messwerte-lufttemperatur-10min_en.json";

/// End of the key of the manifest of hourly observations.
pub const OBSERVATIONS_MANIFEST: &'static str = "observations-hourly.csv";

/// Extension of alert files.
pub const ALERT_SUFFIX: &'static str = ".cap";

/// Extension of model files.
pub const MODEL_SUFFIX: &'static str = ".grib2";

/// What introduces the time of initialisation in the key of a model file.
pub const MODEL_MARKER: &'static str = "initime";

/// Characters from the marker to the end of the token and the underscore
/// behind it: `initime_YYYYMMDDHH_`.
pub const MODEL_WINDOW: usize = 19;

/// Characters of a day written as `YYYYMMDD`.
pub const DAY_LENGTH: usize = 8;

/// Seconds for which a staged object is left to settle.
pub const SETTLE_SECONDS: i64 = 10;

/// Seconds after which a staged object counts as abandoned.
pub const ABANDON_SECONDS: i64 = 70;

/// Minutes between two attempts at an abandoned object.
pub const RETRY_MINUTES: i64 = 5;

/// Rows in one insert statement.
pub const BATCH_SIZE: usize = 10000;

/// The route sends the objects of `collection` to the collection itself,
/// and takes the two manifests for what they are.
pub open spec fn manifest_route(route: Route, collection: Seq<char>) -> bool {
    &&& route.collection@ == collection
    &&& route.asset_rule is Whole
    &&& route.stamp_rule is Modified
    &&& route.mode matches Mode::Manifest { triggers }
    &&& views(triggers@) == seq![MEASUREMENTS_MANIFEST@, OBSERVATIONS_MANIFEST@]
}

/// The route sends the objects of `collection` to one fixed item.
pub open spec fn fixed_route(route: Route, collection: Seq<char>, item: Seq<char>) -> bool {
    &&& route.collection@ == collection
    &&& route.asset_rule is Whole
    &&& route.stamp_rule is Modified
    &&& route.mode matches Mode::Item { rule, create_missing }
    &&& !create_missing
    &&& rule matches NameRule::Fixed(name)
    &&& name@ == item
}

/// The route names the item by the second piece between underscores.
pub open spec fn station_route(route: Route) -> bool {
    &&& route.collection@ == STATIONS@
    &&& route.asset_rule is Whole
    &&& route.stamp_rule is Modified
    &&& route.mode matches Mode::Item { rule, create_missing }
    &&& !create_missing
    &&& rule == (NameRule::Piece { delimiter: '_', index: 1 })
}

/// The route names the item by the day at the head of the last piece
/// between underscores, and creates items that are missing.
pub open spec fn daily_route(route: Route) -> bool {
    &&& route.collection@ == DAILY@
    &&& route.asset_rule is Whole
    &&& route.stamp_rule is Modified
    &&& route.mode matches Mode::Item { rule, create_missing }
    &&& create_missing
    &&& rule == (NameRule::LastPieceHead { delimiter: '_', length: DAY_LENGTH })
}

/// The route names the item by the file name without its extension, reads
/// the instant from the third piece between dots, and creates items that
/// are missing.
pub open spec fn alert_route(route: Route) -> bool {
    &&& route.collection@ == ALERTS@
    &&& route.asset_rule is Whole
    &&& route.stamp_rule == (StampRule::Piece { delimiter: '.', index: 2 })
    &&& route.mode matches Mode::Item { rule, create_missing }
    &&& create_missing
    &&& rule matches NameRule::TrimSuffix(suffix)
    &&& suffix@ == ALERT_SUFFIX@
}

/// The route names the item by the file name without its extension, and
/// reads the instant from the window behind the marker.
pub open spec fn model_route(route: Route) -> bool {
    &&& route.collection@ == MODEL@
    &&& route.asset_rule is Whole
    &&& route.mode matches Mode::Item { rule, create_missing }
    &&& !create_missing
    &&& rule matches NameRule::TrimSuffix(suffix)
    &&& suffix@ == MODEL_SUFFIX@
    &&& route.stamp_rule matches StampRule::Window { marker, width, delimiter, index }
    &&& marker@ == MODEL_MARKER@
    &&& width == MODEL_WINDOW
    &&& delimiter == '_'
    &&& index == 1
}

/// The routes of the weather service, in their order.
pub open spec fn standard_routes(routes: Seq<Route>) -> bool {
    &&& routes.len() == 10
    &&& manifest_route(routes[0], MEASUREMENTS@)
    &&& manifest_route(routes[1], OBSERVATIONS@)
    &&& fixed_route(routes[2], RADAR_FIRST@, RADAR_ITEM@)
    &&& fixed_route(routes[3], RADAR_SECOND@, RADAR_ITEM@)
    &&& fixed_route(routes[4], RADAR_THIRD@, RADAR_ITEM@)
    &&& fixed_route(routes[5], NORMALS@, NORMALS_ITEM@)
    &&& station_route(routes[6])
    &&& daily_route(routes[7])
    &&& alert_route(routes[8])
    &&& model_route(routes[9])
}

fn manifest(collection: &str) -> (route: Route)
    ensures
        manifest_route(route, collection@),
{
    let mut triggers: Vec<String> = Vec::new();
    triggers.push(MEASUREMENTS_MANIFEST.to_owned());
    triggers.push(OBSERVATIONS_MANIFEST.to_owned());
    assert(views(triggers@) =~= seq![MEASUREMENTS_MANIFEST@, OBSERVATIONS_MANIFEST@]);
    Route {
        collection: collection.to_owned(),
        mode: Mode::Manifest { triggers },
        asset_rule: NameRule::Whole,
        stamp_rule: StampRule::Modified,
    }
}

fn fixed(collection: &str, item: &str) -> (route: Route)
    ensures
        fixed_route(route, collection@, item@),
{
    Route {
        collection: collection.to_owned(),
        mode: Mode::Item { rule: NameRule::Fixed(item.to_owned()), create_missing: false },
        asset_rule: NameRule::Whole,
        stamp_rule: StampRule::Modified,
    }
}

impl Policy {
    /// The routing table and thresholds of the weather service.
    pub fn standard() -> (policy: Policy)
        ensures
            policy.valid(),
            policy.staging_prefix@ == STAGING_PREFIX@,
            policy.settle_seconds == SETTLE_SECONDS,
            policy.abandon_seconds == ABANDON_SECONDS,
            policy.retry_minutes == RETRY_MINUTES,
            policy.asset_base@ == ASSET_BASE@,
            policy.service_root@ == SERVICE_ROOT@,
            policy.batch_size == BATCH_SIZE,
            standard_routes(policy.routes@),
    {
        let mut routes: Vec<Route> = Vec::new();
        routes.push(manifest(MEASUREMENTS));
        routes.push(manifest(OBSERVATIONS));
        routes.push(fixed(RADAR_FIRST, RADAR_ITEM));
        routes.push(fixed(RADAR_SECOND, RADAR_ITEM));
        routes.push(fixed(RADAR_THIRD, RADAR_ITEM));
        routes.push(fixed(NORMALS, NORMALS_ITEM));
        routes.push(
            Route {
                collection: STATIONS.to_owned(),
                mode: Mode::Item {
                    rule: NameRule::Piece { delimiter: '_', index: 1 },
                    create_missing: false,
                },
                asset_rule: NameRule::Whole,
                stamp_rule: StampRule::Modified,
            },
        );
        routes.push(
            Route {
                collection: DAILY.to_owned(),
                mode: Mode::Item {
                    rule: NameRule::LastPieceHead { delimiter: '_', length: DAY_LENGTH },
                    create_missing: true,
                },
                asset_rule: NameRule::Whole,
                stamp_rule: StampRule::Modified,
            },
        );
        routes.push(
            Route {
                collection: ALERTS.to_owned(),
                mode: Mode::Item {
                    rule: NameRule::TrimSuffix(ALERT_SUFFIX.to_owned()),
                    create_missing: true,
                },
                asset_rule: NameRule::Whole,
                stamp_rule: StampRule::Piece { delimiter: '.', index: 2 },
            },
        );
        routes.push(
            Route {
                collection: MODEL.to_owned(),
                mode: Mode::Item {
                    rule: NameRule::TrimSuffix(MODEL_SUFFIX.to_owned()),
                    create_missing: false,
                },
                asset_rule: NameRule::Whole,
                stamp_rule: StampRule::Window {
                    marker: MODEL_MARKER.to_owned(),
                    width: MODEL_WINDOW,
                    delimiter: '_',
                    index: 1,
                },
            },
        );
        proof {
            reveal_strlit("mhs-upload");
        }
        Policy {
            staging_prefix: STAGING_PREFIX.to_owned(),
            settle_seconds: SETTLE_SECONDS,
            abandon_seconds: ABANDON_SECONDS,
            retry_minutes: RETRY_MINUTES,
            asset_base: ASSET_BASE.to_owned(),
            service_root: SERVICE_ROOT.to_owned(),
            batch_size: BATCH_SIZE,
            routes,
        }
    }
}

} // verus!
