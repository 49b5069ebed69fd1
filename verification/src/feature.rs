//! Features as a manifest holds them, and as they are staged for loading.

use geojson::feature::Id;
use geojson::FeatureCollection;
use serde_json::Value;
use vstd::prelude::*;
use vstd::string::*;

use crate::asset::{item_asset, Asset, AssetMap, AssetView};
use crate::dictionary::{entry_views, gathered, put, value_of, without, Dictionary, Entry};
use crate::document::{Properties, PropertyValue, PropertyValueView, DATETIME};
use crate::error::DecodeError;
use crate::proj::{Projected, CANONICAL_CRS};
use crate::text::{
    concat, copy_optional, copy_text, decimal, decimal_text, finishes_with, optional_view,
    same_text,
};
use crate::time::{instant_of, rfc3339_instant, rfc3339_text, Timestamp};

verus! {

/// Name of the property that is dropped from every feature of a manifest.
pub const DESCRIPTION: &'static str = "description";

/// Name of the property from which the `datetime` of a feature is taken.
pub const REFERENCE_TS: &'static str = "reference_ts";

/// What the key of a manifest in GeoJSON ends with.
pub const GEOJSON_ENDING: &'static str = "json";

/// The JSON text for a value that is absent.
pub const NULL: &'static str = "null";

/// The format of a manifest.
#[derive(Clone, Copy, Debug, PartialEq, Eq, Structural)]
pub enum ManifestFormat {
    /// A GeoJSON feature collection.
    GeoJson,
    /// Rows of text, delimited by semicolons, below a row of column names.
    Delimited,
}

/// A feature as a manifest holds it.
#[derive(Clone, Debug, PartialEq, Eq)]
pub struct RawFeature {
    /// The identifier: a string, or a number as it is written.
    pub id: Option<String>,
    /// The properties, in the order of the decoder.
    pub properties: Option<Vec<Entry<PropertyValue>>>,
    /// The geometry, as GeoJSON, in the coordinates of the manifest.
    pub geometry: Option<String>,
}

/// What a [`RawFeature`] holds, as sequences.
pub struct RawFeatureView {
    pub id: Option<Seq<char>>,
    pub properties: Option<Seq<(Seq<char>, PropertyValueView)>>,
    pub geometry: Option<Seq<char>>,
}

impl View for RawFeature {
    type V = RawFeatureView;

    open spec fn view(&self) -> RawFeatureView {
        RawFeatureView {
            id: optional_view(self.id),
            properties: match self.properties {
                Some(entries) => Some(entry_views(entries@)),
                None => None,
            },
            geometry: optional_view(self.geometry),
        }
    }
}

/// The views of a list of features.
pub open spec fn raw_views(features: Seq<RawFeature>) -> Seq<RawFeatureView> {
    features.map_values(|feature: RawFeature| feature@)
}

/// What `serde_json::from_slice` and `geojson::FeatureCollection::from_json_value`
/// make of the bytes of a document: the features of the collection in their
/// order, or `None` where either reports an error. Of each feature, the
/// identifier is a string as it stands and a number as `serde_json` writes
/// it; a property is a string as it stands and any other value as
/// `serde_json` writes it; the geometry is as `geojson` writes it.
pub uninterp spec fn geojson_features(data: Seq<u8>) -> Option<Seq<RawFeatureView>>;

/// Calls `serde_json::from_slice` and hands the value to
/// `geojson::FeatureCollection::from_json_value`; then moves the fields of
/// each feature into a [`RawFeature`], writing numbers, values that are no
/// strings, and geometries with their own `to_string`. The contract claims
/// only that the result is a function of the bytes.
#[verifier::external_body]
fn parse_feature_collection(data: &[u8]) -> (parsed: Option<Vec<RawFeature>>)
    ensures
        parsed is Some == geojson_features(data@) is Some,
        parsed matches Some(features) ==> geojson_features(data@) == Some(raw_views(features@)),
{
    let value = serde_json::from_slice(data).ok()?;
    let parsed = FeatureCollection::from_json_value(value).ok()?;
    Some(parsed.features.into_iter().map(|feature| RawFeature {
        id: feature.id.map(|id| match id {
            Id::String(text) => text,
            Id::Number(number) => number.to_string(),
        }),
        properties: feature.properties.map(|map| map.into_iter().map(|(name, value)| match value {
            Value::String(text) => Entry { name, value: PropertyValue::Text(text) },
            other => Entry { name, value: PropertyValue::Json(other.to_string()) },
        }).collect()),
        geometry: feature.geometry.map(|geometry| geometry.to_string()),
    }).collect())
}

/// One row of a manifest of observations. Numbers are held as JSON text.
#[derive(Clone, Debug, PartialEq, Eq)]
pub struct Observation {
    /// When the value was measured, as the manifest writes it.
    pub datetime: String,
    /// The value that was measured.
    pub value: String,
    /// Name of the station.
    pub station_name: String,
    /// National code of the station.
    pub nat_abbr: String,
    /// Identifier of the station.
    pub wigos_id: String,
    /// Easting of the station.
    pub easting: String,
    /// Northing of the station.
    pub northing: String,
    /// Height at which the instrument is installed, where it is known.
    pub installation_height: Option<String>,
    /// Code of the parameter that was measured.
    pub param_short: String,
}

/// A feature whose identifier, properties and assets are final, with its
/// geometry still in the coordinates of the manifest.
#[derive(Debug, PartialEq, Eq)]
pub struct StagedFeature {
    /// The identifier within the collection.
    pub id: String,
    /// The properties.
    pub properties: Option<Properties>,
    /// The assets, by asset id.
    pub assets: AssetMap,
    /// The geometry, as GeoJSON, in the coordinates of the manifest.
    pub geometry: String,
}

/// What a [`StagedFeature`] holds, as sequences.
pub struct StagedView {
    pub id: Seq<char>,
    pub properties: Option<Seq<(Seq<char>, PropertyValueView)>>,
    pub assets: Seq<(Seq<char>, AssetView)>,
    pub geometry: Seq<char>,
}

impl View for StagedFeature {
    type V = StagedView;

    open spec fn view(&self) -> StagedView {
        StagedView {
            id: self.id@,
            properties: match self.properties {
                Some(properties) => Some(properties@),
                None => None,
            },
            assets: self.assets@,
            geometry: self.geometry@,
        }
    }
}

/// The views of a list of staged features.
pub open spec fn staged_views(features: Seq<StagedFeature>) -> Seq<StagedView> {
    features.map_values(|feature: StagedFeature| feature@)
}

/// A record of the feature store: one row of the relation of a collection,
/// with its geometry in the coordinates of the store.
#[derive(Debug, PartialEq, Eq)]
pub struct CanonicalFeature {
    /// The identifier within the collection.
    pub id: String,
    /// The collection.
    pub collection: String,
    /// The geometry, in well-known binary form.
    pub geometry: Vec<u8>,
    /// The properties.
    pub properties: Option<Properties>,
    /// The assets, by asset id.
    pub assets: AssetMap,
}

/// What a [`CanonicalFeature`] holds, as sequences.
pub struct CanonicalView {
    pub id: Seq<char>,
    pub collection: Seq<char>,
    pub geometry: Seq<u8>,
    pub properties: Option<Seq<(Seq<char>, PropertyValueView)>>,
    pub assets: Seq<(Seq<char>, AssetView)>,
}

impl View for CanonicalFeature {
    type V = CanonicalView;

    open spec fn view(&self) -> CanonicalView {
        CanonicalView {
            id: self.id@,
            collection: self.collection@,
            geometry: self.geometry@,
            properties: match self.properties {
                Some(properties) => Some(properties@),
                None => None,
            },
            assets: self.assets@,
        }
    }
}

/// The format in which the manifest with this key is written.
pub open spec fn format_of(key: Seq<char>) -> ManifestFormat {
    if finishes_with(key, GEOJSON_ENDING@) {
        ManifestFormat::GeoJson
    } else {
        ManifestFormat::Delimited
    }
}

/// The GeoJSON text of a point.
pub open spec fn point_text(easting: Seq<char>, northing: Seq<char>) -> Seq<char> {
    "{\"type\":\"Point\",\"coordinates\":["@ + easting + ","@ + northing + "]}"@
}

/// The identifier of an observation: code, parameter and time, joined by
/// underscores.
pub open spec fn observation_id(code: Seq<char>, parameter: Seq<char>, datetime: Seq<char>) -> Seq<
    char,
> {
    code + "_"@ + parameter + "_"@ + datetime
}

/// The feature that an observation becomes: a point at the station.
pub open spec fn observed(observation: Observation) -> RawFeatureView {
    RawFeatureView {
        id: Some(
            observation_id(
                observation.nat_abbr@,
                observation.param_short@,
                observation.datetime@,
            ),
        ),
        properties: Some(
            seq![
                ("datetime"@, PropertyValueView::Text(observation.datetime@)),
                ("value"@, PropertyValueView::Json(observation.value@)),
                ("station_name"@, PropertyValueView::Text(observation.station_name@)),
                ("nat_abbr"@, PropertyValueView::Text(observation.nat_abbr@)),
                ("wigos_id"@, PropertyValueView::Text(observation.wigos_id@)),
                (
                    "installation_height"@,
                    PropertyValueView::Json(
                        match observation.installation_height {
                            Some(height) => height@,
                            None => NULL@,
                        },
                    ),
                ),
                ("param_short"@, PropertyValueView::Text(observation.param_short@)),
            ],
        ),
        geometry: Some(point_text(observation.easting@, observation.northing@)),
    }
}

/// The identifier of the feature at position `index` of a manifest: its
/// own, or else the position as a decimal numeral.
pub open spec fn id_text(id: Option<Seq<char>>, index: nat) -> Seq<char> {
    match id {
        Some(text) => text,
        None => decimal(index),
    }
}

/// The text of the property from which the `datetime` is taken, where it
/// is a string.
pub open spec fn reference_text(properties: Seq<(Seq<char>, PropertyValueView)>) -> Option<
    Seq<char>,
> {
    match value_of(properties, REFERENCE_TS@) {
        Some(PropertyValueView::Text(text)) => Some(text),
        _ => None,
    }
}

/// The `datetime` of a feature with these properties: its reference time,
/// where that is a date and time, written at second precision in UTC.
pub open spec fn reference_stamp(properties: Seq<(Seq<char>, PropertyValueView)>) -> Option<
    Seq<char>,
> {
    match reference_text(properties) {
        Some(text) => match rfc3339_instant(text) {
            Some((seconds, nanos)) => rfc3339_text(seconds, nanos),
            None => None,
        },
        None => None,
    }
}

/// The properties with `datetime` set to `stamp`, where there is one.
pub open spec fn stamped(
    properties: Seq<(Seq<char>, PropertyValueView)>,
    stamp: Option<Seq<char>>,
) -> Seq<(Seq<char>, PropertyValueView)> {
    match stamp {
        Some(text) => put(properties, DATETIME@, PropertyValueView::Text(text)),
        None => properties,
    }
}

/// The properties of a staged feature: those of the manifest without the
/// description, and with the `datetime` that its reference time gives.
pub open spec fn normalised(entries: Seq<(Seq<char>, PropertyValueView)>) -> Seq<
    (Seq<char>, PropertyValueView),
> {
    let kept = without(gathered(entries), DESCRIPTION@);
    stamped(kept, reference_stamp(kept))
}

/// The staged form of the feature at position `index` of a manifest of the
/// collection `collection`, served below `root`.
pub open spec fn staged(root: Seq<char>, collection: Seq<char>, index: nat, raw: RawFeatureView) -> Result<
    StagedView,
    DecodeError,
> {
    match raw.geometry {
        None => Err(DecodeError::NoGeometry(index as usize)),
        Some(geometry) => {
            let id = id_text(raw.id, index);
            Ok(
                StagedView {
                    id,
                    properties: match raw.properties {
                        Some(entries) => Some(normalised(entries)),
                        None => None,
                    },
                    assets: seq![(id, item_asset(root, collection, id))],
                    geometry,
                },
            )
        },
    }
}

/// The features of a manifest have been staged up to, not including,
/// position `count`.
pub open spec fn staged_up_to(
    root: Seq<char>,
    collection: Seq<char>,
    raw: Seq<RawFeatureView>,
    done: Seq<StagedView>,
    count: int,
) -> bool {
    &&& done.len() == count
    &&& forall|i: int|
        0 <= i < count ==> staged(root, collection, i as nat, #[trigger] raw[i]) == Ok::<
            StagedView,
            DecodeError,
        >(done[i])
}

impl ManifestFormat {
    /// The format in which the manifest with this key is written.
    pub fn of_key(key: &str) -> (format: ManifestFormat)
        ensures
            format == format_of(key@),
    {
        if crate::text::ends_with(key, GEOJSON_ENDING) {
            ManifestFormat::GeoJson
        } else {
            ManifestFormat::Delimited
        }
    }
}

/// Decodes a GeoJSON feature collection into its features, in their order.
pub fn decode_geojson(data: &[u8]) -> (decoded: Result<Vec<RawFeature>, DecodeError>)
    ensures
        decoded is Ok == geojson_features(data@) is Some,
        decoded matches Ok(features) ==> geojson_features(data@) == Some(raw_views(features@)),
        decoded matches Err(error) ==> error == DecodeError::Malformed,
{
    match parse_feature_collection(data) {
        Some(features) => Ok(features),
        None => Err(DecodeError::Malformed),
    }
}

fn text_entry(name: &str, value: &String) -> (entry: Entry<PropertyValue>)
    ensures
        entry@ == (name@, PropertyValueView::Text(value@)),
{
    Entry { name: name.to_owned(), value: PropertyValue::Text(copy_text(value)) }
}

fn json_entry(name: &str, value: &str) -> (entry: Entry<PropertyValue>)
    ensures
        entry@ == (name@, PropertyValueView::Json(value@)),
{
    Entry { name: name.to_owned(), value: PropertyValue::Json(value.to_owned()) }
}

impl Observation {
    /// The feature that the observation becomes: a point at the station,
    /// identified by code, parameter and time.
    pub fn to_feature(&self) -> (feature: RawFeature)
        ensures
            feature@ == observed(*self),
    {
        let a = concat(self.nat_abbr.as_str(), "_");
        let b = concat(a.as_str(), self.param_short.as_str());
        let c = concat(b.as_str(), "_");
        let id = concat(c.as_str(), self.datetime.as_str());
        let height = match &self.installation_height {
            Some(height) => json_entry("installation_height", height.as_str()),
            None => json_entry("installation_height", NULL),
        };
        let mut properties: Vec<Entry<PropertyValue>> = Vec::new();
        properties.push(text_entry("datetime", &self.datetime));
        properties.push(json_entry("value", self.value.as_str()));
        properties.push(text_entry("station_name", &self.station_name));
        properties.push(text_entry("nat_abbr", &self.nat_abbr));
        properties.push(text_entry("wigos_id", &self.wigos_id));
        properties.push(height);
        properties.push(text_entry("param_short", &self.param_short));
        let p = concat("{\"type\":\"Point\",\"coordinates\":[", self.easting.as_str());
        let q = concat(p.as_str(), ",");
        let r = concat(q.as_str(), self.northing.as_str());
        let geometry = concat(r.as_str(), "]}");
        let feature = RawFeature { id: Some(id), properties: Some(properties), geometry: Some(geometry) };
        assert(feature@.properties->0 =~= observed(*self).properties->0);
        feature
    }
}

/// The identifier of the feature at position `index` of a manifest.
pub fn feature_id(id: Option<String>, index: usize) -> (text: String)
    ensures
        text@ == id_text(optional_view(id), index as nat),
{
    match id {
        Some(text) => text,
        None => decimal_text(index),
    }
}

/// The `datetime` that the reference time of a feature gives.
pub fn stamp_of(properties: &Properties) -> (stamp: Option<String>)
    ensures
        optional_view(stamp) == reference_stamp(properties@),
{
    match properties.get(REFERENCE_TS) {
        Some(PropertyValue::Text(text)) => match Timestamp::from_rfc3339(text.as_str()) {
            Some(instant) => instant.to_rfc3339(),
            None => None,
        },
        _ => None,
    }
}

/// Sets the `datetime` of a feature, where there is one to set.
pub fn stamp_properties(properties: Properties, stamp: Option<String>) -> (result: Properties)
    ensures
        result@ == stamped(properties@, optional_view(stamp)),
{
    let mut result = properties;
    match stamp {
        Some(text) => {
            result.insert(DATETIME.to_owned(), PropertyValue::Text(text));
        },
        None => {},
    }
    result
}

/// Makes the properties of a staged feature from those of the manifest.
pub fn normalise(entries: Vec<Entry<PropertyValue>>) -> (properties: Properties)
    ensures
        properties@ == normalised(entry_views(entries@)),
{
    let mut kept = Dictionary::from_entries(entries);
    kept.remove(DESCRIPTION);
    let stamp = stamp_of(&kept);
    stamp_properties(kept, stamp)
}

/// Stages the feature at position `index` of a manifest.
pub fn stage(root: &str, collection: &str, index: usize, raw: RawFeature) -> (result: Result<
    StagedFeature,
    DecodeError,
>)
    ensures
        result is Ok == staged(root@, collection@, index as nat, raw@) is Ok,
        result matches Ok(feature) ==> staged(root@, collection@, index as nat, raw@) == Ok::<
            StagedView,
            DecodeError,
        >(feature@),
        result matches Err(error) ==> staged(root@, collection@, index as nat, raw@) == Err::<
            StagedView,
            DecodeError,
        >(error),
{
    let geometry = match raw.geometry {
        Some(geometry) => geometry,
        None => {
            return Err(DecodeError::NoGeometry(index));
        },
    };
    let id = feature_id(raw.id, index);
    let properties = match raw.properties {
        Some(entries) => Some(normalise(entries)),
        None => None,
    };
    let mut assets: AssetMap = Dictionary::new();
    let asset = Asset::of_item(root, collection, id.as_str());
    assets.insert(copy_text(&id), asset);
    assert(assets@ =~= seq![(id@, item_asset(root@, collection@, id@))]);
    Ok(StagedFeature { id, properties, assets, geometry })
}

/// Stages the features of a manifest, in their order. The first feature
/// that cannot be staged ends the work, and nothing is staged.
pub fn stage_all(root: &str, collection: &str, features: Vec<RawFeature>) -> (result: Result<
    Vec<StagedFeature>,
    DecodeError,
>)
    ensures
        result matches Ok(done) ==> staged_up_to(
            root@,
            collection@,
            raw_views(features@),
            staged_views(done@),
            features@.len() as int,
        ),
        result matches Err(error) ==> exists|at: int|
            0 <= at < features@.len() && staged(
                root@,
                collection@,
                at as nat,
                #[trigger] raw_views(features@)[at],
            ) == Err::<StagedView, DecodeError>(error) && forall|i: int|
                0 <= i < at ==> staged(
                    root@,
                    collection@,
                    i as nat,
                    #[trigger] raw_views(features@)[i],
                ) is Ok,
{
    let ghost all = features@;
    let mut done: Vec<StagedFeature> = Vec::new();
    for raw in it: features
        invariant
            it.seq() == all,
            staged_up_to(root@, collection@, raw_views(all), staged_views(done@), it.index() as int),
    {
        let index = done.len();
        assert(raw_views(all)[index as int] == raw@);
        match stage(root, collection, index, raw) {
            Ok(feature) => {
                done.push(feature);
            },
            Err(error) => {
                return Err(error);
            },
        }
    }
    Ok(done)
}

impl StagedFeature {
    /// Makes the record of the feature store out of a staged feature and
    /// what the transformation has made of its geometry. There is none
    /// where that is not in the coordinates of the store.
    pub fn settle(self, collection: &str, projected: Projected) -> (record: Option<
        CanonicalFeature,
    >)
        ensures
            record is Some == (projected.crs@ == CANONICAL_CRS@),
            record matches Some(feature) ==> feature@ == (CanonicalView {
                id: self@.id,
                collection: collection@,
                geometry: projected.wkb@,
                properties: self@.properties,
                assets: self@.assets,
            }),
    {
        if same_text(projected.crs.as_str(), CANONICAL_CRS) {
            Some(
                CanonicalFeature {
                    id: self.id,
                    collection: collection.to_owned(),
                    geometry: projected.wkb,
                    properties: self.properties,
                    assets: self.assets,
                },
            )
        } else {
            None
        }
    }
}

} // verus!
