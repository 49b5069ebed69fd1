//! The part of a collection or feature document that registering an asset
//! reads and changes.

use vstd::prelude::*;

use crate::asset::{Asset, AssetMap, AssetView};
use crate::dictionary::{
    count_of, distinct_names, lemma_put, lemma_put_again, lemma_put_twice, put, value_of,
    Dictionary,
};

verus! {

/// Name of the property that holds the instant of a feature.
pub const DATETIME: &'static str = "datetime";

/// Geometry of a feature that is created for its first asset: the outline
/// of the area that the service covers, as GeoJSON.
pub const PLACEHOLDER_GEOMETRY: &'static str =
    "{\"type\":\"Polygon\",\"coordinates\":[[[5.96,45.82],[10.49,45.82],[10.49,47.81],[5.96,47.81],[5.96,45.82]]]}";

/// Bounding box of a feature that is created for its first asset, as JSON.
pub const PLACEHOLDER_BBOX: &'static str = "[5.96,45.82,10.49,47.81]";

/// The value of a property.
#[derive(Clone, Debug, PartialEq, Eq)]
pub enum PropertyValue {
    /// A string.
    Text(String),
    /// Any other value, as JSON text.
    Json(String),
}

/// What a [`PropertyValue`] holds, as sequences of characters.
pub enum PropertyValueView {
    Text(Seq<char>),
    Json(Seq<char>),
}

impl View for PropertyValue {
    type V = PropertyValueView;

    open spec fn view(&self) -> PropertyValueView {
        match self {
            PropertyValue::Text(text) => PropertyValueView::Text(text@),
            PropertyValue::Json(text) => PropertyValueView::Json(text@),
        }
    }
}

/// The properties of one document, by name.
pub type Properties = Dictionary<PropertyValue>;

/// The properties and assets of a collection or a feature.
#[derive(Debug, PartialEq, Eq)]
pub struct Document {
    /// The properties.
    pub properties: Properties,
    /// The assets, by asset id.
    pub assets: AssetMap,
}

/// What a [`Document`] holds, as sequences.
pub struct DocumentView {
    pub properties: Seq<(Seq<char>, PropertyValueView)>,
    pub assets: Seq<(Seq<char>, AssetView)>,
}

impl View for Document {
    type V = DocumentView;

    open spec fn view(&self) -> DocumentView {
        DocumentView { properties: self.properties@, assets: self.assets@ }
    }
}

/// No property and no asset occurs twice.
pub open spec fn well_formed(document: DocumentView) -> bool {
    distinct_names(document.properties) && distinct_names(document.assets)
}

/// The document with `asset` under `asset_id`, in the place of an asset
/// that was there under that id.
pub open spec fn with_asset(document: DocumentView, asset_id: Seq<char>, asset: AssetView) -> DocumentView {
    DocumentView { assets: put(document.assets, asset_id, asset), ..document }
}

/// The document with its `datetime` property set to `text`.
pub open spec fn with_datetime(document: DocumentView, text: Seq<char>) -> DocumentView {
    DocumentView {
        properties: put(document.properties, DATETIME@, PropertyValueView::Text(text)),
        ..document
    }
}

/// Two assets registered under one asset id leave exactly one entry of that
/// id, which holds the second; the document is as if only the second had
/// been registered.
pub proof fn lemma_asset_collision(
    document: DocumentView,
    asset_id: Seq<char>,
    first: AssetView,
    second: AssetView,
)
    requires
        well_formed(document),
    ensures
        with_asset(with_asset(document, asset_id, first), asset_id, second) == with_asset(
            document,
            asset_id,
            second,
        ),
        count_of(
            with_asset(with_asset(document, asset_id, first), asset_id, second).assets,
            asset_id,
        ) == 1,
        value_of(
            with_asset(with_asset(document, asset_id, first), asset_id, second).assets,
            asset_id,
        ) == Some(second),
{
    lemma_put_twice(document.assets, asset_id, first, second);
}

/// Registering an asset with its date and time a second time changes
/// nothing.
pub proof fn lemma_registration_repeats(
    document: DocumentView,
    asset_id: Seq<char>,
    asset: AssetView,
    text: Seq<char>,
)
    requires
        well_formed(document),
    ensures
        with_asset(
            with_datetime(with_asset(with_datetime(document, text), asset_id, asset), text),
            asset_id,
            asset,
        ) == with_asset(with_datetime(document, text), asset_id, asset),
{
    lemma_put_again(document.assets, asset_id, asset);
    lemma_put_again(document.properties, DATETIME@, PropertyValueView::Text(text));
}

/// After its date and time has been set, a document has a `datetime`
/// property, and registering an asset keeps it.
pub proof fn lemma_datetime_present(
    document: DocumentView,
    asset_id: Seq<char>,
    asset: AssetView,
    text: Seq<char>,
)
    requires
        well_formed(document),
    ensures
        value_of(
            with_asset(with_datetime(document, text), asset_id, asset).properties,
            DATETIME@,
        ) == Some(PropertyValueView::Text(text)),
        well_formed(with_asset(with_datetime(document, text), asset_id, asset)),
{
    lemma_put(document.properties, DATETIME@, PropertyValueView::Text(text));
    lemma_put(document.assets, asset_id, asset);
}

impl Document {
    /// A document without properties and assets.
    pub fn new() -> (document: Document)
        ensures
            document@ == (DocumentView { properties: Seq::empty(), assets: Seq::empty() }),
    {
        Document { properties: Dictionary::new(), assets: Dictionary::new() }
    }

    /// Registers `asset` under `asset_id`. An asset that was there under
    /// that id is replaced.
    pub fn attach(&mut self, asset_id: String, asset: Asset)
        ensures
            final(self)@ == with_asset(old(self)@, asset_id@, asset@),
            well_formed(old(self)@),
            well_formed(final(self)@),
    {
        let _ = self.properties.len();
        self.assets.insert(asset_id, asset);
    }

    /// Sets the `datetime` property to `text`.
    pub fn stamp(&mut self, text: String)
        ensures
            final(self)@ == with_datetime(old(self)@, text@),
            well_formed(old(self)@),
            well_formed(final(self)@),
    {
        let _ = self.assets.len();
        self.properties.insert(DATETIME.to_owned(), PropertyValue::Text(text));
    }

    /// Sets the date and time of a feature and registers an asset with it.
    pub fn register(&mut self, asset_id: String, asset: Asset, datetime: String)
        ensures
            final(self)@ == with_asset(with_datetime(old(self)@, datetime@), asset_id@, asset@),
            well_formed(old(self)@),
            well_formed(final(self)@),
    {
        self.stamp(datetime);
        self.attach(asset_id, asset);
    }
}

} // verus!
