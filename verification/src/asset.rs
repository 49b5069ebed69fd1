//! Assets: named file references that a collection or a feature carries.

use vstd::prelude::*;

use crate::dictionary::Dictionary;
use crate::text::{
    concat, copy_optional, copy_text, copy_texts, last_piece, optional_view, same_text,
    split_text, trim_leading, views, without_leading,
};

verus! {

/// Media type of JSON documents.
pub const JSON: &'static str = "application/json";

/// Media type of GeoJSON documents.
pub const GEO_JSON: &'static str = "application/geo+json";

/// Media type of delimited text.
pub const CSV: &'static str = "text/csv";

/// Media type of HDF5 files.
pub const HDF5: &'static str = "application/x-hdf5";

/// Media type of NetCDF files.
pub const NETCDF: &'static str = "application/netcdf";

/// Media type of TIFF images.
pub const TIFF: &'static str = "image/tiff";

/// Media type of alert messages.
pub const XML: &'static str = "text/xml";

/// Media type of ZIP archives.
pub const ZIP: &'static str = "application/zip";

/// Media type of GRIB edition 2 files.
pub const GRIB2: &'static str = "application/wmo-grib2";

/// The role of an asset that holds data.
pub const DATA_ROLE: &'static str = "data";

/// A file reference attached to a collection or a feature.
#[derive(Clone, Debug, PartialEq, Eq)]
pub struct Asset {
    /// Where the file is found.
    pub href: String,
    /// Title shown to users.
    pub title: Option<String>,
    /// What the file holds, in words.
    pub description: Option<String>,
    /// Media type of the file.
    pub media_type: Option<String>,
    /// Semantic roles of the file.
    pub roles: Vec<String>,
}

/// What an [`Asset`] holds, as sequences of characters.
pub struct AssetView {
    pub href: Seq<char>,
    pub title: Option<Seq<char>>,
    pub description: Option<Seq<char>>,
    pub media_type: Option<Seq<char>>,
    pub roles: Seq<Seq<char>>,
}

impl View for Asset {
    type V = AssetView;

    open spec fn view(&self) -> AssetView {
        AssetView {
            href: self.href@,
            title: optional_view(self.title),
            description: optional_view(self.description),
            media_type: optional_view(self.media_type),
            roles: views(self.roles@),
        }
    }
}

/// The assets of one document, by asset id.
pub type AssetMap = Dictionary<Asset>;

/// The media type that belongs to a file extension.
pub open spec fn media_type_for(extension: Seq<char>) -> Option<Seq<char>> {
    if extension == "json"@ {
        Some(JSON@)
    } else if extension == "csv"@ {
        Some(CSV@)
    } else if extension == "h5"@ {
        Some(HDF5@)
    } else if extension == "nc"@ {
        Some(NETCDF@)
    } else if extension == "tiff"@ {
        Some(TIFF@)
    } else if extension == "cap"@ {
        Some(XML@)
    } else if extension == "zip"@ {
        Some(ZIP@)
    } else if extension == "grib2"@ {
        Some(GRIB2@)
    } else {
        None
    }
}

/// The asset for a stored file: found under `base` at its target key, with
/// the role of data and the media type of the key's extension, which is
/// what follows the last dot of the key.
pub open spec fn stored_asset(base: Seq<char>, target: Seq<char>) -> AssetView {
    AssetView {
        href: base + "/"@ + target,
        title: None,
        description: None,
        media_type: media_type_for(last_piece(target, '.')),
        roles: seq![DATA_ROLE@],
    }
}

/// The asset for a file that a user has put under `key`: found under `base`
/// at the key without its leading slashes, described as the user says.
pub open spec fn uploaded_asset(
    base: Seq<char>,
    key: Seq<char>,
    media_type: Seq<char>,
    title: Option<Seq<char>>,
    description: Option<Seq<char>>,
    roles: Seq<Seq<char>>,
) -> AssetView {
    AssetView {
        href: base + "/"@ + without_leading(key, '/'),
        title,
        description,
        media_type: Some(media_type),
        roles,
    }
}

/// The address of an item of a collection, relative to the address of a
/// process execution two levels below the root of the service.
pub open spec fn relative_item_address(collection: Seq<char>, item: Seq<char>) -> Seq<char> {
    "../../collections/"@ + collection + "/items/"@ + item
}

/// The address of an item of a collection below the root of the service.
pub open spec fn item_address(root: Seq<char>, collection: Seq<char>, item: Seq<char>) -> Seq<char> {
    root + "/collections/"@ + collection + "/items/"@ + item
}

/// The asset by which an item of a collection refers to itself.
pub open spec fn item_asset(root: Seq<char>, collection: Seq<char>, item: Seq<char>) -> AssetView {
    AssetView {
        href: item_address(root, collection, item),
        title: None,
        description: None,
        media_type: Some(GEO_JSON@),
        roles: seq![DATA_ROLE@],
    }
}

/// The media type that belongs to a file extension.
pub fn media_type_of(extension: &str) -> (found: Option<String>)
    ensures
        optional_view(found) == media_type_for(extension@),
{
    if same_text(extension, "json") {
        Some(JSON.to_owned())
    } else if same_text(extension, "csv") {
        Some(CSV.to_owned())
    } else if same_text(extension, "h5") {
        Some(HDF5.to_owned())
    } else if same_text(extension, "nc") {
        Some(NETCDF.to_owned())
    } else if same_text(extension, "tiff") {
        Some(TIFF.to_owned())
    } else if same_text(extension, "cap") {
        Some(XML.to_owned())
    } else if same_text(extension, "zip") {
        Some(ZIP.to_owned())
    } else if same_text(extension, "grib2") {
        Some(GRIB2.to_owned())
    } else {
        None
    }
}

/// The address of an item of a collection, relative to the address of a
/// process execution.
pub fn item_location(collection: &str, item: &str) -> (address: String)
    ensures
        address@ == relative_item_address(collection@, item@),
{
    let a = concat("../../collections/", collection);
    let b = concat(a.as_str(), "/items/");
    concat(b.as_str(), item)
}

fn data_roles() -> (roles: Vec<String>)
    ensures
        views(roles@) == seq![DATA_ROLE@],
{
    let mut roles: Vec<String> = Vec::new();
    roles.push(DATA_ROLE.to_owned());
    assert(views(roles@) =~= seq![DATA_ROLE@]);
    roles
}

impl Asset {
    /// An asset that holds nothing but where the file is found.
    pub fn new(href: String) -> (asset: Asset)
        ensures
            asset@ == (AssetView {
                href: href@,
                title: None,
                description: None,
                media_type: None,
                roles: Seq::empty(),
            }),
    {
        let asset = Asset { href, title: None, description: None, media_type: None, roles: Vec::new() };
        assert(views(asset.roles@) =~= Seq::<Seq<char>>::empty());
        asset
    }

    /// The asset for a stored file.
    pub fn stored(base: &str, target: &str) -> (asset: Asset)
        ensures
            asset@ == stored_asset(base@, target@),
    {
        let prefix = concat(base, "/");
        let href = concat(prefix.as_str(), target);
        let pieces = split_text(target, '.');
        let media_type = media_type_of(pieces[pieces.len() - 1].as_str());
        assert(views(pieces@).last() == pieces@.last()@);
        Asset { href, title: None, description: None, media_type, roles: data_roles() }
    }

    /// The asset for a file that a user has put under `key`.
    pub fn uploaded(
        base: &str,
        key: &str,
        media_type: String,
        title: Option<String>,
        description: Option<String>,
        roles: Vec<String>,
    ) -> (asset: Asset)
        ensures
            asset@ == uploaded_asset(
                base@,
                key@,
                media_type@,
                optional_view(title),
                optional_view(description),
                views(roles@),
            ),
    {
        let prefix = concat(base, "/");
        let path = trim_leading(key, '/');
        let href = concat(prefix.as_str(), path.as_str());
        Asset { href, title, description, media_type: Some(media_type), roles }
    }

    /// The asset by which an item of a collection refers to itself.
    pub fn of_item(root: &str, collection: &str, item: &str) -> (asset: Asset)
        ensures
            asset@ == item_asset(root@, collection@, item@),
    {
        let a = concat(root, "/collections/");
        let b = concat(a.as_str(), collection);
        let c = concat(b.as_str(), "/items/");
        let href = concat(c.as_str(), item);
        Asset {
            href,
            title: None,
            description: None,
            media_type: Some(GEO_JSON.to_owned()),
            roles: data_roles(),
        }
    }

    /// A copy of the asset.
    pub fn duplicate(&self) -> (copy: Asset)
        ensures
            copy@ == self@,
    {
        Asset {
            href: copy_text(&self.href),
            title: copy_optional(&self.title),
            description: copy_optional(&self.description),
            media_type: copy_optional(&self.media_type),
            roles: copy_texts(&self.roles),
        }
    }
}

} // verus!
