use ogcapi_poc::asset::{media_type_of, Asset, AssetMap};
use ogcapi_poc::dictionary::{Dictionary, Entry};
use ogcapi_poc::document::{Document, PropertyValue};

fn asset(href: &str) -> Asset {
    Asset::new(href.to_string())
}

#[test]
fn new_assets_hold_only_their_address() {
    assert_eq!(
        asset("h"),
        Asset { href: "h".to_string(), title: None, description: None, media_type: None, roles: vec![] }
    );
}

#[test]
fn stored_assets_take_their_type_from_the_extension() {
    let a = Asset::stored("https://base", "c/dir/file.csv");
    assert_eq!(a.href, "https://base/c/dir/file.csv");
    assert_eq!(a.media_type, Some("text/csv".to_string()));
    assert_eq!(a.roles, vec!["data".to_string()]);
    assert_eq!(a.title, None);
    assert_eq!(a.description, None);
    assert_eq!(Asset::stored("b", "json").media_type, Some("application/json".to_string()));
    assert_eq!(Asset::stored("b", "a.JSON").media_type, None);
}

#[test]
fn item_assets_point_at_the_item() {
    let a = Asset::of_item("https://root", "col", "7");
    assert_eq!(a.href, "https://root/collections/col/items/7");
    assert_eq!(a.media_type, Some("application/geo+json".to_string()));
    assert_eq!(a.roles, vec!["data".to_string()]);
}

#[test]
fn media_types_follow_the_table() {
    assert_eq!(media_type_of("json"), Some("application/json".to_string()));
    assert_eq!(media_type_of("csv"), Some("text/csv".to_string()));
    assert_eq!(media_type_of("h5"), Some("application/x-hdf5".to_string()));
    assert_eq!(media_type_of("nc"), Some("application/netcdf".to_string()));
    assert_eq!(media_type_of("tiff"), Some("image/tiff".to_string()));
    assert_eq!(media_type_of("cap"), Some("text/xml".to_string()));
    assert_eq!(media_type_of("zip"), Some("application/zip".to_string()));
    assert_eq!(media_type_of("grib2"), Some("application/wmo-grib2".to_string()));
    assert_eq!(media_type_of("txt"), None);
    assert_eq!(media_type_of(""), None);
}

#[test]
fn duplicate_copies_every_field() {
    let mut a = Asset::stored("b", "x.nc");
    a.title = Some("t".to_string());
    a.description = Some("d".to_string());
    assert_eq!(a.duplicate(), a);
}

#[test]
fn asset_collision_leaves_the_second() {
    let mut assets: AssetMap = Dictionary::new();
    assets.insert("other".to_string(), asset("o"));
    assets.insert("a.csv".to_string(), asset("first"));
    assets.insert("later".to_string(), asset("l"));
    assets.insert("a.csv".to_string(), asset("second"));
    assert_eq!(assets.len(), 3);
    assert_eq!(assets.get("a.csv"), Some(&asset("second")));
    assert_eq!(assets.find("a.csv"), Some(1));
    assert_eq!(assets.entry(1), &Entry { name: "a.csv".to_string(), value: asset("second") });
    let mut count = 0;
    for at in 0..assets.len() {
        if assets.entry(at).name == "a.csv" {
            count += 1;
        }
    }
    assert_eq!(count, 1);
    assert_eq!(assets.get("other"), Some(&asset("o")));
    assert_eq!(assets.get("missing"), None);
}

#[test]
fn removal_keeps_the_order_of_the_rest() {
    let mut d: Dictionary<PropertyValue> = Dictionary::from_entries(vec![
        Entry { name: "a".to_string(), value: PropertyValue::Text("1".to_string()) },
        Entry { name: "b".to_string(), value: PropertyValue::Json("2".to_string()) },
        Entry { name: "a".to_string(), value: PropertyValue::Text("3".to_string()) },
        Entry { name: "c".to_string(), value: PropertyValue::Json("4".to_string()) },
    ]);
    assert_eq!(d.len(), 3);
    assert_eq!(d.entry(0).value, PropertyValue::Text("3".to_string()));
    d.remove("a");
    assert_eq!(d.len(), 2);
    assert_eq!(d.entry(0).name, "b");
    assert_eq!(d.entry(1).name, "c");
    d.remove("missing");
    assert_eq!(d.len(), 2);
}

#[test]
fn registration_sets_datetime_and_asset() {
    let mut document = Document::new();
    assert_eq!(document.properties.len(), 0);
    assert_eq!(document.assets.len(), 0);
    document.register("a.h5".to_string(), asset("x"), "2022-06-23T00:00:00Z".to_string());
    assert_eq!(
        document.properties.get("datetime"),
        Some(&PropertyValue::Text("2022-06-23T00:00:00Z".to_string()))
    );
    assert_eq!(document.assets.get("a.h5"), Some(&asset("x")));
    let mut again = Document::new();
    again.register("a.h5".to_string(), asset("x"), "2022-06-23T00:00:00Z".to_string());
    again.register("a.h5".to_string(), asset("x"), "2022-06-23T00:00:00Z".to_string());
    assert_eq!(again, document);
    document.stamp("2023-01-01T00:00:00Z".to_string());
    assert_eq!(document.properties.len(), 1);
    assert_eq!(
        document.properties.get("datetime"),
        Some(&PropertyValue::Text("2023-01-01T00:00:00Z".to_string()))
    );
    document.attach("b.h5".to_string(), asset("y"));
    assert_eq!(document.assets.len(), 2);
}
