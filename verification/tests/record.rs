use catalog_assets::record::{
    asset_url, path_in, rewrite_all, rewritten_url, Record, BRAND_KEY,
};
use serde_json::Value;

fn text(s: &str) -> Value {
    Value::String(s.to_string())
}

fn record(source: Option<&str>, filename: &str, hash: &str, brand: Option<&str>) -> Record {
    let record = Record::new(source.map(|s| s.to_string()), filename.to_string(), hash.to_string());
    match brand {
        Some(name) => record.with_extra(BRAND_KEY.to_string(), text(name)),
        None => record,
    }
}

#[test]
fn url_for_brand_with_space() {
    let mut r = record(Some("http://src/a1"), "a1.jpg", "h", Some("Ray Ban"));
    r.rewrite();
    assert_eq!(
        r.rewritten_image_url(),
        Some("https://portal.framescloud.optiserver.co.uk/images/ray_ban/a1.jpg")
    );
}

#[test]
fn url_for_brand_with_apostrophe() {
    let mut r = record(Some("http://src/b2"), "b2.jpg", "h", Some("O'Neill"));
    r.rewrite();
    assert_eq!(
        r.rewritten_image_url(),
        Some("https://portal.framescloud.optiserver.co.uk/images/oneill/b2.jpg")
    );
}

#[test]
fn url_is_the_same_on_every_call() {
    let first = rewritten_url(Some("Ray Ban"), "a1.jpg");
    let second = rewritten_url(Some("Ray Ban"), "a1.jpg");
    assert_eq!(first, second);
    assert!(first.ends_with("/ray_ban/a1.jpg"));
}

#[test]
fn url_without_brand_has_empty_segment() {
    assert_eq!(
        rewritten_url(None, "a1.jpg"),
        "https://portal.framescloud.optiserver.co.uk/images//a1.jpg"
    );
    assert_eq!(
        rewritten_url(Some(""), "a1.jpg"),
        "https://portal.framescloud.optiserver.co.uk/images//a1.jpg"
    );
}

#[test]
fn url_uses_local_filename_even_when_empty() {
    let mut r = record(Some("http://src/c3"), "", "abc123", Some("Gucci"));
    r.rewrite();
    assert_eq!(
        r.rewritten_image_url(),
        Some("https://portal.framescloud.optiserver.co.uk/images/gucci/")
    );
}

#[test]
fn record_without_source_gets_no_url() {
    let mut r = record(None, "a1.jpg", "h", Some("Ray Ban"));
    r.rewrite();
    assert_eq!(r.rewritten_image_url(), None);
}

#[test]
fn new_record_has_no_rewritten_url() {
    let r = record(Some("http://src/a1"), "a1.jpg", "h", Some("Ray Ban"));
    assert_eq!(r.rewritten_image_url(), None);
    assert_eq!(r.source_image_url(), Some("http://src/a1"));
    assert_eq!(r.local_filename(), "a1.jpg");
    assert_eq!(r.content_hash(), "h");
}

#[test]
fn rewriting_twice_changes_nothing_more() {
    let mut r = record(Some("http://src/a1"), "a1.jpg", "h", Some("Ray Ban"));
    r.rewrite();
    let once = r.rewritten_image_url().map(|s| s.to_string());
    r.rewrite();
    assert_eq!(r.rewritten_image_url().map(|s| s.to_string()), once);
}

#[test]
fn filename_falls_back_to_hash() {
    let r = record(Some("http://src/x"), "", "abc123", Some("Ray Ban"));
    assert_eq!(r.target_filename(), "abc123.jpg");
}

#[test]
fn filename_prefers_local_name() {
    let r = record(Some("http://src/x"), "a1.jpg", "abc123", Some("Ray Ban"));
    assert_eq!(r.target_filename(), "a1.jpg");
}

#[test]
fn filename_of_empty_name_and_hash() {
    let r = record(None, "", "", None);
    assert_eq!(r.target_filename(), ".jpg");
}

#[test]
fn brand_is_read_from_the_side_table() {
    let r = record(None, "", "", Some("Ray Ban"));
    assert_eq!(r.brand(), Some("Ray Ban"));
}

#[test]
fn brand_is_absent_without_the_key() {
    let r = record(None, "", "", None).with_extra("colour".to_string(), text("black"));
    assert_eq!(r.brand(), None);
}

#[test]
fn brand_is_absent_when_not_a_string() {
    let r = record(None, "", "", None).with_extra(BRAND_KEY.to_string(), Value::Bool(true));
    assert_eq!(r.brand(), None);
    let r = record(None, "", "", None).with_extra(BRAND_KEY.to_string(), Value::Null);
    assert_eq!(r.brand(), None);
    let r = record(None, "", "", None)
        .with_extra(BRAND_KEY.to_string(), Value::Array(vec![text("Ray Ban")]));
    assert_eq!(r.brand(), None);
}

#[test]
fn brand_key_is_case_sensitive() {
    let r = record(None, "", "", None).with_extra("$ibrand".to_string(), text("Ray Ban"));
    assert_eq!(r.brand(), None);
}

#[test]
fn url_for_unreadable_brand_has_empty_segment() {
    let mut r = Record::new(Some("http://src/a".to_string()), "a1.jpg".to_string(), String::new())
        .with_extra(BRAND_KEY.to_string(), Value::Bool(false));
    r.rewrite();
    assert_eq!(
        r.rewritten_image_url(),
        Some("https://portal.framescloud.optiserver.co.uk/images//a1.jpg")
    );
}

#[test]
fn with_extra_appends_new_keys_in_order() {
    let r = record(None, "", "", None)
        .with_extra("b".to_string(), text("1"))
        .with_extra("a".to_string(), text("2"))
        .with_extra("c".to_string(), Value::Null);
    let keys: Vec<&str> = r.extra_fields().iter().map(|f| f.key.as_str()).collect();
    assert_eq!(keys, vec!["b", "a", "c"]);
}

#[test]
fn with_extra_replaces_value_in_place() {
    let r = record(None, "", "", None)
        .with_extra("b".to_string(), text("1"))
        .with_extra("a".to_string(), text("2"))
        .with_extra("b".to_string(), text("3"));
    let fields = r.extra_fields();
    assert_eq!(fields.len(), 2);
    assert_eq!(fields[0].key, "b");
    assert_eq!(fields[0].value, text("3"));
    assert_eq!(fields[1].key, "a");
    assert_eq!(fields[1].value, text("2"));
}

#[test]
fn with_extra_replaces_brand() {
    let r = record(None, "", "", Some("Ray Ban")).with_extra(BRAND_KEY.to_string(), text("Oakley"));
    assert_eq!(r.brand(), Some("Oakley"));
    assert_eq!(r.extra_fields().len(), 1);
}

#[test]
fn rewrite_preserves_extra_fields() {
    let mut r = record(Some("http://src/a1"), "a1.jpg", "h", Some("Ray Ban"))
        .with_extra("price".to_string(), Value::from(129))
        .with_extra("tags".to_string(), Value::Array(vec![text("sun"), text("uv")]))
        .with_extra("note".to_string(), Value::Null);
    let before: Vec<(String, Value)> =
        r.extra_fields().iter().map(|f| (f.key.clone(), f.value.clone())).collect();
    r.rewrite();
    let after: Vec<(String, Value)> =
        r.extra_fields().iter().map(|f| (f.key.clone(), f.value.clone())).collect();
    assert_eq!(before, after);
    assert_eq!(r.source_image_url(), Some("http://src/a1"));
    assert_eq!(r.local_filename(), "a1.jpg");
    assert_eq!(r.content_hash(), "h");
}

#[test]
fn rewrite_all_keeps_length_and_order() {
    let mut records = vec![
        record(Some("http://src/1"), "1.jpg", "h1", Some("Ray Ban")),
        record(None, "2.jpg", "h2", Some("Oakley")),
        record(Some("http://src/3"), "3.jpg", "h3", None),
        record(Some("http://src/4"), "", "h4", Some("O'Neill")),
    ];
    rewrite_all(&mut records);
    assert_eq!(records.len(), 4);
    let names: Vec<&str> = records.iter().map(|r| r.content_hash()).collect();
    assert_eq!(names, vec!["h1", "h2", "h3", "h4"]);
    assert_eq!(
        records[0].rewritten_image_url(),
        Some("https://portal.framescloud.optiserver.co.uk/images/ray_ban/1.jpg")
    );
    assert_eq!(records[1].rewritten_image_url(), None);
    assert_eq!(
        records[2].rewritten_image_url(),
        Some("https://portal.framescloud.optiserver.co.uk/images//3.jpg")
    );
    assert_eq!(
        records[3].rewritten_image_url(),
        Some("https://portal.framescloud.optiserver.co.uk/images/oneill/")
    );
}

#[test]
fn rewrite_all_sets_url_exactly_where_source_is() {
    let mut records = vec![
        record(Some("http://src/1"), "1.jpg", "h1", Some("A")),
        record(None, "2.jpg", "h2", None),
        record(Some("http://src/3"), "3.jpg", "h3", None),
    ];
    rewrite_all(&mut records);
    for r in &records {
        assert_eq!(r.rewritten_image_url().is_some(), r.source_image_url().is_some());
    }
}

#[test]
fn rewrite_all_of_empty_catalog() {
    let mut records: Vec<Record> = Vec::new();
    rewrite_all(&mut records);
    assert!(records.is_empty());
}

#[test]
fn asset_url_joins_with_slashes() {
    assert_eq!(
        asset_url("ray_ban", "a1.jpg"),
        "https://portal.framescloud.optiserver.co.uk/images/ray_ban/a1.jpg"
    );
    assert_eq!(asset_url("", ""), "https://portal.framescloud.optiserver.co.uk/images//");
}

#[test]
fn asset_url_takes_the_segment_as_given() {
    assert_eq!(
        asset_url("Ray Ban", "A 1.JPG"),
        "https://portal.framescloud.optiserver.co.uk/images/Ray Ban/A 1.JPG"
    );
}

#[test]
fn path_in_joins_with_one_slash() {
    assert_eq!(path_in("ray_ban", "a1.jpg"), "ray_ban/a1.jpg");
    assert_eq!(path_in("", "a1.jpg"), "/a1.jpg");
    assert_eq!(path_in("oneill", ""), "oneill/");
}
