use lib_config::{Config, Error};

fn server_object() -> serde_json::Value {
    let mut m = serde_json::Map::new();
    m.insert("port".to_string(), serde_json::Value::from(8080));
    m.insert(
        "host".to_string(),
        serde_json::Value::String("local".to_string()),
    );
    serde_json::Value::Object(m)
}

#[test]
fn scenario_empty_store() {
    let mut conf = Config::from_text("").unwrap();
    conf.write_value("count", 1).unwrap();
    let text = conf.render().unwrap();

    let reopened = Config::from_text(&text).unwrap();
    let count: i32 = reopened.read_value("count").unwrap();
    assert_eq!(count, 1);
}

#[test]
fn scenario_write_and_read_back() {
    let mut conf = Config::from_text("").unwrap();
    conf.write_value("val0", 100).unwrap();
    let val0: i32 = conf.read_value("val0").unwrap();
    assert_eq!(val0, 100);
    assert!(conf.render().is_ok());
}

#[test]
fn scenario_nested_section() {
    let mut conf = Config::from_text("").unwrap();
    conf.write_value("server", server_object()).unwrap();
    let text = conf.render().unwrap();

    let reopened = Config::from_text(&text).unwrap();
    let sect = reopened.get_section("server").unwrap();
    let port: i32 = sect.read_value("port").unwrap();
    let host: String = sect.read_value("host").unwrap();
    assert_eq!(port, 8080);
    assert_eq!(host, String::from("local"));
}

#[test]
fn round_trip_many_keys() {
    let mut conf = Config::from_text("").unwrap();
    conf.write_value("a", 7).unwrap();
    conf.write_value("b", String::from("seven")).unwrap();
    conf.write_value("c", true).unwrap();
    conf.write_value("d", vec![1, 2, 3]).unwrap();
    let text = conf.render().unwrap();

    let reopened = Config::from_text(&text).unwrap();
    let a: i64 = reopened.read_value("a").unwrap();
    let b: String = reopened.read_value("b").unwrap();
    let c: bool = reopened.read_value("c").unwrap();
    let d: Vec<i32> = reopened.read_value("d").unwrap();
    assert_eq!(a, 7);
    assert_eq!(b, "seven");
    assert!(c);
    assert_eq!(d, vec![1, 2, 3]);
}

#[test]
fn insert_then_overwrite_keeps_position() {
    let mut conf = Config::from_text("").unwrap();
    conf.write_value("first", 1).unwrap();
    conf.write_value("second", 2).unwrap();
    let one: i32 = conf.read_value("first").unwrap();
    assert_eq!(one, 1);

    conf.write_value("first", 11).unwrap();
    let eleven: i32 = conf.read_value("first").unwrap();
    assert_eq!(eleven, 11);
    let two: i32 = conf.read_value("second").unwrap();
    assert_eq!(two, 2);

    let text = conf.render().unwrap();
    let p_first = text.find("\"first\"").unwrap();
    let p_second = text.find("\"second\"").unwrap();
    assert!(p_first < p_second);
}

#[test]
fn missing_key_errors() {
    let mut conf = Config::from_text("").unwrap();
    conf.write_value("present", 5).unwrap();

    match conf.read_value::<i32>("absent") {
        Err(Error::Config(msg)) => assert_eq!(msg, "Key not found"),
        _ => panic!("expected the key-not-found error"),
    }
    match conf.update_value("absent", |v: &i32| v + 1) {
        Err(Error::Config(msg)) => assert_eq!(msg, "Key not found"),
        _ => panic!("expected the key-not-found error"),
    }
    match conf.get_section("absent") {
        Err(Error::Config(msg)) => assert_eq!(msg, "Key not found"),
        _ => panic!("expected the key-not-found error"),
    }
    match conf.get_section_mut("absent") {
        Err(Error::Config(msg)) => assert_eq!(msg, "Key not found"),
        _ => panic!("expected the key-not-found error"),
    }
    match conf.get_section("present") {
        Err(Error::Config(msg)) => assert_eq!(msg, "Key's Value is not a json object"),
        _ => panic!("expected the not-an-object error"),
    }
    match conf.get_section_mut("present") {
        Err(Error::Config(msg)) => assert_eq!(msg, "Key's Value is not a json object"),
        _ => panic!("expected the not-an-object error"),
    }
}

#[test]
fn read_or_insert_is_get_or_initialize() {
    let mut conf = Config::from_text("").unwrap();
    let first: i32 = conf.read_or_insert("threshold", 5).unwrap();
    assert_eq!(first, 5);
    let second: i32 = conf.read_or_insert("threshold", 9).unwrap();
    assert_eq!(second, 5);
    let stored: i32 = conf.read_value("threshold").unwrap();
    assert_eq!(stored, 5);
}

#[test]
fn update_value_with_distinct_types() {
    let mut conf = Config::from_text("").unwrap();
    conf.write_value("counter", 10).unwrap();
    let out: String = conf
        .update_value("counter", |v: &i32| format!("{}", v + 1))
        .unwrap();
    assert_eq!(out, "11");
    let stored: String = conf.read_value("counter").unwrap();
    assert_eq!(stored, "11");
}

#[test]
fn update_value_type_mismatch_leaves_value() {
    let mut conf = Config::from_text("").unwrap();
    conf.write_value("name", String::from("x")).unwrap();
    match conf.update_value("name", |v: &i32| v + 1) {
        Err(Error::Json(_)) => {}
        _ => panic!("expected a codec error"),
    }
    let still: String = conf.read_value("name").unwrap();
    assert_eq!(still, "x");
}

#[test]
fn section_mutation_is_visible_through_root() {
    let mut conf = Config::from_text("").unwrap();
    conf.write_value("server", server_object()).unwrap();

    {
        let sect = conf.get_section_mut("server").unwrap();
        sect.write_value("port", 1234).unwrap();
    }

    let sect = conf.get_section("server").unwrap();
    let port: i32 = sect.read_value("port").unwrap();
    assert_eq!(port, 1234);
}

#[test]
fn clone_data_is_independent() {
    let mut conf = Config::from_text("").unwrap();
    conf.write_value("k", 1).unwrap();
    let snapshot = conf.clone_data();
    conf.write_value("k", 2).unwrap();

    let mut other = Config::from_text("").unwrap();
    other.copy_from(snapshot);
    let frozen: i32 = other.read_value("k").unwrap();
    assert_eq!(frozen, 1);
    let live: i32 = conf.read_value("k").unwrap();
    assert_eq!(live, 2);
}

#[test]
fn copy_from_replaces_section_contents() {
    let mut conf = Config::from_text("").unwrap();
    conf.write_value("server", server_object()).unwrap();
    conf.write_value("other", 3).unwrap();

    let mut donor = Config::from_text("").unwrap();
    donor.write_value("tls", true).unwrap();
    let donated = donor.clone_data();

    let sect = conf.get_section_mut("server").unwrap();
    sect.copy_from(donated);

    let sect = conf.get_section("server").unwrap();
    let tls: bool = sect.read_value("tls").unwrap();
    assert!(tls);
    match sect.read_value::<i32>("port") {
        Err(Error::Config(msg)) => assert_eq!(msg, "Key not found"),
        _ => panic!("old keys must be gone"),
    }
    let untouched: i32 = conf.read_value("other").unwrap();
    assert_eq!(untouched, 3);
}

#[test]
fn from_text_rejects_bad_documents() {
    match Config::from_text("this is not json") {
        Err(Error::Json(_)) => {}
        _ => panic!("expected a parse error"),
    }
    match Config::from_text("[1, 2, 3]") {
        Err(Error::Json(_)) => {}
        _ => panic!("expected a parse error: the root is not an object"),
    }
    let empty = Config::from_text("").unwrap();
    match empty.read_value::<i32>("anything") {
        Err(Error::Config(msg)) => assert_eq!(msg, "Key not found"),
        _ => panic!("an empty document has no keys"),
    }
}

#[test]
fn write_value_serialize_failure_leaves_document() {
    let mut conf = Config::from_text("").unwrap();
    conf.write_value("ok", 1).unwrap();

    let mut bad = std::collections::BTreeMap::new();
    bad.insert((1, 2), 3);
    match conf.write_value("bad", bad) {
        Err(Error::Json(_)) => {}
        _ => panic!("a map with non-string keys cannot serialize"),
    }
    match conf.read_value::<i32>("bad") {
        Err(Error::Config(msg)) => assert_eq!(msg, "Key not found"),
        _ => panic!("the failed write must not insert"),
    }
    let ok: i32 = conf.read_value("ok").unwrap();
    assert_eq!(ok, 1);
}

#[test]
fn nested_sections_descend() {
    let mut inner = serde_json::Map::new();
    inner.insert("deep".to_string(), serde_json::Value::from(42));
    let mut outer = serde_json::Map::new();
    outer.insert("inner".to_string(), serde_json::Value::Object(inner));

    let mut conf = Config::from_text("").unwrap();
    conf.write_value("outer", serde_json::Value::Object(outer))
        .unwrap();

    let outer_sect = conf.get_section("outer").unwrap();
    let inner_sect = outer_sect.get_section("inner").unwrap();
    let deep: i32 = inner_sect.read_value("deep").unwrap();
    assert_eq!(deep, 42);

    let outer_mut = conf.get_section_mut("outer").unwrap();
    let inner_mut = outer_mut.get_section_mut("inner").unwrap();
    inner_mut.write_value("deep", 43).unwrap();

    let again: i32 = conf
        .get_section("outer")
        .unwrap()
        .get_section("inner")
        .unwrap()
        .read_value("deep")
        .unwrap();
    assert_eq!(again, 43);
}

#[test]
fn error_from_message() {
    let e = Error::from("boom");
    match e {
        Error::Config(msg) => assert_eq!(msg, "boom"),
        _ => panic!("a message converts to the logical error"),
    }
}

#[test]
fn sections_survive_render_and_reload() {
    let text = {
        let mut conf = Config::from_text("").unwrap();
        let mut sect0 = serde_json::Map::new();
        sect0.insert("val0".to_string(), serde_json::Value::from(10));
        sect0.insert(
            "val1".to_string(),
            serde_json::Value::String("foo".to_string()),
        );
        conf.write_value("sect0", serde_json::Value::Object(sect0))
            .unwrap();
        conf.render().unwrap()
    };

    let conf = Config::from_text(&text).unwrap();
    let sect0 = conf.get_section("sect0").unwrap();
    let val0: i32 = sect0.read_value("val0").unwrap();
    let val1: String = sect0.read_value("val1").unwrap();
    assert_eq!(val0, 10);
    assert_eq!(val1, String::from("foo"));
}

#[test]
fn render_succeeds_and_is_repeatable() {
    let mut conf = Config::from_text("").unwrap();
    conf.write_value("a", 1).unwrap();
    conf.write_value("b", String::from("two")).unwrap();
    let t1 = conf.render().unwrap();
    let t2 = conf.render().unwrap();
    assert_eq!(t1, t2);

    let reopened = Config::from_text(&t1).unwrap();
    let t3 = reopened.render().unwrap();
    assert_eq!(t1, t3);
}

#[test]
fn update_value_result_comes_from_updater() {
    let mut conf = Config::from_text("").unwrap();
    conf.write_value("counter", 41).unwrap();
    let out: i32 = conf.update_value("counter", |v: &i32| v + 1).unwrap();
    assert_eq!(out, 42);
    let stored: i32 = conf.read_value("counter").unwrap();
    assert_eq!(stored, 42);
}
