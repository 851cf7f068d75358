use clickr::request::{credential_headers, insert_query, join, table_query};
use clickr::target::Target;
use clickr::time::{Duration, Instant};
use clickr::Error;

fn texts(parts: &[&str]) -> Vec<String> {
    parts.iter().map(|p| String::from(*p)).collect()
}

#[test]
fn parts_are_joined_with_the_separator_between_them() {
    assert_eq!(join(&texts(&[]), ","), "");
    assert_eq!(join(&texts(&["a"]), ","), "a");
    assert_eq!(join(&texts(&["a", "b", "c"]), ","), "a,b,c");
    assert_eq!(join(&texts(&["", ""]), ", "), ", ");
}

#[test]
fn statements_name_the_table_and_its_columns() {
    assert_eq!(
        insert_query("events", &texts(&["at", "name"])),
        "INSERT INTO events(at,name) FORMAT JSONEachRow"
    );
    assert_eq!(insert_query("t", &texts(&[])), "INSERT INTO t() FORMAT JSONEachRow");
    assert_eq!(table_query("Motor_Status_1"), "INSERT INTO Motor_Status_1 FORMAT JSONEachRow");
}

#[test]
fn credentials_travel_in_headers() {
    assert!(credential_headers(&None, &None).is_empty());
    assert_eq!(
        credential_headers(&Some(String::from("u")), &None),
        vec![(String::from("X-ClickHouse-User"), String::from("u"))]
    );
    assert_eq!(
        credential_headers(&Some(String::from("u")), &Some(String::from("k"))),
        vec![
            (String::from("X-ClickHouse-User"), String::from("u")),
            (String::from("X-ClickHouse-Key"), String::from("k")),
        ]
    );
}

#[test]
fn a_url_is_parsed_into_its_serialisation() {
    let target = Target::parse("HTTP://Example.COM:80/a/../b").expect("an absolute URL");
    assert_eq!(target.into_string(), "http://example.com/b");
}

#[test]
fn what_is_no_absolute_url_is_an_invalid_parameter() {
    for (input, reason) in [
        ("", "relative URL without a base"),
        ("localhost", "relative URL without a base"),
        ("http://", "empty host"),
        ("http://host:99999/", "invalid port number"),
    ] {
        match Target::parse(input) {
            Err(e) => assert_eq!(e, Error::InvalidParams(String::from(reason))),
            Ok(target) => panic!("parsed as {}", target.into_string()),
        }
    }
}

#[test]
fn pairs_are_added_escaped_and_in_order() {
    let target = Target::parse("http://h:1").expect("an absolute URL");
    let target = target.pair("a b", "1&2=3").expect("room for a pair");
    let target = target.pair("q", "\u{e9}*-._~").expect("room for a pair");
    assert_eq!(target.into_string(), "http://h:1/?a+b=1%262%3D3&q=%C3%A9*-._%7E");
}

#[test]
fn clearing_leaves_an_empty_query() {
    let target = Target::parse("http://h:1/p?x=1&y=2").expect("an absolute URL");
    let target = target.clear().expect("room for a query");
    let cleared = target.into_string();
    assert_eq!(cleared, "http://h:1/p?");
    let target = Target::parse("http://h:1/p#f").expect("an absolute URL");
    let target = target.clear().expect("room for a query");
    let target = target.pair("k", "v").expect("room for a pair");
    assert_eq!(target.into_string(), "http://h:1/p?k=v#f");
}

#[test]
fn spans_are_counted_in_nanoseconds() {
    assert_eq!(Duration::new(2, 5).as_nanos(), 2_000_000_005);
    assert_eq!(Duration::new(1, 4_000_000_000).as_nanos(), 5_000_000_000);
    assert_eq!(Duration::from_secs(10).as_nanos(), 10_000_000_000);
    assert_eq!(Duration::from_millis(1_500).as_nanos(), 1_500_000_000);
    assert_eq!(Duration::from_nanos(42).as_nanos(), 42);
    assert_eq!(Duration::from_secs(3), Duration::from_millis(3_000));
    assert_eq!(
        Duration::new(u64::MAX, u32::MAX).as_nanos(),
        18_446_744_073_709_551_615_000_000_000 + 4_294_967_295
    );
    assert_eq!(Duration::from_secs(u64::MAX).as_nanos(), 18_446_744_073_709_551_615_000_000_000);
}

#[test]
fn instants_are_counted_from_the_origin() {
    assert_eq!(Instant::from_nanos(0).as_nanos(), 0);
    assert_eq!(Instant::from_nanos(u128::MAX).as_nanos(), u128::MAX);
    assert_eq!(Instant::from_nanos(7), Instant::from_nanos(7));
    assert_ne!(Instant::from_nanos(7), Instant::from_nanos(8));
}
