use openstack::query::Query;
use openstack::query::escape;
use openstack::query::format_usize;
use openstack::sort::Sort;
use openstack::sort::sort_from_pair;

#[test]
fn test_format_usize() {
    assert_eq!(format_usize(0).as_str(), "0");
    assert_eq!(format_usize(7).as_str(), "7");
    assert_eq!(format_usize(42).as_str(), "42");
    assert_eq!(format_usize(1000).as_str(), "1000");
    assert_eq!(format_usize(987654321).as_str(), "987654321");
}

#[test]
fn test_escape_unreserved_passes() {
    assert_eq!(escape("AZaz09-_.~").as_str(), "AZaz09-_.~");
}

#[test]
fn test_escape_reserved_ascii() {
    assert_eq!(escape("a b").as_str(), "a%20b");
    assert_eq!(escape("k&v=x").as_str(), "k%26v%3dx");
    assert_eq!(escape("/servers?").as_str(), "%2fservers%3f");
}

#[test]
fn test_escape_non_ascii_passes_through() {
    // Escaping is defined on ASCII; other characters are carried through.
    assert_eq!(escape("caf\u{e9}").as_str(), "caf\u{e9}");
}

#[test]
fn test_query_encode_empty() {
    let q = Query::new();
    assert_eq!(q.len(), 0);
    assert_eq!(q.encode().as_str(), "");
}

#[test]
fn test_query_encode_order_and_duplicates() {
    let mut q = Query::new();
    q.push("sort_key", "name");
    q.push("sort_dir", "asc");
    q.push("sort_key", "created");
    q.push("sort_dir", "desc");
    assert_eq!(q.len(), 4);
    assert_eq!(
        q.encode().as_str(),
        "sort_key=name&sort_dir=asc&sort_key=created&sort_dir=desc"
    );
}

#[test]
fn test_query_encode_escapes_both_sides() {
    let mut q = Query::new();
    q.push("a b", "c&d");
    assert_eq!(q.encode().as_str(), "a%20b=c%26d");
}

#[test]
fn test_sort_to_pair() {
    let (field, dir) = Sort::Asc(String::from("name")).to_pair();
    assert_eq!(field.as_str(), "name");
    assert_eq!(dir.as_str(), "asc");
    let (field, dir) = Sort::Desc(String::from("created")).to_pair();
    assert_eq!(field.as_str(), "created");
    assert_eq!(dir.as_str(), "desc");
}

#[test]
fn test_sort_round_trip() {
    let (field, dir) = Sort::Asc(String::from("name")).to_pair();
    match sort_from_pair(field.as_str(), dir.as_str()) {
        Some(Sort::Asc(f)) => assert_eq!(f.as_str(), "name"),
        _ => panic!("round trip must preserve an ascending sort"),
    }
    let (field, dir) = Sort::Desc(String::from("created")).to_pair();
    match sort_from_pair(field.as_str(), dir.as_str()) {
        Some(Sort::Desc(f)) => assert_eq!(f.as_str(), "created"),
        _ => panic!("round trip must preserve a descending sort"),
    }
}

#[test]
fn test_sort_from_pair_unknown_direction() {
    assert!(sort_from_pair("name", "sideways").is_none());
    assert!(sort_from_pair("name", "").is_none());
}
