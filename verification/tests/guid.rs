use enseada::guid::Guid;

#[test]
fn it_converts_from_string_with_partition() {
    let s = String::from("part:id:id");
    let guid = Guid::from(s.as_str());
    assert_eq!(guid.partition(), Some(String::from("part")));
    assert_eq!(guid.id(), &String::from("id:id"));
}

#[test]
fn it_converts_from_string_without_partition() {
    let s = String::from("no-partition");
    let guid = Guid::from(s.as_str());
    assert_eq!(guid.partition(), None);
    assert_eq!(guid.id(), &s);
}

#[test]
fn it_converts_from_string_and_to_string() {
    let s = String::from("part:id");
    let guid = Guid::from(s.as_str());
    assert_eq!(guid.to_string(), s);
}

#[test]
fn it_serializes() {
    let s = String::from("part:id");
    let guid = Guid::from(s.as_str());
    let json = serde_json::to_string(&guid.to_string()).unwrap();
    assert_eq!(json, format!("\"{}\"", &s));
}

#[test]
fn it_deserializes() {
    let s = String::from("part:id");
    let text: String = serde_json::from_str("\"part:id\"").unwrap();
    let guid = Guid::from(text);

    assert_eq!(guid.partition(), Some(String::from("part")));
    assert_eq!(guid.id(), &String::from("id"));
    assert_eq!(guid.to_string(), s);
}

#[test]
fn guid_simple_has_no_partition() {
    let guid = Guid::simple("abc");
    assert_eq!(guid.partition(), None);
    assert_eq!(guid.id(), "abc");
    assert_eq!(guid.to_string(), "abc");
}

#[test]
fn guid_partitioned_writes_partition_first() {
    let guid = Guid::partitioned("user", "bob");
    assert_eq!(guid.partition(), Some(String::from("user")));
    assert_eq!(guid.to_string(), "user:bob");
}

#[test]
fn guid_text_reads_back_as_the_same_text() {
    for s in ["a:b", "a:b:c", "plain", ":lead", "trail:", ""] {
        assert_eq!(Guid::parse(s).to_string(), s);
    }
}

#[test]
fn guid_canonical_guid_reads_back_as_itself() {
    let g = Guid::partitioned("repo", "x:y");
    let back = Guid::parse(&g.to_string());
    assert_eq!(back.partition(), Some(String::from("repo")));
    assert_eq!(back.id(), "x:y");
}

#[test]
fn guid_from_owned_string() {
    let g = Guid::from(String::from("upload:123"));
    assert_eq!(g.partition(), Some(String::from("upload")));
    assert_eq!(g.id(), "123");
}

#[test]
fn guid_clone_keeps_parts() {
    let g = Guid::partitioned("a", "b");
    let c = g.clone();
    assert_eq!(c.to_string(), "a:b");
}
