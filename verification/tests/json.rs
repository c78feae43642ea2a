use platform::json::{Document, Json};

#[test]
fn documents_are_read_as_written() {
    let text = r#"{"a":[1,-2.5,"x\n",true,null],"b":{}}"#;
    let read = Json::parse(text).unwrap();
    let items = read.get("a").unwrap().as_array().unwrap();
    assert!(matches!(&items[0], Json::Number(n) if n == "1"));
    assert!(matches!(&items[1], Json::Number(n) if n == "-2.5"));
    assert_eq!(items[2].as_str().unwrap(), "x\n");
    assert_eq!(items[3].as_bool(), Some(true));
    assert!(items[4].as_bool().is_none());
    assert!(read.get("b").unwrap().as_object().unwrap().is_empty());
    assert!(read.get("c").is_none());
}

#[test]
fn what_is_no_document_is_not_read() {
    assert!(Json::parse("{").is_none());
    assert!(Json::parse("").is_none());
    assert!(Json::parse("[1,]").is_none());
    assert!(Json::parse("1 2").is_none());
}

#[test]
fn a_document_tells_its_id() {
    let id = |text: &str| {
        let value: serde_json::Value = serde_json::from_str(text).unwrap();
        Document::decode(&value).id
    };
    assert_eq!(id(r#"{"id":12345}"#).unwrap(), "12345");
    assert_eq!(id(r#"{"id":-1}"#).unwrap(), "-1");
    assert_eq!(id(r#"{"id":"x\"y"}"#).unwrap(), r#""x\"y""#);
    assert_eq!(id(r#"{"id":[1, true, null]}"#).unwrap(), "[1,true,null]");
    assert!(id(r#"{"ID":1}"#).is_none());
    assert!(id("[1]").is_none());
}
