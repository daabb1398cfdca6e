use udp_tracker::metainfo::{parse_bencode, MetaError};

#[test]
fn parse_minimal_metadata() {
    let data = b"d8:announce21:udp://tracker.example4:infod6:lengthi42eee";
    let meta = parse_bencode(data).expect("well-formed metadata should parse");
    assert_eq!(meta.announce, b"udp://tracker.example".to_vec());
    assert_eq!(meta.total_length, 42);
}

#[test]
fn parse_ignores_extra_keys() {
    let data = b"d8:announce3:abc7:comment2:hi4:infod6:lengthi7e4:name1:xee";
    let meta = parse_bencode(data).expect("well-formed metadata should parse");
    assert_eq!(meta.announce, b"abc".to_vec());
    assert_eq!(meta.total_length, 7);
}

#[test]
fn parse_rejects_malformed_bencode() {
    assert_eq!(parse_bencode(b"xyz"), Err(MetaError::Malformed));
    assert_eq!(parse_bencode(b""), Err(MetaError::Malformed));
    assert_eq!(parse_bencode(b"d8:announce"), Err(MetaError::Malformed));
}

#[test]
fn parse_rejects_wrong_shape() {
    // A well-formed value that is not a dictionary.
    assert_eq!(parse_bencode(b"i42e"), Err(MetaError::MissingField));
    // A dictionary without the consumed fields.
    assert_eq!(parse_bencode(b"de"), Err(MetaError::MissingField));
    assert_eq!(parse_bencode(b"d8:announce3:abce"), Err(MetaError::MissingField));
    // An announce that is not a byte string.
    assert_eq!(
        parse_bencode(b"d8:announcei1e4:infod6:lengthi7eee"),
        Err(MetaError::MissingField)
    );
    // A negative length.
    assert_eq!(
        parse_bencode(b"d8:announce3:abc4:infod6:lengthi-5eee"),
        Err(MetaError::MissingField)
    );
}
