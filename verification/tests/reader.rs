use scry_protocol::database_event::{read_root, ReadError};

#[test]
fn short_buffers_have_no_root() {
    assert!(matches!(read_root(&[]), Err(ReadError::Root(_))));
    assert!(matches!(read_root(&[1, 1]), Err(ReadError::Root(_))));
}

#[test]
fn invalid_root_width_is_refused() {
    assert!(read_root(&[0, 4, 3]).is_err());
    assert!(read_root(&[0, 1, 2, 3, 4]).is_err());
}

#[test]
fn built_buffer_has_a_root() {
    let mut builder = flexbuffers::Builder::default();
    builder.build_singleton(5u8);
    assert!(read_root(builder.view()).is_ok());
    let mut builder = flexbuffers::Builder::default();
    let mut map = builder.start_map();
    map.push("batch_seq", 42u64);
    map.end_map();
    assert!(read_root(builder.view()).is_ok());
}

// The root is found exactly when the packed type names a FlexBuffers type,
// the root fits before the two trailing bytes, and an offset stays inside
// the buffer.
#[test]
fn root_checks_follow_type_and_offset() {
    // Null, stored inline.
    assert!(read_root(&[0, 0, 1]).is_ok());
    // String (code 5), stored by an offset of 0 or 1 from address 0.
    assert!(read_root(&[0, 5 * 4, 1]).is_ok());
    assert!(read_root(&[1, 5 * 4, 1]).is_err());
    // Codes 27 to 35 name no type; 36 is a vector of booleans.
    assert!(read_root(&[0, 27 * 4, 1]).is_err());
    assert!(read_root(&[0, 36 * 4, 1]).is_ok());
    // A root width of 3 is not one.
    assert!(read_root(&[0, 0, 3]).is_err());
    // Two-byte root: offset 1 from address 1 stays in the buffer, 2 does not.
    assert!(read_root(&[9, 1, 0, 5 * 4, 2]).is_ok());
    assert!(read_root(&[9, 2, 0, 5 * 4, 2]).is_err());
    // A root wider than the buffer allows.
    assert!(read_root(&[0, 0, 8]).is_err());
}
