use uds_engine::addr::{decode, encode, AddressError, RawAddress, FAMILY_LOCAL, PATH_CAPACITY};

#[test]
fn encode_decode_roundtrip_short_path() {
    let path: Vec<u8> = b"/tmp/a.sock".to_vec();
    let raw = encode(&path).unwrap();
    assert_eq!(raw.family, FAMILY_LOCAL);
    assert_eq!(raw.path.len(), PATH_CAPACITY);
    assert_eq!(decode(&raw), path);
}

#[test]
fn encode_pads_with_nuls() {
    let path: Vec<u8> = b"/run/sock".to_vec();
    let raw = encode(&path).unwrap();
    assert_eq!(&raw.path[..path.len()], &path[..]);
    for i in path.len()..PATH_CAPACITY {
        assert_eq!(raw.path[i], 0);
    }
}

#[test]
fn encode_rejects_path_at_capacity() {
    let path: Vec<u8> = vec![b'x'; PATH_CAPACITY];
    assert_eq!(encode(&path), Err(AddressError::PathTooLong));
    let longer: Vec<u8> = vec![b'x'; PATH_CAPACITY + 50];
    assert_eq!(encode(&longer), Err(AddressError::PathTooLong));
}

#[test]
fn encode_accepts_longest_path() {
    let path: Vec<u8> = vec![b'y'; PATH_CAPACITY - 1];
    let raw = encode(&path).unwrap();
    assert_eq!(decode(&raw), path);
}

#[test]
fn encode_empty_path_roundtrips() {
    let path: Vec<u8> = Vec::new();
    let raw = encode(&path).unwrap();
    assert_eq!(decode(&raw), path);
}

#[test]
fn decode_unbound_address_is_empty() {
    let raw = RawAddress { family: FAMILY_LOCAL, path: vec![0; PATH_CAPACITY] };
    assert_eq!(decode(&raw), Vec::<u8>::new());
}

#[test]
fn decode_stops_at_first_nul() {
    let mut path: Vec<u8> = b"ab".to_vec();
    path.push(0);
    path.extend_from_slice(b"cd");
    path.resize(PATH_CAPACITY, 0);
    let raw = RawAddress { family: FAMILY_LOCAL, path };
    assert_eq!(decode(&raw), b"ab".to_vec());
}
