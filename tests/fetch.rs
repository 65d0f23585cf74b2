use pacman_bintrans::error::Error;
use pacman_bintrans::fetch::{BoundedBody, PROOF_SIZE_LIMIT};

#[test]
fn body_collects_chunks_in_order() {
    let mut b = BoundedBody::new(None);
    b.push_chunk(b"ab").unwrap();
    b.push_chunk(b"").unwrap();
    b.push_chunk(b"cd").unwrap();
    assert_eq!(b.len(), 4);
    assert_eq!(b.into_bytes(), b"abcd".to_vec());
}

#[test]
fn proof_over_limit_is_refused() {
    let mut b = BoundedBody::new(Some(PROOF_SIZE_LIMIT));
    b.push_chunk(&[1u8; 1000]).unwrap();
    assert_eq!(b.push_chunk(&[2u8; 25]), Err(Error::SizeLimitExceeded));
    assert_eq!(b.len(), 1000);
    b.push_chunk(&[3u8; 24]).unwrap();
    assert_eq!(b.len(), 1024);
    assert_eq!(b.push_chunk(&[4u8; 1]), Err(Error::SizeLimitExceeded));
    assert_eq!(b.len(), 1024);
}

#[test]
fn single_chunk_over_limit_is_refused() {
    let mut b = BoundedBody::new(Some(1024));
    assert_eq!(b.push_chunk(&[0u8; 1025]), Err(Error::SizeLimitExceeded));
    assert_eq!(b.len(), 0);
}
