use oqs::kem::PublicKey;

#[test]
fn test_get_reference() {
    let bytes = vec![1u8, 2, 3];
    let buf = PublicKey::from_vec(bytes.clone());
    assert_eq!(bytes.as_slice(), buf.as_bytes());
}

#[test]
fn test_len() {
    let bytes = vec![1u8, 2, 3];
    let buf = PublicKey::from_vec(bytes.clone());
    assert_eq!(buf.len(), bytes.len());
}

#[test]
fn test_into_vec() {
    let buf = PublicKey::from_vec(vec![1u8, 2, 3]);
    assert_eq!(buf.into_vec(), vec![1u8, 2, 3]);
}

#[test]
fn test_to_owned() {
    let bytes = vec![1u8, 2, 3];
    let buf = PublicKey::from_vec(bytes.clone());
    let refbuf = buf.as_borrowed();
    assert_eq!(refbuf.to_owned(), buf);
}

#[test]
fn test_is_empty() {
    let buf = PublicKey::from_vec(vec![]);
    assert!(buf.is_empty());
    let buf = PublicKey::from_vec(vec![7u8]);
    assert!(!buf.is_empty());
    assert!(!buf.as_borrowed().is_empty());
}

#[test]
fn test_eq_by_content() {
    let a = PublicKey::from_vec(vec![1u8, 2, 3]);
    let b = PublicKey::from_vec(vec![1u8, 2, 3]);
    let c = PublicKey::from_vec(vec![1u8, 2, 4]);
    assert_eq!(a, b);
    assert!(a != c);
}
