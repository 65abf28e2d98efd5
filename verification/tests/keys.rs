use cb_signer::types::{bytes_equal, BlsPublicKey, BlsSignature};

#[test]
fn public_key_from_slice_needs_48_bytes() {
    assert!(BlsPublicKey::from_slice(&[7u8; 48]).is_some());
    assert!(BlsPublicKey::from_slice(&[7u8; 47]).is_none());
    assert!(BlsPublicKey::from_slice(&[7u8; 49]).is_none());
    assert!(BlsPublicKey::from_slice(&[]).is_none());
}

#[test]
fn public_key_from_slice_keeps_bytes() {
    let mut bytes = [0u8; 48];
    for (i, b) in bytes.iter_mut().enumerate() {
        *b = i as u8;
    }
    let key = BlsPublicKey::from_slice(&bytes).unwrap();
    assert_eq!(key.bytes, bytes);
    assert_eq!(key.to_vec(), bytes.to_vec());
    assert_eq!(key, BlsPublicKey::new(bytes));
}

#[test]
fn signature_from_slice_needs_96_bytes() {
    assert!(BlsSignature::from_slice(&[1u8; 96]).is_some());
    assert!(BlsSignature::from_slice(&[1u8; 95]).is_none());
    assert!(BlsSignature::from_slice(&[1u8; 48]).is_none());
    let sig = BlsSignature::from_slice(&[9u8; 96]).unwrap();
    assert_eq!(sig.to_vec(), vec![9u8; 96]);
}

#[test]
fn keys_compare_by_bytes() {
    let a = BlsPublicKey::new([1u8; 48]);
    let b = BlsPublicKey::new([1u8; 48]);
    let mut other = [1u8; 48];
    other[47] = 2;
    let c = BlsPublicKey::new(other);
    assert_eq!(a, b);
    assert_ne!(a, c);
    assert!(bytes_equal(&[1, 2, 3], &[1, 2, 3]));
    assert!(!bytes_equal(&[1, 2, 3], &[1, 2]));
    assert!(!bytes_equal(&[1, 2, 3], &[1, 2, 4]));
}
