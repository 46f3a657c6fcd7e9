use pan_transfer::hasher::{fingerprint_bytes, ContentHasher};

#[test]
fn empty_input_has_empty_fingerprint() {
    let (fp, len) = fingerprint_bytes(&[]);
    assert_eq!(fp, "d41d8cd98f00b204e9800998ecf8427e");
    assert_eq!(len, 0);
}

#[test]
fn known_fingerprint() {
    let (fp, len) = fingerprint_bytes(b"hello world");
    assert_eq!(fp, "5eb63bbbe01eeed093cb22bb8f5acdc3");
    assert_eq!(len, 11);
}

#[test]
fn hashing_twice_is_deterministic() {
    let data = vec![7u8; 10000];
    let (fp1, len1) = fingerprint_bytes(&data);
    let (fp2, len2) = fingerprint_bytes(&data);
    assert_eq!(fp1, fp2);
    assert_eq!(len1, len2);
    assert_eq!(len1, 10000);
}

#[test]
fn incremental_hashing_matches_one_shot() {
    let data: Vec<u8> = (0u8..=255).cycle().take(20000).collect();
    let mut hasher = ContentHasher::new();
    for piece in data.chunks(8192) {
        hasher.update(piece);
    }
    let (fp_incremental, len_incremental) = hasher.finish();
    let (fp_oneshot, len_oneshot) = fingerprint_bytes(&data);
    assert_eq!(fp_incremental, fp_oneshot);
    assert_eq!(len_incremental, len_oneshot);
    assert_eq!(len_incremental, 20000);
}

#[test]
fn fingerprint_is_lowercase_hex_of_digest() {
    let (fp, _) = fingerprint_bytes(b"abc");
    assert_eq!(fp, "900150983cd24fb0d6963f7d28e17f72");
    assert_eq!(fp.len(), 32);
    assert!(fp.chars().all(|c| c.is_ascii_hexdigit() && !c.is_ascii_uppercase()));
}
