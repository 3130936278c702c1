//! Tests of the byte-level text logic: trimming, joining, the sentinel,
//! decimal thumbnail names, path normalization and the extension
//! allow-list.

use exifgeo::coord::coord_from_parts;
use exifgeo::text::is_supported_extension;
use exifgeo::text::join_and_trim;
use exifgeo::text::normalize_path;
use exifgeo::text::thumb_name;
use exifgeo::text::trim_bytes;
use exifgeo::text::unknown_label;

#[test]
fn trim_removes_surrounding_whitespace() {
    assert_eq!(trim_bytes(&b"  Canon EOS 5D \t\r\n".to_vec()), b"Canon EOS 5D".to_vec());
    assert_eq!(trim_bytes(&b"Canon".to_vec()), b"Canon".to_vec());
    assert_eq!(trim_bytes(&b"   ".to_vec()), Vec::<u8>::new());
    assert_eq!(trim_bytes(&Vec::new()), Vec::<u8>::new());
}

#[test]
fn segments_joined_then_trimmed() {
    let segs = vec![b"Canon ".to_vec(), b"EOS 5D".to_vec()];
    assert_eq!(join_and_trim(&segs), b"Canon EOS 5D".to_vec());
    let padded = vec![b"  Canon ".to_vec(), b"EOS 5D  ".to_vec()];
    assert_eq!(join_and_trim(&padded), b"Canon EOS 5D".to_vec());
    assert_eq!(join_and_trim(&Vec::new()), Vec::<u8>::new());
}

#[test]
fn unknown_sentinel_text() {
    assert_eq!(unknown_label(), b"Unknown".to_vec());
}

#[test]
fn thumbnail_names_follow_the_index() {
    assert_eq!(thumb_name(0), b"thumbs/t0.jpg".to_vec());
    assert_eq!(thumb_name(9), b"thumbs/t9.jpg".to_vec());
    assert_eq!(thumb_name(10), b"thumbs/t10.jpg".to_vec());
    assert_eq!(thumb_name(12345), b"thumbs/t12345.jpg".to_vec());
}

#[test]
fn backslashes_become_forward_slashes() {
    assert_eq!(normalize_path(&b"a\\b\\c.jpg".to_vec()), b"a/b/c.jpg".to_vec());
    assert_eq!(normalize_path(&b"a/b/c.jpg".to_vec()), b"a/b/c.jpg".to_vec());
}

#[test]
fn extension_allow_list() {
    for good in [
        "jpg", "jpeg", "png", "webp", "heic", "avif", "tif", "tiff", "dng", "raw", "arw",
        "orf", "sr2", "crw", "cr2", "cr3", "nef", "srw", "rw2",
    ] {
        assert!(is_supported_extension(&good.as_bytes().to_vec()), "{} must be accepted", good);
    }
    assert!(is_supported_extension(&b"JPG".to_vec()));
    assert!(is_supported_extension(&b"JpEg".to_vec()));
    assert!(is_supported_extension(&b"TIFF".to_vec()));
    for bad in ["", "gif", "bmp", "txt", "jpgx", "jp", "mp4"] {
        assert!(!is_supported_extension(&bad.as_bytes().to_vec()), "{} must be refused", bad);
    }
}

#[test]
fn hemisphere_reference_decides_the_sign() {
    let rats = Some(vec![(10u32, 1u32), (0, 1), (0, 1)]);
    let north = coord_from_parts(&rats, &Some(vec![b"N".to_vec()]), b'N').unwrap();
    assert!(!north.negative);
    let south = coord_from_parts(&rats, &Some(vec![b"S".to_vec()]), b'N').unwrap();
    assert!(south.negative);
    let padded = coord_from_parts(&rats, &Some(vec![b" N \0".to_vec()]), b'N');
    // the reference is joined and trimmed before the comparison; the
    // trailing NUL of a raw value is no whitespace, so this one differs
    // from "N" and flips the sign
    assert!(padded.unwrap().negative);
    let trimmed = coord_from_parts(&rats, &Some(vec![b" N ".to_vec()]), b'N').unwrap();
    assert!(!trimmed.negative);
}

#[test]
fn zero_denominator_gives_absent() {
    let r = coord_from_parts(&Some(vec![(10, 0), (0, 1), (0, 1)]), &None, b'N');
    assert!(r.is_none());
    let r = coord_from_parts(&Some(vec![(10, 1), (0, 1), (0, 0)]), &None, b'N');
    assert!(r.is_none());
}
