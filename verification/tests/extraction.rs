//! Field-level tests: coordinates, text fields, timestamps and thumbnail
//! ranges derived from hand-built TIFF metadata blocks.

use exifgeo::coord::coord_from_parts;
use exifgeo::extract::get_datetime;
use exifgeo::extract::get_latitude;
use exifgeo::extract::get_longitude;
use exifgeo::extract::get_make;
use exifgeo::extract::get_model;
use exifgeo::extract::get_thumbnail;
use exifgeo::extract::extract_range;
use exifgeo::pipeline::build_records;
use exifgeo::pipeline::process_image;
use exifgeo::pipeline::PhotoRecord;
use exifgeo::pipeline::SourceImage;

#[derive(Clone)]
pub struct RawEntry {
    pub tag: u16,
    pub typ: u16,
    pub count: u32,
    pub data: Vec<u8>,
}

pub fn ascii_entry(tag: u16, s: &[u8]) -> RawEntry {
    RawEntry { tag, typ: 2, count: s.len() as u32, data: s.to_vec() }
}

pub fn rational_entry(tag: u16, v: &[(u32, u32)]) -> RawEntry {
    let mut data = Vec::new();
    for (n, d) in v {
        data.extend_from_slice(&n.to_le_bytes());
        data.extend_from_slice(&d.to_le_bytes());
    }
    RawEntry { tag, typ: 5, count: v.len() as u32, data }
}

pub fn long_entry(tag: u16, v: u32) -> RawEntry {
    RawEntry { tag, typ: 4, count: 1, data: v.to_le_bytes().to_vec() }
}

pub fn short_entry(tag: u16, v: u16) -> RawEntry {
    RawEntry { tag, typ: 3, count: 1, data: v.to_le_bytes().to_vec() }
}

fn ifd_block_size(entries: usize) -> u32 {
    (2 + 12 * entries + 4) as u32
}

fn serialize_ifd(
    entries: &[RawEntry],
    next_ifd: u32,
    overflow_base: u32,
    overflow: &mut Vec<u8>,
) -> Vec<u8> {
    let mut entries = entries.to_vec();
    entries.sort_by_key(|e| e.tag);
    let mut out = Vec::new();
    out.extend_from_slice(&(entries.len() as u16).to_le_bytes());
    for e in &entries {
        out.extend_from_slice(&e.tag.to_le_bytes());
        out.extend_from_slice(&e.typ.to_le_bytes());
        out.extend_from_slice(&e.count.to_le_bytes());
        if e.data.len() <= 4 {
            let mut v = e.data.clone();
            v.resize(4, 0);
            out.extend_from_slice(&v);
        } else {
            let off = overflow_base + overflow.len() as u32;
            out.extend_from_slice(&off.to_le_bytes());
            overflow.extend_from_slice(&e.data);
        }
    }
    out.extend_from_slice(&next_ifd.to_le_bytes());
    out
}

/// Builds a little-endian TIFF block holding an IFD0, an optional Exif
/// sub-IFD, an optional GPS sub-IFD and an optional thumbnail IFD, with
/// `tail` placed first in the data area; `ifd1_of` receives the absolute
/// offset of `tail` so that thumbnail entries can point at (or past) it.
pub fn build_tiff<F: Fn(u32) -> Vec<RawEntry>>(
    ifd0: Vec<RawEntry>,
    exif_ifd: Vec<RawEntry>,
    gps_ifd: Vec<RawEntry>,
    ifd1_of: F,
    tail: Vec<u8>,
) -> Vec<u8> {
    let n_ifd1 = ifd1_of(0).len();
    let n0 = ifd0.len() + if exif_ifd.is_empty() { 0 } else { 1 } + if gps_ifd.is_empty() {
        0
    } else {
        1
    };
    let ifd0_off: u32 = 8;
    let exif_off = ifd0_off + ifd_block_size(n0);
    let gps_off = exif_off + if exif_ifd.is_empty() { 0 } else { ifd_block_size(exif_ifd.len()) };
    let ifd1_off = gps_off + if gps_ifd.is_empty() { 0 } else { ifd_block_size(gps_ifd.len()) };
    let data_off = ifd1_off + if n_ifd1 == 0 { 0 } else { ifd_block_size(n_ifd1) };
    let tail_off = data_off;
    let overflow_base = data_off + tail.len() as u32;

    let mut ifd0 = ifd0;
    if !exif_ifd.is_empty() {
        ifd0.push(long_entry(0x8769, exif_off));
    }
    if !gps_ifd.is_empty() {
        ifd0.push(long_entry(0x8825, gps_off));
    }
    let ifd1 = ifd1_of(tail_off);

    let mut overflow = Vec::new();
    let next0 = if n_ifd1 == 0 { 0 } else { ifd1_off };
    let b0 = serialize_ifd(&ifd0, next0, overflow_base, &mut overflow);
    let b_exif = if exif_ifd.is_empty() {
        Vec::new()
    } else {
        serialize_ifd(&exif_ifd, 0, overflow_base, &mut overflow)
    };
    let b_gps = if gps_ifd.is_empty() {
        Vec::new()
    } else {
        serialize_ifd(&gps_ifd, 0, overflow_base, &mut overflow)
    };
    let b1 = if n_ifd1 == 0 {
        Vec::new()
    } else {
        serialize_ifd(&ifd1, 0, overflow_base, &mut overflow)
    };

    let mut out = Vec::new();
    out.extend_from_slice(b"II");
    out.extend_from_slice(&42u16.to_le_bytes());
    out.extend_from_slice(&ifd0_off.to_le_bytes());
    out.extend_from_slice(&b0);
    out.extend_from_slice(&b_exif);
    out.extend_from_slice(&b_gps);
    out.extend_from_slice(&b1);
    out.extend_from_slice(&tail);
    out.extend_from_slice(&overflow);
    out
}

pub fn gps_entries(
    lat: &[(u32, u32)],
    lat_ref: &[u8],
    lon: &[(u32, u32)],
    lon_ref: &[u8],
) -> Vec<RawEntry> {
    vec![
        ascii_entry(1, lat_ref),
        rational_entry(2, lat),
        ascii_entry(3, lon_ref),
        rational_entry(4, lon),
    ]
}

pub fn thumb_entries(offset: u32, length: u32) -> Vec<RawEntry> {
    vec![long_entry(0x201, offset), long_entry(0x202, length)]
}

pub fn thumb_entries_short(offset: u32, length: u16) -> Vec<RawEntry> {
    vec![long_entry(0x201, offset), short_entry(0x202, length)]
}

pub fn parse(tiff: &[u8]) -> exif::Exif {
    exif::Reader::new().read_raw(tiff.to_vec()).expect("the crafted TIFF block must parse")
}

#[test]
fn latitude_full_triple() {
    let tiff = build_tiff(
        vec![],
        vec![],
        gps_entries(&[(10, 1), (30, 1), (36, 1)], b"N\0", &[(20, 1), (0, 1), (0, 1)], b"W\0"),
        |_| vec![],
        vec![],
    );
    let e = parse(&tiff);
    let lat = get_latitude(&e).expect("latitude must be present");
    assert!(!lat.negative);
    assert_eq!(lat.num, 10 * 3600 + 30 * 60 + 36);
    assert_eq!(lat.den, 3600);
    let lon = get_longitude(&e).expect("longitude must be present");
    assert!(lon.negative);
    assert_eq!(lon.num, 20 * 3600);
    assert_eq!(lon.den, 3600);
}

#[test]
fn latitude_fractional_seconds() {
    let tiff = build_tiff(
        vec![],
        vec![],
        gps_entries(&[(10, 1), (30, 1), (3612, 100)], b"S\0", &[(1, 1), (0, 1), (0, 1)], b"E\0"),
        |_| vec![],
        vec![],
    );
    let e = parse(&tiff);
    let lat = get_latitude(&e).expect("latitude must be present");
    assert!(lat.negative);
    assert_eq!(lat.num, 10 * 100 * 3600 + 30 * 100 * 60 + 3612);
    assert_eq!(lat.den, 100 * 3600);
    let lon = get_longitude(&e).expect("longitude must be present");
    assert!(!lon.negative);
}

#[test]
fn missing_reference_defaults_positive() {
    let tiff = build_tiff(
        vec![],
        vec![],
        vec![rational_entry(2, &[(45, 1), (0, 1), (0, 1)])],
        |_| vec![],
        vec![],
    );
    let e = parse(&tiff);
    let lat = get_latitude(&e).expect("latitude must be present");
    assert!(!lat.negative);
    assert_eq!(lat.num, 45 * 3600);
}

#[test]
fn fewer_than_three_components_absent() {
    let tiff = build_tiff(
        vec![],
        vec![],
        vec![ascii_entry(1, b"N\0"), rational_entry(2, &[(10, 1), (30, 1)])],
        |_| vec![],
        vec![],
    );
    let e = parse(&tiff);
    assert!(get_latitude(&e).is_none());
}

#[test]
fn coord_from_parts_short_input() {
    let r = coord_from_parts(&Some(vec![(10, 1), (30, 1)]), &None, b'N');
    assert!(r.is_none());
    let r = coord_from_parts(&Some(vec![]), &None, b'N');
    assert!(r.is_none());
    let r = coord_from_parts(&None, &None, b'N');
    assert!(r.is_none());
}

#[test]
fn make_and_model_joined_and_trimmed() {
    let tiff = build_tiff(
        vec![ascii_entry(0x10f, b"Canon \0EOS 5D\0"), ascii_entry(0x110, b"  EOS 5D  \0")],
        vec![],
        gps_entries(&[(1, 1), (0, 1), (0, 1)], b"N\0", &[(1, 1), (0, 1), (0, 1)], b"E\0"),
        |_| vec![],
        vec![],
    );
    let e = parse(&tiff);
    assert_eq!(get_make(&e).expect("make must be present"), b"Canon EOS 5D".to_vec());
    assert_eq!(get_model(&e).expect("model must be present"), b"EOS 5D".to_vec());
}

#[test]
fn missing_text_fields_absent() {
    let tiff = build_tiff(
        vec![],
        vec![],
        gps_entries(&[(1, 1), (0, 1), (0, 1)], b"N\0", &[(1, 1), (0, 1), (0, 1)], b"E\0"),
        |_| vec![],
        vec![],
    );
    let e = parse(&tiff);
    assert!(get_make(&e).is_none());
    assert!(get_model(&e).is_none());
    assert!(get_datetime(&e).is_none());
}

#[test]
fn datetime_rendered() {
    let tiff = build_tiff(
        vec![],
        vec![ascii_entry(0x9003, b"2016:05:04 03:02:01\0")],
        vec![],
        |_| vec![],
        vec![],
    );
    let e = parse(&tiff);
    assert_eq!(
        get_datetime(&e).expect("timestamp must be present"),
        b"2016-05-04 03:02:01".to_vec()
    );
}

#[test]
fn datetime_malformed_absent() {
    let tiff = build_tiff(
        vec![],
        vec![ascii_entry(0x9003, b"not a timestamp\0")],
        vec![],
        |_| vec![],
        vec![],
    );
    let e = parse(&tiff);
    assert!(get_datetime(&e).is_none());
}

#[test]
fn thumbnail_extracted() {
    let payload = vec![0xffu8, 0xd8, 0x01, 0x02, 0x03, 0xff, 0xd9];
    let n = payload.len() as u32;
    let tiff = build_tiff(
        vec![],
        vec![],
        vec![],
        |tail_off| thumb_entries_short(tail_off, n as u16),
        payload.clone(),
    );
    let e = parse(&tiff);
    assert_eq!(get_thumbnail(&e).expect("thumbnail must be present"), payload);
}

#[test]
fn thumbnail_out_of_range_rejected() {
    let payload = vec![0xffu8, 0xd8, 0xff, 0xd9];
    let tiff = build_tiff(
        vec![],
        vec![],
        vec![],
        |tail_off| thumb_entries(tail_off, 100_000),
        payload,
    );
    let e = parse(&tiff);
    assert!(get_thumbnail(&e).is_none());
}

#[test]
fn thumbnail_zero_offset_or_length_absent() {
    let tiff = build_tiff(vec![], vec![], vec![], |_| thumb_entries(0, 16), vec![0u8; 16]);
    let e = parse(&tiff);
    assert!(get_thumbnail(&e).is_none());
    let tiff = build_tiff(vec![], vec![], vec![], |off| thumb_entries(off, 0), vec![0u8; 16]);
    let e = parse(&tiff);
    assert!(get_thumbnail(&e).is_none());
}

#[test]
fn extract_range_bounds() {
    let buf: Vec<u8> = (0u8..32).collect();
    assert_eq!(extract_range(&buf, 4, 3), Some(vec![4, 5, 6]));
    assert_eq!(extract_range(&buf, 30, 2), Some(vec![30, 31]));
    assert_eq!(extract_range(&buf, 30, 3), None);
    assert_eq!(extract_range(&buf, 33, 1), None);
}

fn valid_photo_tiff() -> (Vec<u8>, Vec<u8>) {
    let payload = vec![0xffu8, 0xd8, 1, 2, 3, 4, 5, 0xff, 0xd9];
    let n = payload.len() as u32;
    let tiff = build_tiff(
        vec![ascii_entry(0x10f, b"Canon\0"), ascii_entry(0x110, b"EOS 5D\0")],
        vec![ascii_entry(0x9003, b"2016:05:04 03:02:01\0")],
        gps_entries(&[(10, 1), (30, 1), (36, 1)], b"N\0", &[(20, 1), (0, 1), (0, 1)], b"E\0"),
        |off| thumb_entries(off, n),
        payload.clone(),
    );
    (tiff, payload)
}

fn zero_gps_tiff() -> Vec<u8> {
    let payload = vec![0xffu8, 0xd8, 0xff, 0xd9];
    let n = payload.len() as u32;
    build_tiff(
        vec![],
        vec![],
        gps_entries(&[(0, 1), (0, 1), (0, 1)], b"N\0", &[(0, 1), (0, 1), (0, 1)], b"E\0"),
        |off| thumb_entries(off, n),
        payload,
    )
}

fn source(name: &str, path: &str, data: Vec<u8>) -> SourceImage {
    SourceImage { name: name.as_bytes().to_vec(), path: path.as_bytes().to_vec(), data }
}

fn same_record(a: &PhotoRecord, b: &PhotoRecord) -> bool {
    a.name == b.name && a.path == b.path && a.thumb == b.thumb && a.thumb_data == b.thumb_data
        && a.lat.negative == b.lat.negative && a.lat.num == b.lat.num && a.lat.den == b.lat.den
        && a.lon.negative == b.lon.negative && a.lon.num == b.lon.num && a.lon.den == b.lon.den
        && a.make == b.make && a.model == b.model && a.date == b.date
}

#[test]
fn record_built_for_valid_file() {
    let (tiff, payload) = valid_photo_tiff();
    let src = source("pic.jpg", "photos\\trip\\pic.jpg", tiff);
    let rec = process_image(&src, 7).expect("a qualifying file must yield a record");
    assert_eq!(rec.name, b"pic.jpg".to_vec());
    assert_eq!(rec.path, b"photos/trip/pic.jpg".to_vec());
    assert_eq!(rec.thumb, b"thumbs/t7.jpg".to_vec());
    assert_eq!(rec.thumb_data, payload);
    assert!(!rec.lat.negative);
    assert_eq!(rec.lat.num, 10 * 3600 + 30 * 60 + 36);
    assert_eq!(rec.lat.den, 3600);
    assert!(!rec.lon.negative);
    assert_eq!(rec.lon.num, 20 * 3600);
    assert_eq!(rec.lon.den, 3600);
    assert_eq!(rec.make, b"Canon".to_vec());
    assert_eq!(rec.model, b"EOS 5D".to_vec());
    assert_eq!(rec.date, b"2016-05-04 03:02:01".to_vec());
}

#[test]
fn missing_camera_fields_get_unknown_sentinel() {
    let payload = vec![0xffu8, 0xd8, 0xff, 0xd9];
    let n = payload.len() as u32;
    let tiff = build_tiff(
        vec![],
        vec![],
        gps_entries(&[(10, 1), (0, 1), (0, 1)], b"N\0", &[(20, 1), (0, 1), (0, 1)], b"E\0"),
        |off| thumb_entries(off, n),
        payload,
    );
    let rec = process_image(&source("a.jpg", "a.jpg", tiff), 0).expect(
        "a qualifying file must yield a record",
    );
    assert_eq!(rec.make, b"Unknown".to_vec());
    assert_eq!(rec.model, b"Unknown".to_vec());
    assert_eq!(rec.date, b"Unknown".to_vec());
    assert!(!rec.make.is_empty() && !rec.model.is_empty() && !rec.date.is_empty());
}

#[test]
fn record_dropped_without_coordinates() {
    let payload = vec![0xffu8, 0xd8, 0xff, 0xd9];
    let n = payload.len() as u32;
    let no_gps = build_tiff(
        vec![ascii_entry(0x10f, b"Canon\0")],
        vec![],
        vec![],
        |off| thumb_entries(off, n),
        payload.clone(),
    );
    assert!(process_image(&source("a.jpg", "a.jpg", no_gps), 0).is_none());
    let lat_only = build_tiff(
        vec![],
        vec![],
        vec![ascii_entry(1, b"N\0"), rational_entry(2, &[(10, 1), (0, 1), (0, 1)])],
        |off| thumb_entries(off, n),
        payload,
    );
    assert!(process_image(&source("b.jpg", "b.jpg", lat_only), 0).is_none());
}

#[test]
fn record_dropped_when_near_zero() {
    assert!(process_image(&source("z.jpg", "z.jpg", zero_gps_tiff()), 0).is_none());
    let payload = vec![0xffu8, 0xd8, 0xff, 0xd9];
    let n = payload.len() as u32;
    let boundary = build_tiff(
        vec![],
        vec![],
        gps_entries(&[(1, 1000), (0, 1), (0, 1)], b"N\0", &[(20, 1), (0, 1), (0, 1)], b"E\0"),
        |off| thumb_entries(off, n),
        payload,
    );
    assert!(
        process_image(&source("c.jpg", "c.jpg", boundary), 0).is_none(),
        "a magnitude of exactly 0.001 degrees must be excluded",
    );
}

#[test]
fn record_dropped_without_thumbnail() {
    let tiff = build_tiff(
        vec![],
        vec![],
        gps_entries(&[(10, 1), (0, 1), (0, 1)], b"N\0", &[(20, 1), (0, 1), (0, 1)], b"E\0"),
        |_| vec![],
        vec![],
    );
    assert!(process_image(&source("a.jpg", "a.jpg", tiff), 0).is_none());
}

#[test]
fn record_dropped_when_thumbnail_out_of_range() {
    let tiff = build_tiff(
        vec![],
        vec![],
        gps_entries(&[(10, 1), (0, 1), (0, 1)], b"N\0", &[(20, 1), (0, 1), (0, 1)], b"E\0"),
        |off| thumb_entries(off, 1_000_000),
        vec![0u8; 8],
    );
    assert!(process_image(&source("a.jpg", "a.jpg", tiff), 0).is_none());
}

#[test]
fn end_to_end_three_files() {
    let (tiff, payload) = valid_photo_tiff();
    let mut png = b"\x89PNG\r\n\x1a\n".to_vec();
    png.extend_from_slice(&[0u8; 32]);
    let files = vec![
        source("good.jpg", "d\\good.jpg", tiff),
        source("plain.png", "d\\plain.png", png),
        source("origin.jpg", "d\\origin.jpg", zero_gps_tiff()),
    ];
    let records = build_records(&files);
    assert_eq!(records.len(), 1);
    assert_eq!(records[0].name, b"good.jpg".to_vec());
    assert_eq!(records[0].path, b"d/good.jpg".to_vec());
    assert_eq!(records[0].thumb, b"thumbs/t0.jpg".to_vec());
    assert_eq!(records[0].thumb_data, payload);
}

#[test]
fn rerun_yields_same_records() {
    let (tiff, _) = valid_photo_tiff();
    let mut png = b"\x89PNG\r\n\x1a\n".to_vec();
    png.extend_from_slice(&[0u8; 32]);
    let make_files = |tiff: &Vec<u8>, png: &Vec<u8>| {
        vec![
            source("good.jpg", "d\\good.jpg", tiff.clone()),
            source("plain.png", "d\\plain.png", png.clone()),
            source("origin.jpg", "d\\origin.jpg", zero_gps_tiff()),
        ]
    };
    let first = build_records(&make_files(&tiff, &png));
    let second = build_records(&make_files(&tiff, &png));
    assert_eq!(first.len(), second.len());
    for (a, b) in first.iter().zip(second.iter()) {
        assert!(same_record(a, b));
    }
}
