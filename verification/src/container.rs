//! The trusted boundary around the exif crate. The parsed metadata
//! container is opaque to the verifier, so what the accessors below return
//! is named by uninterpreted functions of the bytes the container was
//! parsed from: parsing and field lookup in the exif crate are
//! deterministic, so every such result is a function of those bytes alone.
//! Everything else in this library is verified against these contracts.

use vstd::prelude::*;
use crate::coord::opt_rats_view;
use crate::coord::opt_segs_view;

verus! {

/// The exif crate's parsed metadata container, declared so that verified
/// code can carry it; its contents are reached only through the trusted
/// accessors below.
#[verifier::external_type_specification]
#[verifier::external_body]
pub struct ExExif(exif::Exif);

/// The standard tag number of the GPS latitude hemisphere reference.
pub const TAG_GPS_LATITUDE_REF: u16 = 1;

/// The standard tag number of the GPS latitude rational triple.
pub const TAG_GPS_LATITUDE: u16 = 2;

/// The standard tag number of the GPS longitude hemisphere reference.
pub const TAG_GPS_LONGITUDE_REF: u16 = 3;

/// The standard tag number of the GPS longitude rational triple.
pub const TAG_GPS_LONGITUDE: u16 = 4;

/// The standard tag number of the camera make text field.
pub const TAG_MAKE: u16 = 0x10f;

/// The standard tag number of the camera model text field.
pub const TAG_MODEL: u16 = 0x110;

/// The standard tag number of the original capture timestamp.
pub const TAG_DATETIME_ORIGINAL: u16 = 0x9003;

/// The standard tag number of the thumbnail byte offset.
pub const TAG_THUMB_OFFSET: u16 = 0x201;

/// The standard tag number of the thumbnail byte length.
pub const TAG_THUMB_LENGTH: u16 = 0x202;

/// Whether the exif crate reads a container out of the given image bytes,
/// fully or with recoverable warnings.
pub uninterp spec fn parses(data: Seq<u8>) -> bool;

/// The image bytes a container was parsed from.
pub uninterp spec fn source_of(e: exif::Exif) -> Seq<u8>;

/// The rational components of the primary-image field with the given tag,
/// when the parsed bytes hold such a field with a rational-typed value;
/// each component is a (numerator, denominator) pair.
pub uninterp spec fn primary_rationals(data: Seq<u8>, tag: u16) -> Option<Seq<(u32, u32)>>;

/// The ASCII segments of the primary-image field with the given tag, when
/// the parsed bytes hold such a field with an ASCII-typed value.
pub uninterp spec fn primary_ascii(data: Seq<u8>, tag: u16) -> Option<Seq<Seq<u8>>>;

/// The first unsigned integer of the thumbnail-region field with the given
/// tag, when the parsed bytes hold such a field with an unsigned integer
/// value.
pub uninterp spec fn thumbnail_uint(data: Seq<u8>, tag: u16) -> Option<u32>;

/// The raw metadata buffer backing the container; thumbnail byte ranges
/// point into it.
pub uninterp spec fn raw_buffer(data: Seq<u8>) -> Seq<u8>;

/// The display rendering of a capture timestamp value, when the given
/// bytes parse against the metadata standard's datetime grammar.
pub uninterp spec fn datetime_display(raw: Seq<u8>) -> Option<Seq<u8>>;

pub open spec fn opt_bytes_view(o: Option<Vec<u8>>) -> Option<Seq<u8>> {
    match o {
        Option::Some(v) => Option::Some(v@),
        Option::None => Option::None,
    }
}

/// Relies on exif::Reader::read_from_container with continue_on_error, and
/// on Error::distill_partial_result to keep a partially parsed container;
/// parsing is deterministic in the bytes.
#[verifier::external_body]
pub fn parse_container(data: &Vec<u8>) -> (r: Option<exif::Exif>)
    ensures
        r is Some <==> parses(data@),
        r matches Some(e) ==> source_of(e) == data@,
{
    let mut cursor = std::io::Cursor::new(data.as_slice());
    match exif::Reader::new().continue_on_error(true).read_from_container(&mut cursor) {
        Ok(x) => Some(x),
        Err(err) => err.distill_partial_result(|_| {}).ok(),
    }
}

/// Relies on Exif::get_field with Tag::GPSLatitude in the primary region,
/// kept only when the value is rational-typed.
#[verifier::external_body]
pub fn gps_latitude(e: &exif::Exif) -> (r: Option<Vec<(u32, u32)>>)
    ensures
        opt_rats_view(r) == primary_rationals(source_of(*e), TAG_GPS_LATITUDE),
{
    match e.get_field(exif::Tag::GPSLatitude, exif::In::PRIMARY) {
        Some(f) => match &f.value {
            exif::Value::Rational(v) => Some(v.iter().map(|x| (x.num, x.denom)).collect()),
            _ => None,
        },
        None => None,
    }
}

/// Relies on Exif::get_field with Tag::GPSLongitude in the primary region,
/// kept only when the value is rational-typed.
#[verifier::external_body]
pub fn gps_longitude(e: &exif::Exif) -> (r: Option<Vec<(u32, u32)>>)
    ensures
        opt_rats_view(r) == primary_rationals(source_of(*e), TAG_GPS_LONGITUDE),
{
    match e.get_field(exif::Tag::GPSLongitude, exif::In::PRIMARY) {
        Some(f) => match &f.value {
            exif::Value::Rational(v) => Some(v.iter().map(|x| (x.num, x.denom)).collect()),
            _ => None,
        },
        None => None,
    }
}

/// Relies on Exif::get_field with Tag::GPSLatitudeRef in the primary
/// region, kept only when the value is ASCII-typed.
#[verifier::external_body]
pub fn gps_latitude_ref(e: &exif::Exif) -> (r: Option<Vec<Vec<u8>>>)
    ensures
        opt_segs_view(r) == primary_ascii(source_of(*e), TAG_GPS_LATITUDE_REF),
{
    match e.get_field(exif::Tag::GPSLatitudeRef, exif::In::PRIMARY) {
        Some(f) => match &f.value {
            exif::Value::Ascii(v) => Some(v.clone()),
            _ => None,
        },
        None => None,
    }
}

/// Relies on Exif::get_field with Tag::GPSLongitudeRef in the primary
/// region, kept only when the value is ASCII-typed.
#[verifier::external_body]
pub fn gps_longitude_ref(e: &exif::Exif) -> (r: Option<Vec<Vec<u8>>>)
    ensures
        opt_segs_view(r) == primary_ascii(source_of(*e), TAG_GPS_LONGITUDE_REF),
{
    match e.get_field(exif::Tag::GPSLongitudeRef, exif::In::PRIMARY) {
        Some(f) => match &f.value {
            exif::Value::Ascii(v) => Some(v.clone()),
            _ => None,
        },
        None => None,
    }
}

/// Relies on Exif::get_field with Tag::Make in the primary region, kept
/// only when the value is ASCII-typed.
#[verifier::external_body]
pub fn make_segments(e: &exif::Exif) -> (r: Option<Vec<Vec<u8>>>)
    ensures
        opt_segs_view(r) == primary_ascii(source_of(*e), TAG_MAKE),
{
    match e.get_field(exif::Tag::Make, exif::In::PRIMARY) {
        Some(f) => match &f.value {
            exif::Value::Ascii(v) => Some(v.clone()),
            _ => None,
        },
        None => None,
    }
}

/// Relies on Exif::get_field with Tag::Model in the primary region, kept
/// only when the value is ASCII-typed.
#[verifier::external_body]
pub fn model_segments(e: &exif::Exif) -> (r: Option<Vec<Vec<u8>>>)
    ensures
        opt_segs_view(r) == primary_ascii(source_of(*e), TAG_MODEL),
{
    match e.get_field(exif::Tag::Model, exif::In::PRIMARY) {
        Some(f) => match &f.value {
            exif::Value::Ascii(v) => Some(v.clone()),
            _ => None,
        },
        None => None,
    }
}

/// Relies on Exif::get_field with Tag::DateTimeOriginal in the primary
/// region, kept only when the value is ASCII-typed.
#[verifier::external_body]
pub fn datetime_segments(e: &exif::Exif) -> (r: Option<Vec<Vec<u8>>>)
    ensures
        opt_segs_view(r) == primary_ascii(source_of(*e), TAG_DATETIME_ORIGINAL),
{
    match e.get_field(exif::Tag::DateTimeOriginal, exif::In::PRIMARY) {
        Some(f) => match &f.value {
            exif::Value::Ascii(v) => Some(v.clone()),
            _ => None,
        },
        None => None,
    }
}

/// Relies on Exif::get_field with Tag::JPEGInterchangeFormat in the
/// thumbnail region and on Value::get_uint for its first integer.
#[verifier::external_body]
pub fn thumb_offset(e: &exif::Exif) -> (r: Option<u32>)
    ensures
        r == thumbnail_uint(source_of(*e), TAG_THUMB_OFFSET),
{
    e.get_field(exif::Tag::JPEGInterchangeFormat, exif::In::THUMBNAIL).and_then(
        |f| f.value.get_uint(0),
    )
}

/// Relies on Exif::get_field with Tag::JPEGInterchangeFormatLength in the
/// thumbnail region and on Value::get_uint for its first integer.
#[verifier::external_body]
pub fn thumb_length(e: &exif::Exif) -> (r: Option<u32>)
    ensures
        r == thumbnail_uint(source_of(*e), TAG_THUMB_LENGTH),
{
    e.get_field(exif::Tag::JPEGInterchangeFormatLength, exif::In::THUMBNAIL).and_then(
        |f| f.value.get_uint(0),
    )
}

/// Relies on Exif::buf: the raw metadata buffer the container keeps.
#[verifier::external_body]
pub fn container_buffer(e: &exif::Exif) -> (r: Vec<u8>)
    ensures
        r@ == raw_buffer(source_of(*e)),
{
    e.buf().to_vec()
}

/// Relies on exif::DateTime::from_ascii and its Display form
/// ("YYYY-MM-DD HH:MM:SS"); both depend on the given bytes alone.
#[verifier::external_body]
pub fn render_datetime(raw: &Vec<u8>) -> (r: Option<Vec<u8>>)
    ensures
        opt_bytes_view(r) == datetime_display(raw@),
{
    match exif::DateTime::from_ascii(raw.as_slice()) {
        Ok(d) => Some(d.to_string().into_bytes()),
        Err(_) => None,
    }
}

} // verus!
