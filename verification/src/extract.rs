//! Field derivation from a parsed metadata container: coordinates, the
//! camera make and model, the capture timestamp and the embedded
//! thumbnail, each stated exactly over the container's source bytes.

use vstd::prelude::*;
use crate::container;
use crate::container::datetime_display;
use crate::container::opt_bytes_view;
use crate::container::primary_ascii;
use crate::container::primary_rationals;
use crate::container::raw_buffer;
use crate::container::source_of;
use crate::container::thumbnail_uint;
use crate::container::TAG_DATETIME_ORIGINAL;
use crate::container::TAG_GPS_LATITUDE;
use crate::container::TAG_GPS_LATITUDE_REF;
use crate::container::TAG_GPS_LONGITUDE;
use crate::container::TAG_GPS_LONGITUDE_REF;
use crate::container::TAG_MAKE;
use crate::container::TAG_MODEL;
use crate::container::TAG_THUMB_LENGTH;
use crate::container::TAG_THUMB_OFFSET;
use crate::coord::coord_from_parts;
use crate::coord::opt_coord_view;
use crate::coord::Coord;
use crate::coord::CoordView;
use crate::coord::spec_coord;
use crate::text::spec_joined_trimmed;
use crate::text::spec_unknown;
use crate::text::join_and_trim;
use crate::text::unknown_label;

verus! {

/// The latitude carried by the given image bytes: the GPS latitude triple
/// against its hemisphere reference, positive at 'N'.
pub open spec fn spec_latitude(data: Seq<u8>) -> Option<CoordView> {
    spec_coord(
        primary_rationals(data, TAG_GPS_LATITUDE),
        primary_ascii(data, TAG_GPS_LATITUDE_REF),
        'N' as u8,
    )
}

/// The longitude carried by the given image bytes, positive at 'E'.
pub open spec fn spec_longitude(data: Seq<u8>) -> Option<CoordView> {
    spec_coord(
        primary_rationals(data, TAG_GPS_LONGITUDE),
        primary_ascii(data, TAG_GPS_LONGITUDE_REF),
        'E' as u8,
    )
}

/// Derives the latitude of a parsed container.
pub fn get_latitude(e: &exif::Exif) -> (r: Option<Coord>)
    ensures
        opt_coord_view(r) == spec_latitude(source_of(*e)),
        r matches Some(c) ==> c.wf(),
{
    let rats = container::gps_latitude(e);
    let refs = container::gps_latitude_ref(e);
    coord_from_parts(&rats, &refs, 'N' as u8)
}

/// Derives the longitude of a parsed container.
pub fn get_longitude(e: &exif::Exif) -> (r: Option<Coord>)
    ensures
        opt_coord_view(r) == spec_longitude(source_of(*e)),
        r matches Some(c) ==> c.wf(),
{
    let rats = container::gps_longitude(e);
    let refs = container::gps_longitude_ref(e);
    coord_from_parts(&rats, &refs, 'E' as u8)
}

/// The text of an ASCII field: its segments joined in order, then trimmed
/// of surrounding whitespace; absent when the field is missing or not
/// ASCII-typed.
pub open spec fn spec_text_field(data: Seq<u8>, tag: u16) -> Option<Seq<u8>> {
    match primary_ascii(data, tag) {
        Option::Some(segs) => Option::Some(spec_joined_trimmed(segs)),
        Option::None => Option::None,
    }
}

/// Derives the camera make of a parsed container.
pub fn get_make(e: &exif::Exif) -> (r: Option<Vec<u8>>)
    ensures
        opt_bytes_view(r) == spec_text_field(source_of(*e), TAG_MAKE),
{
    match container::make_segments(e) {
        Option::Some(segs) => Option::Some(join_and_trim(&segs)),
        Option::None => Option::None,
    }
}

/// Derives the camera model of a parsed container.
pub fn get_model(e: &exif::Exif) -> (r: Option<Vec<u8>>)
    ensures
        opt_bytes_view(r) == spec_text_field(source_of(*e), TAG_MODEL),
{
    match container::model_segments(e) {
        Option::Some(segs) => Option::Some(join_and_trim(&segs)),
        Option::None => Option::None,
    }
}

/// The rendered capture timestamp: the first segment of the original
/// capture time field read against the datetime grammar; absent when the
/// field is missing, empty or fails to parse.
pub open spec fn spec_capture_date(data: Seq<u8>) -> Option<Seq<u8>> {
    match primary_ascii(data, TAG_DATETIME_ORIGINAL) {
        Option::Some(segs) => if segs.len() > 0 {
            datetime_display(segs[0])
        } else {
            Option::None
        },
        Option::None => Option::None,
    }
}

/// Derives the rendered capture timestamp of a parsed container.
pub fn get_datetime(e: &exif::Exif) -> (r: Option<Vec<u8>>)
    ensures
        opt_bytes_view(r) == spec_capture_date(source_of(*e)),
{
    match container::datetime_segments(e) {
        Option::Some(segs) => if segs.len() > 0 {
            container::render_datetime(&segs[0])
        } else {
            Option::None
        },
        Option::None => Option::None,
    }
}

/// A field value or the "Unknown" sentinel in its place.
pub open spec fn spec_or_unknown(o: Option<Seq<u8>>) -> Seq<u8> {
    match o {
        Option::Some(s) => s,
        Option::None => spec_unknown(),
    }
}

/// Substitutes the "Unknown" sentinel for an absent text field.
pub fn or_unknown(o: Option<Vec<u8>>) -> (r: Vec<u8>)
    ensures
        r@ == spec_or_unknown(opt_bytes_view(o)),
{
    match o {
        Option::Some(v) => v,
        Option::None => unknown_label(),
    }
}

/// Law: a missing or non-ASCII Make, Model or capture-date field derives
/// the sentinel "Unknown" — never an empty text and never an absent one.
pub proof fn lemma_missing_field_gives_unknown(data: Seq<u8>, tag: u16)
    requires
        primary_ascii(data, tag) is None,
    ensures
        spec_or_unknown(spec_text_field(data, tag)) == spec_unknown(),
        spec_or_unknown(spec_text_field(data, tag)).len() == 7,
        tag == TAG_DATETIME_ORIGINAL ==> spec_or_unknown(spec_capture_date(data))
            == spec_unknown(),
{
}

/// A thumbnail integer field read as the original read it: zero when the
/// field is missing.
pub open spec fn spec_uint_or_zero(o: Option<u32>) -> u32 {
    match o {
        Option::Some(v) => v,
        Option::None => 0,
    }
}

fn uint_or_zero(o: Option<u32>) -> (r: u32)
    ensures
        r == spec_uint_or_zero(o),
{
    match o {
        Option::Some(v) => v,
        Option::None => 0,
    }
}

/// The bytes of the range [offset, offset + length) of a buffer, absent
/// when the range reaches past the end: the checked form of the thumbnail
/// slice.
pub open spec fn spec_extract_range(buf: Seq<u8>, offset: int, length: int) -> Option<Seq<u8>> {
    if offset + length <= buf.len() {
        Option::Some(buf.subrange(offset, offset + length))
    } else {
        Option::None
    }
}

/// Copies the byte range [offset, offset + length) out of a buffer,
/// refusing a range that reaches past the end.
pub fn extract_range(buf: &Vec<u8>, offset: usize, length: usize) -> (r: Option<Vec<u8>>)
    ensures
        opt_bytes_view(r) == spec_extract_range(buf@, offset as int, length as int),
{
    if length <= buf.len() && offset <= buf.len() - length {
        let mut out: Vec<u8> = Vec::new();
        let mut i: usize = 0;
        while i < length
            invariant
                0 <= i <= length,
                offset + length <= buf@.len(),
                buf@.len() <= usize::MAX,
                out@ == buf@.subrange(offset as int, offset + i),
            decreases length - i,
        {
            out.push(buf[offset + i]);
            assert(out@ =~= buf@.subrange(offset as int, offset + i + 1));
            i = i + 1;
        }
        Option::Some(out)
    } else {
        Option::None
    }
}

/// The embedded thumbnail carried by the given image bytes: the byte
/// range that the thumbnail offset and length fields point at, absent
/// when either is zero or missing, or when the range reaches past the
/// backing buffer.
pub open spec fn spec_thumbnail(data: Seq<u8>) -> Option<Seq<u8>> {
    let offset = spec_uint_or_zero(thumbnail_uint(data, TAG_THUMB_OFFSET));
    let length = spec_uint_or_zero(thumbnail_uint(data, TAG_THUMB_LENGTH));
    if offset == 0 || length == 0 {
        Option::None
    } else {
        spec_extract_range(raw_buffer(data), offset as int, length as int)
    }
}

/// Derives the embedded thumbnail of a parsed container, bounds-checked
/// against the backing buffer.
pub fn get_thumbnail(e: &exif::Exif) -> (r: Option<Vec<u8>>)
    ensures
        opt_bytes_view(r) == spec_thumbnail(source_of(*e)),
{
    let offset = uint_or_zero(container::thumb_offset(e));
    let length = uint_or_zero(container::thumb_length(e));
    if offset == 0 || length == 0 {
        return Option::None;
    }
    let buf = container::container_buffer(e);
    extract_range(&buf, offset as usize, length as usize)
}

/// Law: a thumbnail range that reaches past the backing buffer yields no
/// thumbnail — the bytes are never read out of range and the record is
/// dropped instead.
pub proof fn lemma_thumb_range_past_buffer(data: Seq<u8>)
    requires
        spec_uint_or_zero(thumbnail_uint(data, TAG_THUMB_OFFSET)) + spec_uint_or_zero(
            thumbnail_uint(data, TAG_THUMB_LENGTH),
        ) > raw_buffer(data).len(),
    ensures
        spec_thumbnail(data) is None,
{
}

} // verus!
