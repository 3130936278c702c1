//! The per-file pipeline and the batch over a scan: parse the bytes,
//! derive the fields, keep a record only when both coordinates are
//! present and their magnitudes exceed the epsilon and the embedded
//! thumbnail is within bounds. The record sequence is a function of the
//! scanned bytes alone, so a second run over the same files yields the
//! same records.

use vstd::prelude::*;
use crate::container;
use crate::container::parses;
use crate::container::TAG_MAKE;
use crate::container::TAG_MODEL;
use crate::coord::Coord;
use crate::coord::CoordView;
use crate::coord::above_epsilon;
use crate::coord::spec_above_epsilon;
use crate::extract::get_datetime;
use crate::extract::get_latitude;
use crate::extract::get_longitude;
use crate::extract::get_make;
use crate::extract::get_model;
use crate::extract::get_thumbnail;
use crate::extract::or_unknown;
use crate::extract::spec_capture_date;
use crate::extract::spec_latitude;
use crate::extract::spec_longitude;
use crate::extract::spec_or_unknown;
use crate::extract::spec_text_field;
use crate::extract::spec_thumbnail;
use crate::text::normalize_path;
use crate::text::spec_normalize_path;
use crate::text::spec_thumb_name;
use crate::text::thumb_name;

verus! {

/// One candidate file of a scan: its display name, its path and the raw
/// bytes read from it.
pub struct SourceImage {
    pub name: Vec<u8>,
    pub path: Vec<u8>,
    pub data: Vec<u8>,
}

/// The mathematical reading of a candidate file.
pub struct SourceImageView {
    pub name: Seq<u8>,
    pub path: Seq<u8>,
    pub data: Seq<u8>,
}

impl View for SourceImage {
    type V = SourceImageView;

    open spec fn view(&self) -> SourceImageView {
        SourceImageView { name: self.name@, path: self.path@, data: self.data@ }
    }
}

/// One record of the output: a file with usable coordinates, its derived
/// camera fields, and the thumbnail payload with the file name it is to
/// be written under.
pub struct PhotoRecord {
    pub name: Vec<u8>,
    pub path: Vec<u8>,
    pub thumb: Vec<u8>,
    pub thumb_data: Vec<u8>,
    pub lat: Coord,
    pub lon: Coord,
    pub make: Vec<u8>,
    pub model: Vec<u8>,
    pub date: Vec<u8>,
}

/// The mathematical reading of an output record.
pub struct PhotoRecordView {
    pub name: Seq<u8>,
    pub path: Seq<u8>,
    pub thumb: Seq<u8>,
    pub thumb_data: Seq<u8>,
    pub lat: CoordView,
    pub lon: CoordView,
    pub make: Seq<u8>,
    pub model: Seq<u8>,
    pub date: Seq<u8>,
}

impl View for PhotoRecord {
    type V = PhotoRecordView;

    open spec fn view(&self) -> PhotoRecordView {
        PhotoRecordView {
            name: self.name@,
            path: self.path@,
            thumb: self.thumb@,
            thumb_data: self.thumb_data@,
            lat: self.lat@,
            lon: self.lon@,
            make: self.make@,
            model: self.model@,
            date: self.date@,
        }
    }
}

/// Whether a file's bytes yield a record: they parse, both coordinates
/// are present, the embedded thumbnail is present and within bounds, and
/// both coordinate magnitudes exceed the epsilon.
pub open spec fn spec_qualifies(data: Seq<u8>) -> bool {
    &&& parses(data)
    &&& spec_latitude(data) is Some
    &&& spec_longitude(data) is Some
    &&& spec_thumbnail(data) is Some
    &&& spec_above_epsilon(spec_latitude(data).unwrap())
    &&& spec_above_epsilon(spec_longitude(data).unwrap())
}

/// The record a qualifying file at the given scan position yields.
pub open spec fn spec_record_of(src: SourceImageView, idx: nat) -> PhotoRecordView {
    PhotoRecordView {
        name: src.name,
        path: spec_normalize_path(src.path),
        thumb: spec_thumb_name(idx),
        thumb_data: spec_thumbnail(src.data).unwrap(),
        lat: spec_latitude(src.data).unwrap(),
        lon: spec_longitude(src.data).unwrap(),
        make: spec_or_unknown(spec_text_field(src.data, TAG_MAKE)),
        model: spec_or_unknown(spec_text_field(src.data, TAG_MODEL)),
        date: spec_or_unknown(spec_capture_date(src.data)),
    }
}

fn copy_bytes(v: &Vec<u8>) -> (r: Vec<u8>)
    ensures
        r@ == v@,
{
    let mut r: Vec<u8> = Vec::new();
    let mut i: usize = 0;
    while i < v.len()
        invariant
            0 <= i <= v@.len(),
            r@ == v@.take(i as int),
        decreases v@.len() - i,
    {
        r.push(v[i]);
        assert(r@ =~= v@.take(i + 1));
        i = i + 1;
    }
    proof {
        assert(v@.take(v@.len() as int) =~= v@);
    }
    r
}

/// Runs one file through the pipeline: a record comes back exactly when
/// the file qualifies, and then it is exactly the record its bytes and
/// scan position determine.
pub fn process_image(src: &SourceImage, idx: usize) -> (r: Option<PhotoRecord>)
    ensures
        r is Some <==> spec_qualifies(src@.data),
        r matches Some(rec) ==> rec@ == spec_record_of(src@, idx as nat) && rec.lat.wf()
            && rec.lon.wf(),
{
    let e = match container::parse_container(&src.data) {
        Option::Some(e) => e,
        Option::None => {
            return Option::None;
        },
    };
    let lat = match get_latitude(&e) {
        Option::Some(c) => c,
        Option::None => {
            return Option::None;
        },
    };
    let lon = match get_longitude(&e) {
        Option::Some(c) => c,
        Option::None => {
            return Option::None;
        },
    };
    let thumb_data = match get_thumbnail(&e) {
        Option::Some(t) => t,
        Option::None => {
            return Option::None;
        },
    };
    if !above_epsilon(&lat) {
        return Option::None;
    }
    if !above_epsilon(&lon) {
        return Option::None;
    }
    let make = or_unknown(get_make(&e));
    let model = or_unknown(get_model(&e));
    let date = or_unknown(get_datetime(&e));
    Option::Some(
        PhotoRecord {
            name: copy_bytes(&src.name),
            path: normalize_path(&src.path),
            thumb: thumb_name(idx),
            thumb_data,
            lat,
            lon,
            make,
            model,
            date,
        },
    )
}

/// The views of a sequence of candidate files.
pub open spec fn spec_sources_view(files: Seq<SourceImage>) -> Seq<SourceImageView> {
    files.map_values(|s: SourceImage| s@)
}

/// The views of a sequence of records.
pub open spec fn spec_records_view(recs: Seq<PhotoRecord>) -> Seq<PhotoRecordView> {
    recs.map_values(|p: PhotoRecord| p@)
}

/// The records of the first n files of a scan, in scan order.
pub open spec fn spec_records(files: Seq<SourceImageView>, n: int) -> Seq<PhotoRecordView>
    decreases n,
{
    if n <= 0 {
        Seq::empty()
    } else {
        spec_records(files, n - 1) + if spec_qualifies(files[n - 1].data) {
            seq![spec_record_of(files[n - 1], (n - 1) as nat)]
        } else {
            Seq::empty()
        }
    }
}

/// Builds the records of a whole scan. The result is a function of the
/// given files alone, so running the scan again over the same bytes
/// yields the same record sequence.
pub fn build_records(files: &Vec<SourceImage>) -> (r: Vec<PhotoRecord>)
    ensures
        spec_records_view(r@) == spec_records(spec_sources_view(files@), files@.len() as int),
{
    let ghost views = spec_sources_view(files@);
    let mut r: Vec<PhotoRecord> = Vec::new();
    let mut i: usize = 0;
    while i < files.len()
        invariant
            0 <= i <= files@.len(),
            views == spec_sources_view(files@),
            spec_records_view(r@) == spec_records(views, i as int),
        decreases files@.len() - i,
    {
        let ghost before = r@;
        match process_image(&files[i], i) {
            Option::Some(rec) => {
                r.push(rec);
                proof {
                    assert(spec_records_view(before.push(rec)) =~= spec_records_view(before)
                        + seq![rec@]);
                    assert(views[i as int] == files@[i as int]@);
                    assert(spec_records(views, i + 1) =~= spec_records(views, i as int)
                        + seq![spec_record_of(views[i as int], i as nat)]);
                }
            },
            Option::None => {
                proof {
                    assert(views[i as int] == files@[i as int]@);
                    assert(spec_records(views, i + 1) =~= spec_records(views, i as int)
                        + Seq::<PhotoRecordView>::empty());
                    assert(spec_records(views, i as int) + Seq::<PhotoRecordView>::empty()
                        =~= spec_records(views, i as int));
                }
            },
        }
        i = i + 1;
    }
    proof {
        assert(i as int == files@.len() as int);
    }
    r
}

/// Law: a file whose latitude or longitude is absent never qualifies, so
/// no record of it is ever present in the output sequence.
pub proof fn lemma_absent_coordinate_never_qualifies(data: Seq<u8>)
    requires
        spec_latitude(data) is None || spec_longitude(data) is None,
    ensures
        !spec_qualifies(data),
{
}

/// Law: a file both of whose coordinates are present is still excluded
/// when either magnitude lies within 0.001 degrees of zero.
pub proof fn lemma_near_zero_never_qualifies(data: Seq<u8>)
    requires
        spec_latitude(data) is Some,
        spec_longitude(data) is Some,
        !spec_above_epsilon(spec_latitude(data).unwrap()) || !spec_above_epsilon(
            spec_longitude(data).unwrap(),
        ),
    ensures
        !spec_qualifies(data),
{
}

/// The number of qualifying files among the first n of a scan.
pub open spec fn spec_qualifying_count(files: Seq<SourceImageView>, n: int) -> int
    decreases n,
{
    if n <= 0 {
        0
    } else {
        spec_qualifying_count(files, n - 1) + if spec_qualifies(files[n - 1].data) {
            1int
        } else {
            0int
        }
    }
}

/// Law: each qualifying file contributes exactly one record, and a file
/// that fails the filter — its metadata unreadable, a coordinate absent,
/// the thumbnail absent or out of range, or a coordinate magnitude within
/// the epsilon — contributes none.
pub proof fn lemma_record_count(files: Seq<SourceImageView>, n: int)
    requires
        0 <= n <= files.len(),
    ensures
        spec_records(files, n).len() == spec_qualifying_count(files, n),
    decreases n,
{
    if n > 0 {
        lemma_record_count(files, n - 1);
    }
}

/// Law: every record of the output stems from a qualifying file of the
/// scan, at its scan position. In particular a file with latitude or
/// longitude absent, or with a magnitude within the epsilon, is the
/// source of no record.
pub proof fn lemma_records_only_from_qualifying(files: Seq<SourceImageView>, n: int, k: int)
    requires
        0 <= n <= files.len(),
        0 <= k < spec_records(files, n).len(),
    ensures
        exists|j: int|
            0 <= j < n && #[trigger] spec_qualifies(files[j].data) && spec_records(files, n)[k]
                == spec_record_of(files[j], j as nat),
    decreases n,
{
    if n > 0 {
        let prev = spec_records(files, n - 1);
        if k < prev.len() {
            lemma_records_only_from_qualifying(files, n - 1, k);
            let j = choose|j: int|
                0 <= j < n - 1 && #[trigger] spec_qualifies(files[j].data) && spec_records(
                    files,
                    n - 1,
                )[k] == spec_record_of(files[j], j as nat);
            assert(spec_records(files, n)[k] == prev[k]);
            assert(0 <= j < n && spec_qualifies(files[j].data) && spec_records(files, n)[k]
                == spec_record_of(files[j], j as nat));
        } else {
            assert(spec_qualifies(files[n - 1].data));
            assert(spec_records(files, n)[k] == spec_record_of(files[n - 1], (n - 1) as nat));
        }
    }
}

} // verus!
