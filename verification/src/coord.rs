//! Coordinates as exact signed rationals. A GPS coordinate field carries
//! degree, minute and second fractions; their value `d + m/60 + s/3600` is
//! put over the common denominator `3600 * d_den * m_den * s_den` and kept
//! exactly, so the near-zero filter is an exact comparison, free of
//! rounding.

use vstd::prelude::*;
use crate::text::join_and_trim;
use crate::text::spec_joined_trimmed;
use crate::text::spec_segs_view;

verus! {

/// An upper bound on each summand of a coordinate numerator and on its
/// denominator: the product of three 32-bit values and 3600 stays under
/// 2^108.
pub const TERM_BOUND: u128 = 0x1000_0000_0000_0000_0000_0000_0000;

/// A coordinate in degrees, held as the exact rational `num / den`,
/// negative when the hemisphere reference points south or west.
pub struct Coord {
    pub negative: bool,
    pub num: u128,
    pub den: u128,
}

/// The mathematical reading of a `Coord`: an integer numerator and
/// denominator with a sign.
pub struct CoordView {
    pub negative: bool,
    pub num: int,
    pub den: int,
}

impl View for Coord {
    type V = CoordView;

    open spec fn view(&self) -> CoordView {
        CoordView { negative: self.negative, num: self.num as int, den: self.den as int }
    }
}

impl Coord {
    /// The bounds every coordinate built from rational triples satisfies:
    /// they keep the epsilon comparison free of overflow.
    pub open spec fn wf(self) -> bool {
        &&& 1 <= self.den <= TERM_BOUND
        &&& self.num < 3 * TERM_BOUND
    }
}

pub open spec fn opt_rats_view(o: Option<Vec<(u32, u32)>>) -> Option<Seq<(u32, u32)>> {
    match o {
        Option::Some(v) => Option::Some(v@),
        Option::None => Option::None,
    }
}

pub open spec fn opt_segs_view(o: Option<Vec<Vec<u8>>>) -> Option<Seq<Seq<u8>>> {
    match o {
        Option::Some(v) => Option::Some(spec_segs_view(v@)),
        Option::None => Option::None,
    }
}

pub open spec fn opt_coord_view(o: Option<Coord>) -> Option<CoordView> {
    match o {
        Option::Some(c) => Option::Some(c@),
        Option::None => Option::None,
    }
}

/// The numerator of `d + m/60 + s/3600` over the common denominator
/// `3600 * d.1 * m.1 * s.1`; each pair is (numerator, denominator).
pub open spec fn spec_magnitude_num(d: (u32, u32), m: (u32, u32), s: (u32, u32)) -> int {
    d.0 * m.1 * s.1 * 3600 + m.0 * d.1 * s.1 * 60 + s.0 * d.1 * m.1
}

/// The common denominator of `d + m/60 + s/3600`.
pub open spec fn spec_magnitude_den(d: (u32, u32), m: (u32, u32), s: (u32, u32)) -> int {
    d.1 * m.1 * s.1 * 3600
}

/// Whether a hemisphere reference counts as the positive one: a missing
/// reference defaults to positive; a present one must read exactly as the
/// positive hemisphere letter after joining and trimming.
pub open spec fn spec_ref_positive(refs: Option<Seq<Seq<u8>>>, positive: u8) -> bool {
    match refs {
        Option::Some(segs) => spec_joined_trimmed(segs) == seq![positive],
        Option::None => true,
    }
}

/// The coordinate derived from a rational-sequence field and a hemisphere
/// reference: absent unless at least three components with nonzero
/// denominators are present; negated when the reference is not the
/// positive hemisphere.
pub open spec fn spec_coord(
    rats: Option<Seq<(u32, u32)>>,
    refs: Option<Seq<Seq<u8>>>,
    positive: u8,
) -> Option<CoordView> {
    match rats {
        Option::Some(v) => {
            if v.len() >= 3 && v[0].1 != 0 && v[1].1 != 0 && v[2].1 != 0 {
                Option::Some(
                    CoordView {
                        negative: !spec_ref_positive(refs, positive),
                        num: spec_magnitude_num(v[0], v[1], v[2]),
                        den: spec_magnitude_den(v[0], v[1], v[2]),
                    },
                )
            } else {
                Option::None
            }
        },
        Option::None => Option::None,
    }
}

/// Whether a coordinate magnitude strictly exceeds one thousandth of a
/// degree: `num / den > 1 / 1000`, cross-multiplied.
pub open spec fn spec_above_epsilon(c: CoordView) -> bool {
    c.num * 1000 > c.den
}

proof fn lemma_prod_bounds(a: u128, b: u128, c: u128)
    requires
        a < 0x1_0000_0000,
        b < 0x1_0000_0000,
        c < 0x1_0000_0000,
    ensures
        a * b < 0x1_0000_0000_0000_0000,
        a * b * c < 0x1_0000_0000_0000_0000_0000_0000,
        a * b * c * 3600 < TERM_BOUND,
        a * b * c * 60 < TERM_BOUND,
        1 <= a && 1 <= b && 1 <= c ==> 1 <= a * b * c * 60 && 1 <= a * b * c * 3600,
{
    assert(a * b < 0x1_0000_0000_0000_0000) by (nonlinear_arith)
        requires
            a < 0x1_0000_0000,
            b < 0x1_0000_0000,
    ;
    assert(a * b * c < 0x1_0000_0000_0000_0000_0000_0000) by (nonlinear_arith)
        requires
            a * b < 0x1_0000_0000_0000_0000,
            c < 0x1_0000_0000,
    ;
    assert(a * b * c * 3600 < 0x1_0000_0000_0000_0000_0000_0000 * 3600) by (nonlinear_arith)
        requires
            a * b * c < 0x1_0000_0000_0000_0000_0000_0000,
    ;
    if 1 <= a && 1 <= b && 1 <= c {
        assert(1 <= a * b * c) by (nonlinear_arith)
            requires
                1 <= a,
                1 <= b,
                1 <= c,
        ;
    }
}

fn ref_is_positive(refs: &Option<Vec<Vec<u8>>>, positive: u8) -> (r: bool)
    ensures
        r == spec_ref_positive(opt_segs_view(*refs), positive),
{
    match refs {
        Option::None => true,
        Option::Some(segs) => {
            let t = join_and_trim(segs);
            let r = t.len() == 1 && t[0] == positive;
            proof {
                if t@ == seq![positive] {
                    assert(t@.len() == 1 && t@[0] == positive);
                }
                if r {
                    assert(t@ =~= seq![positive]);
                }
            }
            r
        },
    }
}

/// Derives a coordinate from the rational components of a GPS field and
/// its hemisphere reference. Fewer than three components, a missing field
/// or a zero denominator give an absent coordinate — never a panic and
/// never a default of zero.
pub fn coord_from_parts(
    rats: &Option<Vec<(u32, u32)>>,
    refs: &Option<Vec<Vec<u8>>>,
    positive: u8,
) -> (r: Option<Coord>)
    ensures
        opt_coord_view(r) == spec_coord(opt_rats_view(*rats), opt_segs_view(*refs), positive),
        r matches Some(c) ==> c.wf(),
{
    match rats {
        Option::None => Option::None,
        Option::Some(v) => {
            if v.len() < 3 {
                return Option::None;
            }
            let d = v[0];
            let m = v[1];
            let s = v[2];
            if d.1 == 0 || m.1 == 0 || s.1 == 0 {
                return Option::None;
            }
            let d0 = d.0 as u128;
            let d1 = d.1 as u128;
            let m0 = m.0 as u128;
            let m1 = m.1 as u128;
            let s0 = s.0 as u128;
            let s1 = s.1 as u128;
            proof {
                lemma_prod_bounds(d0, m1, s1);
                lemma_prod_bounds(m0, d1, s1);
                lemma_prod_bounds(s0, d1, m1);
                lemma_prod_bounds(d1, m1, s1);
            }
            let num = d0 * m1 * s1 * 3600 + m0 * d1 * s1 * 60 + s0 * d1 * m1;
            let den = d1 * m1 * s1 * 3600;
            let negative = !ref_is_positive(refs, positive);
            Option::Some(Coord { negative, num, den })
        },
    }
}

/// Decides the near-zero filter exactly: true when the magnitude exceeds
/// 0.001 degrees.
pub fn above_epsilon(c: &Coord) -> (r: bool)
    requires
        c.wf(),
    ensures
        r == spec_above_epsilon(c@),
{
    c.num * 1000 > c.den
}

/// Law: a coordinate built from the rational triple (d, m, s) holds
/// exactly `d + m/60 + s/3600` over the common denominator
/// `3600 * d.1 * m.1 * s.1`, and it is negative exactly when the
/// hemisphere reference is present and differs from the positive letter.
pub proof fn lemma_coordinate_formula(
    d: (u32, u32),
    m: (u32, u32),
    s: (u32, u32),
    rest: Seq<(u32, u32)>,
    refs: Option<Seq<Seq<u8>>>,
    positive: u8,
)
    requires
        d.1 != 0,
        m.1 != 0,
        s.1 != 0,
    ensures
        spec_coord(Option::Some(seq![d, m, s] + rest), refs, positive) matches Some(c) && {
            &&& c.den == spec_magnitude_den(d, m, s)
            &&& c.num * (d.1 * m.1 * s.1 * 3600) == (d.0 * m.1 * s.1 * 3600 + m.0 * d.1 * s.1
                * 60 + s.0 * d.1 * m.1) * c.den
            &&& c.negative <==> !spec_ref_positive(refs, positive)
        },
{
    let v = seq![d, m, s] + rest;
    assert(v[0] == d && v[1] == m && v[2] == s);
}

/// Law: with whole-unit components — each fraction's denominator 1 — the
/// coordinate comes to `(3600 d + 60 m + s) / 3600`, which is
/// `d + m/60 + s/3600` over the common denominator.
pub proof fn lemma_whole_unit_components(
    d: u32,
    m: u32,
    s: u32,
    refs: Option<Seq<Seq<u8>>>,
    positive: u8,
)
    ensures
        spec_coord(
            Option::Some(seq![(d, 1u32), (m, 1u32), (s, 1u32)]),
            refs,
            positive,
        ) matches Some(c) && {
            &&& c.num == 3600 * d + 60 * m + s
            &&& c.den == 3600
            &&& c.negative <==> !spec_ref_positive(refs, positive)
        },
{
    let v = seq![(d, 1u32), (m, 1u32), (s, 1u32)];
    assert(v[0] == (d, 1u32) && v[1] == (m, 1u32) && v[2] == (s, 1u32));
}

/// Law: a coordinate field with fewer than three rational components
/// yields an absent coordinate, whatever the hemisphere reference says.
pub proof fn lemma_short_rationals_give_none(
    v: Seq<(u32, u32)>,
    refs: Option<Seq<Seq<u8>>>,
    positive: u8,
)
    requires
        v.len() < 3,
    ensures
        spec_coord(Option::Some(v), refs, positive) is None,
{
}

} // verus!
