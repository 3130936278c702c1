//! Byte-level text handling: whitespace trimming, segment concatenation,
//! the "Unknown" sentinel, decimal rendering for thumbnail names, path
//! separator normalization and the allow-list of image file extensions.

use vstd::prelude::*;

verus! {

/// Bytes that count as surrounding whitespace when a text value is trimmed.
pub open spec fn spec_is_space(b: u8) -> bool {
    b == 32 || (9 <= b && b <= 13)
}

fn is_space(b: u8) -> (r: bool)
    ensures
        r == spec_is_space(b),
{
    b == 32 || (9 <= b && b <= 13)
}

/// The given bytes with leading and trailing whitespace removed.
pub open spec fn spec_trim(s: Seq<u8>) -> Seq<u8>
    decreases s.len(),
{
    if s.len() == 0 {
        s
    } else if spec_is_space(s.first()) {
        spec_trim(s.drop_first())
    } else if spec_is_space(s.last()) {
        spec_trim(s.drop_last())
    } else {
        s
    }
}

proof fn lemma_trim_all_space(s: Seq<u8>)
    requires
        forall|i: int| 0 <= i < s.len() ==> spec_is_space(s[i]),
    ensures
        spec_trim(s) == Seq::<u8>::empty(),
    decreases s.len(),
{
    if s.len() == 0 {
        assert(s =~= Seq::<u8>::empty());
    } else {
        lemma_trim_all_space(s.drop_first());
    }
}

proof fn lemma_trim_is_subrange(s: Seq<u8>, lo: int, hi: int)
    requires
        0 <= lo <= hi <= s.len(),
        forall|i: int| 0 <= i < lo ==> spec_is_space(s[i]),
        forall|i: int| hi <= i < s.len() ==> spec_is_space(s[i]),
        lo < hi ==> !spec_is_space(s[lo]) && !spec_is_space(s[hi - 1]),
    ensures
        spec_trim(s) == s.subrange(lo, hi),
    decreases s.len(),
{
    if lo == hi {
        assert forall|i: int| 0 <= i < s.len() implies spec_is_space(s[i]) by {
            if i < lo {
            } else {
                assert(hi <= i);
            }
        }
        lemma_trim_all_space(s);
        assert(s.subrange(lo, hi) =~= Seq::<u8>::empty());
    } else if s.len() == 0 {
    } else if spec_is_space(s.first()) {
        assert(lo >= 1);
        lemma_trim_is_subrange(s.drop_first(), lo - 1, hi - 1);
        assert(s.drop_first().subrange(lo - 1, hi - 1) =~= s.subrange(lo, hi));
    } else if spec_is_space(s.last()) {
        assert(hi < s.len());
        lemma_trim_is_subrange(s.drop_last(), lo, hi);
        assert(s.drop_last().subrange(lo, hi) =~= s.subrange(lo, hi));
    } else {
        assert(lo == 0);
        assert(hi == s.len());
        assert(s.subrange(lo, hi) =~= s);
    }
}

/// Removes surrounding whitespace, keeping interior bytes untouched.
pub fn trim_bytes(s: &Vec<u8>) -> (r: Vec<u8>)
    ensures
        r@ == spec_trim(s@),
{
    let n = s.len();
    let mut lo: usize = 0;
    while lo < n && is_space(s[lo])
        invariant
            0 <= lo <= n,
            n == s@.len(),
            forall|i: int| 0 <= i < lo ==> spec_is_space(s@[i]),
        decreases n - lo,
    {
        lo = lo + 1;
    }
    let mut hi: usize = n;
    while hi > lo && is_space(s[hi - 1])
        invariant
            lo <= hi <= n,
            n == s@.len(),
            forall|i: int| 0 <= i < lo ==> spec_is_space(s@[i]),
            forall|i: int| hi <= i < n ==> spec_is_space(s@[i]),
        decreases hi,
    {
        hi = hi - 1;
    }
    let mut r: Vec<u8> = Vec::new();
    let mut i: usize = lo;
    while i < hi
        invariant
            lo <= i <= hi <= n,
            n == s@.len(),
            r@ == s@.subrange(lo as int, i as int),
        decreases hi - i,
    {
        r.push(s[i]);
        assert(r@ =~= s@.subrange(lo as int, i + 1));
        i = i + 1;
    }
    proof {
        lemma_trim_is_subrange(s@, lo as int, hi as int);
    }
    r
}

/// The segments of a multi-part text value, concatenated in order.
pub open spec fn spec_concat(segs: Seq<Seq<u8>>) -> Seq<u8>
    decreases segs.len(),
{
    if segs.len() == 0 {
        Seq::empty()
    } else {
        segs.first() + spec_concat(segs.drop_first())
    }
}

/// The view of a vector of byte segments as a sequence of sequences.
pub open spec fn spec_segs_view(segs: Seq<Vec<u8>>) -> Seq<Seq<u8>> {
    segs.map_values(|v: Vec<u8>| v@)
}

/// A multi-segment text value: segments concatenated in order, then the
/// whole trimmed of surrounding whitespace.
pub open spec fn spec_joined_trimmed(segs: Seq<Seq<u8>>) -> Seq<u8> {
    spec_trim(spec_concat(segs))
}

proof fn lemma_concat_snoc(segs: Seq<Seq<u8>>, last: Seq<u8>)
    ensures
        spec_concat(segs.push(last)) == spec_concat(segs) + last,
    decreases segs.len(),
{
    if segs.len() == 0 {
        assert(segs.push(last).drop_first() =~= Seq::<Seq<u8>>::empty());
        assert(segs.push(last).first() == last);
        assert(spec_concat(Seq::<Seq<u8>>::empty()) == Seq::<u8>::empty());
        assert(last + Seq::<u8>::empty() =~= Seq::<u8>::empty() + last);
    } else {
        lemma_concat_snoc(segs.drop_first(), last);
        assert(segs.push(last).drop_first() =~= segs.drop_first().push(last));
        assert(segs.first() + (spec_concat(segs.drop_first()) + last) =~= (
        segs.first() + spec_concat(segs.drop_first())) + last);
    }
}

/// Concatenates the segments of a multi-part text value and trims the
/// surrounding whitespace of the joined result.
pub fn join_and_trim(segs: &Vec<Vec<u8>>) -> (r: Vec<u8>)
    ensures
        r@ == spec_joined_trimmed(spec_segs_view(segs@)),
{
    let ghost all = spec_segs_view(segs@);
    let mut joined: Vec<u8> = Vec::new();
    let mut i: usize = 0;
    while i < segs.len()
        invariant
            0 <= i <= segs@.len(),
            all == spec_segs_view(segs@),
            joined@ == spec_concat(all.take(i as int)),
        decreases segs@.len() - i,
    {
        let seg = &segs[i];
        let ghost before = joined@;
        let mut j: usize = 0;
        while j < seg.len()
            invariant
                0 <= j <= seg@.len(),
                joined@ == before + seg@.take(j as int),
                i < segs@.len(),
                seg == segs@[i as int],
            decreases seg@.len() - j,
        {
            joined.push(seg[j]);
            assert(before + seg@.take(j as int).push(seg@[j as int]) =~= before
                + seg@.take(j + 1));
            j = j + 1;
        }
        proof {
            assert(seg@.take(seg@.len() as int) =~= seg@);
            lemma_concat_snoc(all.take(i as int), all[i as int]);
            assert(all.take(i as int).push(all[i as int]) =~= all.take(i + 1));
        }
        i = i + 1;
    }
    proof {
        assert(all.take(segs@.len() as int) =~= all);
    }
    trim_bytes(&joined)
}

/// The sentinel text standing in for a missing Make, Model or capture date.
pub open spec fn spec_unknown() -> Seq<u8> {
    seq![
        'U' as u8,
        'n' as u8,
        'k' as u8,
        'n' as u8,
        'o' as u8,
        'w' as u8,
        'n' as u8,
    ]
}

/// Builds the "Unknown" sentinel.
pub fn unknown_label() -> (r: Vec<u8>)
    ensures
        r@ == spec_unknown(),
{
    let mut r: Vec<u8> = Vec::new();
    r.push('U' as u8);
    r.push('n' as u8);
    r.push('k' as u8);
    r.push('n' as u8);
    r.push('o' as u8);
    r.push('w' as u8);
    r.push('n' as u8);
    proof {
        assert(r@ =~= spec_unknown());
    }
    r
}

/// The decimal digits of a number, most significant first.
pub open spec fn spec_decimal(n: nat) -> Seq<u8>
    decreases n,
{
    if n < 10 {
        seq![(48 + n) as u8]
    } else {
        spec_decimal(n / 10).push((48 + n % 10) as u8)
    }
}

fn push_decimal(n: usize, out: &mut Vec<u8>)
    ensures
        final(out)@ == old(out)@ + spec_decimal(n as nat),
    decreases n,
{
    if n >= 10 {
        push_decimal(n / 10, out);
    }
    out.push(48 + (n % 10) as u8);
    proof {
        if n < 10 {
            assert(old(out)@.push((48 + n % 10) as u8) =~= old(out)@
                + spec_decimal(n as nat));
        } else {
            assert((old(out)@ + spec_decimal((n / 10) as nat)).push(
                (48 + n % 10) as u8,
            ) =~= old(out)@ + spec_decimal(n as nat));
        }
    }
}

/// The file name given to the thumbnail of the image at the given position
/// in the scan: "thumbs/t<index>.jpg".
pub open spec fn spec_thumb_name(idx: nat) -> Seq<u8> {
    seq![
        't' as u8,
        'h' as u8,
        'u' as u8,
        'm' as u8,
        'b' as u8,
        's' as u8,
        '/' as u8,
        't' as u8,
    ] + spec_decimal(idx) + seq!['.' as u8, 'j' as u8, 'p' as u8, 'g' as u8]
}

/// Builds the thumbnail file name for the image at the given position.
pub fn thumb_name(idx: usize) -> (r: Vec<u8>)
    ensures
        r@ == spec_thumb_name(idx as nat),
{
    let mut r: Vec<u8> = Vec::new();
    r.push('t' as u8);
    r.push('h' as u8);
    r.push('u' as u8);
    r.push('m' as u8);
    r.push('b' as u8);
    r.push('s' as u8);
    r.push('/' as u8);
    r.push('t' as u8);
    push_decimal(idx, &mut r);
    r.push('.' as u8);
    r.push('j' as u8);
    r.push('p' as u8);
    r.push('g' as u8);
    proof {
        assert(r@ =~= spec_thumb_name(idx as nat));
    }
    r
}

/// A path with every backslash turned into a forward slash, so that the
/// emitted page treats it uniformly.
pub open spec fn spec_normalize_path(s: Seq<u8>) -> Seq<u8> {
    s.map_values(
        |b: u8|
            if b == '\\' as u8 {
                '/' as u8
            } else {
                b
            },
    )
}

/// Canonicalizes path separators to forward slashes.
pub fn normalize_path(s: &Vec<u8>) -> (r: Vec<u8>)
    ensures
        r@ == spec_normalize_path(s@),
{
    let mut r: Vec<u8> = Vec::new();
    let mut i: usize = 0;
    while i < s.len()
        invariant
            0 <= i <= s@.len(),
            r@.len() == i,
            forall|k: int|
                0 <= k < i ==> r@[k] == (if s@[k] == '\\' as u8 {
                    '/' as u8
                } else {
                    s@[k]
                }),
        decreases s@.len() - i,
    {
        if s[i] == '\\' as u8 {
            r.push('/' as u8);
        } else {
            r.push(s[i]);
        }
        i = i + 1;
    }
    proof {
        assert(r@ =~= spec_normalize_path(s@));
    }
    r
}

/// An ASCII byte folded to lower case; other bytes are untouched.
pub open spec fn spec_lower(b: u8) -> u8 {
    if 'A' as u8 <= b && b <= 'Z' as u8 {
        (b + 32) as u8
    } else {
        b
    }
}

/// The extension allow-list: the common raster formats and the camera raw
/// formats the scan accepts, compared after folding to lower case.
pub open spec fn spec_is_supported_extension(s: Seq<u8>) -> bool {
    let t = s.map_values(|b: u8| spec_lower(b));
    ||| t == spec_ext3('j', 'p', 'g')
    ||| t == spec_ext4('j', 'p', 'e', 'g')
    ||| t == spec_ext3('p', 'n', 'g')
    ||| t == spec_ext4('w', 'e', 'b', 'p')
    ||| t == spec_ext4('h', 'e', 'i', 'c')
    ||| t == spec_ext4('a', 'v', 'i', 'f')
    ||| t == spec_ext3('t', 'i', 'f')
    ||| t == spec_ext4('t', 'i', 'f', 'f')
    ||| t == spec_ext3('d', 'n', 'g')
    ||| t == spec_ext3('r', 'a', 'w')
    ||| t == spec_ext3('a', 'r', 'w')
    ||| t == spec_ext3('o', 'r', 'f')
    ||| t == spec_ext3('s', 'r', '2')
    ||| t == spec_ext3('c', 'r', 'w')
    ||| t == spec_ext3('c', 'r', '2')
    ||| t == spec_ext3('c', 'r', '3')
    ||| t == spec_ext3('n', 'e', 'f')
    ||| t == spec_ext3('s', 'r', 'w')
    ||| t == spec_ext3('r', 'w', '2')
}

pub open spec fn spec_ext3(a: char, b: char, c: char) -> Seq<u8> {
    seq![a as u8, b as u8, c as u8]
}

pub open spec fn spec_ext4(a: char, b: char, c: char, d: char) -> Seq<u8> {
    seq![a as u8, b as u8, c as u8, d as u8]
}

fn eq3(s: &Vec<u8>, a: char, b: char, c: char) -> (r: bool)
    ensures
        r == (s@ == spec_ext3(a, b, c)),
{
    let r = s.len() == 3 && s[0] == a as u8 && s[1] == b as u8 && s[2] == c as u8;
    proof {
        if r {
            assert(s@ =~= spec_ext3(a, b, c));
        }
    }
    r
}

fn eq4(s: &Vec<u8>, a: char, b: char, c: char, d: char) -> (r: bool)
    ensures
        r == (s@ == spec_ext4(a, b, c, d)),
{
    let r = s.len() == 4 && s[0] == a as u8 && s[1] == b as u8 && s[2] == c as u8
        && s[3] == d as u8;
    proof {
        if r {
            assert(s@ =~= spec_ext4(a, b, c, d));
        }
    }
    r
}

/// Decides, case-insensitively, whether a file extension belongs to the
/// allow-list of image formats the scan accepts.
pub fn is_supported_extension(ext: &Vec<u8>) -> (r: bool)
    ensures
        r == spec_is_supported_extension(ext@),
{
    let mut t: Vec<u8> = Vec::new();
    let mut i: usize = 0;
    while i < ext.len()
        invariant
            0 <= i <= ext@.len(),
            t@.len() == i,
            forall|k: int| 0 <= k < i ==> t@[k] == spec_lower(ext@[k]),
        decreases ext@.len() - i,
    {
        let b = ext[i];
        if 'A' as u8 <= b && b <= 'Z' as u8 {
            t.push(b + 32);
        } else {
            t.push(b);
        }
        i = i + 1;
    }
    proof {
        assert(t@ =~= ext@.map_values(|b: u8| spec_lower(b)));
    }
    eq3(&t, 'j', 'p', 'g') || eq4(&t, 'j', 'p', 'e', 'g') || eq3(&t, 'p', 'n', 'g')
        || eq4(&t, 'w', 'e', 'b', 'p') || eq4(&t, 'h', 'e', 'i', 'c') || eq4(
        &t,
        'a',
        'v',
        'i',
        'f',
    ) || eq3(&t, 't', 'i', 'f') || eq4(&t, 't', 'i', 'f', 'f') || eq3(&t, 'd', 'n', 'g')
        || eq3(&t, 'r', 'a', 'w') || eq3(&t, 'a', 'r', 'w') || eq3(&t, 'o', 'r', 'f')
        || eq3(&t, 's', 'r', '2') || eq3(&t, 'c', 'r', 'w') || eq3(&t, 'c', 'r', '2')
        || eq3(&t, 'c', 'r', '3') || eq3(&t, 'n', 'e', 'f') || eq3(&t, 's', 'r', 'w')
        || eq3(&t, 'r', 'w', '2')
}

} // verus!
