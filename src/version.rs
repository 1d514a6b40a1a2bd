use vstd::prelude::*;
use vstd::string::StringSliceAdditionalSpecFns;

verus! {

/// Why a Lua version string could not be read as `major.minor.patch`.
#[derive(Debug, Copy, Clone, PartialEq, Eq, Structural)]
pub enum VersionError {
    InvalidMajor,
    MissingMinor,
    InvalidMinor,
    MissingPatch,
    InvalidPatch,
    TooManyParts,
}

/// ASCII white space: space, tab, line feed, vertical tab, form feed and
/// carriage return.
pub open spec fn is_space(b: u8) -> bool {
    b == 0x20u8 || (0x09u8 <= b && b <= 0x0du8)
}

/// `s` without its leading white space.
pub open spec fn trim_start(s: Seq<u8>) -> Seq<u8>
    decreases s.len(),
{
    if s.len() > 0 && is_space(s[0]) {
        trim_start(s.drop_first())
    } else {
        s
    }
}

/// `s` without its trailing white space.
pub open spec fn trim_end(s: Seq<u8>) -> Seq<u8>
    decreases s.len(),
{
    if s.len() > 0 && is_space(s.last()) {
        trim_end(s.drop_last())
    } else {
        s
    }
}

/// `s` without white space at either end.
pub open spec fn trim(s: Seq<u8>) -> Seq<u8> {
    trim_end(trim_start(s))
}

/// The bytes of `"Lua"`.
pub open spec fn lua_prefix() -> Seq<u8> {
    seq![0x4cu8, 0x75u8, 0x61u8]
}

/// The version proper: the trimmed text, without a leading `"Lua"` and the
/// white space after it.
pub open spec fn version_text(s: Seq<u8>) -> Seq<u8> {
    let t = trim(s);
    if t.len() >= 3 && t.subrange(0, 3) == lua_prefix() {
        trim(t.subrange(3, t.len() as int))
    } else {
        t
    }
}

/// The parts of `s` between its dots; there is always at least one.
pub open spec fn split_dots(s: Seq<u8>) -> Seq<Seq<u8>>
    decreases s.len(),
{
    if s.len() == 0 {
        seq![Seq::empty()]
    } else {
        let p = split_dots(s.drop_last());
        if s.last() == 0x2eu8 {
            p.push(Seq::empty())
        } else {
            p.update(p.len() - 1, p.last().push(s.last()))
        }
    }
}

pub open spec fn is_digit(b: u8) -> bool {
    0x30u8 <= b && b <= 0x39u8
}

/// The value of a string of decimal digits.
pub open spec fn digits_value(d: Seq<u8>) -> nat
    decreases d.len(),
{
    if d.len() == 0 {
        0
    } else {
        digits_value(d.drop_last()) * 10 + (d.last() - 0x30u8) as nat
    }
}

/// `f` without a leading `+`.
pub open spec fn unsigned_part(f: Seq<u8>) -> Seq<u8> {
    if f.len() > 0 && f[0] == 0x2bu8 {
        f.drop_first()
    } else {
        f
    }
}

/// Every byte of `d` is a decimal digit.
pub open spec fn all_digits(d: Seq<u8>) -> bool {
    forall|i: int| 0 <= i < d.len() ==> is_digit(#[trigger] d[i])
}

/// `f` read as an unsigned decimal: an optional `+`, then one or more digits,
/// with a value that fits in a `u32`.
pub open spec fn parse_u32(f: Seq<u8>) -> Option<u32> {
    let d = unsigned_part(f);
    if d.len() > 0 && all_digits(d) && digits_value(d) <= u32::MAX {
        Some(digits_value(d) as u32)
    } else {
        None
    }
}

/// What a version string means: three numbers, or the first thing that is
/// wrong with it, checked from left to right.
pub open spec fn version_of(s: Seq<u8>) -> Result<(u32, u32, u32), VersionError> {
    let f = split_dots(version_text(s));
    if parse_u32(f[0]) is None {
        Err(VersionError::InvalidMajor)
    } else if f.len() < 2 {
        Err(VersionError::MissingMinor)
    } else if parse_u32(f[1]) is None {
        Err(VersionError::InvalidMinor)
    } else if f.len() < 3 {
        Err(VersionError::MissingPatch)
    } else if parse_u32(f[2]) is None {
        Err(VersionError::InvalidPatch)
    } else if f.len() > 3 {
        Err(VersionError::TooManyParts)
    } else {
        Ok((parse_u32(f[0])->0, parse_u32(f[1])->0, parse_u32(f[2])->0))
    }
}

fn is_space_byte(b: u8) -> (r: bool)
    ensures
        r == is_space(b),
{
    b == 0x20u8 || (0x09u8 <= b && b <= 0x0du8)
}

/// The bounds of `b[lo..hi]` without white space at either end.
fn trim_bounds(b: &[u8], lo: usize, hi: usize) -> (r: (usize, usize))
    requires
        lo <= hi <= b@.len(),
    ensures
        lo <= r.0 <= r.1 <= hi,
        b@.subrange(r.0 as int, r.1 as int) == trim(b@.subrange(lo as int, hi as int)),
{
    let mut i = lo;
    while i < hi && is_space_byte(b[i])
        invariant
            lo <= i <= hi <= b@.len(),
            trim_start(b@.subrange(i as int, hi as int)) == trim_start(
                b@.subrange(lo as int, hi as int),
            ),
        decreases hi - i,
    {
        assert(b@.subrange(i as int, hi as int).drop_first() == b@.subrange(i + 1, hi as int));
        i = i + 1;
    }
    let ghost start = trim_start(b@.subrange(lo as int, hi as int));
    assert(start == b@.subrange(i as int, hi as int));
    let mut j = hi;
    while j > i && is_space_byte(b[j - 1])
        invariant
            lo <= i <= j <= hi <= b@.len(),
            trim_end(b@.subrange(i as int, j as int)) == trim_end(start),
        decreases j - i,
    {
        assert(b@.subrange(i as int, j as int).drop_last() == b@.subrange(i as int, j - 1));
        j = j - 1;
    }
    (i, j)
}

/// A longer string of digits is worth at least as much as its prefix.
proof fn lemma_digits_value_prefix(d: Seq<u8>, k: int)
    requires
        0 <= k <= d.len(),
    ensures
        digits_value(d) >= digits_value(d.subrange(0, k)),
    decreases d.len(),
{
    if k < d.len() {
        lemma_digits_value_prefix(d.drop_last(), k);
        assert(d.drop_last().subrange(0, k) == d.subrange(0, k));
    } else {
        assert(d.subrange(0, k) == d);
    }
}

/// Reads `b[lo..hi]` as an unsigned decimal.
fn parse_field(b: &[u8], lo: usize, hi: usize) -> (r: Option<u32>)
    requires
        lo <= hi <= b@.len(),
    ensures
        r == parse_u32(b@.subrange(lo as int, hi as int)),
{
    let ghost f = b@.subrange(lo as int, hi as int);
    let mut k = lo;
    if k < hi && b[k] == 0x2bu8 {
        k = k + 1;
    }
    let ghost d = b@.subrange(k as int, hi as int);
    assert(d == unsigned_part(f));
    if k == hi {
        return None;
    }
    let start = k;
    let mut acc: u64 = 0;
    while k < hi
        invariant
            lo <= start <= k <= hi <= b@.len(),
            d == b@.subrange(start as int, hi as int),
            d == unsigned_part(f),
            f == b@.subrange(lo as int, hi as int),
            forall|i: int| start <= i < k ==> is_digit(#[trigger] b@[i]),
            acc == digits_value(b@.subrange(start as int, k as int)),
            acc <= u32::MAX,
        decreases hi - k,
    {
        let c = b[k];
        if !(0x30u8 <= c && c <= 0x39u8) {
            assert(d[k - start] == c);
            assert(!all_digits(d));
            return None;
        }
        let ghost next = b@.subrange(start as int, k + 1);
        assert(next.drop_last() == b@.subrange(start as int, k as int));
        assert(next.last() == c);
        assert(digits_value(next) == acc * 10 + (c - 0x30u8) as nat);
        acc = acc * 10 + (c - 0x30u8) as u64;
        k = k + 1;
        if acc > u32::MAX as u64 {
            proof {
                if all_digits(d) {
                    lemma_digits_value_prefix(d, k - start);
                    assert(d.subrange(0, k - start) == b@.subrange(start as int, k as int));
                    assert(digits_value(d) > u32::MAX);
                }
                assert(parse_u32(f) is None);
            }
            return None;
        }
    }
    assert(b@.subrange(start as int, k as int) == d);
    assert(all_digits(d)) by {
        assert forall|i: int| 0 <= i < d.len() implies is_digit(#[trigger] d[i]) by {
            assert(d[i] == b@[start + i]);
        }
    }
    Some(acc as u32)
}

/// A string always has at least one part.
proof fn lemma_split_dots_nonempty(s: Seq<u8>)
    ensures
        split_dots(s).len() >= 1,
    decreases s.len(),
{
    if s.len() > 0 {
        lemma_split_dots_nonempty(s.drop_last());
    }
}

/// The bytes of `b` within each of the bounds `fs`.
pub open spec fn fields_view(b: Seq<u8>, fs: Seq<(usize, usize)>) -> Seq<Seq<u8>> {
    fs.map_values(|p: (usize, usize)| b.subrange(p.0 as int, p.1 as int))
}

/// The bounds of the dot-separated parts of `b[lo..hi]`.
fn split_bounds(b: &[u8], lo: usize, hi: usize) -> (r: Vec<(usize, usize)>)
    requires
        lo <= hi <= b@.len(),
    ensures
        fields_view(b@, r@) == split_dots(b@.subrange(lo as int, hi as int)),
        forall|k: int| 0 <= k < r@.len() ==> lo <= (#[trigger] r@[k]).0 <= r@[k].1 <= hi,
{
    let mut fields: Vec<(usize, usize)> = Vec::new();
    let mut start = lo;
    let mut i = lo;
    assert(b@.subrange(lo as int, lo as int) == Seq::<u8>::empty());
    assert(b@.subrange(start as int, i as int) == Seq::<u8>::empty());
    while i < hi
        invariant
            lo <= start <= i <= hi <= b@.len(),
            split_dots(b@.subrange(lo as int, i as int)) == fields_view(b@, fields@).push(
                b@.subrange(start as int, i as int),
            ),
            forall|k: int| 0 <= k < fields@.len() ==> lo <= (#[trigger] fields@[k]).0 <= fields@[k].1 <= i,
        decreases hi - i,
    {
        let ghost prev = fields_view(b@, fields@);
        let ghost s = b@.subrange(lo as int, i + 1);
        assert(s.drop_last() == b@.subrange(lo as int, i as int));
        assert(s.last() == b@[i as int]);
        if b[i] == 0x2eu8 {
            fields.push((start, i));
            assert(fields_view(b@, fields@) == prev.push(b@.subrange(start as int, i as int)));
            start = i + 1;
            assert(b@.subrange(start as int, i + 1) == Seq::<u8>::empty());
        } else {
            assert(b@.subrange(start as int, i + 1) == b@.subrange(start as int, i as int).push(
                b@[i as int],
            ));
        }
        i = i + 1;
    }
    let ghost prev = fields_view(b@, fields@);
    fields.push((start, hi));
    assert(fields_view(b@, fields@) == prev.push(b@.subrange(start as int, hi as int)));
    fields
}

/// Reads a Lua version string such as `"5.3.5"` or `"Lua 5.3.5"`: white space
/// around it and after the `Lua` prefix is ignored, and the three numbers are
/// separated by dots.
pub fn parse_lua_version(version: &str) -> (r: Result<(u32, u32, u32), VersionError>)
    ensures
        r == version_of(version.spec_bytes()),
{
    let b = version.as_bytes();
    let (mut lo, mut hi) = trim_bounds(b, 0, b.len());
    assert(b@.subrange(0, b@.len() as int) == b@);
    let ghost t = b@.subrange(lo as int, hi as int);
    if hi - lo >= 3 && b[lo] == 0x4cu8 && b[lo + 1] == 0x75u8 && b[lo + 2] == 0x61u8 {
        assert(t.subrange(0, 3) == lua_prefix());
        assert(t.subrange(3, t.len() as int) == b@.subrange(lo + 3, hi as int));
        let r = trim_bounds(b, lo + 3, hi);
        lo = r.0;
        hi = r.1;
    } else {
        proof {
            if t.len() >= 3 {
                assert(t.subrange(0, 3)[0] == b@[lo as int]);
                assert(t.subrange(0, 3)[1] == b@[lo + 1]);
                assert(t.subrange(0, 3)[2] == b@[lo + 2]);
            }
        }
    }
    assert(b@.subrange(lo as int, hi as int) == version_text(b@));
    let fields = split_bounds(b, lo, hi);
    let ghost f = split_dots(version_text(b@));
    proof {
        lemma_split_dots_nonempty(version_text(b@));
    }
    assert(f.len() == fields@.len());
    assert(f[0] == b@.subrange(fields@[0].0 as int, fields@[0].1 as int));
    let major = match parse_field(b, fields[0].0, fields[0].1) {
        Some(v) => v,
        None => {
            return Err(VersionError::InvalidMajor);
        },
    };
    if fields.len() < 2 {
        return Err(VersionError::MissingMinor);
    }
    assert(f[1] == b@.subrange(fields@[1].0 as int, fields@[1].1 as int));
    let minor = match parse_field(b, fields[1].0, fields[1].1) {
        Some(v) => v,
        None => {
            return Err(VersionError::InvalidMinor);
        },
    };
    if fields.len() < 3 {
        return Err(VersionError::MissingPatch);
    }
    assert(f[2] == b@.subrange(fields@[2].0 as int, fields@[2].1 as int));
    let patch = match parse_field(b, fields[2].0, fields[2].1) {
        Some(v) => v,
        None => {
            return Err(VersionError::InvalidPatch);
        },
    };
    if fields.len() > 3 {
        return Err(VersionError::TooManyParts);
    }
    Ok((major, minor, patch))
}

} // verus!
