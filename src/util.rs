use vstd::prelude::*;
use vstd::utf8::{decode_utf8, valid_utf8};

verus! {

/// What `String::from_utf8_lossy` makes of a byte string.
pub uninterp spec fn utf8_lossy(b: Seq<u8>) -> Seq<char>;

/// Relies on `String::from_utf8_lossy`: the result depends on the bytes alone,
/// and valid UTF-8 input is decoded unchanged.
#[verifier::external_body]
pub(crate) fn lossy_string(b: &[u8]) -> (r: String)
    ensures
        r@ == utf8_lossy(b@),
        valid_utf8(b@) ==> r@ == decode_utf8(b@),
{
    String::from_utf8_lossy(b).into_owned()
}

#[verifier::external_type_specification]
#[verifier::external_body]
pub struct ExUtf8Error(core::str::Utf8Error);

/// Relies on `core::str::from_utf8`: it succeeds exactly on valid UTF-8 and
/// then borrows the bytes as the characters they encode.
#[verifier::external_body]
pub(crate) fn str_from_utf8(b: &[u8]) -> (r: Result<&str, core::str::Utf8Error>)
    ensures
        r is Ok <==> valid_utf8(b@),
        r matches Ok(s) ==> s@ == decode_utf8(b@),
{
    core::str::from_utf8(b)
}

/// The bytes of `s` without its nul bytes.
pub open spec fn strip_nul(s: Seq<u8>) -> Seq<u8>
    decreases s.len(),
{
    if s.len() == 0 {
        s
    } else if s.last() == 0u8 {
        strip_nul(s.drop_last())
    } else {
        strip_nul(s.drop_last()).push(s.last())
    }
}

/// True when `s` is already a C string: its one nul byte is its last byte.
pub open spec fn is_c_string(s: Seq<u8>) -> bool {
    &&& s.len() > 0
    &&& s.last() == 0u8
    &&& forall|i: int| 0 <= i < s.len() - 1 ==> s[i] != 0u8
}

/// The position of the first nul byte of `s`, or `s.len()` when it has none.
pub fn first_nul(s: &[u8]) -> (r: usize)
    ensures
        r <= s@.len(),
        forall|i: int| 0 <= i < r ==> s@[i] != 0u8,
        r < s@.len() ==> s@[r as int] == 0u8,
{
    let mut i: usize = 0;
    while i < s.len()
        invariant
            i <= s@.len(),
            forall|j: int| 0 <= j < i ==> s@[j] != 0u8,
        decreases s@.len() - i,
    {
        if s[i] == 0u8 {
            return i;
        }
        i = i + 1;
    }
    i
}

/// Prepares `s` for use as a C string.
///
/// Returns `true` when `s` can be handed over as it is, its one nul byte being
/// its last byte. Otherwise `buf` receives `s` without its nul bytes followed by
/// a single terminating nul, and the result is `false`.
pub fn cstr_buf(s: &[u8], buf: &mut Vec<u8>) -> (r: bool)
    ensures
        r == is_c_string(s@),
        r ==> final(buf)@ == old(buf)@,
        !r ==> final(buf)@ == strip_nul(s@).push(0u8),
{
    let n = first_nul(s);
    if s.len() > 0 && n == s.len() - 1 {
        return true;
    }
    buf.clear();
    let mut i: usize = 0;
    while i < s.len()
        invariant
            i <= s@.len(),
            buf@ == strip_nul(s@.subrange(0, i as int)),
        decreases s@.len() - i,
    {
        assert(s@.subrange(0, i + 1).drop_last() == s@.subrange(0, i as int));
        if s[i] != 0u8 {
            buf.push(s[i]);
        }
        i = i + 1;
    }
    assert(s@.subrange(0, s@.len() as int) == s@);
    buf.push(0u8);
    proof {
        if is_c_string(s@) {
            assert(n < s@.len() ==> s@[n as int] == 0u8);
            if n < s@.len() - 1 {
                assert(s@[n as int] != 0u8);
            }
        }
    }
    false
}

} // verus!
