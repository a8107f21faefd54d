//! The hardware identity gate. The daemons drive privileged hardware
//! surfaces, so they refuse to start unless the machine's product-name
//! string, trimmed of surrounding whitespace, contains an entry of the
//! allow-list as a substring. The binary reads the product name from the
//! fixed system file and must terminate on refusal before any hardware
//! handle is opened.

use vstd::prelude::*;
use vstd::string::StringSliceAdditionalSpecFns;
use crate::errors::StartupError;

verus! {

/// ASCII whitespace, as trimmed from the ends of the identity string.
pub open spec fn spec_is_ws(b: u8) -> bool {
    b == 32 || b == 9 || b == 10 || b == 11 || b == 12 || b == 13
}

pub open spec fn spec_trim_start(s: Seq<u8>) -> Seq<u8>
    decreases s.len(),
{
    if s.len() > 0 && spec_is_ws(s[0]) {
        spec_trim_start(s.skip(1))
    } else {
        s
    }
}

pub open spec fn spec_trim_end(s: Seq<u8>) -> Seq<u8>
    decreases s.len(),
{
    if s.len() > 0 && spec_is_ws(s.last()) {
        spec_trim_end(s.drop_last())
    } else {
        s
    }
}

/// The identity string with whitespace removed from both ends.
pub open spec fn spec_trim(s: Seq<u8>) -> Seq<u8> {
    spec_trim_end(spec_trim_start(s))
}

/// `needle` occurs contiguously somewhere in `hay`.
pub open spec fn spec_contains(hay: Seq<u8>, needle: Seq<u8>) -> bool {
    exists|i: int|
        0 <= i && i + needle.len() <= hay.len() && #[trigger] hay.subrange(i, i + needle.len())
            == needle
}

/// The allow-list check: the trimmed identity contains the supported model
/// name as a substring.
pub open spec fn spec_identity_supported(raw: Seq<u8>) -> bool {
    spec_contains(spec_trim(raw), "Nitro AN515-57".spec_bytes())
}

proof fn lemma_trim_start_at(s: Seq<u8>, i: int)
    requires
        0 <= i <= s.len(),
        forall|j: int| 0 <= j < i ==> spec_is_ws(s[j]),
        i == s.len() || !spec_is_ws(s[i]),
    ensures
        spec_trim_start(s) == s.skip(i),
    decreases i,
{
    if i == 0 {
        assert(s.skip(0) =~= s);
    } else {
        lemma_trim_start_at(s.skip(1), i - 1);
        assert(s.skip(1).skip(i - 1) =~= s.skip(i));
    }
}

proof fn lemma_trim_end_at(s: Seq<u8>, h: int)
    requires
        0 <= h <= s.len(),
        forall|j: int| h <= j < s.len() ==> spec_is_ws(s[j]),
        h == 0 || !spec_is_ws(s[h - 1]),
    ensures
        spec_trim_end(s) == s.take(h),
    decreases s.len() - h,
{
    if h == s.len() {
        assert(s.take(h) =~= s);
    } else {
        assert(spec_is_ws(s.last()));
        lemma_trim_end_at(s.drop_last(), h);
        assert(s.drop_last().take(h) =~= s.take(h));
    }
}

fn is_ws(b: u8) -> (r: bool)
    ensures
        r == spec_is_ws(b),
{
    b == 32 || b == 9 || b == 10 || b == 11 || b == 12 || b == 13
}

/// The bytes of `s` with whitespace removed from both ends.
pub fn trim_bytes(s: &[u8]) -> (v: Vec<u8>)
    ensures
        v@ == spec_trim(s@),
{
    let len = s.len();
    let mut lo: usize = 0;
    while lo < len && is_ws(s[lo])
        invariant
            lo <= len,
            len == s@.len(),
            forall|j: int| 0 <= j < lo ==> spec_is_ws(s@[j]),
        decreases len - lo,
    {
        lo += 1;
    }
    proof {
        lemma_trim_start_at(s@, lo as int);
    }
    let mut hi: usize = len;
    while hi > lo && is_ws(s[hi - 1])
        invariant
            lo <= hi <= len,
            len == s@.len(),
            forall|j: int| hi <= j < len ==> spec_is_ws(s@[j]),
        decreases hi,
    {
        hi -= 1;
    }
    proof {
        let t = s@.skip(lo as int);
        assert(forall|j: int| hi - lo <= j < t.len() ==> spec_is_ws(t[j]));
        lemma_trim_end_at(t, hi - lo);
        assert(t.take(hi - lo) =~= s@.subrange(lo as int, hi as int));
    }
    let mut v: Vec<u8> = Vec::new();
    let mut i: usize = lo;
    while i < hi
        invariant
            lo <= i <= hi <= len,
            len == s@.len(),
            v@ =~= s@.subrange(lo as int, i as int),
        decreases hi - i,
    {
        v.push(s[i]);
        assert(v@ =~= s@.subrange(lo as int, i + 1));
        i += 1;
    }
    assert(v@ =~= s@.subrange(lo as int, hi as int));
    v
}

fn matches_at(hay: &[u8], s: usize, needle: &[u8]) -> (r: bool)
    requires
        s + needle@.len() <= hay@.len(),
    ensures
        r == (hay@.subrange(s as int, s + needle@.len()) == needle@),
{
    let n = needle.len();
    let h = hay.len();
    let mut j: usize = 0;
    while j < n
        invariant
            j <= n,
            n == needle@.len(),
            h == hay@.len(),
            s + n <= h,
            forall|t: int| 0 <= t < j ==> hay@[s + t] == needle@[t],
        decreases n - j,
    {
        if hay[s + j] != needle[j] {
            assert(hay@.subrange(s as int, s + n)[j as int] != needle@[j as int]);
            return false;
        }
        j += 1;
    }
    assert(hay@.subrange(s as int, s + n) =~= needle@);
    true
}

/// Substring search: whether `needle` occurs contiguously in `hay`.
pub fn contains_bytes(hay: &[u8], needle: &[u8]) -> (r: bool)
    ensures
        r == spec_contains(hay@, needle@),
{
    let h = hay.len();
    let n = needle.len();
    if n > h {
        return false;
    }
    if n == 0 {
        proof {
            assert(hay@.subrange(0, 0 + needle@.len() as int) =~= needle@);
            assert(spec_contains(hay@, needle@));
        }
        return true;
    }
    let mut s: usize = 0;
    while s <= h - n
        invariant
            0 < n <= h,
            h == hay@.len(),
            n == needle@.len(),
            s <= h - n + 1,
            forall|i: int| 0 <= i < s ==> #[trigger] hay@.subrange(i, i + n) != needle@,
        decreases h - s,
    {
        if matches_at(hay, s, needle) {
            return true;
        }
        s += 1;
    }
    false
}

/// Whether this machine's product name passes the hardware allow-list:
/// the trimmed identity must contain a supported model as a substring.
pub fn identity_supported(product_name: &str) -> (r: bool)
    ensures
        r == spec_identity_supported(product_name.spec_bytes()),
{
    let trimmed = trim_bytes(product_name.as_bytes());
    contains_bytes(trimmed.as_slice(), "Nitro AN515-57".as_bytes())
}

/// The hardware safety gate, run once over the product-name string before
/// any other component is constructed. On refusal the process must stop:
/// continuing on unsupported hardware risks physical damage.
pub fn verify_hardware(product_name: &str) -> (r: Result<(), StartupError>)
    ensures
        spec_identity_supported(product_name.spec_bytes()) ==> r == Ok::<(), StartupError>(()),
        !spec_identity_supported(product_name.spec_bytes()) ==> r == Err::<(), StartupError>(
            StartupError::UnsupportedHardware,
        ),
{
    if identity_supported(product_name) {
        Ok(())
    } else {
        Err(StartupError::UnsupportedHardware)
    }
}

} // verus!
