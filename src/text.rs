use vstd::prelude::*;
use vstd::string::*;

verus! {

/// True when `needle` occurs as a contiguous run of `hay`.
pub open spec fn occurs_in(hay: Seq<u8>, needle: Seq<u8>) -> bool {
    exists|i: int|
        0 <= i && i + needle.len() <= hay.len() && #[trigger] hay.subrange(i, i + needle.len())
            == needle
}

/// Whether the UTF-8 encoding of `needle` occurs in that of `hay`, which is
/// what substring search on `str` means.
pub open spec fn str_contains(hay: &str, needle: &str) -> bool {
    occurs_in(hay.spec_bytes(), needle.spec_bytes())
}

/// Searches `hay` for a contiguous run equal to `needle`.
pub fn bytes_occur(hay: &[u8], needle: &[u8]) -> (r: bool)
    ensures
        r == occurs_in(hay@, needle@),
{
    if needle.len() > hay.len() {
        return false;
    }
    let last: usize = hay.len() - needle.len();
    let mut i: usize = 0;
    while i <= last
        invariant
            needle@.len() <= hay@.len(),
            last == hay@.len() - needle@.len(),
            i <= last + 1,
            forall|k: int|
                0 <= k < i ==> #[trigger] hay@.subrange(k, k + needle@.len()) != needle@,
        decreases last + 1 - i,
    {
        let mut j: usize = 0;
        let mut same: bool = true;
        while j < needle.len()
            invariant
                j <= needle@.len(),
                i <= last,
                last == hay@.len() - needle@.len(),
                i + needle@.len() <= hay.len(),
                same == (forall|m: int| 0 <= m < j ==> hay@[i + m] == needle@[m]),
            decreases needle@.len() - j,
        {
            if hay[i + j] != needle[j] {
                same = false;
            }
            j += 1;
        }
        if same {
            assert(hay@.subrange(i as int, i + needle@.len()) =~= needle@);
            return true;
        }
        proof {
            let m = choose|m: int| 0 <= m < needle@.len() && hay@[i + m] != needle@[m];
            assert(hay@.subrange(i as int, i + needle@.len())[m] != needle@[m]);
        }
        if i == last {
            return false;
        }
        i += 1;
    }
    false
}

/// Substring search on strings, by their UTF-8 bytes.
pub fn contains_str(hay: &str, needle: &str) -> (r: bool)
    ensures
        r == str_contains(hay, needle),
{
    bytes_occur(hay.as_bytes(), needle.as_bytes())
}

} // verus!
