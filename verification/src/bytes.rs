//! Byte-string helpers: ASCII whitespace trimming (applied to the vendor
//! and model descriptors read from sysfs) and exact byte comparison.

use vstd::prelude::*;

verus! {

/// The ASCII whitespace bytes that trimming removes: space, tab, line
/// feed, vertical tab, form feed, carriage return.
pub open spec fn is_ascii_ws(b: u8) -> bool {
    b == 0x20 || b == 0x09 || b == 0x0a || b == 0x0b || b == 0x0c || b == 0x0d
}

/// Length of the longest all-whitespace prefix of `s`.
pub open spec fn ws_prefix_len(s: Seq<u8>) -> int
    decreases s.len(),
{
    if s.len() == 0 {
        0
    } else if is_ascii_ws(s[0]) {
        1 + ws_prefix_len(s.subrange(1, s.len() as int))
    } else {
        0
    }
}

/// Length of the longest all-whitespace suffix of `s`.
pub open spec fn ws_suffix_len(s: Seq<u8>) -> int
    decreases s.len(),
{
    if s.len() == 0 {
        0
    } else if is_ascii_ws(s.last()) {
        1 + ws_suffix_len(s.drop_last())
    } else {
        0
    }
}

/// `s` with every leading and trailing ASCII whitespace byte removed.
pub open spec fn trimmed(s: Seq<u8>) -> Seq<u8> {
    let lo = ws_prefix_len(s);
    if lo == s.len() {
        Seq::empty()
    } else {
        s.subrange(lo, s.len() - ws_suffix_len(s))
    }
}

proof fn lemma_ws_prefix_len_is(s: Seq<u8>, n: int)
    requires
        0 <= n <= s.len(),
        forall|k: int| 0 <= k < n ==> is_ascii_ws(s[k]),
        n < s.len() ==> !is_ascii_ws(s[n]),
    ensures
        ws_prefix_len(s) == n,
    decreases s.len(),
{
    if s.len() > 0 && is_ascii_ws(s[0]) {
        let t = s.subrange(1, s.len() as int);
        assert(forall|k: int| 0 <= k < n - 1 ==> is_ascii_ws(t[k]));
        lemma_ws_prefix_len_is(t, n - 1);
    }
}

proof fn lemma_ws_suffix_len_is(s: Seq<u8>, n: int)
    requires
        0 <= n <= s.len(),
        forall|k: int| s.len() - n <= k < s.len() ==> is_ascii_ws(s[k]),
        n < s.len() ==> !is_ascii_ws(s[s.len() - n - 1]),
    ensures
        ws_suffix_len(s) == n,
    decreases s.len(),
{
    if s.len() > 0 && is_ascii_ws(s.last()) {
        let t = s.drop_last();
        assert(forall|k: int| t.len() - (n - 1) <= k < t.len() ==> is_ascii_ws(t[k]));
        lemma_ws_suffix_len_is(t, n - 1);
    }
}

/// Returns a copy of `v` with leading and trailing ASCII whitespace
/// removed, exactly as `trimmed` describes.
pub fn trim_ascii(v: &Vec<u8>) -> (r: Vec<u8>)
    ensures
        r@ == trimmed(v@),
{
    let n = v.len();
    let mut lo: usize = 0;
    while lo < n && is_ws_byte(v[lo])
        invariant
            n == v@.len(),
            0 <= lo <= n,
            forall|k: int| 0 <= k < lo ==> is_ascii_ws(v@[k]),
        decreases n - lo,
    {
        lo = lo + 1;
    }
    proof {
        lemma_ws_prefix_len_is(v@, lo as int);
    }
    if lo == n {
        let r: Vec<u8> = Vec::new();
        proof {
            assert(r@ =~= trimmed(v@));
        }
        return r;
    }
    let mut hi: usize = n;
    while hi > lo && is_ws_byte(v[hi - 1])
        invariant
            n == v@.len(),
            0 <= lo <= hi <= n,
            lo < n,
            !is_ascii_ws(v@[lo as int]),
            forall|k: int| hi <= k < n ==> is_ascii_ws(v@[k]),
        decreases hi,
    {
        hi = hi - 1;
    }
    proof {
        assert(hi > lo);
        lemma_ws_suffix_len_is(v@, n - hi);
    }
    let mut r: Vec<u8> = Vec::new();
    let mut i: usize = lo;
    while i < hi
        invariant
            n == v@.len(),
            lo <= i <= hi <= n,
            r@ == v@.subrange(lo as int, i as int),
        decreases hi - i,
    {
        r.push(v[i]);
        proof {
            assert(r@ =~= v@.subrange(lo as int, i + 1));
        }
        i = i + 1;
    }
    proof {
        assert(r@ =~= trimmed(v@));
    }
    r
}

/// Executable test for a single ASCII whitespace byte.
pub fn is_ws_byte(b: u8) -> (r: bool)
    ensures
        r == is_ascii_ws(b),
{
    b == 0x20 || b == 0x09 || b == 0x0a || b == 0x0b || b == 0x0c || b == 0x0d
}

/// Exact byte-for-byte equality of two byte strings.
pub fn bytes_eq(a: &Vec<u8>, b: &Vec<u8>) -> (r: bool)
    ensures
        r == (a@ == b@),
{
    if a.len() != b.len() {
        return false;
    }
    let n = a.len();
    let mut i: usize = 0;
    while i < n
        invariant
            n == a@.len() == b@.len(),
            0 <= i <= n,
            forall|k: int| 0 <= k < i ==> a@[k] == b@[k],
        decreases n - i,
    {
        if a[i] != b[i] {
            return false;
        }
        i = i + 1;
    }
    proof {
        assert(a@ =~= b@);
    }
    true
}

/// Returns a fresh copy of `v`.
pub fn copy_bytes(v: &Vec<u8>) -> (r: Vec<u8>)
    ensures
        r@ == v@,
{
    let n = v.len();
    let mut r: Vec<u8> = Vec::new();
    let mut i: usize = 0;
    while i < n
        invariant
            n == v@.len(),
            0 <= i <= n,
            r@ == v@.subrange(0, i as int),
        decreases n - i,
    {
        r.push(v[i]);
        proof {
            assert(r@ =~= v@.subrange(0, i + 1));
        }
        i = i + 1;
    }
    proof {
        assert(r@ =~= v@);
    }
    r
}

/// The first `len` bytes of `v`: the transport reports how many bytes of
/// the read buffer hold the payload, and the rest is discarded.
pub fn take_prefix(v: &Vec<u8>, len: usize) -> (r: Vec<u8>)
    requires
        len <= v@.len(),
    ensures
        r@ == v@.take(len as int),
{
    let mut r: Vec<u8> = Vec::new();
    let mut i: usize = 0;
    while i < len
        invariant
            len <= v@.len(),
            0 <= i <= len,
            r@ == v@.subrange(0, i as int),
        decreases len - i,
    {
        r.push(v[i]);
        proof {
            assert(r@ =~= v@.subrange(0, i + 1));
        }
        i = i + 1;
    }
    proof {
        assert(r@ =~= v@.take(len as int));
    }
    r
}

} // verus!
