//! Deterministic article identifiers: a 64-bit FNV-1a content hash of an
//! item's link, title and timestamp text, rendered as a fixed-width
//! 16-digit hexadecimal string.

use vstd::prelude::*;
use vstd::string::StrSliceExecFns;
use vstd::string::StringExecFns;

verus! {

pub const FNV_OFFSET: u64 = 0xcbf29ce484222325;

pub const FNV_PRIME: u64 = 0x100000001b3;

/// One FNV-1a round: fold one character into the running state.
pub open spec fn fnv_step(h: u64, c: char) -> u64 {
    vstd::wrapping::u64_specs::wrapping_mul(h ^ (c as u64), FNV_PRIME)
}

/// FNV-1a state after folding every character of `s` into `h`, in order.
pub open spec fn fnv_fold(h: u64, s: Seq<char>) -> u64
    decreases s.len(),
{
    if s.len() == 0 {
        h
    } else {
        fnv_step(fnv_fold(h, s.drop_last()), s.last())
    }
}

/// Folding a concatenation is folding the parts one after the other.
pub proof fn lemma_fnv_fold_concat(h: u64, a: Seq<char>, b: Seq<char>)
    ensures
        fnv_fold(h, a + b) == fnv_fold(fnv_fold(h, a), b),
    decreases b.len(),
{
    if b.len() == 0 {
        assert(a + b =~= a);
    } else {
        lemma_fnv_fold_concat(h, a, b.drop_last());
        assert((a + b).drop_last() =~= a + b.drop_last());
        assert((a + b).last() == b.last());
    }
}

/// The hexadecimal digit of the nibble of `h` that the digit at position `i`
/// of the rendered string shows (most significant nibble first).
pub open spec fn nibble(h: u64, i: int) -> u64 {
    (h >> (((15 - i) * 4) as u64)) & 0xf
}

pub open spec fn hex_digit_char(d: u64) -> char {
    if d == 0 {
        '0'
    } else if d == 1 {
        '1'
    } else if d == 2 {
        '2'
    } else if d == 3 {
        '3'
    } else if d == 4 {
        '4'
    } else if d == 5 {
        '5'
    } else if d == 6 {
        '6'
    } else if d == 7 {
        '7'
    } else if d == 8 {
        '8'
    } else if d == 9 {
        '9'
    } else if d == 10 {
        'a'
    } else if d == 11 {
        'b'
    } else if d == 12 {
        'c'
    } else if d == 13 {
        'd'
    } else if d == 14 {
        'e'
    } else {
        'f'
    }
}

/// The 16-character lower-case hexadecimal rendering of a 64-bit value.
pub open spec fn hex16(h: u64) -> Seq<char> {
    Seq::new(16, |i: int| hex_digit_char(nibble(h, i)))
}

/// The identifier derived for an item with the given link, title and
/// timestamp text: the hash of their concatenation, rendered in hex.
pub open spec fn id_spec(link: Seq<char>, title: Seq<char>, stamp: Seq<char>) -> Seq<char> {
    hex16(fnv_fold(FNV_OFFSET, link + title + stamp))
}

/// Fold every character of `s` into the state `h`.
fn fnv_push_str(h: u64, s: &str) -> (r: u64)
    ensures
        r == fnv_fold(h, s@),
{
    let n = s.unicode_len();
    let mut cur = h;
    let mut i: usize = 0;
    while i < n
        invariant
            n == s@.len(),
            0 <= i <= n,
            cur == fnv_fold(h, s@.subrange(0, i as int)),
        decreases n - i,
    {
        let c = s.get_char(i);
        cur = (cur ^ (c as u64)).wrapping_mul(FNV_PRIME);
        proof {
            assert(s@.subrange(0, i + 1).drop_last() =~= s@.subrange(0, i as int));
            assert(s@.subrange(0, i + 1).last() == s@[i as int]);
        }
        i = i + 1;
    }
    proof {
        assert(s@.subrange(0, n as int) =~= s@);
    }
    cur
}

/// Render the final 64-bit hash state as its fixed-width hexadecimal string.
pub fn finish(h: u64) -> (r: String)
    ensures
        r@ == hex16(h),
{
    let mut out = String::new();
    let mut i: usize = 0;
    while i < 16
        invariant
            0 <= i <= 16,
            out@ =~= hex16(h).subrange(0, i as int),
        decreases 16 - i,
    {
        let sh: u64 = (15 - (i as u64)) * 4;
        let d: u64 = (h >> sh) & 0xf;
        assert((h >> sh) & 0xf < 16) by (bit_vector);
        let c: &str = if d == 0 {
            "0"
        } else if d == 1 {
            "1"
        } else if d == 2 {
            "2"
        } else if d == 3 {
            "3"
        } else if d == 4 {
            "4"
        } else if d == 5 {
            "5"
        } else if d == 6 {
            "6"
        } else if d == 7 {
            "7"
        } else if d == 8 {
            "8"
        } else if d == 9 {
            "9"
        } else if d == 10 {
            "a"
        } else if d == 11 {
            "b"
        } else if d == 12 {
            "c"
        } else if d == 13 {
            "d"
        } else if d == 14 {
            "e"
        } else {
            "f"
        };
        proof {
            reveal_strlit("0");
            reveal_strlit("1");
            reveal_strlit("2");
            reveal_strlit("3");
            reveal_strlit("4");
            reveal_strlit("5");
            reveal_strlit("6");
            reveal_strlit("7");
            reveal_strlit("8");
            reveal_strlit("9");
            reveal_strlit("a");
            reveal_strlit("b");
            reveal_strlit("c");
            reveal_strlit("d");
            reveal_strlit("e");
            reveal_strlit("f");
            assert(d == nibble(h, i as int));
            assert(c@.len() == 1 && c@[0] == hex_digit_char(d));
        }
        out.append(c);
        i = i + 1;
    }
    proof {
        assert(out@ =~= hex16(h));
    }
    out
}

/// The identifier for an item with the given link, title and timestamp text.
/// Identical inputs always yield the identical identifier.
pub fn article_id(link: &str, title: &str, stamp: &str) -> (r: String)
    ensures
        r@ == id_spec(link@, title@, stamp@),
{
    let mut h = FNV_OFFSET;
    h = fnv_push_str(h, link);
    h = fnv_push_str(h, title);
    h = fnv_push_str(h, stamp);
    proof {
        lemma_fnv_fold_concat(FNV_OFFSET, link@, title@);
        lemma_fnv_fold_concat(FNV_OFFSET, link@ + title@, stamp@);
        assert(link@ + title@ + stamp@ =~= (link@ + title@) + stamp@);
    }
    finish(h)
}

/// The identifier assigned to an item is a pure function of its link, title
/// and timestamp text: two items that agree on those three fields receive
/// the same identifier, on any run and whatever else they hold.
pub proof fn lemma_id_deterministic(
    l1: Seq<char>,
    t1: Seq<char>,
    s1: Seq<char>,
    l2: Seq<char>,
    t2: Seq<char>,
    s2: Seq<char>,
)
    requires
        l1 == l2,
        t1 == t2,
        s1 == s2,
    ensures
        id_spec(l1, t1, s1) == id_spec(l2, t2, s2),
{
}

/// A content hash over an item's identifying text.
pub trait Hashable {
    /// The hash the item's identifying fields yield.
    spec fn hash_spec(&self) -> Seq<char>;

    /// Returns a 16-hex-digit (64-bit) string.
    fn hash(&self) -> (r: String)
        ensures
            r@ == self.hash_spec(),
    ;
}

} // verus!
