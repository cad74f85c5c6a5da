//! ASCII-case-insensitive keyword comparison for configuration strings.
use vstd::prelude::*;
use vstd::string::*;

verus! {

/// ASCII case folding of one character; non-ASCII characters are unchanged.
pub open spec fn lowerChar(c: char) -> char {
    if 'A' <= c && c <= 'Z' {
        ((c as u8) + 32) as char
    } else {
        c
    }
}

/// ASCII case folding of a whole character sequence.
pub open spec fn lowerChars(s: Seq<char>) -> Seq<char> {
    s.map_values(|c: char| lowerChar(c))
}

/// Fold one character to lower case.
pub fn lowerCharExec(c: char) -> (r: char)
    ensures
        r == lowerChar(c),
{
    if 'A' <= c && c <= 'Z' {
        ((c as u8) + 32) as char
    } else {
        c
    }
}

/// Compare two strings ignoring ASCII case, the way configuration keywords
/// are matched.
pub fn eqIgnoreAsciiCase(a: &str, b: &str) -> (r: bool)
    ensures
        r == (lowerChars(a@) == lowerChars(b@)),
{
    let alen = a.unicode_len();
    let blen = b.unicode_len();
    if alen != blen {
        proof {
            assert(lowerChars(a@).len() != lowerChars(b@).len());
        }
        return false;
    }
    let mut i: usize = 0;
    while i < alen
        invariant
            alen == a@.len(),
            alen == b@.len(),
            i <= alen,
            forall|k: int| 0 <= k < i ==> lowerChar(a@[k]) == lowerChar(b@[k]),
        decreases alen - i,
    {
        let ca = lowerCharExec(a.get_char(i));
        let cb = lowerCharExec(b.get_char(i));
        if ca != cb {
            proof {
                assert(lowerChars(a@)[i as int] != lowerChars(b@)[i as int]);
            }
            return false;
        }
        i = i + 1;
    }
    proof {
        assert(lowerChars(a@) =~= lowerChars(b@));
    }
    true
}


/// Exact equality of two strings.
pub fn stringsEqual(a: &String, b: &String) -> (r: bool)
    ensures
        r == (a@ == b@),
{
    *a == *b
}

} // verus!
