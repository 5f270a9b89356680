//! Character-level helpers on strings.

use vstd::prelude::*;
use vstd::string::StrSliceExecFns;

verus! {

/// Whether a character has the Unicode `White_Space` property.
pub open spec fn whitespace_char(c: char) -> bool {
    let u = c as u32;
    (0x09 <= u <= 0x0D) || u == 0x20 || u == 0x85 || u == 0xA0 || u == 0x1680 || (0x2000 <= u
        <= 0x200A) || u == 0x2028 || u == 0x2029 || u == 0x202F || u == 0x205F || u == 0x3000
}

/// Tells whether `c` has the Unicode `White_Space` property.
pub fn is_whitespace(c: char) -> (r: bool)
    ensures
        r == whitespace_char(c),
{
    let u = c as u32;
    (0x09 <= u && u <= 0x0D) || u == 0x20 || u == 0x85 || u == 0xA0 || u == 0x1680 || (0x2000 <= u
        && u <= 0x200A) || u == 0x2028 || u == 0x2029 || u == 0x202F || u == 0x205F || u == 0x3000
}

/// A text is blank when trimming whitespace from it leaves nothing.
pub open spec fn blank(s: Seq<char>) -> bool {
    forall|i: int| 0 <= i < s.len() ==> #[trigger] whitespace_char(s[i])
}

/// Tells whether `s` holds nothing but whitespace (the empty text included).
pub fn is_blank(s: &str) -> (r: bool)
    ensures
        r == blank(s@),
{
    let n = s.unicode_len();
    let mut i: usize = 0;
    while i < n
        invariant
            n == s@.len(),
            i <= n,
            forall|j: int| 0 <= j < i ==> #[trigger] whitespace_char(s@[j]),
        decreases n - i,
    {
        if !is_whitespace(s.get_char(i)) {
            return false;
        }
        i = i + 1;
    }
    true
}

/// Compares two texts character by character.
pub fn same_text(a: &str, b: &str) -> (r: bool)
    ensures
        r == (a@ == b@),
{
    let n = a.unicode_len();
    if n != b.unicode_len() {
        return false;
    }
    let mut i: usize = 0;
    while i < n
        invariant
            n == a@.len(),
            n == b@.len(),
            i <= n,
            forall|j: int| 0 <= j < i ==> a@[j] == b@[j],
        decreases n - i,
    {
        if a.get_char(i) != b.get_char(i) {
            return false;
        }
        i = i + 1;
    }
    assert(a@ =~= b@);
    true
}

} // verus!
