//! Choosing a free drive letter from the set of letters already mounted.
use vstd::prelude::*;

verus! {

/// The first letter handed out; `A` and `B` stay reserved for legacy floppy drives.
pub const FIRST_CANDIDATE: u8 = 67;

/// The last letter of the alphabet, `Z`.
pub const LAST_CANDIDATE: u8 = 90;

/// A letter that may be given to a new volume: from `C` to `Z`.
pub open spec fn is_candidate(c: char) -> bool {
    'C' <= c && c <= 'Z'
}

/// `c` is a candidate letter that no mounted volume uses.
pub open spec fn is_available(mounted: Seq<char>, c: char) -> bool {
    is_candidate(c) && !mounted.contains(c)
}

/// `c` is the smallest available letter.
pub open spec fn is_first_available(mounted: Seq<char>, c: char) -> bool {
    is_available(mounted, c) && forall|d: char| 'C' <= d && d < c ==> mounted.contains(d)
}

/// Returns the first letter from `C` to `Z` that is not in `mounted`, or `None`
/// when every candidate letter is taken.
pub fn find_first_available_drive_letter(mounted: &Vec<char>) -> (r: Option<char>)
    ensures
        match r {
            Some(c) => is_first_available(mounted@, c),
            None => forall|d: char| is_candidate(d) ==> mounted@.contains(d),
        },
{
    let mut code: u8 = FIRST_CANDIDATE;
    while code <= LAST_CANDIDATE
        invariant
            FIRST_CANDIDATE <= code <= LAST_CANDIDATE + 1,
            forall|d: char| 'C' <= d && d < (code as char) ==> mounted@.contains(d),
        decreases LAST_CANDIDATE + 1 - code,
    {
        let c = code as char;
        if !contains_letter(mounted, c) {
            return Some(c);
        }
        code = code + 1;
    }
    None
}

/// Whether `c` occurs in `letters`.
fn contains_letter(letters: &Vec<char>, c: char) -> (r: bool)
    ensures
        r == letters@.contains(c),
{
    let mut i: usize = 0;
    while i < letters.len()
        invariant
            i <= letters.len(),
            forall|j: int| 0 <= j < i ==> letters@[j] != c,
        decreases letters.len() - i,
    {
        if letters[i] == c {
            return true;
        }
        i = i + 1;
    }
    false
}

} // verus!
