//! The closed set of option identifiers the callout command understands,
//! and the case-insensitive matching of received option names against
//! their canonical forms.

use vstd::prelude::*;
use vstd::string::StrSliceExecFns;

verus! {

/// Lowercases one character: an ASCII uppercase letter becomes the
/// corresponding lowercase letter, every other character is unchanged.
pub open spec fn lower_char(c: char) -> char {
    if 65 <= c as u32 && c as u32 <= 90 {
        (((c as u32) + 32) as u8) as char
    } else {
        c
    }
}

/// The character-wise lowercasing of a string of characters.
pub open spec fn lower(s: Seq<char>) -> Seq<char> {
    s.map_values(|c: char| lower_char(c))
}

/// A received option name refers to an argument exactly when its
/// lowercased form equals the argument's canonical form; the received
/// name itself is free-form text and is never compared byte-for-byte.
pub open spec fn matches_canonical(name: Seq<char>, canonical: Seq<char>) -> bool {
    lower(name) == canonical
}

/// Lowercases one character at run time.
fn to_lower(c: char) -> (r: char)
    ensures
        r == lower_char(c),
{
    let code: u32 = c as u32;
    if 65 <= code && code <= 90 {
        ((code + 32) as u8) as char
    } else {
        c
    }
}

/// The closed enumeration of option identifiers this command understands.
/// Each member has exactly one canonical lowercase textual form.
#[derive(Clone, Copy, PartialEq, Eq, Structural, Debug)]
pub enum Arguments {
    /// The `map` option: which map's callout image to fetch.
    MapName,
}

impl Arguments {
    /// The canonical lowercase text form of this argument.
    pub open spec fn canonical_spec(self) -> Seq<char> {
        match self {
            Arguments::MapName => "map"@,
        }
    }

    /// The canonical lowercase text form, as a string slice.
    pub fn canonical(self) -> (r: &'static str)
        ensures
            r@ == self.canonical_spec(),
    {
        match self {
            Arguments::MapName => "map",
        }
    }

    /// Decides whether a received option name refers to this argument:
    /// the name is lowercased and compared against the canonical form.
    pub fn matches_name(self, name: &str) -> (b: bool)
        ensures
            b == matches_canonical(name@, self.canonical_spec()),
    {
        let canonical = self.canonical();
        let n = name.unicode_len();
        if n != canonical.unicode_len() {
            proof {
                assert(lower(name@).len() == name@.len());
            }
            return false;
        }
        let mut i: usize = 0;
        while i < n
            invariant
                n == name@.len(),
                n == canonical@.len(),
                canonical@ == self.canonical_spec(),
                i <= n,
                forall|j: int| 0 <= j < i ==> lower(name@)[j] == canonical@[j],
            decreases n - i,
        {
            let c = to_lower(name.get_char(i));
            let k = canonical.get_char(i);
            if c != k {
                proof {
                    assert(lower(name@)[i as int] != canonical@[i as int]);
                }
                return false;
            }
            i = i + 1;
        }
        proof {
            assert(lower(name@) =~= canonical@);
        }
        true
    }
}

} // verus!
