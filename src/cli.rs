//! Decisions of the command line: the body side named by an argument, and
//! which recording files are tests.
use vstd::prelude::*;
use vstd::string::StrSliceExecFns;
use crate::anatomy::Side;

verus! {

/// What `str::to_lowercase` returns for a string.
pub uninterp spec fn lower_of(s: Seq<char>) -> Seq<char>;

/// Relies on str::to_lowercase: the result depends on the characters alone.
#[verifier::external_body]
fn lowercase(s: &str) -> (r: String)
    ensures
        r@ == lower_of(s@),
{
    s.to_lowercase()
}

/// The side that a lower-case argument names: "r" or "right", "l" or "left".
pub open spec fn side_named(s: Seq<char>) -> Option<Side> {
    if s == seq!['r'] || s == seq!['r', 'i', 'g', 'h', 't'] {
        Some(Side::Right)
    } else if s == seq!['l'] || s == seq!['l', 'e', 'f', 't'] {
        Some(Side::Left)
    } else {
        None
    }
}

/// Whether the characters of `s` are those of `t`.
fn same_chars(s: &str, t: &str) -> (r: bool)
    ensures
        r == (s@ == t@),
{
    let n = s.unicode_len();
    if n != t.unicode_len() {
        return false;
    }
    let mut i: usize = 0;
    while i < n
        invariant
            n == s@.len(),
            n == t@.len(),
            i <= n,
            forall|k: int| 0 <= k < i ==> s@[k] == t@[k],
        decreases n - i,
    {
        if s.get_char(i) != t.get_char(i) {
            return false;
        }
        i = i + 1;
    }
    proof {
        assert(s@ =~= t@);
    }
    true
}

/// The side named by an argument that is already in lower case.
pub fn side_from_lowered(s: &str) -> (r: Option<Side>)
    ensures
        r == side_named(s@),
{
    proof {
        reveal_strlit("r");
        reveal_strlit("right");
        reveal_strlit("l");
        reveal_strlit("left");
        assert("r"@ =~= seq!['r']);
        assert("right"@ =~= seq!['r', 'i', 'g', 'h', 't']);
        assert("l"@ =~= seq!['l']);
        assert("left"@ =~= seq!['l', 'e', 'f', 't']);
    }
    if same_chars(s, "r") || same_chars(s, "right") {
        Some(Side::Right)
    } else if same_chars(s, "l") || same_chars(s, "left") {
        Some(Side::Left)
    } else {
        None
    }
}

/// The side named by a command-line argument, in any case.
pub fn parse_side(arg: &str) -> (r: Option<Side>)
    ensures
        r == side_named(lower_of(arg@)),
{
    let lowered = lowercase(arg);
    side_from_lowered(lowered.as_str())
}

/// `s` holds "FE" somewhere.
pub open spec fn holds_fe(s: Seq<char>) -> bool {
    exists|i: int| 0 <= i && i + 1 < s.len() && #[trigger] s[i] == 'F' && s[i + 1] == 'E'
}

/// Whether a file name is that of a test recording: it contains "FE".
pub fn is_test_file(name: &str) -> (r: bool)
    ensures
        r == holds_fe(name@),
{
    let n = name.unicode_len();
    let mut i: usize = 0;
    while i < n
        invariant
            n == name@.len(),
            i <= n,
            forall|k: int| 0 <= k < i && k + 1 < n ==> !(#[trigger] name@[k] == 'F' && name@[k + 1] == 'E'),
        decreases n - i,
    {
        if i + 1 < n && name.get_char(i) == 'F' && name.get_char(i + 1) == 'E' {
            return true;
        }
        i = i + 1;
    }
    false
}

} // verus!
