//! Reading tokens out of input lines: single-character token matching
//! and 32-bit integer parsing.

use vstd::prelude::*;

verus! {

use vstd::string::StrSliceExecFns;

/// What `str::parse::<i32>` reads out of a line: a 32-bit integer when
/// the line is a well-formed decimal integer literal in range, nothing
/// otherwise.  The result depends on the characters alone.
pub uninterp spec fn parsed_i32(s: Seq<char>) -> Option<i32>;

/// Relies on `str::parse::<i32>`: parses a decimal integer literal,
/// failing on malformed or out-of-range input.
#[verifier::external_body]
pub(crate) fn parse_i32(s: &str) -> (r: Option<i32>)
    ensures
        r == parsed_i32(s@),
{
    s.parse::<i32>().ok()
}

/// Whether the line consists of exactly the character `c`.
pub fn line_is(s: &str, c: char) -> (r: bool)
    ensures
        r == (s@ =~= seq![c]),
{
    if s.unicode_len() == 1 {
        let got = s.get_char(0);
        proof {
            if got == c {
                assert(s@ =~= seq![c]);
            } else {
                assert(s@[0] != seq![c][0]);
            }
        }
        got == c
    } else {
        false
    }
}

} // verus!
