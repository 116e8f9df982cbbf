//! Handing a string from owner to owner: each move leaves the text as it was.

use vstd::prelude::*;
use vstd::string::StringExecFns;

verus! {

/// The text that `ownership_transfer_func` sends on its way.
pub const GREETING: &'static str = "hello";

/// What every report of `take_ownership` begins with.
pub const REPORT_PREFIX: &'static str = "The string is: ";

/// Takes `s` for good and gives back the line that reports it: the prefix, then the text.
pub fn take_ownership(s: String) -> (line: String)
    ensures
        line@ == REPORT_PREFIX@ + s@,
{
    let mut line = REPORT_PREFIX.to_owned();
    line.append(s.as_str());
    line
}

/// Makes the greeting, moves it to a second owner and from there into `take_ownership`, and
/// gives back the line that reports it.
pub fn ownership_transfer_func() -> (line: String)
    ensures
        line@ == REPORT_PREFIX@ + GREETING@,
{
    let string_1 = GREETING.to_owned();
    let string_2 = string_1;
    take_ownership(string_2)
}

} // verus!
