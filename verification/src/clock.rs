//! The local time, as the name of a generation's directory.

use vstd::prelude::*;
use crate::decimal::is_digit;

verus! {

/// The shape of a directory stamp: the year, two digits each for month and
/// day, an underscore, and two digits each for hour, minute and second.
/// The year has four digits; only a year outside 0 to 9999 is written with
/// a sign and as many digits as it takes, at least four.
pub open spec fn is_local_stamp(s: Seq<char>) -> bool {
    let n = s.len() as int;
    &&& n >= 15
    &&& s[n - 7] == '_'
    &&& forall|i: int| 1 <= i < n && i != n - 7 ==> is_digit(#[trigger] s[i])
    &&& if is_digit(s[0]) {
        n == 15
    } else {
        (s[0] == '+' || s[0] == '-') && n >= 16
    }
}

/// The local time of this moment, to the second, as a directory stamp.
///
/// Calls `chrono::Local::now()` and formats the time with chrono's
/// `DateTime::format` and the pattern `%Y%m%d_%H%M%S`. The contract claims
/// of chrono only the shape of the text: `%Y` writes a year from 0 to 9999
/// with exactly four digits and any other year with a sign and at least four
/// digits, each of the other five fields is written with two digits, and the
/// underscore stands as it is. Which time is read is left open: two calls
/// may differ. Like `Local::now()` itself, the call panics where chrono
/// cannot make a local date of the system clock: a clock that stands before
/// 1970 or beyond the dates chrono can hold, or a zone without an offset.
#[verifier::external_body]
pub(crate) fn local_stamp() -> (stamp: String)
    ensures
        is_local_stamp(stamp@),
{
    chrono::Local::now().format("%Y%m%d_%H%M%S").to_string()
}

} // verus!
