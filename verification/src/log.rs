//! Lines of the debug log.

use vstd::prelude::*;

use crate::text::{dec_nat, fmt_u64};

verus! {

/// The log line for `msg` written at `timestamp` (seconds since the Unix
/// epoch): `[timestamp] msg` and a line break.
pub fn log(timestamp: u64, msg: &str) -> (r: String)
    ensures
        r@ == "["@ + dec_nat(timestamp as nat) + "] "@ + msg@ + "\n"@,
{
    let mut r = "[".to_owned();
    let stamp = fmt_u64(timestamp);
    r.append(stamp.as_str());
    r.append("] ");
    r.append(msg);
    r.append("\n");
    r
}

} // verus!
