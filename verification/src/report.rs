//! Pieces of the run report: token totals and the notification subject.

use vstd::prelude::*;
use crate::text::{cat3, dec, fmt_u64};

verus! {

/// Token totals of a run.
pub struct TokenMetrics {
    pub input: u32,
    pub output: u32,
}

/// The subject of the result e-mail.
pub fn report_subject(status: &str, exit_code: u32) -> (r: String)
    ensures
        r@ == "Agent Report: "@ + status@ + " (exit "@ + dec(exit_code as nat) + ")"@,
{
    let mut r = cat3("Agent Report: ", status, " (exit ");
    r.append(fmt_u64(exit_code as u64).as_str());
    r.append(")");
    r
}

} // verus!
