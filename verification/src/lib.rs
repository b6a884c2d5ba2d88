//! The authentication and session-lifecycle core: password hashing and
//! verification, signed session tokens, a token-revocation registry, a
//! one-time two-factor challenge store, and the flows that tie them together.
//! Everything that does I/O — HTTP, the network-backed store variants, the
//! clock — stays outside and hands plain values in.

pub mod app_state;
pub mod collections;
pub mod domain;
pub mod routes;
pub mod services;
pub mod utils;

use vstd::prelude::*;

verus! {

/// The JSON error body: a human-readable message and nothing else.
#[derive(Debug)]
pub struct ErrorResponse {
    pub error: String,
}

/// The separator framing a rendered error report.
pub open spec fn spec_report_separator() -> Seq<char> {
    "\n---------------------------------------------\n"@
}

/// The rendered causes, oldest last, each under a `Caused by:` heading.
pub open spec fn spec_report_causes(causes: Seq<String>) -> Seq<char>
    decreases causes.len(),
{
    if causes.len() == 0 {
        Seq::empty()
    } else {
        spec_report_causes(causes.drop_last()) + "\nCaused by:\n\n"@ + causes.last()@
    }
}

/// The full report for an error and its chain of causes.
pub open spec fn spec_report(error: Seq<char>, causes: Seq<String>) -> Seq<char> {
    spec_report_separator() + error + "\n"@ + spec_report_causes(causes) + "\n"@
        + spec_report_separator()
}

/// Renders an error and its chain of causes as one framed report, ready to
/// be logged.
pub fn log_error_chain(error: &str, causes: &Vec<String>) -> (r: String)
    ensures
        r@ == spec_report(error@, causes@),
{
    let mut report = String::from_str("\n---------------------------------------------\n");
    report.append(error);
    report.append("\n");

    let len: usize = causes.len();
    let mut i: usize = 0;
    while i < len
        invariant
            0 <= i <= len,
            len == causes@.len(),
            report@ == spec_report_separator() + error@ + "\n"@ + spec_report_causes(
                causes@.take(i as int),
            ),
        decreases len - i,
    {
        proof {
            assert(causes@.take(i + 1).drop_last() =~= causes@.take(i as int));
            assert(causes@.take(i + 1).last() == causes@[i as int]);
        }
        report.append("\nCaused by:\n\n");
        report.append(causes[i].as_str());
        i = i + 1;
    }
    proof {
        assert(causes@.take(len as int) =~= causes@);
    }

    report.append("\n");
    report.append("\n---------------------------------------------\n");
    report
}

} // verus!
