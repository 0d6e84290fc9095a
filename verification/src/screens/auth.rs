//! What the sign-in screen shows.

use vstd::prelude::*;
use crate::screens::{AuthPhase, AuthPhaseView};

verus! {

/// The progress message under the spinner, for the phases that show one.
pub open spec fn progress_message(phase: AuthPhaseView) -> Option<Seq<char>> {
    match phase {
        AuthPhaseView::RequestingCode => Some("Requesting device code…"@),
        AuthPhaseView::Polling => Some("Completing sign in…"@),
        _ => None,
    }
}

/// The progress message under the spinner, for the phases that show one.
pub fn auth_progress_message(phase: &AuthPhase) -> (r: Option<&'static str>)
    ensures
        crate::api::opt_str_view(r) == progress_message(phase@),
{
    match phase {
        AuthPhase::RequestingCode => Some("Requesting device code…"),
        AuthPhase::Polling => Some("Completing sign in…"),
        _ => None,
    }
}

} // verus!
