//! A verified core for a small HTTP relay: it turns a caller's prompt into
//! the JSON payload of a generative-language request, and turns the
//! upstream's status and body into the relay's own result.
//!
//! The relay has one consistent behaviour: every prompt is prefixed with the
//! fixed paraphrase instruction of [`payload::instruction_text`], and the
//! extracted upstream text loses its last two characters, clamped to the
//! empty string when fewer than two are there ([`relay::trim_last_two`]).
//! The network itself stays with the caller: the library prepares the one
//! outbound request and interprets what came back.

use vstd::prelude::*;

pub mod json;
pub mod payload;
pub mod relay;
pub mod text;

verus! {

/// An upstream HTTP status counts as success exactly when it lies in the
/// 2xx range.
pub open spec fn spec_status_is_success(status: u16) -> bool {
    200 <= status <= 299
}

/// Executable test for the 2xx success range.
pub fn status_is_success(status: u16) -> (r: bool)
    ensures
        r == spec_status_is_success(status),
{
    200 <= status && status <= 299
}

} // verus!
