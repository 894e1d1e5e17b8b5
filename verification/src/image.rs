//! The fetch pipeline an image job runs on the data lane: disk cache
//! first, network on a miss, then decode — with a special-cased decoder for
//! the one container format the primary decoder does not handle.
//!
//! The blocking reads, the GET and the decoders live with the worker; the
//! pipeline's decisions are here, as a step function from state and
//! observed event to next state and action.

use vstd::prelude::*;

verus! {

/// Where an image fetch job stands.
#[derive(Clone, Copy, PartialEq, Eq, Structural, Debug)]
pub enum FetchStep {
    /// Look for the asset's bytes in the disk cache.
    ReadDisk,
    /// Cache miss: GET the asset's URL.
    Network,
    /// Bytes in hand: guess the image container format.
    GuessFormat,
    /// Decode with the primary decoder.
    DecodePrimary,
    /// Decode with the special-cased container decoder.
    DecodeWebp,
    /// The job is over; send `(id, texture)` on success, `(id, nothing)`
    /// otherwise.
    Done { ok: bool },
}

/// What the worker observed while performing the current step.
#[derive(Clone, Copy, PartialEq, Eq, Structural, Debug)]
pub enum FetchEvent {
    /// The disk cache held the bytes.
    DiskHit,
    /// The disk cache had nothing (or could not be read).
    DiskMiss,
    /// The GET returned with this status code.
    NetResponse { status: u16 },
    /// The GET could not be sent or failed outright.
    NetFailed,
    /// The bytes are in the special-cased container format.
    FormatWebp,
    /// The bytes are in a format the primary decoder handles.
    FormatOther,
    /// The format could not be guessed.
    FormatUnknown,
    /// The decoder produced an image.
    DecodeOk,
    /// The decoder failed.
    DecodeFailed,
}

/// Whether an event can be observed in a state.
pub open spec fn fetch_event_fits(s: FetchStep, e: FetchEvent) -> bool {
    match s {
        FetchStep::ReadDisk => e is DiskHit || e is DiskMiss,
        FetchStep::Network => e matches FetchEvent::NetResponse { .. } || e is NetFailed,
        FetchStep::GuessFormat => e is FormatWebp || e is FormatOther || e is FormatUnknown,
        FetchStep::DecodePrimary => e is DecodeOk || e is DecodeFailed,
        FetchStep::DecodeWebp => e is DecodeOk || e is DecodeFailed,
        FetchStep::Done { .. } => false,
    }
}

/// Whether a status code reports success.
pub open spec fn spec_status_ok(status: u16) -> bool {
    200 <= status < 300
}

/// The request status check the pipeline applies to a GET response.
pub fn status_indicates_success(status: u16) -> (r: bool)
    ensures
        r == spec_status_ok(status),
{
    200 <= status && status < 300
}

/// The pipeline's transition function: next state, and whether the bytes
/// just obtained must be persisted to the disk cache (best-effort, only
/// after a successful network fetch).
pub open spec fn spec_fetch_step(s: FetchStep, e: FetchEvent) -> (FetchStep, bool) {
    match (s, e) {
        (FetchStep::ReadDisk, FetchEvent::DiskHit) => (FetchStep::GuessFormat, false),
        (FetchStep::ReadDisk, FetchEvent::DiskMiss) => (FetchStep::Network, false),
        (FetchStep::Network, FetchEvent::NetResponse { status }) => if spec_status_ok(status) {
            (FetchStep::GuessFormat, true)
        } else {
            (FetchStep::Done { ok: false }, false)
        },
        (FetchStep::Network, FetchEvent::NetFailed) => (FetchStep::Done { ok: false }, false),
        (FetchStep::GuessFormat, FetchEvent::FormatWebp) => (FetchStep::DecodeWebp, false),
        (FetchStep::GuessFormat, FetchEvent::FormatOther) => (FetchStep::DecodePrimary, false),
        (FetchStep::GuessFormat, FetchEvent::FormatUnknown) => (
            FetchStep::Done { ok: false },
            false,
        ),
        (FetchStep::DecodePrimary, FetchEvent::DecodeOk) => (FetchStep::Done { ok: true }, false),
        (FetchStep::DecodePrimary, FetchEvent::DecodeFailed) => (
            FetchStep::Done { ok: false },
            false,
        ),
        (FetchStep::DecodeWebp, FetchEvent::DecodeOk) => (FetchStep::Done { ok: true }, false),
        (FetchStep::DecodeWebp, FetchEvent::DecodeFailed) => (
            FetchStep::Done { ok: false },
            false,
        ),
        _ => (s, false),
    }
}

/// How many steps a state is from `Done` at most.
pub open spec fn fetch_measure(s: FetchStep) -> int {
    match s {
        FetchStep::ReadDisk => 4,
        FetchStep::Network => 3,
        FetchStep::GuessFormat => 2,
        FetchStep::DecodePrimary => 1,
        FetchStep::DecodeWebp => 1,
        FetchStep::Done { .. } => 0,
    }
}

/// Every step brings the pipeline strictly closer to `Done`: a fetch job
/// ends after at most four observations, whatever they are.
pub proof fn lemma_fetch_terminates(s: FetchStep, e: FetchEvent)
    requires
        fetch_event_fits(s, e),
    ensures
        fetch_measure(spec_fetch_step(s, e).0) < fetch_measure(s),
{
}

/// The state an image fetch job begins in.
pub fn fetch_start() -> (s: FetchStep)
    ensures
        s == FetchStep::ReadDisk,
{
    FetchStep::ReadDisk
}

/// Advance the pipeline by one observation.
pub fn fetch_step(s: FetchStep, e: FetchEvent) -> (r: (FetchStep, bool))
    requires
        fetch_event_fits(s, e),
    ensures
        r == spec_fetch_step(s, e),
{
    match (s, e) {
        (FetchStep::ReadDisk, FetchEvent::DiskHit) => (FetchStep::GuessFormat, false),
        (FetchStep::ReadDisk, FetchEvent::DiskMiss) => (FetchStep::Network, false),
        (FetchStep::Network, FetchEvent::NetResponse { status }) => {
            if status_indicates_success(status) {
                (FetchStep::GuessFormat, true)
            } else {
                (FetchStep::Done { ok: false }, false)
            }
        },
        (FetchStep::Network, FetchEvent::NetFailed) => (FetchStep::Done { ok: false }, false),
        (FetchStep::GuessFormat, FetchEvent::FormatWebp) => (FetchStep::DecodeWebp, false),
        (FetchStep::GuessFormat, FetchEvent::FormatOther) => (FetchStep::DecodePrimary, false),
        (FetchStep::GuessFormat, FetchEvent::FormatUnknown) => (
            FetchStep::Done { ok: false },
            false,
        ),
        (FetchStep::DecodePrimary, FetchEvent::DecodeOk) => (FetchStep::Done { ok: true }, false),
        (FetchStep::DecodePrimary, FetchEvent::DecodeFailed) => (
            FetchStep::Done { ok: false },
            false,
        ),
        (FetchStep::DecodeWebp, FetchEvent::DecodeOk) => (FetchStep::Done { ok: true }, false),
        (FetchStep::DecodeWebp, FetchEvent::DecodeFailed) => (
            FetchStep::Done { ok: false },
            false,
        ),
        _ => (s, false),
    }
}

} // verus!
