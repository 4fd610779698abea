//! The order of calls between a host and an adapter transaction.
//!
//! A transaction receives the virgin body and sends the adapted body, and
//! keeps where it stands with each in a [`State`].
use vstd::prelude::*;
use crate::adapter::transaction::AdapterCall;

verus! {

/// Where a transaction stands with one of the two bodies.
#[derive(Debug, Copy, Clone, PartialEq, Eq, Structural)]
pub enum State {
    /// Nothing was decided yet.
    Undecided,
    /// The body is being made.
    On,
    /// The body was made, as far as it will be.
    Complete,
    /// There will be no body.
    Never,
}

/// Where a transaction stands with both bodies.
pub struct Tracks {
    pub receiving: State,
    pub sending: State,
}

/// What a transaction stands at: where it is with the two bodies, and the
/// byte strings that it holds. What a transaction takes and does next
/// goes by this alone.
pub struct Standing {
    pub tracks: Tracks,
    pub data: Seq<Seq<u8>>,
}

/// May the host make this call, by the order of the protocol?
///
/// `start` comes first, and once. The adapted body is discarded or made
/// only while nothing was decided about it, and made only where the virgin
/// message has a body that is or was received. The host asks for adapted
/// content only while it is made, and reports on virgin content only while
/// it is received.
pub open spec fn legal(tracks: Tracks, call: AdapterCall, virgin_has_body: bool) -> bool {
    match call {
        AdapterCall::Start => tracks.receiving == State::Undecided && tracks.sending
            == State::Undecided,
        AdapterCall::Stop => true,
        AdapterCall::Resume => tracks.receiving != State::Undecided,
        AdapterCall::AdaptedBodyDiscard => tracks.sending == State::Undecided && tracks.receiving
            != State::Undecided,
        AdapterCall::AdaptedBodyMake => tracks.sending == State::Undecided && virgin_has_body && (
        tracks.receiving == State::On || tracks.receiving == State::Complete),
        AdapterCall::AdaptedBodyMakeMore => tracks.sending == State::On && tracks.receiving
            == State::On,
        AdapterCall::AdaptedBodyStopMaking => tracks.sending == State::On,
        AdapterCall::AdaptedBodyPause => tracks.sending == State::On,
        AdapterCall::AdaptedBodyResume => tracks.sending == State::On,
        AdapterCall::AdaptedBodyContent { .. } => tracks.sending == State::On,
        AdapterCall::AdaptedBodyContentShift { .. } => tracks.sending == State::On,
        AdapterCall::VirginBodyContentDone { .. } => tracks.receiving == State::On,
        AdapterCall::VirginBodyContentAvailable => tracks.receiving == State::On,
    }
}

/// Once the adapted body is being made, the host may not ask to make it
/// again, nor to discard it.
pub proof fn lemma_adapted_body_made_once(tracks: Tracks, virgin_has_body: bool)
    requires
        tracks.sending != State::Undecided,
    ensures
        !legal(tracks, AdapterCall::AdaptedBodyMake, virgin_has_body),
        !legal(tracks, AdapterCall::AdaptedBodyDiscard, virgin_has_body),
{
}

/// Where a transaction stands after `calls`, made in order on a
/// transaction that stood at `start` and that moves by `next`.
pub open spec fn tracks_after(
    next: spec_fn(Tracks, AdapterCall, bool) -> Tracks,
    start: Tracks,
    calls: Seq<AdapterCall>,
    virgin_has_body: bool,
) -> Tracks
    decreases calls.len(),
{
    if calls.len() == 0 {
        start
    } else {
        next(
            tracks_after(next, start, calls.drop_last(), virgin_has_body),
            calls.last(),
            virgin_has_body,
        )
    }
}

/// Does the host keep to the order of the protocol in `calls`, with a
/// transaction that stood at `start` and that moves by `next`?
pub open spec fn legal_run(
    next: spec_fn(Tracks, AdapterCall, bool) -> Tracks,
    start: Tracks,
    calls: Seq<AdapterCall>,
    virgin_has_body: bool,
) -> bool {
    forall|i: int|
        0 <= i < calls.len() ==> legal(
            #[trigger] tracks_after(next, start, calls.subrange(0, i), virgin_has_body),
            calls[i],
            virgin_has_body,
        )
}

/// A transaction for which nothing is decided.
pub open spec fn undecided() -> Tracks {
    Tracks { receiving: State::Undecided, sending: State::Undecided }
}

} // verus!
