//! The capability probe: five independent presence checks combined into
//! one snapshot.
use vstd::prelude::*;

verus! {

/// Which external dependencies are present on this host.
#[derive(Clone, Copy, Debug, PartialEq, Eq, Structural)]
pub struct VoiceSystemStatus {
    pub nerd_dictation: bool,
    pub xdotool: bool,
    pub vosk_model_small: bool,
    pub vosk_model_large: bool,
    pub microphone: bool,
}

/// The bytes of the word `input` start at position `i`.
pub open spec fn marker_at(b: Seq<u8>, i: int) -> bool {
    &&& 0 <= i
    &&& i + 5 <= b.len()
    &&& b[i] == 105u8
    &&& b[i + 1] == 110u8
    &&& b[i + 2] == 112u8
    &&& b[i + 3] == 117u8
    &&& b[i + 4] == 116u8
}

/// An audio source listing names an input-capable source.
pub open spec fn has_input_marker(b: Seq<u8>) -> bool {
    exists|i: int| marker_at(b, i)
}

/// The microphone is reported present only when the listing utility ran,
/// exited successfully, and its output names an input source.
pub open spec fn microphone_spec(listing: Option<(bool, Seq<u8>)>) -> bool {
    match listing {
        Some((succeeded, b)) => succeeded && has_input_marker(b),
        None => false,
    }
}

/// The snapshot made of the individual checks: the engine counts as
/// present on the search path or at its fallback location.
pub open spec fn status_spec(
    engine_on_path: bool,
    engine_at_fallback: bool,
    injector_on_path: bool,
    small_model_present: bool,
    large_model_present: bool,
    listing: Option<(bool, Seq<u8>)>,
) -> VoiceSystemStatus {
    VoiceSystemStatus {
        nerd_dictation: engine_on_path || engine_at_fallback,
        xdotool: injector_on_path,
        vosk_model_small: small_model_present,
        vosk_model_large: large_model_present,
        microphone: microphone_spec(listing),
    }
}

pub open spec fn listing_view(listing: &Option<(bool, Vec<u8>)>) -> Option<(bool, Seq<u8>)> {
    match listing {
        Some((succeeded, b)) => Some((*succeeded, b@)),
        None => None,
    }
}

/// Whether an audio source listing contains the word `input`.
pub fn mentions_input(listing: &[u8]) -> (r: bool)
    ensures
        r == has_input_marker(listing@),
{
    let n = listing.len();
    if n < 5 {
        return false;
    }
    let last = n - 5;
    let mut i: usize = 0;
    while i <= last
        invariant
            n == listing@.len(),
            last + 5 == n,
            forall|j: int| 0 <= j < i ==> !marker_at(listing@, j),
        decreases last + 1 - i,
    {
        if listing[i] == 105u8 && listing[i + 1] == 110u8 && listing[i + 2] == 112u8
            && listing[i + 3] == 117u8 && listing[i + 4] == 116u8 {
            assert(marker_at(listing@, i as int));
            return true;
        }
        i += 1;
    }
    false
}

/// Combines the individual checks into a snapshot. `listing` is whether
/// the audio source listing exited successfully and its output, or `None`
/// where the utility could not be run. A listing that could not be run or
/// that failed only makes the microphone count as absent.
pub fn probe_status(
    engine_on_path: bool,
    engine_at_fallback: bool,
    injector_on_path: bool,
    small_model_present: bool,
    large_model_present: bool,
    listing: Option<(bool, Vec<u8>)>,
) -> (r: VoiceSystemStatus)
    ensures
        r == status_spec(
            engine_on_path,
            engine_at_fallback,
            injector_on_path,
            small_model_present,
            large_model_present,
            listing_view(&listing),
        ),
{
    let microphone = match &listing {
        Some((succeeded, b)) => *succeeded && mentions_input(b.as_slice()),
        None => false,
    };
    VoiceSystemStatus {
        nerd_dictation: engine_on_path || engine_at_fallback,
        xdotool: injector_on_path,
        vosk_model_small: small_model_present,
        vosk_model_large: large_model_present,
        microphone,
    }
}

/// With every dependency present, and a successful listing that names an
/// input source, all five fields are true.
pub proof fn all_present_reports_all(listing: Seq<u8>)
    requires
        has_input_marker(listing),
    ensures
        status_spec(true, true, true, true, true, Some((true, listing))) == (VoiceSystemStatus {
            nerd_dictation: true,
            xdotool: true,
            vosk_model_small: true,
            vosk_model_large: true,
            microphone: true,
        }),
{
}

/// A missing engine makes the engine field false and changes no other
/// field: each is computed from its own check alone.
pub proof fn engine_absence_is_isolated(
    engine_on_path: bool,
    engine_at_fallback: bool,
    injector_on_path: bool,
    small_model_present: bool,
    large_model_present: bool,
    listing: Option<(bool, Seq<u8>)>,
)
    ensures
        ({
            let absent = status_spec(
                false,
                false,
                injector_on_path,
                small_model_present,
                large_model_present,
                listing,
            );
            let any = status_spec(
                engine_on_path,
                engine_at_fallback,
                injector_on_path,
                small_model_present,
                large_model_present,
                listing,
            );
            &&& !absent.nerd_dictation
            &&& absent.xdotool == any.xdotool
            &&& absent.vosk_model_small == any.vosk_model_small
            &&& absent.vosk_model_large == any.vosk_model_large
            &&& absent.microphone == any.microphone
        }),
{
}

} // verus!
