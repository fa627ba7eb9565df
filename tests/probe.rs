use voice_bridge::probe::{mentions_input, probe_status, VoiceSystemStatus};

const LISTING: &[u8] = b"0\talsa_output.pci.monitor\tPipeWire\ts32le 2ch\tSUSPENDED\n1\talsa_input.pci.analog-stereo\tPipeWire\ts32le 2ch\tRUNNING\n";

#[test]
fn listing_with_input_source() {
    assert!(mentions_input(LISTING));
    assert!(mentions_input(b"input"));
}

#[test]
fn listing_without_input_source() {
    assert!(!mentions_input(b""));
    assert!(!mentions_input(b"inpu"));
    assert!(!mentions_input(b"0\talsa_output.monitor\n"));
    assert!(!mentions_input(b"INPUT"));
}

#[test]
fn all_present_all_true() {
    let s = probe_status(true, false, true, true, true, Some((true, LISTING.to_vec())));
    assert_eq!(
        s,
        VoiceSystemStatus {
            nerd_dictation: true,
            xdotool: true,
            vosk_model_small: true,
            vosk_model_large: true,
            microphone: true,
        }
    );
}

#[test]
fn engine_absent_others_unaffected() {
    let s = probe_status(false, false, true, false, true, Some((true, LISTING.to_vec())));
    assert!(!s.nerd_dictation);
    assert!(s.xdotool);
    assert!(!s.vosk_model_small);
    assert!(s.vosk_model_large);
    assert!(s.microphone);
}

#[test]
fn engine_found_at_fallback() {
    assert!(probe_status(false, true, false, false, false, None).nerd_dictation);
}

#[test]
fn listing_utility_unavailable() {
    let s = probe_status(true, true, true, true, true, None);
    assert!(!s.microphone);
    assert!(s.nerd_dictation && s.xdotool && s.vosk_model_small && s.vosk_model_large);
}

#[test]
fn failing_listing_means_no_microphone() {
    let s = probe_status(true, false, true, true, true, Some((false, LISTING.to_vec())));
    assert!(!s.microphone);
    assert!(s.nerd_dictation && s.xdotool && s.vosk_model_small && s.vosk_model_large);
}
