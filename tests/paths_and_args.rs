use voice_bridge::controller::injection_step;
use voice_bridge::invocation::{
    begin_args, decimal_string, end_args, inject_args, source_listing_args, RecordingConfig,
};
use voice_bridge::paths::{
    config_file, engine_fallback, first_found, model_dir, model_name, models_base,
};

fn cfg(timeout: u32, size: &str, punct: bool, digits: bool) -> RecordingConfig {
    RecordingConfig {
        timeout,
        model_size: size.to_string(),
        auto_punctuation: punct,
        numbers_as_digits: digits,
    }
}

#[test]
fn large_selector_picks_large_model() {
    assert_eq!(model_name(&"large".to_string()), "vosk-model-en-us-0.22");
}

#[test]
fn other_selectors_pick_small_model() {
    for s in ["small", "", "Large", "medium", "large ", "LARGE"] {
        assert_eq!(model_name(&s.to_string()), "vosk-model-small-en-us-0.15");
    }
}

#[test]
fn model_dirs_under_home() {
    assert_eq!(models_base("/home/ann"), "/home/ann/.local/share/vosk-models");
    assert_eq!(
        model_dir("/home/ann", &"large".to_string()),
        "/home/ann/.local/share/vosk-models/vosk-model-en-us-0.22"
    );
    assert_eq!(
        model_dir("/home/ann", &"small".to_string()),
        "/home/ann/.local/share/vosk-models/vosk-model-small-en-us-0.15"
    );
    assert_eq!(model_dir("", &"x".to_string()), "/.local/share/vosk-models/vosk-model-small-en-us-0.15");
}

#[test]
fn config_and_fallback_paths() {
    assert_eq!(config_file("/home/ann"), "/home/ann/.config/nerd-dictation/nerd-dictation.py");
    assert_eq!(engine_fallback("/home/ann"), "/home/ann/.local/bin/nerd-dictation");
}

#[test]
fn decimal_text() {
    assert_eq!(decimal_string(0), "0");
    assert_eq!(decimal_string(7), "7");
    assert_eq!(decimal_string(10), "10");
    assert_eq!(decimal_string(30), "30");
    assert_eq!(decimal_string(u32::MAX), "4294967295");
}

#[test]
fn begin_args_without_options() {
    let a = begin_args(&cfg(30, "small", false, false), "/m", "/c.py");
    assert_eq!(
        a,
        vec![
            "begin", "--vosk-model-dir", "/m", "--timeout", "30", "--config", "/c.py", "--output",
            "STDOUT", "--defer-output"
        ]
    );
}

#[test]
fn begin_args_with_both_options() {
    let a = begin_args(&cfg(5, "large", true, true), "/m", "/c.py");
    assert_eq!(
        a,
        vec![
            "begin", "--vosk-model-dir", "/m", "--timeout", "5", "--config", "/c.py", "--output",
            "STDOUT", "--defer-output", "--numbers-as-digits", "--full-sentence"
        ]
    );
}

#[test]
fn begin_args_with_one_option_each() {
    let a = begin_args(&cfg(1, "small", true, false), "/m", "/c");
    assert_eq!(a.last().unwrap(), "--full-sentence");
    assert_eq!(a.len(), 11);
    let b = begin_args(&cfg(1, "small", false, true), "/m", "/c");
    assert_eq!(b.last().unwrap(), "--numbers-as-digits");
    assert_eq!(b.len(), 11);
}

#[test]
fn end_and_listing_args() {
    assert_eq!(end_args(), vec!["end"]);
    assert_eq!(source_listing_args(), vec!["list", "sources", "short"]);
}

#[test]
fn inject_passes_text_after_boundary() {
    assert_eq!(inject_args("hello world"), vec!["type", "--clearmodifiers", "--", "hello world"]);
    let inv = injection_step("hello world");
    assert_eq!(inv.program, "xdotool");
    assert_eq!(inv.args, vec!["type", "--clearmodifiers", "--", "hello world"]);
}

#[test]
fn inject_text_starting_with_dash() {
    assert_eq!(inject_args("--help -n"), vec!["type", "--clearmodifiers", "--", "--help -n"]);
    assert_eq!(inject_args(""), vec!["type", "--clearmodifiers", "--", ""]);
}

#[test]
fn engine_lookup_prefers_search_path() {
    let found = |p: &str| Ok::<String, String>(p.to_string());
    let missing = |e: &str| Err::<String, String>(e.to_string());
    assert_eq!(first_found(found("/usr/bin/nd"), found("/h/nd")), found("/usr/bin/nd"));
    assert_eq!(first_found(found("/usr/bin/nd"), missing("b")), found("/usr/bin/nd"));
    assert_eq!(first_found(missing("a"), found("/h/nd")), found("/h/nd"));
    assert_eq!(first_found(missing("a"), missing("b")), missing("b"));
}
