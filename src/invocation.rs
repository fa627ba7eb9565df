//! Argument lists for the external tools.
use vstd::prelude::*;

verus! {

/// A program to run and the arguments to hand it.
#[derive(Debug)]
pub struct Invocation {
    pub program: String,
    pub args: Vec<String>,
}

/// Settings of one recording request.
pub struct RecordingConfig {
    /// Seconds of silence after which the engine stops by itself.
    pub timeout: u32,
    /// Model size selector: `large`, or anything else for the small model.
    pub model_size: String,
    /// Ask the engine for full sentences with punctuation.
    pub auto_punctuation: bool,
    /// Ask the engine to write numbers as digits.
    pub numbers_as_digits: bool,
}

pub open spec fn digit_char(d: nat) -> char {
    if d == 0 { '0' }
    else if d == 1 { '1' }
    else if d == 2 { '2' }
    else if d == 3 { '3' }
    else if d == 4 { '4' }
    else if d == 5 { '5' }
    else if d == 6 { '6' }
    else if d == 7 { '7' }
    else if d == 8 { '8' }
    else { '9' }
}

/// Decimal notation of a natural number, without leading zeros.
pub open spec fn decimal(n: nat) -> Seq<char>
    decreases n,
{
    if n < 10 {
        seq![digit_char(n)]
    } else {
        decimal(n / 10).push(digit_char(n % 10))
    }
}

fn digit_str(d: u32) -> (r: &'static str)
    requires
        d < 10,
    ensures
        r@ == seq![digit_char(d as nat)],
{
    proof {
        reveal_strlit("0");
        reveal_strlit("1");
        reveal_strlit("2");
        reveal_strlit("3");
        reveal_strlit("4");
        reveal_strlit("5");
        reveal_strlit("6");
        reveal_strlit("7");
        reveal_strlit("8");
        reveal_strlit("9");
    }
    if d == 0 { "0" }
    else if d == 1 { "1" }
    else if d == 2 { "2" }
    else if d == 3 { "3" }
    else if d == 4 { "4" }
    else if d == 5 { "5" }
    else if d == 6 { "6" }
    else if d == 7 { "7" }
    else if d == 8 { "8" }
    else { "9" }
}

/// Decimal text of an unsigned number.
pub fn decimal_string(n: u32) -> (r: String)
    ensures
        r@ == decimal(n as nat),
    decreases n,
{
    if n < 10 {
        String::from_str(digit_str(n))
    } else {
        let s = decimal_string(n / 10);
        let r = s.concat(digit_str(n % 10));
        assert(r@ =~= decimal(n as nat));
        r
    }
}


/// The begin command: model directory, timeout in seconds and
/// configuration file, then the output-mode selector with output deferral
/// (the engine buffers text until told to end and writes it to its standard
/// output), then the optional digits and full-sentence flags.
pub open spec fn begin_args_spec(
    timeout: u32,
    numbers_as_digits: bool,
    auto_punctuation: bool,
    model_dir: Seq<char>,
    config_file: Seq<char>,
) -> Seq<Seq<char>> {
    seq![
        "begin"@,
        "--vosk-model-dir"@,
        model_dir,
        "--timeout"@,
        decimal(timeout as nat),
        "--config"@,
        config_file,
        "--output"@,
        "STDOUT"@,
        "--defer-output"@,
    ] + (if numbers_as_digits {
        seq!["--numbers-as-digits"@]
    } else {
        Seq::empty()
    }) + (if auto_punctuation {
        seq!["--full-sentence"@]
    } else {
        Seq::empty()
    })
}

pub open spec fn end_args_spec() -> Seq<Seq<char>> {
    seq!["end"@]
}

/// The injector types the text verbatim: modifiers are cleared and the
/// text follows an argument-boundary marker, so it is never read as flags.
pub open spec fn inject_args_spec(text: Seq<char>) -> Seq<Seq<char>> {
    seq!["type"@, "--clearmodifiers"@, "--"@, text]
}

pub open spec fn source_listing_args_spec() -> Seq<Seq<char>> {
    seq!["list"@, "sources"@, "short"@]
}

/// Arguments that start a dictation session with the engine.
pub fn begin_args(config: &RecordingConfig, model_dir: &str, config_file: &str) -> (r: Vec<String>)
    ensures
        r.deep_view() == begin_args_spec(
            config.timeout,
            config.numbers_as_digits,
            config.auto_punctuation,
            model_dir@,
            config_file@,
        ),
{
    let mut r: Vec<String> = Vec::new();
    r.push(String::from_str("begin"));
    r.push(String::from_str("--vosk-model-dir"));
    r.push(String::from_str(model_dir));
    r.push(String::from_str("--timeout"));
    r.push(decimal_string(config.timeout));
    r.push(String::from_str("--config"));
    r.push(String::from_str(config_file));
    r.push(String::from_str("--output"));
    r.push(String::from_str("STDOUT"));
    r.push(String::from_str("--defer-output"));
    if config.numbers_as_digits {
        r.push(String::from_str("--numbers-as-digits"));
    }
    if config.auto_punctuation {
        r.push(String::from_str("--full-sentence"));
    }
    assert(r.deep_view() =~~= begin_args_spec(
        config.timeout,
        config.numbers_as_digits,
        config.auto_punctuation,
        model_dir@,
        config_file@,
    ));
    r
}

/// Arguments that make a running engine flush its text and exit.
pub fn end_args() -> (r: Vec<String>)
    ensures
        r.deep_view() == end_args_spec(),
{
    let mut r: Vec<String> = Vec::new();
    r.push(String::from_str("end"));
    assert(r.deep_view() =~~= end_args_spec());
    r
}

/// Arguments that make the injector type `text` into the focused window.
pub fn inject_args(text: &str) -> (r: Vec<String>)
    ensures
        r.deep_view() == inject_args_spec(text@),
{
    let mut r: Vec<String> = Vec::new();
    r.push(String::from_str("type"));
    r.push(String::from_str("--clearmodifiers"));
    r.push(String::from_str("--"));
    r.push(String::from_str(text));
    assert(r.deep_view() =~~= inject_args_spec(text@));
    r
}

/// Arguments that make the audio utility list its sources, one per line.
pub fn source_listing_args() -> (r: Vec<String>)
    ensures
        r.deep_view() == source_listing_args_spec(),
{
    let mut r: Vec<String> = Vec::new();
    r.push(String::from_str("list"));
    r.push(String::from_str("sources"));
    r.push(String::from_str("short"));
    assert(r.deep_view() =~~= source_listing_args_spec());
    r
}

} // verus!
