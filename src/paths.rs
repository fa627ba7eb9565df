//! Fixed file-system locations, all rooted at the user's home directory.
use vstd::prelude::*;

verus! {

/// Name under which the dictation engine is looked up on the search path.
pub const ENGINE_NAME: &'static str = "nerd-dictation";

/// Name of the input-injection tool.
pub const INJECTOR_NAME: &'static str = "xdotool";

/// Name of the audio-source listing utility used by the microphone probe.
pub const AUDIO_LISTER_NAME: &'static str = "pactl";

/// Directory name of the small speech model.
pub const SMALL_MODEL: &'static str = "vosk-model-small-en-us-0.15";

/// Directory name of the large speech model.
pub const LARGE_MODEL: &'static str = "vosk-model-en-us-0.22";

/// The selector value that picks the large model.
pub const LARGE_SELECTOR: &'static str = "large";

/// Directory under home that holds the speech models.
pub const MODELS_SUBDIR: &'static str = "/.local/share/vosk-models";

/// The engine's configuration file, relative to home.
pub const CONFIG_SUBPATH: &'static str = "/.config/nerd-dictation/nerd-dictation.py";

/// Fallback location of the engine executable, relative to home.
pub const ENGINE_FALLBACK_SUBPATH: &'static str = "/.local/bin/nerd-dictation";

/// The model directory name chosen by a size selector: only the exact
/// selector `large` picks the large model.
pub open spec fn model_name_spec(size: Seq<char>) -> Seq<char> {
    if size == LARGE_SELECTOR@ {
        LARGE_MODEL@
    } else {
        SMALL_MODEL@
    }
}

pub open spec fn models_base_spec(home: Seq<char>) -> Seq<char> {
    home + MODELS_SUBDIR@
}

pub open spec fn model_dir_spec(home: Seq<char>, size: Seq<char>) -> Seq<char> {
    models_base_spec(home) + "/"@ + model_name_spec(size)
}

pub open spec fn config_file_spec(home: Seq<char>) -> Seq<char> {
    home + CONFIG_SUBPATH@
}

pub open spec fn engine_fallback_spec(home: Seq<char>) -> Seq<char> {
    home + ENGINE_FALLBACK_SUBPATH@
}

/// Maps a size selector to a model directory name.
pub fn model_name(model_size: &String) -> (r: &'static str)
    ensures
        r@ == model_name_spec(model_size@),
{
    let large = String::from_str(LARGE_SELECTOR);
    if *model_size == large {
        LARGE_MODEL
    } else {
        SMALL_MODEL
    }
}

/// The directory that holds all speech models.
pub fn models_base(home: &str) -> (r: String)
    ensures
        r@ == models_base_spec(home@),
{
    String::from_str(home).concat(MODELS_SUBDIR)
}

/// The model directory for a size selector. No existence check is made.
pub fn model_dir(home: &str, model_size: &String) -> (r: String)
    ensures
        r@ == model_dir_spec(home@, model_size@),
{
    models_base(home).concat("/").concat(model_name(model_size))
}

/// The mandatory engine configuration file.
pub fn config_file(home: &str) -> (r: String)
    ensures
        r@ == config_file_spec(home@),
{
    String::from_str(home).concat(CONFIG_SUBPATH)
}

/// Where the engine is looked for when the search path lacks it.
pub fn engine_fallback(home: &str) -> (r: String)
    ensures
        r@ == engine_fallback_spec(home@),
{
    String::from_str(home).concat(ENGINE_FALLBACK_SUBPATH)
}

/// The engine lookup: the search path first, then the fallback location.
/// Each argument is the outcome of one lookup, the path found or why not;
/// when both fail, the fallback's reason is reported.
pub fn first_found(on_path: Result<String, String>, at_fallback: Result<String, String>) -> (r:
    Result<String, String>)
    ensures
        on_path is Ok ==> r == on_path,
        on_path is Err ==> r == at_fallback,
{
    match on_path {
        Ok(p) => Ok(p),
        Err(_) => at_fallback,
    }
}

} // verus!
