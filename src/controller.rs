//! The decisions of the start, stop and inject requests. The caller
//! performs each external step (lookup, spawn, wait) and hands the outcome
//! back as a plain value; these functions decide what comes next.
use vstd::prelude::*;
use crate::error::{StopStage, VoiceError};
use crate::invocation::{
    begin_args, begin_args_spec, end_args, end_args_spec, inject_args, inject_args_spec,
    Invocation, RecordingConfig,
};
use crate::paths::{config_file, config_file_spec, model_dir, model_dir_spec, INJECTOR_NAME};
use crate::session::{after_store, SessionState};
use crate::transcript::{lossy_text, output_text, transcript_from, transcript_spec, trimmed};
use vstd::utf8::{decode_utf8, valid_utf8};

verus! {

/// Detail of a stop whose end command ran but reported failure.
pub const END_REFUSED: &'static str = "the end command exited with a failure status";

/// Why a start did not leave a new session behind. `surplus` holds an
/// engine that was launched but not kept; the caller must discard it.
pub struct StartRejection<H> {
    pub error: VoiceError,
    pub surplus: Option<H>,
}

/// First half of a start request. Records the resolved model directory
/// whatever follows, then checks the preconditions in order: the engine
/// must have been found (`engine` is the lookup's outcome), the
/// configuration file must exist, and no session may be active. On success
/// returns the engine launch. The session's handle is never touched.
pub fn plan_start<H>(
    session: &mut SessionState<H>,
    config: &RecordingConfig,
    home: &str,
    engine: Result<String, String>,
    config_present: bool,
) -> (r: Result<Invocation, VoiceError>)
    ensures
        final(session).handle() == old(session).handle(),
        final(session).model_path_view() == model_dir_spec(home@, config.model_size@),
        engine is Err ==> (r matches Err(VoiceError::DependencyMissing { detail })
            && detail@ == engine->Err_0@),
        engine is Ok && !config_present ==> (r matches Err(
            VoiceError::ConfigurationMissing { path },
        ) && path@ == config_file_spec(home@)),
        old(session).handle() is Some && engine is Ok && config_present ==> (r matches Err(
            VoiceError::SessionActive,
        )),
        old(session).handle() is None && engine is Ok && config_present ==> (r matches Ok(inv) && inv.program@ == engine->Ok_0@
            && inv.args.deep_view() == begin_args_spec(
            config.timeout,
            config.numbers_as_digits,
            config.auto_punctuation,
            model_dir_spec(home@, config.model_size@),
            config_file_spec(home@),
        )),
{
    let dir = model_dir(home, &config.model_size);
    session.record_model_path(dir.clone());
    let program = match engine {
        Ok(p) => p,
        Err(detail) => {
            return Err(VoiceError::DependencyMissing { detail });
        },
    };
    let cfg = config_file(home);
    if !config_present {
        return Err(VoiceError::ConfigurationMissing { path: cfg });
    }
    if session.active() {
        return Err(VoiceError::SessionActive);
    }
    let args = begin_args(config, dir.as_str(), cfg.as_str());
    Ok(Invocation { program, args })
}

/// Second half of a start request, given the outcome of the launch. A
/// launched engine is stored only if no session is active, in one step;
/// otherwise it is handed back for the caller to discard. A failed launch
/// leaves the session untouched.
pub fn commit_start<H>(session: &mut SessionState<H>, spawned: Result<H, String>) -> (r: Result<
    (),
    StartRejection<H>,
>)
    ensures
        final(session).model_path_view() == old(session).model_path_view(),
        spawned is Err ==> final(session).handle() == old(session).handle(),
        spawned is Err ==> (r matches Err(StartRejection {
            error: VoiceError::SpawnFailed { detail },
            surplus: None,
        }) && detail@ == spawned->Err_0@),
        spawned is Ok ==> final(session).handle() == after_store(
            old(session).handle(),
            spawned->Ok_0,
        ),
        spawned is Ok && old(session).handle() is None ==> r is Ok,
        spawned is Ok && old(session).handle() is Some ==> (r is Err && r->Err_0.error
            is SessionActive && r->Err_0.surplus == Some(spawned->Ok_0)),
{
    match spawned {
        Err(detail) => Err(StartRejection { error: VoiceError::SpawnFailed { detail }, surplus: None }),
        Ok(handle) => match session.try_store(handle) {
            Ok(()) => Ok(()),
            Err(h) => Err(StartRejection { error: VoiceError::SessionActive, surplus: Some(h) }),
        },
    }
}

/// First step of a stop request: moves the engine handle out of the
/// session, which is idle afterwards whatever happens next. With no
/// session active nothing is handed out, so nothing is signalled.
pub fn begin_stop<H>(session: &mut SessionState<H>) -> (r: Result<H, VoiceError>)
    ensures
        final(session).handle() is None,
        final(session).model_path_view() == old(session).model_path_view(),
        old(session).handle() is None ==> (r matches Err(VoiceError::NoActiveSession)),
        old(session).handle() is Some ==> r == Ok::<H, VoiceError>(old(session).handle()->Some_0),
{
    match session.take() {
        Some(h) => Ok(h),
        None => Err(VoiceError::NoActiveSession),
    }
}

/// The end command that makes the engine flush its text and exit, given the
/// outcome of looking the engine up again.
pub fn end_step(engine: Result<String, String>) -> (r: Result<Invocation, VoiceError>)
    ensures
        engine is Err ==> (r matches Err(VoiceError::StopFailed { stage: StopStage::Locate, detail })
            && detail@ == engine->Err_0@),
        engine is Ok ==> (r matches Ok(inv) && inv.program@ == engine->Ok_0@
            && inv.args.deep_view() == end_args_spec()),
{
    match engine {
        Ok(program) => Ok(Invocation { program, args: end_args() }),
        Err(detail) => Err(VoiceError::StopFailed { stage: StopStage::Locate, detail }),
    }
}

/// Judges the end command: `Ok(success)` if it ran, with whether it
/// exited successfully, or the launch failure.
pub fn check_end(outcome: Result<bool, String>) -> (r: Result<(), VoiceError>)
    ensures
        outcome == Ok::<bool, String>(true) ==> r is Ok,
        outcome == Ok::<bool, String>(false) ==> (r matches Err(
            VoiceError::StopFailed { stage: StopStage::End, detail },
        ) && detail@ == END_REFUSED@),
        outcome is Err ==> (r matches Err(VoiceError::StopFailed { stage: StopStage::End, detail })
            && detail@ == outcome->Err_0@),
{
    match outcome {
        Ok(true) => Ok(()),
        Ok(false) => Err(
            VoiceError::StopFailed { stage: StopStage::End, detail: String::from_str(END_REFUSED) },
        ),
        Err(detail) => Err(VoiceError::StopFailed { stage: StopStage::End, detail }),
    }
}

/// Last step of a stop request, given what waiting for the engine gave:
/// its captured standard output, or why it could not be collected.
pub fn finish_stop(waited: Result<Vec<u8>, String>) -> (r: Result<String, VoiceError>)
    ensures
        waited is Ok ==> (r matches Ok(text) && text@ == transcript_spec(waited->Ok_0@)),
        waited is Ok && valid_utf8(waited->Ok_0@) ==> (r matches Ok(text) && text@ == trimmed(
            decode_utf8(waited->Ok_0@),
        )),
        waited is Err ==> (r matches Err(
            VoiceError::StopFailed { stage: StopStage::Collect, detail },
        ) && detail@ == waited->Err_0@),
{
    match waited {
        Ok(stdout) => Ok(transcript_from(stdout.as_slice())),
        Err(detail) => Err(VoiceError::StopFailed { stage: StopStage::Collect, detail }),
    }
}

/// The injector launch that types `text` into the focused window.
pub fn injection_step(text: &str) -> (r: Invocation)
    ensures
        r.program@ == INJECTOR_NAME@,
        r.args.deep_view() == inject_args_spec(text@),
{
    Invocation { program: String::from_str(INJECTOR_NAME), args: inject_args(text) }
}

/// Judges the injector's run: `Ok((success, stderr))` if it ran, or the
/// launch failure. Failure carries the tool's error output.
pub fn injection_result(outcome: Result<(bool, Vec<u8>), String>) -> (r: Result<(), VoiceError>)
    ensures
        outcome is Ok && outcome->Ok_0.0 ==> r is Ok,
        outcome is Ok && !outcome->Ok_0.0 ==> (r matches Err(
            VoiceError::InjectionFailed { launched: true, detail },
        ) && detail@ == lossy_text(outcome->Ok_0.1@)),
        outcome is Err ==> (r matches Err(VoiceError::InjectionFailed { launched: false, detail })
            && detail@ == outcome->Err_0@),
{
    match outcome {
        Ok((true, _)) => Ok(()),
        Ok((false, stderr)) => Err(
            VoiceError::InjectionFailed { launched: true, detail: output_text(stderr.as_slice()) },
        ),
        Err(detail) => Err(VoiceError::InjectionFailed { launched: false, detail }),
    }
}

} // verus!
