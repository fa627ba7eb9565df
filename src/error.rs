//! Failures of the session controller and the text injector.
use vstd::prelude::*;

verus! {

/// The step of a stop request that failed.
#[derive(Clone, Copy, Debug, PartialEq, Eq, Structural)]
pub enum StopStage {
    /// Looking the engine up again for its end command.
    Locate,
    /// Running the end command.
    End,
    /// Waiting for the engine and collecting its output.
    Collect,
}

#[derive(Debug)]
pub enum VoiceError {
    /// The dictation engine could not be found; `detail` says why.
    DependencyMissing { detail: String },
    /// The engine's mandatory configuration file is absent.
    ConfigurationMissing { path: String },
    /// The operating system could not launch the engine.
    SpawnFailed { detail: String },
    /// A start found a session already running.
    SessionActive,
    /// A stop found no session running.
    NoActiveSession,
    /// Ending the engine or collecting its output failed at `stage`. The
    /// session is idle all the same.
    StopFailed { stage: StopStage, detail: String },
    /// The injection tool could not be launched (`launched` is false) or
    /// ran and reported failure.
    InjectionFailed { launched: bool, detail: String },
}

impl VoiceError {
    /// The text handed to the caller for this error.
    pub open spec fn message_spec(&self) -> Seq<char> {
        match self {
            VoiceError::DependencyMissing { detail } => "nerd-dictation not found: "@ + detail@,
            VoiceError::ConfigurationMissing { path } => "Configuration file not found: "@ + path@
                + ". Please create the nerd-dictation config file."@,
            VoiceError::SpawnFailed { detail } => "Failed to start recording: "@ + detail@,
            VoiceError::SessionActive => "A recording session is already active"@,
            VoiceError::NoActiveSession => "No recording process found"@,
            VoiceError::StopFailed { stage, detail } => match stage {
                StopStage::Locate => "nerd-dictation not found: "@ + detail@,
                StopStage::End => "Failed to end recording: "@ + detail@,
                StopStage::Collect => "Failed to read recording output: "@ + detail@,
            },
            VoiceError::InjectionFailed { launched, detail } => if *launched {
                "xdotool failed: "@ + detail@
            } else {
                "Failed to insert text: "@ + detail@
            },
        }
    }

    /// A description of the error for the caller.
    pub fn message(&self) -> (r: String)
        ensures
            r@ == self.message_spec(),
    {
        match self {
            VoiceError::DependencyMissing { detail } => String::from_str(
                "nerd-dictation not found: ",
            ).concat(detail.as_str()),
            VoiceError::ConfigurationMissing { path } => String::from_str(
                "Configuration file not found: ",
            ).concat(path.as_str()).concat(". Please create the nerd-dictation config file."),
            VoiceError::SpawnFailed { detail } => String::from_str(
                "Failed to start recording: ",
            ).concat(detail.as_str()),
            VoiceError::SessionActive => String::from_str("A recording session is already active"),
            VoiceError::NoActiveSession => String::from_str("No recording process found"),
            VoiceError::StopFailed { stage, detail } => match stage {
                StopStage::Locate => String::from_str("nerd-dictation not found: ").concat(
                    detail.as_str(),
                ),
                StopStage::End => String::from_str("Failed to end recording: ").concat(
                    detail.as_str(),
                ),
                StopStage::Collect => String::from_str("Failed to read recording output: ").concat(
                    detail.as_str(),
                ),
            },
            VoiceError::InjectionFailed { launched, detail } => if *launched {
                String::from_str("xdotool failed: ").concat(detail.as_str())
            } else {
                String::from_str("Failed to insert text: ").concat(detail.as_str())
            },
        }
    }
}

} // verus!
