//! The outcome of one deployment, as it is reported to the wizard.

use vstd::prelude::*;
use crate::deploy::{result_view, DeployError, DeployErrorView};
use crate::format::Format;

verus! {

/// What became of one deployment: the path written, or the reason of the
/// failure in words and the underlying cause.
#[derive(Clone, Debug, PartialEq, Eq)]
pub enum InstallationOutcome {
    Success(String),
    Failure(String, String),
}

/// An outcome as a mathematical value.
pub enum InstallationOutcomeView {
    Success(Seq<char>),
    Failure(Seq<char>, Seq<char>),
}

impl View for InstallationOutcome {
    type V = InstallationOutcomeView;

    open spec fn view(&self) -> InstallationOutcomeView {
        match *self {
            InstallationOutcome::Success(path) => InstallationOutcomeView::Success(path@),
            InstallationOutcome::Failure(reason, cause) => InstallationOutcomeView::Failure(
                reason@,
                cause@,
            ),
        }
    }
}

/// What went wrong, in words, for a format and the step that failed.
pub open spec fn failure_text(format: Format, error: DeployErrorView) -> Seq<char> {
    match (format, error) {
        (Format::Vst3, DeployErrorView::DirectoryCreation(_, _)) => "Failed to create VST3 directory"@,
        (Format::Vst3, DeployErrorView::WriteFailed(_, _)) => "Failed to write VST3 file (Permission denied?)"@,
        (Format::Clap, DeployErrorView::DirectoryCreation(_, _)) => "Failed to create CLAP directory"@,
        (Format::Clap, DeployErrorView::WriteFailed(_, _)) => "Failed to write CLAP file"@,
    }
}

/// The outcome that a deployment result amounts to for a format. The reason
/// of a failure is what went wrong, a colon and the path concerned.
pub open spec fn outcome_of(
    format: Format,
    result: Result<Seq<char>, DeployErrorView>,
) -> InstallationOutcomeView {
    match result {
        Ok(path) => InstallationOutcomeView::Success(path),
        Err(error) => InstallationOutcomeView::Failure(
            failure_text(format, error) + ": "@ + error.path(),
            error.cause(),
        ),
    }
}

impl InstallationOutcome {
    /// Turns the result of deploying `format` into an outcome: the path
    /// written, or the failure in words with the path and the cause.
    pub fn from_result(format: Format, result: Result<String, DeployError>) -> (outcome:
        InstallationOutcome)
        ensures
            outcome@ == outcome_of(format, result_view(result)),
    {
        match result {
            Ok(path) => InstallationOutcome::Success(path),
            Err(DeployError::DirectoryCreation(path, cause)) => {
                let text = match format {
                    Format::Vst3 => String::from_str("Failed to create VST3 directory"),
                    Format::Clap => String::from_str("Failed to create CLAP directory"),
                };
                InstallationOutcome::Failure(text.concat(": ").concat(path.as_str()), cause)
            },
            Err(DeployError::WriteFailed(path, cause)) => {
                let text = match format {
                    Format::Vst3 => String::from_str(
                        "Failed to write VST3 file (Permission denied?)",
                    ),
                    Format::Clap => String::from_str("Failed to write CLAP file"),
                };
                InstallationOutcome::Failure(text.concat(": ").concat(path.as_str()), cause)
            },
        }
    }

    /// Whether the deployment succeeded.
    pub fn is_success(&self) -> (success: bool)
        ensures
            success == (self@ is Success),
    {
        match self {
            InstallationOutcome::Success(_) => true,
            InstallationOutcome::Failure(_, _) => false,
        }
    }
}

} // verus!
