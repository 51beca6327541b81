//! How a conversion ends: classifying what became of the transcoder, and the
//! states a conversion passes through.
//!
//! The library never starts a process. A `Conversion` that was accepted holds
//! the command to run; the caller runs it, reports what happened as a
//! `ToolOutcome`, and gets the result of the conversion back.

use crate::convert::{prepare, spec_prepare, Invocation, InvocationView, Rejection};
use crate::text::{decode_lossy, lossy_text};
use vstd::prelude::*;
use vstd::utf8::*;

verus! {

/// How the caller's attempt to run the transcoder ended.
#[derive(Debug, PartialEq, Eq)]
pub enum ToolOutcome {
    /// The transcoder ran and ended, with this exit code (none where a signal
    /// ended it) and having written this to its standard error stream.
    Exited { code: Option<i32>, stderr: Vec<u8> },
    /// The transcoder could not be started; the system's words for why.
    NotStarted { error: String },
}

/// A `ToolOutcome` as plain values.
pub enum ToolOutcomeView {
    Exited { code: Option<i32>, stderr: Seq<u8> },
    NotStarted { error: Seq<char> },
}

impl View for ToolOutcome {
    type V = ToolOutcomeView;

    open spec fn view(&self) -> ToolOutcomeView {
        match *self {
            ToolOutcome::Exited { code, stderr } => ToolOutcomeView::Exited { code, stderr: stderr@ },
            ToolOutcome::NotStarted { error } => ToolOutcomeView::NotStarted { error: error@ },
        }
    }
}

/// How a conversion ended.
#[derive(Debug, PartialEq, Eq)]
pub enum ConversionResult {
    /// The transcoder wrote the file at this path.
    Success(String),
    /// The transcoder ran and failed, having said this.
    ToolFailure(String),
    /// The transcoder could not be started, for this reason.
    LaunchFailure(String),
    /// The request was refused and nothing was run.
    Rejected(Rejection),
}

/// A `ConversionResult` as plain text.
pub enum ConversionResultView {
    Success(Seq<char>),
    ToolFailure(Seq<char>),
    LaunchFailure(Seq<char>),
    Rejected(Rejection),
}

impl View for ConversionResult {
    type V = ConversionResultView;

    open spec fn view(&self) -> ConversionResultView {
        match *self {
            ConversionResult::Success(path) => ConversionResultView::Success(path@),
            ConversionResult::ToolFailure(said) => ConversionResultView::ToolFailure(said@),
            ConversionResult::LaunchFailure(error) => ConversionResultView::LaunchFailure(error@),
            ConversionResult::Rejected(rejection) => ConversionResultView::Rejected(rejection),
        }
    }
}

/// What a conversion that was to write `output_path` comes to when the
/// transcoder ended as `outcome` says: success on exit code zero, a tool
/// failure with what the transcoder said on any other end, a launch failure
/// where it never started.
pub open spec fn spec_conclude(
    output_path: Seq<char>,
    outcome: ToolOutcomeView,
) -> ConversionResultView {
    match outcome {
        ToolOutcomeView::Exited { code, stderr } => if code == Some(0i32) {
            ConversionResultView::Success(output_path)
        } else {
            ConversionResultView::ToolFailure(lossy_text(stderr))
        },
        ToolOutcomeView::NotStarted { error } => ConversionResultView::LaunchFailure(error),
    }
}

/// Holds where the diagnostic of a tool failure is made of exactly the bytes
/// the transcoder wrote, those bytes being valid UTF-8.
pub open spec fn spec_kept_as_said(outcome: ToolOutcomeView, result: ConversionResultView) -> bool {
    match (outcome, result) {
        (ToolOutcomeView::Exited { stderr, .. }, ConversionResultView::ToolFailure(said)) => {
            valid_utf8(stderr) ==> encode_utf8(said) == stderr
        },
        _ => true,
    }
}

/// Classifies how the transcoder ended for the conversion that was to write
/// `output_path`.
pub fn conclude(output_path: String, outcome: ToolOutcome) -> (result: ConversionResult)
    ensures
        result@ == spec_conclude(output_path@, outcome@),
        spec_kept_as_said(outcome@, result@),
{
    match outcome {
        ToolOutcome::Exited { code, stderr } => {
            let ok = match code {
                Some(c) => c == 0,
                None => false,
            };
            if ok {
                ConversionResult::Success(output_path)
            } else {
                ConversionResult::ToolFailure(decode_lossy(stderr.as_slice()))
            }
        },
        ToolOutcome::NotStarted { error } => ConversionResult::LaunchFailure(error),
    }
}

impl ConversionResultView {
    /// The result as a path or a pair of a message and its detail.
    pub open spec fn as_pair(self) -> Result<Seq<char>, (Seq<char>, Seq<char>)> {
        match self {
            ConversionResultView::Success(path) => Ok(path),
            ConversionResultView::ToolFailure(said) => Err(("FFmpeg failed."@, said)),
            ConversionResultView::LaunchFailure(error) => Err(("Failed to run FFmpeg."@, error)),
            ConversionResultView::Rejected(rejection) => Err(
                (rejection.spec_reason(), rejection.spec_hint()),
            ),
        }
    }

    /// The line shown to the user for this result.
    pub open spec fn status_text(self) -> Seq<char> {
        match self {
            ConversionResultView::Success(path) => "✅ Conversion succeeded: "@ + path,
            ConversionResultView::ToolFailure(said) => "❌ ffmpeg failed:\n"@ + said,
            ConversionResultView::LaunchFailure(error) => "❌ Failed to run ffmpeg: "@ + error,
            ConversionResultView::Rejected(rejection) => "❌ "@ + rejection.spec_reason() + " "@
                + rejection.spec_hint(),
        }
    }
}

impl ConversionResult {
    /// The result as the output's path, or as a message and its detail.
    pub fn into_result(self) -> (result: Result<String, (String, String)>)
        ensures
            match result {
                Ok(path) => self@.as_pair() == Ok::<Seq<char>, (Seq<char>, Seq<char>)>(path@),
                Err(pair) => self@.as_pair() == Err::<Seq<char>, (Seq<char>, Seq<char>)>(
                    (pair.0@, pair.1@),
                ),
            },
    {
        match self {
            ConversionResult::Success(path) => Ok(path),
            ConversionResult::ToolFailure(said) => Err(("FFmpeg failed.".to_owned(), said)),
            ConversionResult::LaunchFailure(error) => Err(
                ("Failed to run FFmpeg.".to_owned(), error),
            ),
            ConversionResult::Rejected(rejection) => Err(
                (rejection.reason().to_owned(), rejection.hint().to_owned()),
            ),
        }
    }

    /// The line shown to the user for this result.
    pub fn status_text(&self) -> (text: String)
        ensures
            text@ == self@.status_text(),
    {
        match self {
            ConversionResult::Success(path) => {
                let mut text = "✅ Conversion succeeded: ".to_owned();
                text.append(path.as_str());
                text
            },
            ConversionResult::ToolFailure(said) => {
                let mut text = "❌ ffmpeg failed:\n".to_owned();
                text.append(said.as_str());
                text
            },
            ConversionResult::LaunchFailure(error) => {
                let mut text = "❌ Failed to run ffmpeg: ".to_owned();
                text.append(error.as_str());
                text
            },
            ConversionResult::Rejected(rejection) => {
                let mut text = "❌ ".to_owned();
                text.append(rejection.reason());
                text.append(" ");
                text.append(rejection.hint());
                text
            },
        }
    }
}

/// Where a conversion stands once it has been asked for: about to run the
/// transcoder, or finished.
#[derive(Debug, PartialEq, Eq)]
pub enum Conversion {
    /// The request was accepted; the transcoder is to be run with this command.
    Invoking(Invocation),
    /// The conversion ended with this result.
    Finished(ConversionResult),
}

/// A `Conversion` as plain values.
pub enum ConversionView {
    Invoking(InvocationView),
    Finished(ConversionResultView),
}

impl View for Conversion {
    type V = ConversionView;

    open spec fn view(&self) -> ConversionView {
        match *self {
            Conversion::Invoking(command) => ConversionView::Invoking(command@),
            Conversion::Finished(result) => ConversionView::Finished(result@),
        }
    }
}

impl ConversionView {
    /// Where a conversion stands once its request is validated: a refused
    /// request is finished at once.
    pub open spec fn begin(input_path: Seq<char>, chosen_extension: Seq<char>) -> ConversionView {
        match spec_prepare(input_path, chosen_extension) {
            Ok(command) => ConversionView::Invoking(command),
            Err(rejection) => ConversionView::Finished(ConversionResultView::Rejected(rejection)),
        }
    }

    /// Where a conversion stands once the transcoder ended as `outcome` says.
    pub open spec fn end(self, outcome: ToolOutcomeView) -> ConversionView {
        match self {
            ConversionView::Invoking(command) => ConversionView::Finished(
                spec_conclude(command.output_path, outcome),
            ),
            ConversionView::Finished(_) => self,
        }
    }
}

impl Conversion {
    /// Validates a request. For a refused request no command exists.
    pub fn begin(input_path: &str, chosen_extension: &str) -> (conversion: Conversion)
        ensures
            conversion@ == ConversionView::begin(input_path@, chosen_extension@),
    {
        match prepare(input_path, chosen_extension) {
            Ok(command) => Conversion::Invoking(command),
            Err(rejection) => Conversion::Finished(ConversionResult::Rejected(rejection)),
        }
    }

    /// The command to run, while the conversion waits for the transcoder.
    pub fn command(&self) -> (command: Option<&Invocation>)
        ensures
            match self@ {
                ConversionView::Invoking(planned) => command is Some && command->0@ == planned,
                ConversionView::Finished(_) => command is None,
            },
    {
        match self {
            Conversion::Invoking(planned) => Some(planned),
            Conversion::Finished(_) => None,
        }
    }

    /// Takes in how the transcoder ended. A conversion that was waiting for
    /// it is finished by this; one that was finished already is not changed.
    pub fn end(self, outcome: ToolOutcome) -> (conversion: Conversion)
        ensures
            conversion@ == self@.end(outcome@),
            self is Finished ==> conversion == self,
            self is Invoking ==> conversion is Finished && spec_kept_as_said(
                outcome@,
                conversion->Finished_0@,
            ),
    {
        match self {
            Conversion::Invoking(planned) => Conversion::Finished(
                conclude(planned.output_path, outcome),
            ),
            Conversion::Finished(result) => Conversion::Finished(result),
        }
    }

    /// The result, once the conversion is finished.
    pub fn result(self) -> (result: Option<ConversionResult>)
        ensures
            match self {
                Conversion::Invoking(_) => result is None,
                Conversion::Finished(ended) => result == Some(ended),
            },
    {
        match self {
            Conversion::Invoking(_) => None,
            Conversion::Finished(ended) => Some(ended),
        }
    }
}

/// A finished conversion is final: no outcome changes it.
pub proof fn lemma_finished_is_final(conversion: ConversionView, outcome: ToolOutcomeView)
    requires
        conversion is Finished,
    ensures
        conversion.end(outcome) == conversion,
{
}

/// Every conversion is finished once the transcoder's end is taken in, and
/// what it came to is decided by the request and that end alone: a refused
/// request stays refused, an accepted one succeeds with the planned output
/// path on exit code zero, fails with what the transcoder said on any other
/// end, and fails to launch with the system's words where nothing started.
pub proof fn lemma_result_of_conversion(
    input_path: Seq<char>,
    chosen_extension: Seq<char>,
    outcome: ToolOutcomeView,
)
    ensures
        ConversionView::begin(input_path, chosen_extension).end(outcome) is Finished,
        ConversionView::begin(input_path, chosen_extension).end(outcome)->Finished_0 == (
        match spec_prepare(input_path, chosen_extension) {
            Err(rejection) => ConversionResultView::Rejected(rejection),
            Ok(command) => match outcome {
                ToolOutcomeView::NotStarted { error } => ConversionResultView::LaunchFailure(error),
                ToolOutcomeView::Exited { code, stderr } => if code == Some(0i32) {
                    ConversionResultView::Success(command.output_path)
                } else {
                    ConversionResultView::ToolFailure(lossy_text(stderr))
                },
            },
        }),
{
}

} // verus!
