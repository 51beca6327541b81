//! Validating a conversion and planning the transcoder's command line.
//!
//! Nothing here starts a process: `prepare` says what is to be run.

use crate::format::{
    lemma_choice_differs_from_input, lemma_from_extension_inverts, source_format,
    spec_media_kind, spec_resolve, OutputFormat,
};
use crate::path::{
    input_extension, output_path, path_join, spec_input_extension, spec_output_directory,
    spec_output_path, spec_output_stem,
};
use crate::text::{str_eq, texts};
use vstd::prelude::*;

verus! {

/// Why a conversion is refused before the transcoder is started.
#[derive(Clone, Copy, Debug, PartialEq, Eq, Structural)]
pub enum Rejection {
    /// The chosen extension is not one the converter writes.
    UnsupportedFormat,
    /// The input already has the chosen extension.
    AlreadyCorrectFormat,
}

impl Rejection {
    /// The message that says what is wrong.
    pub open spec fn spec_reason(self) -> Seq<char> {
        match self {
            Rejection::UnsupportedFormat => "Unsupported format selected."@,
            Rejection::AlreadyCorrectFormat => "Already correct format."@,
        }
    }

    /// The hint that says what to do about it.
    pub open spec fn spec_hint(self) -> Seq<char> {
        match self {
            Rejection::UnsupportedFormat => "Choose a valid format."@,
            Rejection::AlreadyCorrectFormat => "No conversion needed."@,
        }
    }

    /// The message that says what is wrong.
    pub fn reason(self) -> (reason: &'static str)
        ensures
            reason@ == self.spec_reason(),
    {
        match self {
            Rejection::UnsupportedFormat => "Unsupported format selected.",
            Rejection::AlreadyCorrectFormat => "Already correct format.",
        }
    }

    /// The hint that says what to do about it.
    pub fn hint(self) -> (hint: &'static str)
        ensures
            hint@ == self.spec_hint(),
    {
        match self {
            Rejection::UnsupportedFormat => "Choose a valid format.",
            Rejection::AlreadyCorrectFormat => "No conversion needed.",
        }
    }
}

/// The command that carries out a conversion.
#[derive(Debug, PartialEq, Eq)]
pub struct Invocation {
    /// The transcoder, to be found on the search path.
    pub program: &'static str,
    pub args: Vec<String>,
    /// The file the transcoder writes, replacing what was there.
    pub output_path: String,
}

/// An `Invocation` as plain text.
pub struct InvocationView {
    pub program: Seq<char>,
    pub args: Seq<Seq<char>>,
    pub output_path: Seq<char>,
}

impl View for Invocation {
    type V = InvocationView;

    open spec fn view(&self) -> InvocationView {
        InvocationView {
            program: self.program@,
            args: texts(self.args@),
            output_path: self.output_path@,
        }
    }
}

/// A conversion asked for: an input and the extension chosen for the output.
/// One is made for each attempt and used up by it.
#[derive(Debug, PartialEq, Eq)]
pub struct ConversionRequest {
    pub input_path: String,
    /// The extension by which the input is judged.
    pub input_extension: String,
    pub chosen_extension: String,
}

/// A `ConversionRequest` as plain text.
pub struct ConversionRequestView {
    pub input_path: Seq<char>,
    pub input_extension: Seq<char>,
    pub chosen_extension: Seq<char>,
}

impl View for ConversionRequest {
    type V = ConversionRequestView;

    open spec fn view(&self) -> ConversionRequestView {
        ConversionRequestView {
            input_path: self.input_path@,
            input_extension: self.input_extension@,
            chosen_extension: self.chosen_extension@,
        }
    }
}

impl ConversionRequestView {
    /// The request to convert the file at `input_path` to `chosen_extension`.
    pub open spec fn of(input_path: Seq<char>, chosen_extension: Seq<char>) -> Self {
        ConversionRequestView {
            input_path,
            input_extension: spec_input_extension(input_path),
            chosen_extension,
        }
    }

    /// A request is valid if the chosen extension is not the input's own and
    /// names a format of the input's kind.
    pub open spec fn valid(self) -> bool {
        &&& self.chosen_extension != self.input_extension
        &&& OutputFormat::spec_from_extension(self.chosen_extension) matches Some(format)
        &&& format.spec_kind() == spec_media_kind(self.input_extension)
    }

    /// What planning the request answers.
    pub open spec fn plan(self) -> Result<InvocationView, Rejection> {
        match spec_decide(self.input_extension, self.chosen_extension) {
            Ok(format) => Ok(spec_invocation(self.input_path, format)),
            Err(rejection) => Err(rejection),
        }
    }
}

/// Whether a conversion goes ahead, and to which format: the chosen
/// extension must be one the converter writes, and not the input's own.
pub open spec fn spec_decide(input_extension: Seq<char>, chosen_extension: Seq<char>) -> Result<
    OutputFormat,
    Rejection,
> {
    match OutputFormat::spec_from_extension(chosen_extension) {
        None => Err(Rejection::UnsupportedFormat),
        Some(format) => if input_extension == format.spec_extension() {
            Err(Rejection::AlreadyCorrectFormat)
        } else {
            Ok(format)
        },
    }
}

/// The transcoder's arguments: overwrite, the input, the encoder where the
/// format names one, the output.
pub open spec fn spec_command_args(
    input_path: Seq<char>,
    format: OutputFormat,
    output_path: Seq<char>,
) -> Seq<Seq<char>> {
    seq!["-y"@, "-i"@, input_path] + format.spec_codec_args() + seq![output_path]
}

/// The command that converts the file at `input_path` to `format`.
pub open spec fn spec_invocation(input_path: Seq<char>, format: OutputFormat) -> InvocationView {
    let output_path = spec_output_path(input_path, format.spec_extension());
    InvocationView {
        program: "ffmpeg"@,
        args: spec_command_args(input_path, format, output_path),
        output_path,
    }
}

/// What `prepare` answers for an input path and a chosen extension.
pub open spec fn spec_prepare(input_path: Seq<char>, chosen_extension: Seq<char>) -> Result<
    InvocationView,
    Rejection,
> {
    ConversionRequestView::of(input_path, chosen_extension).plan()
}

impl ConversionRequest {
    /// The request to convert the file at `input_path` to the format written
    /// under `chosen_extension`.
    pub fn new(input_path: &str, chosen_extension: &str) -> (request: ConversionRequest)
        ensures
            request@ == ConversionRequestView::of(input_path@, chosen_extension@),
    {
        ConversionRequest {
            input_path: input_path.to_owned(),
            input_extension: input_extension(input_path),
            chosen_extension: chosen_extension.to_owned(),
        }
    }

    /// Whether the chosen extension is not the input's own and names a
    /// format of the input's kind.
    pub fn is_valid(&self) -> (valid: bool)
        ensures
            valid == self@.valid(),
    {
        if str_eq(self.chosen_extension.as_str(), self.input_extension.as_str()) {
            return false;
        }
        match OutputFormat::from_extension(self.chosen_extension.as_str()) {
            None => false,
            Some(format) => match source_format(self.input_extension.as_str()) {
                None => false,
                Some(source) => format.kind() == source.kind(),
            },
        }
    }

    /// Validates the request and plans the command for it. Nothing is run.
    pub fn plan(self) -> (plan: Result<Invocation, Rejection>)
        ensures
            match self@.plan() {
                Ok(command) => plan is Ok && plan->Ok_0@ == command,
                Err(rejection) => plan == Err::<Invocation, Rejection>(rejection),
            },
    {
        match decide(self.input_extension.as_str(), self.chosen_extension.as_str()) {
            Ok(format) => Ok(invocation(self.input_path.as_str(), format)),
            Err(rejection) => Err(rejection),
        }
    }
}

/// Decides whether an input judged by `input_extension` is converted to the
/// format written under `chosen_extension`.
pub fn decide(input_extension: &str, chosen_extension: &str) -> (decision: Result<
    OutputFormat,
    Rejection,
>)
    ensures
        decision == spec_decide(input_extension@, chosen_extension@),
{
    match OutputFormat::from_extension(chosen_extension) {
        None => Err(Rejection::UnsupportedFormat),
        Some(format) => if str_eq(input_extension, format.extension()) {
            Err(Rejection::AlreadyCorrectFormat)
        } else {
            Ok(format)
        },
    }
}

/// The arguments with which the transcoder converts `input_path` to
/// `format`, writing `output_path`.
pub fn command_args(input_path: &str, format: OutputFormat, output_path: &str) -> (args: Vec<
    String,
>)
    ensures
        texts(args@) == spec_command_args(input_path@, format, output_path@),
{
    let mut args: Vec<String> = Vec::new();
    args.push("-y".to_owned());
    args.push("-i".to_owned());
    args.push(input_path.to_owned());
    let codec = format.codec_args();
    let mut i: usize = 0;
    while i < codec.len()
        invariant
            i <= codec@.len(),
            codec@.len() == format.spec_codec_args().len(),
            forall|k: int| 0 <= k < codec@.len() ==> codec@[k]@ == format.spec_codec_args()[k],
            texts(args@) == seq!["-y"@, "-i"@, input_path@] + format.spec_codec_args().take(
                i as int,
            ),
        decreases codec@.len() - i,
    {
        let ghost before = args@;
        args.push(codec[i].to_owned());
        assert(texts(args@) =~= texts(before).push(format.spec_codec_args()[i as int]));
        assert(format.spec_codec_args().take(i + 1) =~= format.spec_codec_args().take(
            i as int,
        ).push(format.spec_codec_args()[i as int]));
        i += 1;
    }
    assert(format.spec_codec_args().take(i as int) =~= format.spec_codec_args());
    args.push(output_path.to_owned());
    args
}

/// The command that converts the file at `input_path` to `format`, writing
/// beside the input. Nothing is validated and nothing is run.
pub fn invocation(input_path: &str, format: OutputFormat) -> (command: Invocation)
    ensures
        command@ == spec_invocation(input_path@, format),
{
    let output = output_path(input_path, format);
    let args = command_args(input_path, format, output.as_str());
    Invocation { program: "ffmpeg", args, output_path: output }
}

/// Validates the conversion of the file at `input_path` to the format written
/// under `chosen_extension`, and plans the command for it. Nothing is run.
pub fn prepare(input_path: &str, chosen_extension: &str) -> (plan: Result<Invocation, Rejection>)
    ensures
        match spec_prepare(input_path@, chosen_extension@) {
            Ok(command) => plan is Ok && plan->Ok_0@ == command,
            Err(rejection) => plan == Err::<Invocation, Rejection>(rejection),
        },
{
    ConversionRequest::new(input_path, chosen_extension).plan()
}

/// What `prepare_by_label` answers for an input path and the label of the
/// format chosen: what `prepare` answers for that format's extension, and a
/// label that no format has is unsupported.
pub open spec fn spec_prepare_by_label(input_path: Seq<char>, label: Seq<char>) -> Result<
    InvocationView,
    Rejection,
> {
    match OutputFormat::spec_from_label(label) {
        Some(format) => spec_prepare(input_path, format.spec_extension()),
        None => Err(Rejection::UnsupportedFormat),
    }
}

/// As `prepare`, for a format chosen by the label it is offered under.
pub fn prepare_by_label(input_path: &str, label: &str) -> (plan: Result<Invocation, Rejection>)
    ensures
        match spec_prepare_by_label(input_path@, label@) {
            Ok(command) => plan is Ok && plan->Ok_0@ == command,
            Err(rejection) => plan == Err::<Invocation, Rejection>(rejection),
        },
{
    match OutputFormat::from_label(label) {
        Some(format) => prepare(input_path, format.extension()),
        None => Err(Rejection::UnsupportedFormat),
    }
}

/// Choosing the extension the input already has is always refused, whatever
/// the extension: as the input's own format where the converter writes it, as
/// unsupported where it does not.
pub proof fn lemma_same_extension_is_rejected(extension: Seq<char>)
    ensures
        spec_decide(extension, extension) == Err::<OutputFormat, Rejection>(
            if OutputFormat::spec_from_extension(extension) is Some {
                Rejection::AlreadyCorrectFormat
            } else {
                Rejection::UnsupportedFormat
            },
        ),
{
    match OutputFormat::spec_from_extension(extension) {
        Some(format) => {
            lemma_from_extension_inverts(extension, format);
        },
        None => {},
    }
}

/// No command is planned for converting a file to the extension it already
/// has, and such a request is not valid.
pub proof fn lemma_own_extension_is_rejected(input_path: Seq<char>)
    ensures
        spec_prepare(input_path, spec_input_extension(input_path)) is Err,
        !ConversionRequestView::of(input_path, spec_input_extension(input_path)).valid(),
{
    lemma_same_extension_is_rejected(spec_input_extension(input_path));
}

/// A conversion to one of the choices offered for the input is valid and goes
/// ahead, and its output is written beside the input, under the input's stem
/// followed by `_converted.` and the chosen extension.
pub proof fn lemma_offered_choice_goes_ahead(input_path: Seq<char>, choice: OutputFormat)
    requires
        spec_resolve(spec_input_extension(input_path)).contains(choice),
    ensures
        ConversionRequestView::of(input_path, choice.spec_extension()).valid(),
        spec_prepare(input_path, choice.spec_extension()) == Ok::<InvocationView, Rejection>(
            spec_invocation(input_path, choice),
        ),
        spec_invocation(input_path, choice).output_path == path_join(
            spec_output_directory(input_path),
            spec_output_stem(input_path) + "_converted."@ + choice.spec_extension(),
        ),
{
    lemma_choice_differs_from_input(spec_input_extension(input_path), choice);
    lemma_from_extension_inverts(choice.spec_extension(), choice);
}

/// Whatever is chosen, a conversion that goes ahead runs the transcoder,
/// writes beside the input under the input's stem, and is told to overwrite,
/// to read the input and to write the output, in that order.
pub proof fn lemma_plan_shape(input_path: Seq<char>, chosen_extension: Seq<char>)
    ensures
        spec_prepare(input_path, chosen_extension) matches Ok(command) ==> {
            &&& command.program == "ffmpeg"@
            &&& command.output_path == path_join(
                spec_output_directory(input_path),
                spec_output_stem(input_path) + "_converted."@ + chosen_extension,
            )
            &&& command.args.len() >= 4
            &&& command.args[0] == "-y"@
            &&& command.args[1] == "-i"@
            &&& command.args[2] == input_path
            &&& command.args.last() == command.output_path
        },
{
    if spec_prepare(input_path, chosen_extension) is Ok {
        let format = OutputFormat::spec_from_extension(chosen_extension)->0;
        lemma_from_extension_inverts(chosen_extension, format);
    }
}

} // verus!
