//! What one compiler run produced, and how a failed run is reported.

use crate::platform::Platform;
use vstd::prelude::*;
use vstd::string::StringExecFns;
use vstd::string::StringSliceAdditionalSpecFns;
use vstd::utf8::decode_utf8;
use vstd::utf8::valid_utf8;

verus! {

/// The error of `core::str::from_utf8`, carried through unread.
#[verifier::external_type_specification]
#[verifier::external_body]
pub struct ExUtf8Error(core::str::Utf8Error);

/// `core::str::from_utf8` succeeds on exactly the byte strings that are
/// well-formed UTF-8, and the text it returns then encodes to the bytes it
/// was given.
pub assume_specification[ core::str::from_utf8 ](v: &[u8]) -> (r: Result<
    &str,
    core::str::Utf8Error,
>)
    ensures
        r is Ok <==> valid_utf8(v@),
        r matches Ok(s) ==> s.spec_bytes() == v@,
;

/// A defect that ends the watcher at once.
#[derive(Clone, Copy, Debug, PartialEq, Eq, Structural)]
pub enum Defect {
    /// The compiler could not be started.
    SpawnFailed,
    /// What a failed run wrote to standard output is not UTF-8.
    MalformedStdout,
    /// What a failed run wrote to standard error is not UTF-8.
    MalformedStderr,
}

impl Defect {
    /// What went wrong, in words.
    pub open spec fn text(self) -> Seq<char> {
        match self {
            Defect::SpawnFailed => "cannot execute `vesti`"@,
            Defect::MalformedStdout => "standard output of `vesti` is not valid UTF-8"@,
            Defect::MalformedStderr => "standard error of `vesti` is not valid UTF-8"@,
        }
    }

    /// What went wrong, in words.
    pub fn message(self) -> (message: String)
        ensures
            message@ == self.text(),
    {
        match self {
            Defect::SpawnFailed => String::from_str("cannot execute `vesti`"),
            Defect::MalformedStdout => String::from_str(
                "standard output of `vesti` is not valid UTF-8",
            ),
            Defect::MalformedStderr => String::from_str(
                "standard error of `vesti` is not valid UTF-8",
            ),
        }
    }
}

/// The text of a captured stream, where it is well-formed UTF-8.
pub fn decode_stream(bytes: &[u8]) -> (text: Option<&str>)
    ensures
        text is Some <==> valid_utf8(bytes@),
        text matches Some(s) ==> s@ == decode_utf8(bytes@),
{
    match core::str::from_utf8(bytes) {
        Ok(s) => {
            proof {
                vstd::utf8::encode_utf8_decode_utf8(s@);
            }
            Some(s)
        },
        Err(_) => None,
    }
}

/// What one compiler run left behind: whether it exited successfully, and
/// the bytes it wrote to its two output streams.
#[derive(Clone, Debug, PartialEq, Eq)]
pub struct InvocationOutcome {
    pub success: bool,
    pub stdout: Vec<u8>,
    pub stderr: Vec<u8>,
}

/// The mathematical content of an [`InvocationOutcome`].
pub struct InvocationOutcomeView {
    pub success: bool,
    pub stdout: Seq<u8>,
    pub stderr: Seq<u8>,
}

impl View for InvocationOutcome {
    type V = InvocationOutcomeView;

    open spec fn view(&self) -> InvocationOutcomeView {
        InvocationOutcomeView { success: self.success, stdout: self.stdout@, stderr: self.stderr@ }
    }
}

/// How grave the matter of a dialog is.
#[derive(Clone, Copy, Debug, PartialEq, Eq, Structural)]
pub enum Severity {
    Warning,
    Error,
}

/// Something the watcher tells the user. The texts are complete: a line
/// carries its own line break.
#[derive(Clone, Debug, PartialEq, Eq)]
pub enum Output {
    /// Text for standard output.
    Stdout(String),
    /// Text for standard error.
    Stderr(String),
    /// A modal dialog with a title and a text.
    Alert { severity: Severity, title: String, text: String },
}

/// The mathematical content of an [`Output`].
pub enum OutputView {
    Stdout(Seq<char>),
    Stderr(Seq<char>),
    Alert { severity: Severity, title: Seq<char>, text: Seq<char> },
}

impl View for Output {
    type V = OutputView;

    open spec fn view(&self) -> OutputView {
        match self {
            Output::Stdout(text) => OutputView::Stdout(text@),
            Output::Stderr(text) => OutputView::Stderr(text@),
            Output::Alert { severity, title, text } => OutputView::Alert {
                severity: *severity,
                title: title@,
                text: text@,
            },
        }
    }
}

impl DeepView for Output {
    type V = OutputView;

    open spec fn deep_view(&self) -> OutputView {
        self@
    }
}

/// The message about a failed run: a heading, then what the compiler wrote
/// to standard output and to standard error, each under its own label.
pub open spec fn failure_message(stdout: Seq<char>, stderr: Seq<char>) -> Seq<char> {
    "vesti compilation failed.\n[stdout]\n"@ + stdout + "\n[stderr]\n"@ + stderr + "\n"@
}

/// The one channel a failure message goes through: a warning dialog where
/// the platform shows dialogs, standard error elsewhere.
pub open spec fn failure_output(platform: Platform, message: Seq<char>) -> OutputView {
    if platform.alerts_by_dialog() {
        OutputView::Alert { severity: Severity::Warning, title: "autoves warning"@, text: message }
    } else {
        OutputView::Stderr(message)
    }
}

/// What is reported of a compiler run. A successful run is not reported,
/// and its streams are not read. Of a failed run the two streams are read
/// as UTF-8 and reported in one message; a stream that is not UTF-8 is a
/// defect, that of standard output first.
pub open spec fn report(outcome: InvocationOutcomeView, platform: Platform) -> Result<
    Option<OutputView>,
    Defect,
> {
    if outcome.success {
        Ok(None)
    } else if !valid_utf8(outcome.stdout) {
        Err(Defect::MalformedStdout)
    } else if !valid_utf8(outcome.stderr) {
        Err(Defect::MalformedStderr)
    } else {
        Ok(
            Some(
                failure_output(
                    platform,
                    failure_message(decode_utf8(outcome.stdout), decode_utf8(outcome.stderr)),
                ),
            ),
        )
    }
}

/// Whether `needle` stands somewhere in `text` as one piece.
pub open spec fn contains_text(text: Seq<char>, needle: Seq<char>) -> bool {
    exists|i: int|
        0 <= i && i + needle.len() <= text.len() && #[trigger] text.subrange(
            i,
            i + needle.len(),
        ) == needle
}

/// Writes the message about a failed run.
pub fn format_failure(stdout: &str, stderr: &str) -> (message: String)
    ensures
        message@ == failure_message(stdout@, stderr@),
{
    let mut message = String::from_str("vesti compilation failed.\n[stdout]\n");
    message.append(stdout);
    message.append("\n[stderr]\n");
    message.append(stderr);
    message.append("\n");
    message
}

/// Puts a failure message on the channel of the platform.
pub fn failure_channel(platform: Platform, message: String) -> (output: Output)
    ensures
        output@ == failure_output(platform, message@),
{
    if platform.has_alert_dialog() {
        Output::Alert {
            severity: Severity::Warning,
            title: String::from_str("autoves warning"),
            text: message,
        }
    } else {
        Output::Stderr(message)
    }
}

/// Decides what to tell the user about a compiler run.
pub fn report_failure(outcome: &InvocationOutcome, platform: Platform) -> (r: Result<
    Option<Output>,
    Defect,
>)
    ensures
        match report(outcome@, platform) {
            Ok(None) => r == Ok::<Option<Output>, Defect>(None),
            Ok(Some(expected)) => r matches Ok(Some(output)) && output@ == expected,
            Err(defect) => r == Err::<Option<Output>, Defect>(defect),
        },
{
    if outcome.success {
        return Ok(None);
    }
    let stdout = match decode_stream(outcome.stdout.as_slice()) {
        Some(text) => text,
        None => {
            return Err(Defect::MalformedStdout);
        },
    };
    let stderr = match decode_stream(outcome.stderr.as_slice()) {
        Some(text) => text,
        None => {
            return Err(Defect::MalformedStderr);
        },
    };
    Ok(Some(failure_channel(platform, format_failure(stdout, stderr))))
}

/// The message about a failed run holds what the compiler wrote to each
/// of its streams, unchanged and in one piece.
pub proof fn lemma_message_embeds_streams(stdout: Seq<char>, stderr: Seq<char>)
    ensures
        contains_text(failure_message(stdout, stderr), stdout),
        contains_text(failure_message(stdout, stderr), stderr),
{
    let message = failure_message(stdout, stderr);
    let head = "vesti compilation failed.\n[stdout]\n"@;
    let middle = "\n[stderr]\n"@;
    let at_stdout = head.len() as int;
    let at_stderr = at_stdout + stdout.len() + middle.len();
    assert(message.subrange(at_stdout, at_stdout + stdout.len()) =~= stdout);
    assert(message.subrange(at_stderr, at_stderr + stderr.len()) =~= stderr);
}

} // verus!
