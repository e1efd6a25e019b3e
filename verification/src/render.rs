//! The decisions of one render, as a machine.
//!
//! The host does the outside work (a workspace on disk, two child processes)
//! and reports each outcome as an event; the machine answers with the next
//! thing to do. `Finish` ends the render: the host removes the workspace and
//! hands the outcome to the caller.

use crate::latex::{
    assemble_document, contains, document, dvi_file_name, occurs_at, option_view, source_file_name,
};
use vstd::prelude::*;
use vstd::string::*;
use vstd::utf8::{decode_utf8, valid_utf8};

verus! {

/// One render: the name under which its files are kept, the math snippet,
/// and whether the snippet brings its own display delimiters.
#[derive(Clone, Debug, PartialEq, Eq)]
pub struct RenderRequest {
    pub id: String,
    pub tex: String,
    pub display_mode: bool,
}

/// Where a render stands: what the host was last asked to do.
#[derive(Clone, Copy, Debug, PartialEq, Eq)]
pub enum RenderPhase {
    /// Nothing was asked yet.
    Start,
    /// The workspace is being created.
    Workspace,
    /// The source file is being written.
    Source,
    /// The typesetter runs.
    Typesetting,
    /// The typesetter failed and its log is being read.
    Log,
    /// The converter runs.
    Converting,
    /// The render is over.
    Done,
}

/// What the host reports.
#[derive(Debug, PartialEq, Eq)]
pub enum RenderEvent {
    /// A render is asked for.
    Begin,
    /// The workspace was created, or the source file was written.
    Ready,
    /// The workspace or the source file could not be made; holds the
    /// system's message.
    IoFailed(String),
    /// A tool could not be started; holds the system's message.
    SpawnFailed(String),
    /// A tool ran to its end.
    Exited { success: bool, stdout: Vec<u8>, stderr: Vec<u8> },
    /// The log was read, or could not be.
    LogRead(Option<String>),
}

/// What the host is to do next.
#[derive(Debug, PartialEq, Eq)]
pub enum RenderAction {
    /// Create a fresh directory that no other render uses.
    CreateWorkspace,
    /// Write `contents` to the file `file_name` inside the workspace.
    WriteSource { file_name: String, contents: String },
    /// Run the typesetter on the file `source_file` of the workspace, with
    /// the workspace as its output directory.
    RunTypesetter { source_file: String },
    /// Read the typesetter's log.
    ReadLog,
    /// Run the converter on the file `dvi_file` of the workspace.
    RunConverter { dvi_file: String },
    /// Remove the workspace and return the outcome: the image, or why there
    /// is none.
    Finish(Result<String, String>),
}

/// An action with its strings as sequences.
pub enum ActionView {
    CreateWorkspace,
    WriteSource { file_name: Seq<char>, contents: Seq<char> },
    RunTypesetter { source_file: Seq<char> },
    ReadLog,
    RunConverter { dvi_file: Seq<char> },
    Finish(Result<Seq<char>, Seq<char>>),
}

/// The view of an outcome.
pub open spec fn result_view(outcome: Result<String, String>) -> Result<Seq<char>, Seq<char>> {
    match outcome {
        Ok(text) => Ok(text@),
        Err(message) => Err(message@),
    }
}

impl View for RenderAction {
    type V = ActionView;

    open spec fn view(&self) -> ActionView {
        match *self {
            RenderAction::CreateWorkspace => ActionView::CreateWorkspace,
            RenderAction::WriteSource { file_name, contents } => ActionView::WriteSource {
                file_name: file_name@,
                contents: contents@,
            },
            RenderAction::RunTypesetter { source_file } => ActionView::RunTypesetter {
                source_file: source_file@,
            },
            RenderAction::ReadLog => ActionView::ReadLog,
            RenderAction::RunConverter { dvi_file } => ActionView::RunConverter {
                dvi_file: dvi_file@,
            },
            RenderAction::Finish(outcome) => ActionView::Finish(result_view(outcome)),
        }
    }
}

/// Text of the error with which the standard library refuses bytes that are
/// no UTF-8.
pub uninterp spec fn utf8_error_text(bytes: Seq<u8>) -> Seq<char>;

/// Text that the standard library makes of bytes when it puts the replacement
/// character for each invalid sequence.
pub uninterp spec fn utf8_lossy_text(bytes: Seq<u8>) -> Seq<char>;

/// What decoding bytes as UTF-8 gives: the text, or the refusal's message.
pub open spec fn decoded_text(bytes: Seq<u8>) -> Result<Seq<char>, Seq<char>> {
    if valid_utf8(bytes) {
        Ok(decode_utf8(bytes))
    } else {
        Err(utf8_error_text(bytes))
    }
}

/// Calls `String::from_utf8`. Trusted: valid UTF-8 comes back as the text it
/// encodes; anything else is refused, and the refusal's message depends on
/// the bytes alone.
#[verifier::external_body]
fn decode_text(bytes: Vec<u8>) -> (r: Result<String, String>)
    ensures
        match r {
            Ok(text) => valid_utf8(bytes@) && text@ == decode_utf8(bytes@),
            Err(message) => !valid_utf8(bytes@) && message@ == utf8_error_text(bytes@),
        },
{
    match String::from_utf8(bytes) {
        Ok(text) => Ok(text),
        Err(refusal) => Err(refusal.to_string()),
    }
}

/// Calls `String::from_utf8_lossy`. Trusted: the text depends on the bytes
/// alone, and valid UTF-8 comes back as the text it encodes.
#[verifier::external_body]
fn lossy_text(bytes: &Vec<u8>) -> (r: String)
    ensures
        r@ == utf8_lossy_text(bytes@),
        valid_utf8(bytes@) ==> r@ == decode_utf8(bytes@),
{
    String::from_utf8_lossy(bytes).into_owned()
}

/// Message for a tool that could not be started.
pub open spec fn spawn_failure(tool: Seq<char>, reason: Seq<char>) -> Seq<char> {
    "`"@ + tool + "` command failed: "@ + reason
}

/// Message for a failed typesetting run: the log, or a placeholder where the
/// log could not be read.
pub open spec fn typeset_failure(log: Option<Seq<char>>) -> Seq<char> {
    "LaTeX compilation failed. See log:\n\n"@ + match log {
        Some(text) => text,
        None => "Could not read LaTeX log."@,
    }
}

/// Message for a failed conversion: what the converter wrote to its error
/// stream.
pub open spec fn conversion_failure(stderr_text: Seq<char>) -> Seq<char> {
    "dvisvgm conversion failed: "@ + stderr_text
}

/// Builds the message for a tool that could not be started.
pub fn spawn_failure_message(tool: &str, reason: &str) -> (r: String)
    ensures
        r@ == spawn_failure(tool@, reason@),
{
    let mut message = String::from_str("`");
    message.append(tool);
    message.append("` command failed: ");
    message.append(reason);
    message
}

/// Builds the message for a failed typesetting run.
pub fn typeset_failure_message(log: Option<String>) -> (r: String)
    ensures
        r@ == typeset_failure(option_view(log)),
{
    let mut message = String::from_str("LaTeX compilation failed. See log:\n\n");
    match log {
        Some(text) => message.append(text.as_str()),
        None => message.append("Could not read LaTeX log."),
    }
    message
}

/// Builds the message for a failed conversion.
pub fn conversion_failure_message(stderr_text: &str) -> (r: String)
    ensures
        r@ == conversion_failure(stderr_text@),
{
    let mut message = String::from_str("dvisvgm conversion failed: ");
    message.append(stderr_text);
    message
}

/// The outcome of a conversion that exited: the decoded image after a
/// success, the failure message after anything else.
pub open spec fn conversion_outcome(
    success: bool,
    decoded: Result<Seq<char>, Seq<char>>,
    stderr_text: Seq<char>,
) -> Result<Seq<char>, Seq<char>> {
    if success {
        decoded
    } else {
        Err(conversion_failure(stderr_text))
    }
}

/// True where `event` is one that the machine waits for in `phase`.
pub open spec fn expects(phase: RenderPhase, event: RenderEvent) -> bool {
    match phase {
        RenderPhase::Start => event is Begin,
        RenderPhase::Workspace => event is Ready || event is IoFailed,
        RenderPhase::Source => event is Ready || event is IoFailed,
        RenderPhase::Typesetting => event is SpawnFailed || event is Exited,
        RenderPhase::Log => event is LogRead,
        RenderPhase::Converting => event is SpawnFailed || event is Exited,
        RenderPhase::Done => false,
    }
}

/// The machine's answer to `event` in `phase`, for an event that it waits
/// for, in a render of `request` with `preamble`.
pub open spec fn step_action(
    request: RenderRequest,
    preamble: Seq<char>,
    phase: RenderPhase,
    event: RenderEvent,
) -> ActionView {
    match event {
        RenderEvent::Begin => ActionView::CreateWorkspace,
        RenderEvent::Ready => if phase is Workspace {
            ActionView::WriteSource {
                file_name: request.id@ + ".tex"@,
                contents: document(request.tex@, request.display_mode, preamble),
            }
        } else {
            ActionView::RunTypesetter { source_file: request.id@ + ".tex"@ }
        },
        RenderEvent::IoFailed(reason) => ActionView::Finish(Err(reason@)),
        RenderEvent::SpawnFailed(reason) => if phase is Typesetting {
            ActionView::Finish(Err(spawn_failure("latex"@, reason@)))
        } else {
            ActionView::Finish(Err(spawn_failure("dvisvgm"@, reason@)))
        },
        RenderEvent::Exited { success, stdout, stderr } => if phase is Typesetting {
            if success {
                ActionView::RunConverter { dvi_file: request.id@ + ".dvi"@ }
            } else {
                ActionView::ReadLog
            }
        } else {
            ActionView::Finish(
                conversion_outcome(success, decoded_text(stdout@), utf8_lossy_text(stderr@)),
            )
        },
        RenderEvent::LogRead(log) => ActionView::Finish(Err(typeset_failure(option_view(log)))),
    }
}

/// The phase in which the machine waits once it has asked for `action`.
pub open spec fn phase_after(action: ActionView) -> RenderPhase {
    match action {
        ActionView::CreateWorkspace => RenderPhase::Workspace,
        ActionView::WriteSource { .. } => RenderPhase::Source,
        ActionView::RunTypesetter { .. } => RenderPhase::Typesetting,
        ActionView::ReadLog => RenderPhase::Log,
        ActionView::RunConverter { .. } => RenderPhase::Converting,
        ActionView::Finish(_) => RenderPhase::Done,
    }
}

/// How far a phase is from the start.
pub open spec fn phase_rank(phase: RenderPhase) -> nat {
    match phase {
        RenderPhase::Start => 0,
        RenderPhase::Workspace => 1,
        RenderPhase::Source => 2,
        RenderPhase::Typesetting => 3,
        RenderPhase::Log => 4,
        RenderPhase::Converting => 5,
        RenderPhase::Done => 6,
    }
}

/// The outcome of a converter that exited, from its decoded output and the
/// text of its error stream.
pub fn conversion_result(success: bool, decoded: Result<String, String>, stderr_text: &str) -> (r:
    Result<String, String>)
    ensures
        result_view(r) == conversion_outcome(success, result_view(decoded), stderr_text@),
{
    if success {
        decoded
    } else {
        Err(conversion_failure_message(stderr_text))
    }
}

/// One step of a render: the next phase and what the host is to do, or
/// nothing where the machine does not wait for `event` in `phase`.
pub fn render_step(
    request: &RenderRequest,
    preamble: &str,
    phase: RenderPhase,
    event: RenderEvent,
) -> (r: Option<(RenderPhase, RenderAction)>)
    ensures
        r is Some <==> expects(phase, event),
        r matches Some((next, action)) ==> action@ == step_action(
            *request,
            preamble@,
            phase,
            event,
        ) && next == phase_after(action@),
{
    match phase {
        RenderPhase::Start => match event {
            RenderEvent::Begin => Some((RenderPhase::Workspace, RenderAction::CreateWorkspace)),
            _ => None,
        },
        RenderPhase::Workspace => match event {
            RenderEvent::Ready => {
                let file_name = source_file_name(request.id.as_str());
                let contents = assemble_document(
                    request.tex.as_str(),
                    request.display_mode,
                    preamble,
                );
                Some((RenderPhase::Source, RenderAction::WriteSource { file_name, contents }))
            },
            RenderEvent::IoFailed(reason) => Some(
                (RenderPhase::Done, RenderAction::Finish(Err(reason))),
            ),
            _ => None,
        },
        RenderPhase::Source => match event {
            RenderEvent::Ready => {
                let source_file = source_file_name(request.id.as_str());
                Some((RenderPhase::Typesetting, RenderAction::RunTypesetter { source_file }))
            },
            RenderEvent::IoFailed(reason) => Some(
                (RenderPhase::Done, RenderAction::Finish(Err(reason))),
            ),
            _ => None,
        },
        RenderPhase::Typesetting => match event {
            RenderEvent::SpawnFailed(reason) => {
                let message = spawn_failure_message("latex", reason.as_str());
                Some((RenderPhase::Done, RenderAction::Finish(Err(message))))
            },
            RenderEvent::Exited { success, .. } => {
                if success {
                    let dvi_file = dvi_file_name(request.id.as_str());
                    Some((RenderPhase::Converting, RenderAction::RunConverter { dvi_file }))
                } else {
                    Some((RenderPhase::Log, RenderAction::ReadLog))
                }
            },
            _ => None,
        },
        RenderPhase::Log => match event {
            RenderEvent::LogRead(log) => {
                let message = typeset_failure_message(log);
                Some((RenderPhase::Done, RenderAction::Finish(Err(message))))
            },
            _ => None,
        },
        RenderPhase::Converting => match event {
            RenderEvent::SpawnFailed(reason) => {
                let message = spawn_failure_message("dvisvgm", reason.as_str());
                Some((RenderPhase::Done, RenderAction::Finish(Err(message))))
            },
            RenderEvent::Exited { success, stdout, stderr } => {
                let stderr_text = lossy_text(&stderr);
                let outcome = conversion_result(success, decode_text(stdout), stderr_text.as_str());
                Some((RenderPhase::Done, RenderAction::Finish(outcome)))
            },
            _ => None,
        },
        RenderPhase::Done => None,
    }
}

/// Every step moves the render forward, so a render takes at most six steps;
/// and the machine is done exactly when it has asked the host to finish.
pub proof fn lemma_step_advances(
    request: RenderRequest,
    preamble: Seq<char>,
    phase: RenderPhase,
    event: RenderEvent,
)
    requires
        expects(phase, event),
    ensures
        phase_rank(phase_after(step_action(request, preamble, phase, event))) > phase_rank(phase),
        phase_rank(phase_after(step_action(request, preamble, phase, event))) <= 6,
        phase_after(step_action(request, preamble, phase, event)) is Done <==> step_action(
            request,
            preamble,
            phase,
            event,
        ) is Finish,
{
}

/// Every failure that the host reports ends the render with an error
/// outcome: none is dropped and none is tried again.
pub proof fn lemma_failures_finish(
    request: RenderRequest,
    preamble: Seq<char>,
    phase: RenderPhase,
    event: RenderEvent,
)
    requires
        expects(phase, event),
        event is IoFailed || event is SpawnFailed || event is LogRead,
    ensures
        step_action(request, preamble, phase, event) matches ActionView::Finish(outcome)
            && outcome is Err,
{
}

/// A render succeeds only with what the converter wrote after a success of
/// its own: the image is that output, which is valid UTF-8, decoded.
pub proof fn lemma_success_is_converter_output(
    request: RenderRequest,
    preamble: Seq<char>,
    phase: RenderPhase,
    event: RenderEvent,
    image: Seq<char>,
)
    requires
        expects(phase, event),
        step_action(request, preamble, phase, event) == ActionView::Finish(Ok(image)),
    ensures
        phase is Converting,
        event matches RenderEvent::Exited { success, stdout, stderr } && success && valid_utf8(
            stdout@,
        ) && image == decode_utf8(stdout@),
{
}

/// The returned image starts as the converter's output does: a header that
/// the converter wrote stands at the start of the image.
pub proof fn lemma_image_keeps_header(
    request: RenderRequest,
    preamble: Seq<char>,
    phase: RenderPhase,
    event: RenderEvent,
    image: Seq<char>,
    header: Seq<char>,
)
    requires
        expects(phase, event),
        step_action(request, preamble, phase, event) == ActionView::Finish(Ok(image)),
        event matches RenderEvent::Exited { success, stdout, stderr } && occurs_at(
            decode_utf8(stdout@),
            header,
            0,
        ),
    ensures
        occurs_at(image, header, 0),
{
    lemma_success_is_converter_output(request, preamble, phase, event, image);
}

/// The message for a failed typesetting run ends with the log, whole.
pub proof fn lemma_typeset_failure_shows_log(log: Seq<char>)
    ensures
        contains(typeset_failure(Some(log)), log),
        typeset_failure(Some(log)).len() == "LaTeX compilation failed. See log:\n\n"@.len()
            + log.len(),
{
    let message = typeset_failure(Some(log));
    let at = "LaTeX compilation failed. See log:\n\n"@.len() as int;
    assert(message.subrange(at, at + log.len()) =~= log);
    assert(occurs_at(message, log, at));
}

} // verus!
