//! Outcome of building a shader or a program.
//!
//! The driver is asked for the build status, then, after a failure, for the
//! length of its info log and for the log itself. [`next_step`] says what
//! follows each of its answers.

use vstd::prelude::*;
use vstd::utf8::{decode_utf8, valid_utf8};

verus! {

/// The status value by which the driver reports a successful build.
pub const STATUS_OK: i32 = 1;

/// The object that is built: a shader that is compiled, or a program that is
/// linked.
#[derive(Clone, Copy, Debug, PartialEq, Eq, Structural)]
pub enum BuildKind {
    Shader,
    Program,
}

/// Why a build ended without a usable object.
#[derive(Debug, PartialEq, Eq)]
pub enum BuildError {
    /// The driver refused the source; `log` is its info log.
    Rejected { kind: BuildKind, log: String },
    /// The driver refused the source and its info log is not UTF-8.
    LogNotUtf8 { kind: BuildKind },
    /// The driver refused the source and reported an info log without even
    /// the terminating byte.
    BadLogLength { kind: BuildKind, len: i32 },
}

/// A [`BuildError`] with its text as a sequence of characters.
pub enum BuildErrorView {
    Rejected { kind: BuildKind, log: Seq<char> },
    LogNotUtf8 { kind: BuildKind },
    BadLogLength { kind: BuildKind, len: i32 },
}

impl View for BuildError {
    type V = BuildErrorView;

    open spec fn view(&self) -> BuildErrorView {
        match *self {
            BuildError::Rejected { kind, log } => BuildErrorView::Rejected { kind, log: log@ },
            BuildError::LogNotUtf8 { kind } => BuildErrorView::LogNotUtf8 { kind },
            BuildError::BadLogLength { kind, len } => BuildErrorView::BadLogLength { kind, len },
        }
    }
}

impl BuildErrorView {
    /// The kind of object whose build failed.
    pub open spec fn kind(self) -> BuildKind {
        match self {
            BuildErrorView::Rejected { kind, .. } => kind,
            BuildErrorView::LogNotUtf8 { kind } => kind,
            BuildErrorView::BadLogLength { kind, .. } => kind,
        }
    }

    /// The text shown for the error: the driver's log where there is one.
    pub open spec fn message(self) -> Seq<char> {
        match self {
            BuildErrorView::Rejected { log, .. } => log,
            BuildErrorView::LogNotUtf8 { kind: BuildKind::Shader } => {
                "ShaderInfoLog not valid utf8."@
            },
            BuildErrorView::LogNotUtf8 { kind: BuildKind::Program } => {
                "ProgramInfoLog not valid utf8"@
            },
            BuildErrorView::BadLogLength { kind: BuildKind::Shader, .. } => {
                "ShaderInfoLog has no valid length"@
            },
            BuildErrorView::BadLogLength { kind: BuildKind::Program, .. } => {
                "ProgramInfoLog has no valid length"@
            },
        }
    }
}

impl BuildError {
    /// The kind of object whose build failed.
    pub fn kind(&self) -> (kind: BuildKind)
        ensures
            kind == self@.kind(),
    {
        match self {
            BuildError::Rejected { kind, .. } => *kind,
            BuildError::LogNotUtf8 { kind } => *kind,
            BuildError::BadLogLength { kind, .. } => *kind,
        }
    }

    /// The text to abort with.
    pub fn message(&self) -> (text: String)
        ensures
            text@ == self@.message(),
    {
        match self {
            BuildError::Rejected { log, .. } => log.clone(),
            BuildError::LogNotUtf8 { kind: BuildKind::Shader } => {
                "ShaderInfoLog not valid utf8.".to_owned()
            },
            BuildError::LogNotUtf8 { kind: BuildKind::Program } => {
                "ProgramInfoLog not valid utf8".to_owned()
            },
            BuildError::BadLogLength { kind: BuildKind::Shader, .. } => {
                "ShaderInfoLog has no valid length".to_owned()
            },
            BuildError::BadLogLength { kind: BuildKind::Program, .. } => {
                "ProgramInfoLog has no valid length".to_owned()
            },
        }
    }
}

/// An answer of the driver during a build.
#[derive(Debug, PartialEq, Eq)]
pub enum DriverReply {
    /// The compile or link status.
    Status(i32),
    /// The length of the info log, terminating byte included.
    LogLength(i32),
    /// The bytes of the info log, without the terminating byte.
    Log(Vec<u8>),
}

/// What to do after an answer of the driver.
#[derive(Debug, PartialEq, Eq)]
pub enum BuildStep {
    /// The build succeeded: use the object.
    Accept,
    /// Ask for the length of the info log.
    QueryLogLength,
    /// Fetch the info log into a buffer of `capacity` bytes, of which the
    /// first `text_len` hold the text.
    ReadLog { capacity: usize, text_len: usize },
    /// Give up with this error.
    Abort(BuildError),
}

/// A [`BuildStep`] with its error by view.
pub enum BuildStepView {
    Accept,
    QueryLogLength,
    ReadLog { capacity: usize, text_len: usize },
    Abort(BuildErrorView),
}

impl View for BuildStep {
    type V = BuildStepView;

    open spec fn view(&self) -> BuildStepView {
        match *self {
            BuildStep::Accept => BuildStepView::Accept,
            BuildStep::QueryLogLength => BuildStepView::QueryLogLength,
            BuildStep::ReadLog { capacity, text_len } => BuildStepView::ReadLog {
                capacity,
                text_len,
            },
            BuildStep::Abort(error) => BuildStepView::Abort(error@),
        }
    }
}

/// Whether `status` reports a successful build.
pub open spec fn status_ok(status: i32) -> bool {
    status == STATUS_OK
}

/// The number of text bytes in an info log of reported length `len`: one
/// less than `len`, which counts the terminating byte. A length below one
/// has no text.
pub open spec fn text_len_of(len: i32) -> Option<usize> {
    if len >= 1 {
        Some((len - 1) as usize)
    } else {
        None
    }
}

/// The error for a refused build whose info log holds `bytes`.
pub open spec fn failure_of(kind: BuildKind, bytes: Seq<u8>) -> BuildErrorView {
    if valid_utf8(bytes) {
        BuildErrorView::Rejected { kind, log: decode_utf8(bytes) }
    } else {
        BuildErrorView::LogNotUtf8 { kind }
    }
}

/// The step that follows `reply` in a build of `kind`.
pub open spec fn step_after(kind: BuildKind, reply: DriverReply) -> BuildStepView {
    match reply {
        DriverReply::Status(status) => if status_ok(status) {
            BuildStepView::Accept
        } else {
            BuildStepView::QueryLogLength
        },
        DriverReply::LogLength(len) => match text_len_of(len) {
            Some(text_len) => BuildStepView::ReadLog { capacity: len as usize, text_len },
            None => BuildStepView::Abort(BuildErrorView::BadLogLength { kind, len }),
        },
        DriverReply::Log(bytes) => BuildStepView::Abort(failure_of(kind, bytes@)),
    }
}

/// How a build ends when the driver has `status`, `len` and `log` to answer
/// with: well on a good status, and otherwise with the log, as far as there
/// is one.
pub open spec fn build_outcome(kind: BuildKind, status: i32, len: i32, log: Seq<u8>) -> Result<
    (),
    BuildErrorView,
> {
    if status_ok(status) {
        Ok(())
    } else if len < 1 {
        Err(BuildErrorView::BadLogLength { kind, len })
    } else {
        Err(failure_of(kind, log))
    }
}

/// Reads `gl::TRUE`, the driver's word for success, as the integer that a
/// status query yields. The bindings define it as 1.
#[verifier::external_body]
fn driver_true() -> (value: i32)
    ensures
        value == STATUS_OK,
{
    i32::from(gl::TRUE)
}

/// Calls `String::from_utf8`. The text comes back exactly when the bytes are
/// well-formed UTF-8, and is then the characters that they encode.
#[verifier::external_body]
fn decode_log(bytes: Vec<u8>) -> (text: Option<String>)
    ensures
        text.is_some() == valid_utf8(bytes@),
        text matches Some(s) ==> s@ == decode_utf8(bytes@),
{
    match String::from_utf8(bytes) {
        Ok(s) => Some(s),
        Err(_) => None,
    }
}

/// Tells a successful build from a failed one by the status that the driver
/// reported.
pub fn succeeded(status: i32) -> (ok: bool)
    ensures
        ok == status_ok(status),
{
    status == driver_true()
}

/// The number of text bytes to keep of an info log whose reported length is
/// `len`, or `None` where `len` is below one.
pub fn log_text_len(len: i32) -> (text_len: Option<usize>)
    ensures
        text_len == text_len_of(len),
        text_len.is_some() == (len >= 1),
        text_len matches Some(n) ==> n + 1 == len,
{
    if len >= 1 {
        Some((len - 1) as usize)
    } else {
        None
    }
}

/// Turns the info log of a refused build into the error to abort with.
pub fn failure(kind: BuildKind, log: Vec<u8>) -> (error: BuildError)
    ensures
        error@ == failure_of(kind, log@),
{
    match decode_log(log) {
        Some(text) => BuildError::Rejected { kind, log: text },
        None => BuildError::LogNotUtf8 { kind },
    }
}

/// Decides what follows an answer of the driver.
///
/// A good status accepts the object and any other asks for the length of the
/// info log. A length of at least one asks for the log itself, into a buffer
/// of that many bytes of which all but the last are text; a smaller one
/// aborts. The log always aborts, with its text where it is UTF-8.
pub fn next_step(kind: BuildKind, reply: DriverReply) -> (step: BuildStep)
    ensures
        step@ == step_after(kind, reply),
{
    match reply {
        DriverReply::Status(status) => {
            if succeeded(status) {
                BuildStep::Accept
            } else {
                BuildStep::QueryLogLength
            }
        },
        DriverReply::LogLength(len) => {
            match log_text_len(len) {
                Some(text_len) => BuildStep::ReadLog { capacity: len as usize, text_len },
                None => BuildStep::Abort(BuildError::BadLogLength { kind, len }),
            }
        },
        DriverReply::Log(bytes) => BuildStep::Abort(failure(kind, bytes)),
    }
}

/// Only a good status is accepted: no answer of the driver but the status of
/// a successful build lets the object be used.
pub proof fn accepts_only_good_status(kind: BuildKind, reply: DriverReply)
    ensures
        step_after(kind, reply) is Accept <==> reply == DriverReply::Status(STATUS_OK),
{
}

/// Step by step a build ends as [`build_outcome`] says. A good status is
/// accepted at once. Any other leads to the length of the log, and from
/// there either to an abort or, through the log, to the abort that carries
/// its text.
pub proof fn steps_reach_outcome(kind: BuildKind, status: i32, len: i32, log: Vec<u8>)
    ensures
        match build_outcome(kind, status, len, log@) {
            Ok(_) => step_after(kind, DriverReply::Status(status)) is Accept,
            Err(error) => {
                &&& step_after(kind, DriverReply::Status(status)) is QueryLogLength
                &&& if len < 1 {
                    step_after(kind, DriverReply::LogLength(len)) == BuildStepView::Abort(error)
                } else {
                    &&& step_after(kind, DriverReply::LogLength(len)) is ReadLog
                    &&& step_after(kind, DriverReply::Log(log)) == BuildStepView::Abort(error)
                }
            },
        },
{
}

/// An abort names the build that it ends.
pub proof fn abort_names_its_build(kind: BuildKind, reply: DriverReply)
    ensures
        step_after(kind, reply) matches BuildStepView::Abort(error) ==> error.kind() == kind,
{
}

/// A log is fetched whole: the buffer has room for the text and for the
/// byte that ends it.
pub proof fn log_buffer_holds_text(kind: BuildKind, len: i32)
    ensures
        step_after(kind, DriverReply::LogLength(len)) matches BuildStepView::ReadLog {
            capacity,
            text_len,
        } ==> capacity == len && text_len + 1 == capacity,
{
}

} // verus!
