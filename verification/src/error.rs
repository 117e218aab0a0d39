//! Failures, in one typed enum.

use std::path::PathBuf;

use vstd::prelude::*;

use crate::paths::{is_not_found, path_shown, show_path};

verus! {

/// Why an architecture could not be turned into a plan.
///
/// `E` is the error that the evaluating runtime reports.
#[derive(Debug)]
pub enum LavaError<E> {
    /// The source file could not be read.
    Io { path: PathBuf, source: std::io::Error },
    /// No runtime evaluates the source.
    NoRuntime { path: PathBuf },
    /// There is no bundled interface, or no bundled architecture, of that name.
    UnknownInterface(String),
    /// The runtime failed.
    Runtime(E),
    /// The evaluated architecture could not be rendered or planned.
    Render(String),
}

/// What a [`LavaError`] holds.
#[verifier::ext_equal]
pub enum LavaErrorView<E> {
    Io { path: PathBuf, not_found: bool },
    NoRuntime { path: PathBuf },
    UnknownInterface(Seq<char>),
    Runtime(E),
    Render(Seq<char>),
}

impl<E> View for LavaError<E> {
    type V = LavaErrorView<E>;

    open spec fn view(&self) -> LavaErrorView<E> {
        match *self {
            LavaError::Io { path, source } => LavaErrorView::Io {
                path,
                not_found: is_not_found(source),
            },
            LavaError::NoRuntime { path } => LavaErrorView::NoRuntime { path },
            LavaError::UnknownInterface(name) => LavaErrorView::UnknownInterface(name@),
            LavaError::Runtime(error) => LavaErrorView::Runtime(error),
            LavaError::Render(text) => LavaErrorView::Render(text@),
        }
    }
}

/// The message of a file at `path` that could not be read because of `source`.
pub open spec fn io_message_text(path: Seq<char>, source: Seq<char>) -> Seq<char> {
    "io reading "@ + path + ": "@ + source
}

/// The message of a source at `path` that no runtime evaluates.
pub open spec fn no_runtime_message_text(path: Seq<char>) -> Seq<char> {
    "no runtime matches path "@ + path + " (extension hint resolved to nothing)"@
}

/// The message of a file that could not be read; its path and the failure are
/// given as they are shown.
pub fn io_message(path: &str, source: &str) -> (message: String)
    ensures
        message@ == io_message_text(path@, source@),
{
    String::from("io reading ").concat(path).concat(": ").concat(source)
}

/// The message of a source that no runtime evaluates; its path is given as it
/// is shown.
pub fn no_runtime_message(path: &str) -> (message: String)
    ensures
        message@ == no_runtime_message_text(path@),
{
    String::from("no runtime matches path ").concat(path).concat(
        " (extension hint resolved to nothing)",
    )
}

impl<E> LavaError<E> {
    /// The message of this error, where the error that it wraps reads `cause`.
    pub open spec fn message_text(self, cause: Seq<char>) -> Seq<char> {
        match self {
            LavaError::Io { path, .. } => io_message_text(path_shown(path), cause),
            LavaError::NoRuntime { path } => no_runtime_message_text(path_shown(path)),
            LavaError::UnknownInterface(name) => "unknown bundled interface `"@ + name@
                + "` — not in lava-architectures::interface_for"@,
            LavaError::Runtime(_) => "runtime: "@ + cause,
            LavaError::Render(text) => "render terraform.json: "@ + text@,
        }
    }

    /// The message of this error. `cause` is how the error that it wraps reads:
    /// the failure to read a file, or the runtime's error. The message of an
    /// error that wraps none does not use it.
    pub fn message(&self, cause: &str) -> (message: String)
        ensures
            message@ == self.message_text(cause@),
    {
        match self {
            LavaError::Io { path, .. } => io_message(show_path(path).as_str(), cause),
            LavaError::NoRuntime { path } => no_runtime_message(show_path(path).as_str()),
            LavaError::UnknownInterface(name) => String::from("unknown bundled interface `").concat(
                name.as_str(),
            ).concat("` — not in lava-architectures::interface_for"),
            LavaError::Runtime(_) => String::from("runtime: ").concat(cause),
            LavaError::Render(text) => String::from("render terraform.json: ").concat(
                text.as_str(),
            ),
        }
    }
}

} // verus!
