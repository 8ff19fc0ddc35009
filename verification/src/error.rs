//! The ways in which a run ends without the command's own exit status.

use vstd::prelude::*;
use crate::reply::Cause;
use crate::sandbox::IsolationStep;
use crate::text::{decimal, listed, to_decimal, to_list};

verus! {

/// Which of the two manifest documents was asked for.
#[derive(Clone, Copy, Debug, PartialEq, Eq, Structural)]
pub enum ManifestKind {
    /// The list of the variants of a tag.
    List,
    /// The manifest of one variant.
    Image,
}

/// Which part of a layer's extraction failed.
#[derive(Clone, Copy, Debug, PartialEq, Eq, Structural)]
pub enum ExtractionFault {
    /// The blob is no gzip stream that decodes to its end.
    Decompress,
    /// The archive could not be unpacked into the root.
    Archive,
}

/// Every failure is final: nothing is retried, and the run ends with it.
#[derive(Debug, PartialEq, Eq)]
pub enum RuntimeError {
    /// No token could be had.
    AuthError(Cause),
    /// A manifest document could not be had.
    ManifestError(ManifestKind, Cause),
    /// The manifest list names no variant for the platform asked for.
    NoMatchingPlatform,
    /// The manifest names no layer.
    EmptyManifest,
    /// The blob of the layer with this digest could not be had.
    LayerFetchError { digest: String, cause: Cause },
    /// A blob does not hold as many bytes as its layer declares.
    LayerSizeMismatch { declared: usize, actual: usize },
    /// A layer could not be extracted.
    LayerExtractionError(ExtractionFault),
    /// A step of the isolation failed.
    IsolationError(IsolationStep),
    /// The command could not be started.
    SpawnError { command: String, args: Vec<String> },
    /// An event arrived that the state does not await, or a step was
    /// reported that was not due.
    OutOfOrder,
}

/// The mathematical content of a [`RuntimeError`].
pub enum RuntimeErrorView {
    AuthError(Cause),
    ManifestError(ManifestKind, Cause),
    NoMatchingPlatform,
    EmptyManifest,
    LayerFetchError { digest: Seq<char>, cause: Cause },
    LayerSizeMismatch { declared: nat, actual: nat },
    LayerExtractionError(ExtractionFault),
    IsolationError(IsolationStep),
    SpawnError { command: Seq<char>, args: Seq<Seq<char>> },
    OutOfOrder,
}

/// The character views of a sequence of strings.
pub open spec fn string_views(strings: Seq<String>) -> Seq<Seq<char>> {
    strings.map_values(|s: String| s@)
}

impl View for RuntimeError {
    type V = RuntimeErrorView;

    open spec fn view(&self) -> RuntimeErrorView {
        match *self {
            RuntimeError::AuthError(cause) => RuntimeErrorView::AuthError(cause),
            RuntimeError::ManifestError(kind, cause) => RuntimeErrorView::ManifestError(
                kind,
                cause,
            ),
            RuntimeError::NoMatchingPlatform => RuntimeErrorView::NoMatchingPlatform,
            RuntimeError::EmptyManifest => RuntimeErrorView::EmptyManifest,
            RuntimeError::LayerFetchError { digest, cause } => RuntimeErrorView::LayerFetchError {
                digest: digest@,
                cause,
            },
            RuntimeError::LayerSizeMismatch { declared, actual } => {
                RuntimeErrorView::LayerSizeMismatch {
                    declared: declared as nat,
                    actual: actual as nat,
                }
            },
            RuntimeError::LayerExtractionError(fault) => RuntimeErrorView::LayerExtractionError(
                fault,
            ),
            RuntimeError::IsolationError(step) => RuntimeErrorView::IsolationError(step),
            RuntimeError::SpawnError { command, args } => RuntimeErrorView::SpawnError {
                command: command@,
                args: string_views(args@),
            },
            RuntimeError::OutOfOrder => RuntimeErrorView::OutOfOrder,
        }
    }
}

/// What went wrong in an exchange, in words.
pub open spec fn cause_text(cause: Cause) -> Seq<char> {
    match cause {
        Cause::Transport => "the request could not be sent"@,
        Cause::Status(status) => "the response has status "@ + decimal(status as nat),
        Cause::Body => "the response could not be parsed"@,
    }
}

/// The isolation step that failed, in words.
pub open spec fn step_text(step: IsolationStep) -> Seq<char> {
    match step {
        IsolationStep::ChangeRoot => "changing the filesystem root"@,
        IsolationStep::FixCwd => "changing the working directory"@,
        IsolationStep::EnsureDevice => "creating the null device's path"@,
        IsolationStep::DetachNamespace => "detaching the process namespace"@,
    }
}

/// The report of an error: what was attempted, and what came of it.
pub open spec fn message_of(error: RuntimeErrorView) -> Seq<char> {
    match error {
        RuntimeErrorView::AuthError(cause) => "authentication: "@ + cause_text(cause),
        RuntimeErrorView::ManifestError(ManifestKind::List, cause) => "getting manifest list: "@
            + cause_text(cause),
        RuntimeErrorView::ManifestError(ManifestKind::Image, cause) => "getting image manifest: "@
            + cause_text(cause),
        RuntimeErrorView::NoMatchingPlatform => "no image manifest found for specified platform"@,
        RuntimeErrorView::EmptyManifest => "no image layers found"@,
        RuntimeErrorView::LayerFetchError { digest, cause } => "downloading image layer "@ + digest
            + ": "@ + cause_text(cause),
        RuntimeErrorView::LayerSizeMismatch { declared, actual } =>
            "image layer corrupted, expected "@ + decimal(declared) + " bytes, got "@ + decimal(
                actual,
            ) + " bytes"@,
        RuntimeErrorView::LayerExtractionError(ExtractionFault::Decompress) =>
            "unpacking image layer: the blob could not be decompressed"@,
        RuntimeErrorView::LayerExtractionError(ExtractionFault::Archive) =>
            "unpacking image layer: the archive could not be extracted"@,
        RuntimeErrorView::IsolationError(step) => "isolating the process: "@ + step_text(step),
        RuntimeErrorView::SpawnError { command, args } => "tried to run '"@ + command
            + "' with arguments ["@ + listed(args) + "]"@,
        RuntimeErrorView::OutOfOrder => "a step was reported out of order"@,
    }
}

/// Says in words what went wrong in an exchange.
fn describe_cause(cause: Cause) -> (text: String)
    ensures
        text@ == cause_text(cause),
{
    match cause {
        Cause::Transport => String::from_str("the request could not be sent"),
        Cause::Status(status) => {
            let mut text = String::from_str("the response has status ");
            text.append(to_decimal(status as usize).as_str());
            text
        },
        Cause::Body => String::from_str("the response could not be parsed"),
    }
}

/// Names an isolation step in words.
fn describe_step(step: IsolationStep) -> (text: &'static str)
    ensures
        text@ == step_text(step),
{
    match step {
        IsolationStep::ChangeRoot => "changing the filesystem root",
        IsolationStep::FixCwd => "changing the working directory",
        IsolationStep::EnsureDevice => "creating the null device's path",
        IsolationStep::DetachNamespace => "detaching the process namespace",
    }
}

impl RuntimeError {
    /// Reports the error in words: the operation that was attempted and
    /// what came of it, with the numbers and names that the error holds.
    pub fn message(&self) -> (text: String)
        ensures
            text@ == message_of(self@),
    {
        match self {
            RuntimeError::AuthError(cause) => {
                let mut text = String::from_str("authentication: ");
                text.append(describe_cause(*cause).as_str());
                text
            },
            RuntimeError::ManifestError(kind, cause) => {
                let mut text = match kind {
                    ManifestKind::List => String::from_str("getting manifest list: "),
                    ManifestKind::Image => String::from_str("getting image manifest: "),
                };
                text.append(describe_cause(*cause).as_str());
                text
            },
            RuntimeError::NoMatchingPlatform => String::from_str(
                "no image manifest found for specified platform",
            ),
            RuntimeError::EmptyManifest => String::from_str("no image layers found"),
            RuntimeError::LayerFetchError { digest, cause } => {
                let mut text = String::from_str("downloading image layer ");
                text.append(digest.as_str());
                text.append(": ");
                text.append(describe_cause(*cause).as_str());
                text
            },
            RuntimeError::LayerSizeMismatch { declared, actual } => {
                let mut text = String::from_str("image layer corrupted, expected ");
                text.append(to_decimal(*declared).as_str());
                text.append(" bytes, got ");
                text.append(to_decimal(*actual).as_str());
                text.append(" bytes");
                text
            },
            RuntimeError::LayerExtractionError(fault) => match fault {
                ExtractionFault::Decompress => String::from_str(
                    "unpacking image layer: the blob could not be decompressed",
                ),
                ExtractionFault::Archive => String::from_str(
                    "unpacking image layer: the archive could not be extracted",
                ),
            },
            RuntimeError::IsolationError(step) => {
                let mut text = String::from_str("isolating the process: ");
                text.append(describe_step(*step));
                text
            },
            RuntimeError::SpawnError { command, args } => {
                let mut text = String::from_str("tried to run '");
                text.append(command.as_str());
                text.append("' with arguments [");
                text.append(to_list(args).as_str());
                text.append("]");
                text
            },
            RuntimeError::OutOfOrder => String::from_str("a step was reported out of order"),
        }
    }
}

} // verus!
