//! What happens to the editor and what it asks for in turn: the events that
//! the shell hands in, the actions that it is handed back, and the phase of
//! a compile attempt in between.

use crate::paths::{file_name_of, final_component, parent_directory, parent_of};
use crate::streams::Stream;
use vstd::prelude::*;

verus! {

/// Why a user action ended without its result.
#[derive(Clone, Copy, Debug, PartialEq, Eq, Structural)]
pub enum WorkflowError {
    /// The chosen path names no directory to enter.
    NoParentDirectory,
    /// The chosen path names no file.
    NoFileName,
    /// The directory of the chosen path could not be entered.
    DirectoryNotEntered,
    /// The source buffer could not be written to the input file.
    WriteFailed,
    /// The compiler could not be started.
    SpawnFailed,
    /// One of the compiler's streams is not text.
    DecodeFailed,
}

/// The description of each error.
pub open spec fn message_of(error: WorkflowError) -> Seq<char> {
    match error {
        WorkflowError::NoParentDirectory => "the chosen path has no parent directory"@,
        WorkflowError::NoFileName => "the chosen path has no file name"@,
        WorkflowError::DirectoryNotEntered => "the chosen directory could not be entered"@,
        WorkflowError::WriteFailed => "the source file could not be written"@,
        WorkflowError::SpawnFailed => "the compiler could not be started"@,
        WorkflowError::DecodeFailed => "the compiler's output is not valid UTF-8"@,
    }
}

impl WorkflowError {
    /// A description to show to the user.
    pub fn message(&self) -> (text: String)
        ensures
            text@ == message_of(*self),
    {
        match self {
            WorkflowError::NoParentDirectory => "the chosen path has no parent directory".to_owned(),
            WorkflowError::NoFileName => "the chosen path has no file name".to_owned(),
            WorkflowError::DirectoryNotEntered => "the chosen directory could not be entered".to_owned(),
            WorkflowError::WriteFailed => "the source file could not be written".to_owned(),
            WorkflowError::SpawnFailed => "the compiler could not be started".to_owned(),
            WorkflowError::DecodeFailed => "the compiler's output is not valid UTF-8".to_owned(),
        }
    }
}

/// What the save dialog returned.
#[derive(Debug, PartialEq, Eq)]
pub enum DialogResponse {
    /// One path was chosen.
    Okay(String),
    /// Several paths were chosen.
    OkayMultiple(Vec<String>),
    /// The dialog was closed without a choice.
    Cancel,
}

/// Something that happened outside the editor.
#[derive(Debug, PartialEq, Eq)]
pub enum Event {
    /// The user asked to select the output path.
    SelectOutput,
    /// The user asked to compile.
    Compile,
    /// The save dialog returned one path, split into the directory that
    /// holds it and its final component.
    PathChosen { dir: Option<String>, name: Option<String> },
    /// The save dialog returned without one chosen path.
    DialogDismissed,
    /// The working directory was changed, or could not be.
    DirectoryEntered(bool),
    /// The input file was written, or could not be.
    SourceWritten(bool),
    /// The compiler ran and exited.
    CompilerFinished { stdout: Vec<u8>, stderr: Vec<u8>, status: Option<i32> },
    /// The compiler could not be started.
    CompilerNotStarted,
}

impl Event {
    /// The event that a response of the save dialog stands for. Several
    /// chosen paths count as none. One chosen path is split into the
    /// directory that holds it and its final component, as the platform's
    /// path syntax has them; the empty path has no directory.
    pub fn from_dialog(response: DialogResponse) -> (event: Event)
        ensures
            !(response is Okay) ==> event is DialogDismissed,
            response matches DialogResponse::Okay(path) ==> (event matches Event::PathChosen {
                dir,
                name,
            } && dir.deep_view() == parent_of(path@) && name.deep_view() == file_name_of(path@)
                && (path@.len() == 0 ==> dir is None)),
    {
        match response {
            DialogResponse::Okay(path) => {
                let dir = parent_directory(path.as_str());
                let name = final_component(path.as_str());
                Event::PathChosen { dir, name }
            },
            DialogResponse::OkayMultiple(_) => Event::DialogDismissed,
            DialogResponse::Cancel => Event::DialogDismissed,
        }
    }
}

/// What the shell is asked to do next. After each but `Nothing`, `Mirror`
/// and `Report` it hands back the event that tells how it went.
#[derive(Debug, PartialEq, Eq)]
pub enum Action {
    /// Nothing is asked for.
    Nothing,
    /// Open the save dialog at `default_path`.
    AskPath { default_path: Option<String> },
    /// Make `dir` the working directory.
    EnterDirectory { dir: String },
    /// Write `text` to the file `path`, replacing what it holds.
    WriteSource { path: String, text: String },
    /// Run the compiler with the arguments `input` and `target`, in the
    /// working directory.
    Invoke { input: String, target: String },
    /// Write `text` to the shell's own stream of that kind.
    Mirror { stream: Stream, text: String },
    /// Tell the user that the action failed.
    Report(WorkflowError),
}

/// An `Action` over sequences of characters.
pub enum ActionModel {
    Nothing,
    AskPath { default_path: Option<Seq<char>> },
    EnterDirectory { dir: Seq<char> },
    WriteSource { path: Seq<char>, text: Seq<char> },
    Invoke { input: Seq<char>, target: Seq<char> },
    Mirror { stream: Stream, text: Seq<char> },
    Report(WorkflowError),
}

impl View for Action {
    type V = ActionModel;

    open spec fn view(&self) -> ActionModel {
        match *self {
            Action::Nothing => ActionModel::Nothing,
            Action::AskPath { default_path } => ActionModel::AskPath {
                default_path: default_path.deep_view(),
            },
            Action::EnterDirectory { dir } => ActionModel::EnterDirectory { dir: dir@ },
            Action::WriteSource { path, text } => ActionModel::WriteSource {
                path: path@,
                text: text@,
            },
            Action::Invoke { input, target } => ActionModel::Invoke {
                input: input@,
                target: target@,
            },
            Action::Mirror { stream, text } => ActionModel::Mirror { stream, text: text@ },
            Action::Report(error) => ActionModel::Report(error),
        }
    }
}

/// Where the editor stands between two events.
#[derive(Debug, PartialEq, Eq)]
pub enum Phase {
    /// No action is under way.
    Idle,
    /// The save dialog is open because the user asked to select the output.
    Choosing,
    /// The save dialog is open because a compile attempt needs a path.
    Resolving,
    /// The directory of the chosen path is being entered; `name` becomes the
    /// output path once it is, and `compiling` tells whether a compile
    /// attempt goes on from there.
    Entering { name: String, compiling: bool },
    /// The input file is being written.
    Persisting,
    /// The compiler is running.
    Invoking,
}

/// A `Phase` over sequences of characters.
pub enum PhaseModel {
    Idle,
    Choosing,
    Resolving,
    Entering { name: Seq<char>, compiling: bool },
    Persisting,
    Invoking,
}

impl View for Phase {
    type V = PhaseModel;

    open spec fn view(&self) -> PhaseModel {
        match *self {
            Phase::Idle => PhaseModel::Idle,
            Phase::Choosing => PhaseModel::Choosing,
            Phase::Resolving => PhaseModel::Resolving,
            Phase::Entering { name, compiling } => PhaseModel::Entering { name: name@, compiling },
            Phase::Persisting => PhaseModel::Persisting,
            Phase::Invoking => PhaseModel::Invoking,
        }
    }
}

} // verus!
