//! The editor's state and its transitions.

use crate::events::{Action, ActionModel, Event, Phase, PhaseModel, WorkflowError};
use crate::paths::{input_path, input_path_of, output_target, output_target_of};
use crate::streams::{reduce_output, shown_stream, shown_text, streams_decode};
use vstd::pervasive::unreached;
use vstd::prelude::*;

verus! {

/// The editor's state over sequences of characters.
pub struct AppModel {
    /// The source buffer.
    pub source: Seq<char>,
    /// The output path, once one was chosen.
    pub save_path: Option<Seq<char>>,
    /// What the most recent compile attempt showed.
    pub output: Seq<char>,
    /// Where the editor stands between two events.
    pub phase: PhaseModel,
}

impl AppModel {
    /// The state at startup: nothing typed, no path, nothing shown.
    pub open spec fn initial() -> AppModel {
        AppModel {
            source: Seq::empty(),
            save_path: None,
            output: Seq::empty(),
            phase: PhaseModel::Idle,
        }
    }

    /// A file is written or the compiler runs only for a known output path.
    pub open spec fn wf(self) -> bool {
        (self.phase is Persisting || self.phase is Invoking) ==> self.save_path is Some
    }

    /// This state with `text` as its source buffer.
    pub open spec fn with_source(self, text: Seq<char>) -> AppModel {
        AppModel { source: text, ..self }
    }

    /// This state with no action under way.
    pub open spec fn idle(self) -> AppModel {
        AppModel { phase: PhaseModel::Idle, ..self }
    }

    /// The start of the write: the buffer goes to the input file of the
    /// output path.
    pub open spec fn persist(self) -> (AppModel, ActionModel)
        recommends
            self.save_path is Some,
    {
        (
            AppModel { phase: PhaseModel::Persisting, ..self },
            ActionModel::WriteSource {
                path: input_path_of(self.save_path.unwrap()),
                text: self.source,
            },
        )
    }

    /// What follows a chosen path: its directory is entered, unless one of
    /// its two parts is missing.
    pub open spec fn take_path(
        self,
        dir: Option<Seq<char>>,
        name: Option<Seq<char>>,
        compiling: bool,
    ) -> (AppModel, ActionModel) {
        match (dir, name) {
            (Some(d), Some(n)) => (
                AppModel { phase: PhaseModel::Entering { name: n, compiling }, ..self },
                ActionModel::EnterDirectory { dir: d },
            ),
            (None, _) => (self.idle(), ActionModel::Report(WorkflowError::NoParentDirectory)),
            (Some(_), None) => (self.idle(), ActionModel::Report(WorkflowError::NoFileName)),
        }
    }

    /// The state after `event` and the action that it calls for. An event
    /// that the phase does not wait for changes nothing.
    pub open spec fn step(self, event: Event) -> (AppModel, ActionModel) {
        match (self.phase, event) {
            (PhaseModel::Idle, Event::SelectOutput) => (
                AppModel { phase: PhaseModel::Choosing, ..self },
                ActionModel::AskPath { default_path: self.save_path },
            ),
            (PhaseModel::Idle, Event::Compile) => if self.save_path is Some {
                self.persist()
            } else {
                (
                    AppModel { phase: PhaseModel::Resolving, ..self },
                    ActionModel::AskPath { default_path: None },
                )
            },
            (PhaseModel::Choosing, Event::PathChosen { dir, name }) => self.take_path(
                dir.deep_view(),
                name.deep_view(),
                false,
            ),
            (PhaseModel::Choosing, Event::DialogDismissed) => (self.idle(), ActionModel::Nothing),
            (PhaseModel::Resolving, Event::PathChosen { dir, name }) => self.take_path(
                dir.deep_view(),
                name.deep_view(),
                true,
            ),
            (PhaseModel::Resolving, Event::DialogDismissed) => (
                self,
                ActionModel::AskPath { default_path: None },
            ),
            (PhaseModel::Entering { name, compiling }, Event::DirectoryEntered(entered)) => {
                let chosen = AppModel { save_path: Some(name), ..self };
                if !entered {
                    (self.idle(), ActionModel::Report(WorkflowError::DirectoryNotEntered))
                } else if compiling {
                    chosen.persist()
                } else {
                    (chosen.idle(), ActionModel::Nothing)
                }
            },
            (PhaseModel::Persisting, Event::SourceWritten(written)) => if written {
                (
                    AppModel { phase: PhaseModel::Invoking, ..self },
                    ActionModel::Invoke {
                        input: input_path_of(self.save_path.unwrap()),
                        target: output_target_of(self.save_path.unwrap()),
                    },
                )
            } else {
                (self.idle(), ActionModel::Report(WorkflowError::WriteFailed))
            },
            (PhaseModel::Invoking, Event::CompilerNotStarted) => (
                self.idle(),
                ActionModel::Report(WorkflowError::SpawnFailed),
            ),
            (PhaseModel::Invoking, Event::CompilerFinished { stdout, stderr, status }) => {
                if streams_decode(stdout@, stderr@) {
                    (
                        AppModel {
                            output: shown_text(stdout@, stderr@),
                            phase: PhaseModel::Idle,
                            ..self
                        },
                        ActionModel::Mirror {
                            stream: shown_stream(stdout@),
                            text: shown_text(stdout@, stderr@),
                        },
                    )
                } else {
                    (self.idle(), ActionModel::Report(WorkflowError::DecodeFailed))
                }
            },
            _ => (self, ActionModel::Nothing),
        }
    }

    /// The state after `n` dismissals of the save dialog in a row.
    pub open spec fn after_dismissals(self, n: nat) -> AppModel
        decreases n,
    {
        if n == 0 {
            self
        } else {
            self.step(Event::DialogDismissed).0.after_dismissals((n - 1) as nat)
        }
    }
}

/// The editor: the source buffer, the output path, what the last compile
/// attempt showed, and the phase of the action under way.
pub struct TemplateApp {
    editor_text: String,
    save_path: Option<String>,
    output: String,
    phase: Phase,
}

impl View for TemplateApp {
    type V = AppModel;

    closed spec fn view(&self) -> AppModel {
        AppModel {
            source: self.editor_text@,
            save_path: self.save_path.deep_view(),
            output: self.output@,
            phase: self.phase@,
        }
    }
}

/// A copy of an optional text.
fn copy_text(text: &Option<String>) -> (copy: Option<String>)
    ensures
        copy.deep_view() == text.deep_view(),
{
    match text {
        Some(t) => Some(t.clone()),
        None => None,
    }
}

impl Default for TemplateApp {
    fn default() -> (app: TemplateApp)
        ensures
            app@ == AppModel::initial(),
    {
        TemplateApp {
            editor_text: String::new(),
            save_path: None,
            output: String::new(),
            phase: Phase::Idle,
        }
    }
}

impl TemplateApp {
    /// An editor with the given buffer, output path and shown output, and no
    /// action under way.
    pub fn restore(editor_text: String, save_path: Option<String>, output: String) -> (app:
        TemplateApp)
        ensures
            app@ == (AppModel {
                source: editor_text@,
                save_path: save_path.deep_view(),
                output: output@,
                phase: PhaseModel::Idle,
            }),
            app@.wf(),
    {
        TemplateApp { editor_text, save_path, output, phase: Phase::Idle }
    }

    /// The application's name.
    pub fn name(&self) -> (name: &'static str)
        ensures
            name@ == "Intuitive GUI"@,
    {
        "Intuitive GUI"
    }

    /// The source buffer.
    pub fn source_text(&self) -> (text: &str)
        ensures
            text@ == self@.source,
    {
        self.editor_text.as_str()
    }

    /// The output path, if one was chosen.
    pub fn save_path(&self) -> (path: Option<&str>)
        ensures
            path.deep_view() == self@.save_path,
    {
        match &self.save_path {
            Some(p) => Some(p.as_str()),
            None => None,
        }
    }

    /// What the most recent compile attempt showed.
    pub fn output(&self) -> (text: &str)
        ensures
            text@ == self@.output,
    {
        self.output.as_str()
    }

    /// The phase of the action under way.
    pub fn phase(&self) -> (phase: &Phase)
        ensures
            phase@ == self@.phase,
    {
        &self.phase
    }

    /// Replaces the source buffer by `text`, as it is.
    pub fn set_source_text(&mut self, text: String)
        ensures
            final(self)@ == old(self)@.with_source(text@),
    {
        self.editor_text = text;
    }

    /// Starts the write of the buffer to the input file.
    fn begin_persist(&mut self) -> (action: Action)
        requires
            old(self)@.save_path is Some,
        ensures
            (final(self)@, action@) == old(self)@.persist(),
    {
        let path = match &self.save_path {
            Some(p) => input_path(p.as_str()),
            None => unreached(),
        };
        self.phase = Phase::Persisting;
        Action::WriteSource { path, text: self.editor_text.clone() }
    }

    /// Takes up a chosen path, split into its directory and its name.
    fn begin_enter(&mut self, dir: Option<String>, name: Option<String>, compiling: bool) -> (action:
        Action)
        ensures
            (final(self)@, action@) == old(self)@.take_path(
                dir.deep_view(),
                name.deep_view(),
                compiling,
            ),
    {
        match (dir, name) {
            (Some(d), Some(n)) => {
                self.phase = Phase::Entering { name: n, compiling };
                Action::EnterDirectory { dir: d }
            },
            (None, _) => {
                self.phase = Phase::Idle;
                Action::Report(WorkflowError::NoParentDirectory)
            },
            (Some(_), None) => {
                self.phase = Phase::Idle;
                Action::Report(WorkflowError::NoFileName)
            },
        }
    }

    /// Takes `event` and returns what the shell is to do next.
    pub fn step(&mut self, event: Event) -> (action: Action)
        requires
            old(self)@.wf(),
        ensures
            final(self)@.wf(),
            (final(self)@, action@) == old(self)@.step(event),
    {
        match event {
            Event::SelectOutput => {
                if matches!(self.phase, Phase::Idle) {
                    self.phase = Phase::Choosing;
                    Action::AskPath { default_path: copy_text(&self.save_path) }
                } else {
                    Action::Nothing
                }
            },
            Event::Compile => {
                if matches!(self.phase, Phase::Idle) {
                    if self.save_path.is_some() {
                        self.begin_persist()
                    } else {
                        self.phase = Phase::Resolving;
                        Action::AskPath { default_path: None }
                    }
                } else {
                    Action::Nothing
                }
            },
            Event::PathChosen { dir, name } => {
                if matches!(self.phase, Phase::Choosing) {
                    self.begin_enter(dir, name, false)
                } else if matches!(self.phase, Phase::Resolving) {
                    self.begin_enter(dir, name, true)
                } else {
                    Action::Nothing
                }
            },
            Event::DialogDismissed => {
                if matches!(self.phase, Phase::Choosing) {
                    self.phase = Phase::Idle;
                    Action::Nothing
                } else if matches!(self.phase, Phase::Resolving) {
                    Action::AskPath { default_path: None }
                } else {
                    Action::Nothing
                }
            },
            Event::DirectoryEntered(entered) => {
                let pending = match &self.phase {
                    Phase::Entering { name, compiling } => Some((name.clone(), *compiling)),
                    _ => None,
                };
                match pending {
                    Some((name, compiling)) => {
                        if !entered {
                            self.phase = Phase::Idle;
                            Action::Report(WorkflowError::DirectoryNotEntered)
                        } else if compiling {
                            self.save_path = Some(name);
                            self.begin_persist()
                        } else {
                            self.save_path = Some(name);
                            self.phase = Phase::Idle;
                            Action::Nothing
                        }
                    },
                    None => Action::Nothing,
                }
            },
            Event::SourceWritten(written) => {
                if matches!(self.phase, Phase::Persisting) {
                    if written {
                        let (input, target) = match &self.save_path {
                            Some(p) => (input_path(p.as_str()), output_target(p.as_str())),
                            None => unreached(),
                        };
                        self.phase = Phase::Invoking;
                        Action::Invoke { input, target }
                    } else {
                        self.phase = Phase::Idle;
                        Action::Report(WorkflowError::WriteFailed)
                    }
                } else {
                    Action::Nothing
                }
            },
            Event::CompilerNotStarted => {
                if matches!(self.phase, Phase::Invoking) {
                    self.phase = Phase::Idle;
                    Action::Report(WorkflowError::SpawnFailed)
                } else {
                    Action::Nothing
                }
            },
            Event::CompilerFinished { stdout, stderr, status: _ } => {
                if matches!(self.phase, Phase::Invoking) {
                    self.phase = Phase::Idle;
                    match reduce_output(stdout.as_slice(), stderr.as_slice()) {
                        Some((stream, text)) => {
                            self.output = text.clone();
                            Action::Mirror { stream, text }
                        },
                        None => Action::Report(WorkflowError::DecodeFailed),
                    }
                } else {
                    Action::Nothing
                }
            },
        }
    }
}

} // verus!
