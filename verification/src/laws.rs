//! What holds of every state of the editor and every event.

use crate::editor::AppModel;
use crate::events::{ActionModel, Event, PhaseModel, WorkflowError};
use crate::paths::{file_name_of, input_path_of, output_target_of, parent_of};
use crate::streams::{shown_stream, shown_text, streams_decode};
use vstd::prelude::*;

verus! {

/// Setting the source buffer to `text` and reading it gives exactly `text`,
/// and touches nothing else.
pub proof fn law_source_round_trip(m: AppModel, text: Seq<char>)
    ensures
        m.with_source(text).source == text,
        m.with_source(text).save_path == m.save_path,
        m.with_source(text).output == m.output,
        m.with_source(text).phase == m.phase,
{
}

/// Every transition keeps the state well formed.
pub proof fn law_step_keeps_wf(m: AppModel, event: Event)
    requires
        m.wf(),
    ensures
        m.step(event).0.wf(),
{
}

/// While a compile attempt waits for a path, a dismissed dialog is opened
/// again: after any number of dismissals in a row the state is as it was,
/// still waiting, and the next dismissal asks for the path once more. No
/// file is written and the compiler is not run.
pub proof fn law_dismissals_never_invoke(m: AppModel, n: nat)
    requires
        m.phase is Resolving,
    ensures
        m.after_dismissals(n) == m,
        m.after_dismissals(n).step(Event::DialogDismissed).1 == (ActionModel::AskPath {
            default_path: None,
        }),
    decreases n,
{
    if n > 0 {
        assert(m.step(Event::DialogDismissed).0 == m);
        law_dismissals_never_invoke(m, (n - 1) as nat);
    }
}

/// A compile attempt leaves the wait for a path only on a chosen path.
pub proof fn law_resolving_ends_on_choice(m: AppModel, event: Event)
    requires
        m.phase is Resolving,
        !(m.step(event).0.phase is Resolving),
    ensures
        event is PathChosen,
{
}

/// The output path changes only once the directory of a chosen path was
/// entered, and is then the name that was chosen.
pub proof fn law_path_set_after_entering(m: AppModel, event: Event)
    requires
        m.step(event).0.save_path != m.save_path,
    ensures
        event == Event::DirectoryEntered(true),
        m.phase matches PhaseModel::Entering { name, compiling } && m.step(event).0.save_path
            == Some(name),
{
}

/// A dismissed dialog never changes the output path.
pub proof fn law_dismissal_keeps_path(m: AppModel)
    ensures
        m.step(Event::DialogDismissed).0.save_path == m.save_path,
{
}

/// The compiler is run only once the input file was written: the action
/// `Invoke` answers only the event that the write succeeded, taken while the
/// write was under way.
pub proof fn law_invoke_only_after_write(m: AppModel, event: Event)
    requires
        m.step(event).1 is Invoke,
    ensures
        m.phase is Persisting,
        event == Event::SourceWritten(true),
{
}

/// What is written is the buffer as it stands, to the input file of the
/// output path, which is known by then. A write starts an attempt or follows
/// the choice of a path: none is asked for while one is under way or the
/// compiler runs.
pub proof fn law_write_carries_buffer(m: AppModel, event: Event)
    requires
        m.step(event).1 is WriteSource,
    ensures
        m.phase is Idle || m.phase is Entering,
        m.step(event).0.phase is Persisting,
        m.step(event).0.save_path is Some,
        m.step(event).0.source == m.source,
        m.step(event).1 == (ActionModel::WriteSource {
            path: input_path_of(m.step(event).0.save_path.unwrap()),
            text: m.source,
        }),
{
}

/// The compiler is handed the input file that was written and the output
/// target of the same path, in this order.
pub proof fn law_invoke_arguments(m: AppModel, event: Event)
    requires
        m.wf(),
        m.step(event).1 is Invoke,
    ensures
        m.save_path is Some,
        m.step(event).0 == (AppModel { phase: PhaseModel::Invoking, ..m }),
        m.step(event).1 == (ActionModel::Invoke {
            input: input_path_of(m.save_path.unwrap()),
            target: output_target_of(m.save_path.unwrap()),
        }),
{
}

/// A failed write ends the attempt: the shown output and everything else but
/// the phase stay as they were, the failure is reported, and the compiler is
/// not run.
pub proof fn law_failed_write_keeps_output(m: AppModel)
    requires
        m.phase is Persisting,
    ensures
        m.step(Event::SourceWritten(false)) == (
            m.idle(),
            ActionModel::Report(WorkflowError::WriteFailed),
        ),
        m.step(Event::SourceWritten(false)).0.output == m.output,
        !(m.step(Event::SourceWritten(false)).0.phase is Invoking),
{
}

/// The shown output changes only when the compiler has finished.
pub proof fn law_output_changes_only_on_finish(m: AppModel, event: Event)
    requires
        m.step(event).0.output != m.output,
    ensures
        m.phase is Invoking,
        event is CompilerFinished,
{
}

/// When the compiler has finished with text in both streams, the shown
/// output is replaced by the reduced text, whatever it held before, and the
/// same text is mirrored.
pub proof fn law_output_replaced_on_finish(
    m: AppModel,
    stdout: Vec<u8>,
    stderr: Vec<u8>,
    status: Option<i32>,
)
    requires
        m.phase is Invoking,
        streams_decode(stdout@, stderr@),
    ensures
        m.step(Event::CompilerFinished { stdout, stderr, status }).0.output == shown_text(
            stdout@,
            stderr@,
        ),
        m.step(Event::CompilerFinished { stdout, stderr, status }).1 == (ActionModel::Mirror {
            stream: shown_stream(stdout@),
            text: shown_text(stdout@, stderr@),
        }),
{
}

/// The exit status decides nothing: two runs with the same streams give the
/// same state and the same action.
pub proof fn law_status_ignored(
    m: AppModel,
    stdout: Vec<u8>,
    stderr: Vec<u8>,
    first: Option<i32>,
    second: Option<i32>,
)
    ensures
        m.step(Event::CompilerFinished { stdout, stderr, status: first }) == m.step(
            Event::CompilerFinished { stdout, stderr, status: second },
        ),
{
}

/// A failure of any kind leaves the buffer, the output path and the shown
/// output as they were, and ends the action under way.
pub proof fn law_failure_changes_nothing(m: AppModel, event: Event)
    requires
        m.step(event).1 is Report,
    ensures
        m.step(event).0 == m.idle(),
{
}

/// A compile attempt with a known output path that meets no failure: the
/// buffer is written to the input file, the compiler is run on the input
/// file and the output target, the reduced text is mirrored, and at the end
/// only the shown output has changed.
pub proof fn law_compile_attempt(
    m: AppModel,
    path: Seq<char>,
    stdout: Vec<u8>,
    stderr: Vec<u8>,
    status: Option<i32>,
)
    requires
        m.phase is Idle,
        m.save_path == Some(path),
        streams_decode(stdout@, stderr@),
    ensures
        ({
            let (written, write) = m.step(Event::Compile);
            let (invoked, invoke) = written.step(Event::SourceWritten(true));
            let (shown, mirror) = invoked.step(Event::CompilerFinished { stdout, stderr, status });
            &&& write == ActionModel::WriteSource { path: input_path_of(path), text: m.source }
            &&& invoke == ActionModel::Invoke {
                input: input_path_of(path),
                target: output_target_of(path),
            }
            &&& mirror == ActionModel::Mirror {
                stream: shown_stream(stdout@),
                text: shown_text(stdout@, stderr@),
            }
            &&& shown == AppModel { output: shown_text(stdout@, stderr@), ..m }
        }),
{
}

/// A compile attempt without an output path asks for one first. Once a path
/// is chosen and its directory entered, the name that was chosen is the
/// output path and the write begins.
pub proof fn law_compile_resolves_path(m: AppModel, dir: String, name: String)
    requires
        m.phase is Idle,
        m.save_path is None,
    ensures
        ({
            let (asked, ask) = m.step(Event::Compile);
            let (entering, enter) = asked.step(
                Event::PathChosen { dir: Some(dir), name: Some(name) },
            );
            let (written, write) = entering.step(Event::DirectoryEntered(true));
            &&& ask == ActionModel::AskPath { default_path: None }
            &&& asked.phase is Resolving
            &&& enter == ActionModel::EnterDirectory { dir: dir@ }
            &&& write == ActionModel::WriteSource { path: input_path_of(name@), text: m.source }
            &&& written == AppModel { save_path: Some(name@), phase: PhaseModel::Persisting, ..m }
        }),
{
}

/// A chosen path that has both parts is taken up in two steps: its parent
/// directory is entered, and once it is, the final component alone is kept
/// as the output path. With `compiling` unset nothing else follows; with it
/// set the write begins.
pub proof fn law_chosen_path_is_entered_and_kept(m: AppModel, path: Seq<char>, event: Event)
    requires
        m.phase is Choosing || m.phase is Resolving,
        parent_of(path) is Some,
        file_name_of(path) is Some,
        event matches Event::PathChosen { dir, name } && dir.deep_view() == parent_of(path)
            && name.deep_view() == file_name_of(path),
    ensures
        ({
            let (entering, enter) = m.step(event);
            let (kept, after) = entering.step(Event::DirectoryEntered(true));
            &&& enter == ActionModel::EnterDirectory { dir: parent_of(path).unwrap() }
            &&& entering.save_path == m.save_path
            &&& kept.save_path == file_name_of(path)
            &&& kept.source == m.source
            &&& kept.output == m.output
            &&& m.phase is Choosing ==> kept.phase is Idle && after == ActionModel::Nothing
            &&& m.phase is Resolving ==> kept.phase is Persisting && after
                == ActionModel::WriteSource {
                path: input_path_of(file_name_of(path).unwrap()),
                text: m.source,
            }
        }),
{
}

/// A chosen path that lacks its parent directory or its final component is
/// refused: the failure is reported and nothing is kept.
pub proof fn law_partial_path_is_refused(m: AppModel, path: Seq<char>, event: Event)
    requires
        m.phase is Choosing || m.phase is Resolving,
        parent_of(path) is None || file_name_of(path) is None,
        event matches Event::PathChosen { dir, name } && dir.deep_view() == parent_of(path)
            && name.deep_view() == file_name_of(path),
    ensures
        m.step(event).0 == m.idle(),
        parent_of(path) is None ==> m.step(event).1 == ActionModel::Report(
            WorkflowError::NoParentDirectory,
        ),
        parent_of(path) is Some ==> m.step(event).1 == ActionModel::Report(
            WorkflowError::NoFileName,
        ),
{
}

} // verus!
