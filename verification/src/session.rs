//! Whole sessions: what holds of every run of inputs and of every run of
//! steps, however the host answers.

use vstd::prelude::*;
use crate::editor::{ActionView, EditorView, Event, Phase, dispatched, echoed, quit_commands,
    session_step};
use crate::input::{Binding, Input};
use crate::location::lemma_moves_keep_fit;
use crate::terminal::{CommandView, Position, Size, TerminalError, TerminalView};

verus! {

/// The state after a run of input events has been dispatched, one after the
/// other, on a screen of dimensions `size`.
pub open spec fn dispatched_all(editor: EditorView, size: Size, inputs: Seq<Input>) -> EditorView
    decreases inputs.len(),
{
    if inputs.len() == 0 {
        editor
    } else {
        dispatched(dispatched_all(editor, size, inputs.drop_last()), size, inputs.last())
    }
}

/// Whatever is typed, the line of the cursor stays on the screen: from the
/// first row to the last before, from the first row to the last after.
pub proof fn lemma_line_stays_within(editor: EditorView, size: Size, inputs: Seq<Input>)
    requires
        editor.cursor.line_within(size.height),
    ensures
        dispatched_all(editor, size, inputs).cursor.line_within(size.height),
    decreases inputs.len(),
{
    if inputs.len() > 0 {
        lemma_line_stays_within(editor, size, inputs.drop_last());
    }
}

/// Whatever is typed, the column of the cursor stays on the screen: from the
/// lower bound to the last column before, from the lower bound to the last
/// column after.
pub proof fn lemma_column_stays_within(editor: EditorView, size: Size, inputs: Seq<Input>)
    requires
        editor.cursor.column_within(size.width, editor.lower_bound),
    ensures
        dispatched_all(editor, size, inputs).lower_bound == editor.lower_bound,
        dispatched_all(editor, size, inputs).cursor.column_within(size.width, editor.lower_bound),
    decreases inputs.len(),
{
    if inputs.len() > 0 {
        lemma_column_stays_within(editor, size, inputs.drop_last());
    }
}

/// An input event that is bound to nothing leaves the whole state as it was.
pub proof fn lemma_unbound_input_is_ignored(editor: EditorView, size: Size, input: Input)
    requires
        input.binding() is None,
    ensures
        dispatched(editor, size, input) == editor,
        echoed(input) == Seq::<CommandView>::empty(),
{
}

/// One input event keeps the cursor on numbers that name a cell, whatever
/// the dimensions of the screen.
pub proof fn lemma_dispatch_keeps_fit(editor: EditorView, size: Size, input: Input)
    requires
        editor.cursor.fits_screen(),
    ensures
        dispatched(editor, size, input).cursor.fits_screen(),
{
    lemma_moves_keep_fit(editor.cursor, size, editor.lower_bound);
}

/// Whatever is typed, the cursor stays on numbers that name a cell.
pub proof fn lemma_inputs_keep_fit(editor: EditorView, size: Size, inputs: Seq<Input>)
    requires
        editor.cursor.fits_screen(),
    ensures
        dispatched_all(editor, size, inputs).cursor.fits_screen(),
    decreases inputs.len(),
{
    if inputs.len() > 0 {
        lemma_inputs_keep_fit(editor, size, inputs.drop_last());
        lemma_dispatch_keeps_fit(
            dispatched_all(editor, size, inputs.drop_last()),
            size,
            inputs.last(),
        );
    }
}

/// What the host reports at one step: the dimensions of the screen at that
/// moment, and the event.
pub struct Report {
    pub size: Size,
    pub event: Event,
}

/// The state of editor and terminal after a run of steps. Before each step
/// the terminal is told the dimensions that the host reports.
pub open spec fn session_state(
    editor: EditorView,
    terminal: TerminalView,
    reports: Seq<Report>,
) -> (EditorView, TerminalView)
    decreases reports.len(),
{
    if reports.len() == 0 {
        (editor, terminal)
    } else {
        let before = session_state(editor, terminal, reports.drop_last());
        let step = session_step(
            before.0,
            TerminalView { size: reports.last().size, ..before.1 },
            reports.last().event,
        );
        (step.0, step.1)
    }
}

/// The requests that a run of steps hands to the host, in order.
pub open spec fn session_actions(
    editor: EditorView,
    terminal: TerminalView,
    reports: Seq<Report>,
) -> Seq<ActionView>
    decreases reports.len(),
{
    if reports.len() == 0 {
        Seq::empty()
    } else {
        let before = session_state(editor, terminal, reports.drop_last());
        let step = session_step(
            before.0,
            TerminalView { size: reports.last().size, ..before.1 },
            reports.last().event,
        );
        session_actions(editor, terminal, reports.drop_last()).push(step.2)
    }
}

/// Through a whole session, whatever the host reports and however the screen
/// changes, the cursor of an editor stays on numbers that name a cell. An
/// editor starts so; hence every redraw puts the cursor back at the cell
/// with its column as `x` and its line as `y`.
pub proof fn lemma_cursor_always_fits(
    editor: EditorView,
    terminal: TerminalView,
    reports: Seq<Report>,
)
    requires
        editor.cursor.fits_screen(),
    ensures
        session_state(editor, terminal, reports).0.cursor.fits_screen(),
        session_state(editor, terminal, reports).0.cursor.to_position() == (Position {
            x: session_state(editor, terminal, reports).0.cursor.column as u16,
            y: session_state(editor, terminal, reports).0.cursor.line as u16,
        }),
    decreases reports.len(),
{
    if reports.len() > 0 {
        lemma_cursor_always_fits(editor, terminal, reports.drop_last());
        let before = session_state(editor, terminal, reports.drop_last());
        match reports.last().event {
            Event::Input(input) => {
                lemma_dispatch_keeps_fit(before.0, reports.last().size, input);
            },
            _ => {},
        }
    }
}

/// How often a run of requests asks the host to leave raw mode.
pub open spec fn leave_requests(actions: Seq<ActionView>) -> nat
    decreases actions.len(),
{
    if actions.len() == 0 {
        0
    } else if actions.last() is LeaveRawMode {
        leave_requests(actions.drop_last()) + 1
    } else {
        leave_requests(actions.drop_last())
    }
}

/// The session has asked, or is past asking, for cooked mode.
pub open spec fn wound_up(phase: Phase) -> bool {
    phase is Leaving || phase is Finished
}

/// What every run of steps keeps, from any state. Every step hands out one
/// request. A session that has wound up stays so and never asks to leave raw
/// mode again. A session that has not asks at most once, exactly when it
/// winds up. The host is told to exit exactly by the steps that end in the
/// last phase.
pub proof fn lemma_session_winds_up_once(
    editor: EditorView,
    terminal: TerminalView,
    reports: Seq<Report>,
)
    ensures
        session_actions(editor, terminal, reports).len() == reports.len(),
        wound_up(editor.phase) ==> wound_up(session_state(editor, terminal, reports).0.phase)
            && leave_requests(session_actions(editor, terminal, reports)) == 0,
        !wound_up(editor.phase) ==> leave_requests(session_actions(editor, terminal, reports)) == (
        if wound_up(session_state(editor, terminal, reports).0.phase) {
            1nat
        } else {
            0nat
        }),
        reports.len() > 0 ==> (session_actions(editor, terminal, reports).last() is Exit
            <==> session_state(editor, terminal, reports).0.phase is Finished),
    decreases reports.len(),
{
    if reports.len() > 0 {
        lemma_session_winds_up_once(editor, terminal, reports.drop_last());
        let actions = session_actions(editor, terminal, reports);
        assert(actions.drop_last() =~= session_actions(editor, terminal, reports.drop_last()));
    }
}

/// Once a run of steps has wound up, it stays wound up.
pub proof fn lemma_wound_up_stays(
    editor: EditorView,
    terminal: TerminalView,
    reports: Seq<Report>,
    early: int,
    late: int,
)
    requires
        0 <= early <= late <= reports.len(),
        wound_up(session_state(editor, terminal, reports.take(early)).0.phase),
    ensures
        wound_up(session_state(editor, terminal, reports.take(late)).0.phase),
    decreases late - early,
{
    if early < late {
        lemma_wound_up_stays(editor, terminal, reports, early, late - 1);
        assert(reports.take(late).drop_last() =~= reports.take(late - 1));
    }
}

/// Once a run of steps has finished, nothing changes any more: the session
/// stays finished, with the failure it ended with, and raw mode stays as it
/// was.
pub proof fn lemma_finished_stays(
    editor: EditorView,
    terminal: TerminalView,
    reports: Seq<Report>,
    early: int,
    late: int,
)
    requires
        0 <= early <= late <= reports.len(),
        session_state(editor, terminal, reports.take(early)).0.phase is Finished,
    ensures
        session_state(editor, terminal, reports.take(late)).0.phase is Finished,
        session_state(editor, terminal, reports.take(late)).0.failure == session_state(
            editor,
            terminal,
            reports.take(early),
        ).0.failure,
        session_state(editor, terminal, reports.take(late)).1.raw_mode == session_state(
            editor,
            terminal,
            reports.take(early),
        ).1.raw_mode,
    decreases late - early,
{
    if early < late {
        lemma_finished_stays(editor, terminal, reports, early, late - 1);
        assert(reports.take(late).drop_last() =~= reports.take(late - 1));
    }
}

/// The request of step `index` of a run of steps is the request of one step
/// from the state that the steps before it have led to.
pub proof fn lemma_session_action(
    editor: EditorView,
    terminal: TerminalView,
    reports: Seq<Report>,
    index: int,
)
    requires
        0 <= index < reports.len(),
    ensures
        session_actions(editor, terminal, reports).len() == reports.len(),
        session_actions(editor, terminal, reports)[index] == ({
            let before = session_state(editor, terminal, reports.take(index));
            session_step(
                before.0,
                TerminalView { size: reports[index].size, ..before.1 },
                reports[index].event,
            ).2
        }),
    decreases reports.len(),
{
    lemma_session_winds_up_once(editor, terminal, reports);
    if index < reports.len() - 1 {
        lemma_session_action(editor, terminal, reports.drop_last(), index);
        assert(reports.drop_last().take(index) =~= reports.take(index));
    }
}

/// On every path to the exit, by a quit or by a failure, a session that has
/// not wound up yet asks the host to leave raw mode exactly once. Where the
/// host has answered that request with `Done`, the terminal is out of raw
/// mode at the exit and ever after.
pub proof fn lemma_leaves_raw_mode_exactly_once(
    editor: EditorView,
    terminal: TerminalView,
    reports: Seq<Report>,
)
    requires
        !wound_up(editor.phase),
        reports.len() > 0,
        session_actions(editor, terminal, reports).last() is Exit,
    ensures
        leave_requests(session_actions(editor, terminal, reports)) == 1,
        forall|index: int|
            0 <= index < reports.len() - 1 && #[trigger] session_actions(
                editor,
                terminal,
                reports,
            )[index] is LeaveRawMode && reports[index + 1].event is Done ==> !session_state(
                editor,
                terminal,
                reports,
            ).1.raw_mode,
{
    lemma_session_winds_up_once(editor, terminal, reports);
    let actions = session_actions(editor, terminal, reports);
    assert forall|index: int|
        0 <= index < reports.len() - 1 && #[trigger] actions[index] is LeaveRawMode
            && reports[index + 1].event is Done implies !session_state(
        editor,
        terminal,
        reports,
    ).1.raw_mode by {
        lemma_session_action(editor, terminal, reports, index);
        assert(reports.take(index + 1).drop_last() =~= reports.take(index));
        assert(reports.take(index + 1).last() == reports[index]);
        assert(session_state(editor, terminal, reports.take(index + 1)).0.phase is Leaving);
        assert(reports.take(index + 2).drop_last() =~= reports.take(index + 1));
        assert(reports.take(index + 2).last() == reports[index + 1]);
        assert(!session_state(editor, terminal, reports.take(index + 2)).1.raw_mode);
        lemma_finished_stays(editor, terminal, reports, index + 2, reports.len() as int);
        assert(reports.take(reports.len() as int) =~= reports);
    }
}

/// The quit flow. When an input that is bound to quitting arrives while the
/// editor awaits input, the quit flag is raised and the editor answers with
/// one flush, of what was queued and then the farewell redraw; whatever the
/// host reports next, it is asked to leave raw mode; and after that it is
/// only ever told to exit. No further redraw is made and no further input is
/// read.
pub proof fn lemma_quit_flow(
    editor: EditorView,
    terminal: TerminalView,
    reports: Seq<Report>,
    input: Input,
)
    requires
        editor.phase is Reading,
        reports.len() > 0,
        reports[0].event == Event::Input(input),
        input.binding() == Some(Binding::Quit),
    ensures
        session_actions(editor, terminal, reports).len() == reports.len(),
        session_state(editor, terminal, reports.take(1)).0.should_quit,
        session_actions(editor, terminal, reports)[0] == ActionView::Flush(
            terminal.queue + quit_commands(),
        ),
        reports.len() > 1 ==> session_actions(editor, terminal, reports)[1]
            is LeaveRawMode,
        forall|index: int|
            2 <= index < reports.len() ==> #[trigger] session_actions(
                editor,
                terminal,
                reports,
            )[index] is Exit,
{
    let actions = session_actions(editor, terminal, reports);
    lemma_session_action(editor, terminal, reports, 0);
    assert(reports.take(0) =~= Seq::<Report>::empty());
    assert(reports.take(1).drop_last() =~= reports.take(0));
    if reports.len() > 1 {
        lemma_session_action(editor, terminal, reports, 1);
        assert(reports.take(2).drop_last() =~= reports.take(1));
        assert(wound_up(session_state(editor, terminal, reports.take(2)).0.phase));
        assert forall|index: int| 2 <= index < reports.len() implies #[trigger] actions[index]
            is Exit by {
            lemma_session_action(editor, terminal, reports, index);
            lemma_wound_up_stays(editor, terminal, reports, 2, index);
        }
    }
}

/// The failure that breaks the loop is the failure that the session exits
/// with. When a request fails while the loop runs, the host is asked to
/// leave raw mode, once; and whatever it answers, also that leaving failed,
/// it is then told to exit with the failure that broke the loop.
pub proof fn lemma_failure_is_propagated(
    editor: EditorView,
    terminal: TerminalView,
    reports: Seq<Report>,
    error: TerminalError,
)
    requires
        editor.phase is Drawing || editor.phase is Reading,
        reports.len() > 0,
        reports[0].event == Event::Failed(error),
    ensures
        session_actions(editor, terminal, reports).len() == reports.len(),
        session_actions(editor, terminal, reports)[0] is LeaveRawMode,
        forall|index: int|
            1 <= index < reports.len() ==> #[trigger] session_actions(
                editor,
                terminal,
                reports,
            )[index] == ActionView::Exit(Err(error)),
{
    let actions = session_actions(editor, terminal, reports);
    lemma_session_action(editor, terminal, reports, 0);
    assert(reports.take(0) =~= Seq::<Report>::empty());
    assert(reports.take(1).drop_last() =~= reports.take(0));
    if reports.len() > 1 {
        lemma_session_action(editor, terminal, reports, 1);
        assert(reports.take(2).drop_last() =~= reports.take(1));
        assert forall|index: int| 1 <= index < reports.len() implies #[trigger] actions[index]
            == ActionView::Exit(Err(error)) by {
            if index > 1 {
                lemma_session_action(editor, terminal, reports, index);
                lemma_finished_stays(editor, terminal, reports, 2, index);
            }
        }
    }
}

/// While the session is in its loop, the terminal is in raw mode.
pub open spec fn raw_in_loop(editor: EditorView, terminal: TerminalView) -> bool {
    (editor.phase is Drawing || editor.phase is Reading) ==> terminal.raw_mode
}

/// A run of steps keeps the terminal in raw mode for as long as the session
/// is in its loop.
pub proof fn lemma_loop_stays_in_raw_mode(
    editor: EditorView,
    terminal: TerminalView,
    reports: Seq<Report>,
)
    requires
        raw_in_loop(editor, terminal),
    ensures
        raw_in_loop(
            session_state(editor, terminal, reports).0,
            session_state(editor, terminal, reports).1,
        ),
    decreases reports.len(),
{
    if reports.len() > 0 {
        lemma_loop_stays_in_raw_mode(editor, terminal, reports.drop_last());
    }
}

/// Initialization comes before any drawing: a session that starts idle asks
/// the host to flush or to read only once the terminal has been initialized,
/// and only while it is in raw mode.
pub proof fn lemma_draws_only_in_raw_mode(
    editor: EditorView,
    terminal: TerminalView,
    reports: Seq<Report>,
    index: int,
)
    requires
        editor.phase is Idle,
        0 <= index < reports.len(),
        session_actions(editor, terminal, reports)[index] is Flush || session_actions(
            editor,
            terminal,
            reports,
        )[index] is Read,
    ensures
        session_state(editor, terminal, reports.take(index + 1)).1.raw_mode,
{
    lemma_session_action(editor, terminal, reports, index);
    lemma_loop_stays_in_raw_mode(editor, terminal, reports.take(index));
    assert(reports.take(index + 1).drop_last() =~= reports.take(index));
}

} // verus!
