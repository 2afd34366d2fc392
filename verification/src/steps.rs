//! The steps that make up a driver procedure, and how the driver walks through them.
use vstd::prelude::*;

verus! {

/// One piece of outside work that a procedure asks of the caller, who owns the
/// interface, the busy and reset pins and the delay source.
#[derive(Debug, Clone, PartialEq, Eq)]
pub enum Action {
    /// Send one command byte through the interface.
    SendCommand(u8),
    /// Send these data bytes through the interface.
    SendData(Vec<u8>),
    /// Send `count` copies of `byte` as data through the interface.
    SendRepeated { byte: u8, count: u32 },
    /// Wait until the busy pin reads low.
    WaitUntilIdle,
    /// Wait this many milliseconds.
    DelayMs(u32),
    /// Drive the reset pin low.
    ResetLow,
    /// Drive the reset pin high.
    ResetHigh,
}

/// Whether a blocking wait for the panel keeps polling after reading the busy pin:
/// it stops only on a successful read of "low"; a high pin, or a pin that could not be
/// read, counts as busy.
pub fn busy_poll_continues(reading: Option<bool>) -> (r: bool)
    ensures
        r == (reading != Some(false)),
{
    match reading {
        Some(high) => high,
        None => true,
    }
}

/// An [`Action`] as a plain value.
pub enum ActionView {
    Command(u8),
    Data(Seq<u8>),
    Repeated(u8, u32),
    WaitUntilIdle,
    DelayMs(u32),
    ResetLow,
    ResetHigh,
}

impl View for Action {
    type V = ActionView;

    open spec fn view(&self) -> ActionView {
        match self {
            Action::SendCommand(c) => ActionView::Command(*c),
            Action::SendData(d) => ActionView::Data(d@),
            Action::SendRepeated { byte, count } => ActionView::Repeated(*byte, *count),
            Action::WaitUntilIdle => ActionView::WaitUntilIdle,
            Action::DelayMs(ms) => ActionView::DelayMs(*ms),
            Action::ResetLow => ActionView::ResetLow,
            Action::ResetHigh => ActionView::ResetHigh,
        }
    }
}

/// One step of a procedure: outside work, or a change of the driver's refresh bookkeeping.
pub enum Step {
    Perform(Action),
    /// A full refresh starts: the initial full refresh is done and partial mode is left.
    NoteFullRefresh,
    /// The panel is now driven in partial (differential) mode.
    NotePartialMode,
}

/// A [`Step`] as a plain value.
pub enum StepView {
    Perform(ActionView),
    NoteFullRefresh,
    NotePartialMode,
}

impl View for Step {
    type V = StepView;

    open spec fn view(&self) -> StepView {
        match self {
            Step::Perform(a) => StepView::Perform(a@),
            Step::NoteFullRefresh => StepView::NoteFullRefresh,
            Step::NotePartialMode => StepView::NotePartialMode,
        }
    }
}

/// A sequence of steps as plain values.
pub open spec fn steps_view(q: Seq<Step>) -> Seq<StepView> {
    q.map_values(|s: Step| s@)
}

/// The driver's bookkeeping of how the panel was last refreshed.
pub struct RefreshFlags {
    pub using_partial_mode: bool,
    pub initial_full_refresh_done: bool,
}

/// The bookkeeping after passing one step.
pub open spec fn note(f: RefreshFlags, s: StepView) -> RefreshFlags {
    match s {
        StepView::Perform(_) => f,
        StepView::NoteFullRefresh => RefreshFlags {
            using_partial_mode: false,
            initial_full_refresh_done: true,
        },
        StepView::NotePartialMode => RefreshFlags {
            using_partial_mode: true,
            initial_full_refresh_done: f.initial_full_refresh_done,
        },
    }
}

/// What the driver does when the last piece of outside work succeeded: it passes the
/// bookkeeping steps at the front of `q` and hands out the first action, if there is one.
/// The result is the new bookkeeping, the steps still to come, and the action.
pub open spec fn next_ok(f: RefreshFlags, q: Seq<StepView>) -> (RefreshFlags, Seq<StepView>, Option<ActionView>)
    decreases q.len(),
{
    if q.len() == 0 {
        (f, q, None)
    } else {
        match q[0] {
            StepView::Perform(a) => (f, q.drop_first(), Some(a)),
            _ => next_ok(note(f, q[0]), q.drop_first()),
        }
    }
}

/// The outside work of a sequence of steps, in order.
pub open spec fn actions_of(q: Seq<StepView>) -> Seq<ActionView>
    decreases q.len(),
{
    if q.len() == 0 {
        Seq::empty()
    } else {
        match q[0] {
            StepView::Perform(a) => seq![a] + actions_of(q.drop_first()),
            _ => actions_of(q.drop_first()),
        }
    }
}

/// The bookkeeping after passing every step of `q`.
pub open spec fn flags_after(f: RefreshFlags, q: Seq<StepView>) -> RefreshFlags
    decreases q.len(),
{
    if q.len() == 0 {
        f
    } else {
        flags_after(note(f, q[0]), q.drop_first())
    }
}

/// `next_ok` never makes the remaining steps longer, and shortens them when it hands out an action.
pub proof fn lemma_next_ok_shrinks(f: RefreshFlags, q: Seq<StepView>)
    ensures
        next_ok(f, q).1.len() <= q.len(),
        next_ok(f, q).2 is Some ==> next_ok(f, q).1.len() < q.len(),
        next_ok(f, q).2 is None ==> next_ok(f, q).1.len() == 0,
    decreases q.len(),
{
    if q.len() > 0 {
        match q[0] {
            StepView::Perform(_) => {},
            _ => lemma_next_ok_shrinks(note(f, q[0]), q.drop_first()),
        }
    }
}

/// The actions handed out, in order, and the final bookkeeping, when the driver is
/// advanced with success after every action until it reports that it is finished.
pub open spec fn run_ok(f: RefreshFlags, q: Seq<StepView>) -> (Seq<ActionView>, RefreshFlags)
    decreases q.len(),
{
    let r = next_ok(f, q);
    proof {
        lemma_next_ok_shrinks(f, q);
    }
    match r.2 {
        None => (Seq::empty(), r.0),
        Some(a) => {
            let rest = run_ok(r.0, r.1);
            (seq![a] + rest.0, rest.1)
        },
    }
}

} // verus!
