//! Properties of the driver that hold across calls and for every input.
use vstd::prelude::*;

use crate::color::{color_bytes, Color};
use crate::command;
use crate::flag;
use crate::script::{
    act, clear_buffer_script, bw_fast_partial_update_script, bw_fast_update_script, bw_full_update_script, byte_of,
    command_script, command_with_data_script, data_script, fast_refresh_script, full_frame_script,
    full_refresh_script, hw_reset_script, init_script, partial_frame_script, restore_registers_script,
    set_ram_area_script, set_ram_counter_script, sleep_script, tricolor_full_update_script,
    write_buffer_script, write_partial_buffer_script,
};
use crate::steps::{actions_of, flags_after, next_ok, note, run_ok, ActionView, RefreshFlags, StepView};

verus! {

/// The outside work of two procedures run one after the other is the work of the first,
/// then the work of the second.
pub proof fn lemma_actions_of_concat(a: Seq<StepView>, b: Seq<StepView>)
    ensures
        actions_of(a + b) == actions_of(a) + actions_of(b),
    decreases a.len(),
{
    if a.len() == 0 {
        assert(a + b =~= b);
        assert(actions_of(a) + actions_of(b) =~= actions_of(b));
    } else {
        assert((a + b).drop_first() =~= a.drop_first() + b);
        assert((a + b)[0] == a[0]);
        lemma_actions_of_concat(a.drop_first(), b);
        match a[0] {
            StepView::Perform(x) => {
                assert(seq![x] + (actions_of(a.drop_first()) + actions_of(b)) =~= (seq![x] + actions_of(
                    a.drop_first(),
                )) + actions_of(b));
            },
            _ => {},
        }
    }
}

/// The bookkeeping after two procedures run one after the other is that of the second,
/// started from the bookkeeping that the first left.
pub proof fn lemma_flags_after_concat(f: RefreshFlags, a: Seq<StepView>, b: Seq<StepView>)
    ensures
        flags_after(f, a + b) == flags_after(flags_after(f, a), b),
    decreases a.len(),
{
    if a.len() == 0 {
        assert(a + b =~= b);
    } else {
        assert((a + b).drop_first() =~= a.drop_first() + b);
        assert((a + b)[0] == a[0]);
        lemma_flags_after_concat(note(f, a[0]), a.drop_first(), b);
    }
}

/// Driving a procedure to its end, with every action succeeding, hands out exactly the
/// procedure's outside work, in order, and leaves the bookkeeping that its steps describe.
pub proof fn lemma_run_ok_performs_script(f: RefreshFlags, q: Seq<StepView>)
    ensures
        run_ok(f, q) == (actions_of(q), flags_after(f, q)),
    decreases q.len(),
{
    if q.len() > 0 {
        lemma_run_ok_performs_script(note(f, q[0]), q.drop_first());
        match q[0] {
            StepView::Perform(a) => {
                assert(run_ok(f, q.drop_first()) == run_ok(note(f, q[0]), q.drop_first()));
            },
            _ => {
                assert(next_ok(f, q) == next_ok(note(f, q[0]), q.drop_first()));
            },
        }
    }
}

proof fn lemma_actions_command(c: u8)
    ensures
        actions_of(command_script(c)) == seq![ActionView::Command(c)],
{
    reveal_with_fuel(actions_of, 2);
    assert(actions_of(command_script(c)) =~= seq![ActionView::Command(c)]);
}

proof fn lemma_actions_command_with_data(c: u8, d: Seq<u8>)
    ensures
        actions_of(command_with_data_script(c, d)) == seq![
            ActionView::Command(c),
            ActionView::Data(d),
            ActionView::WaitUntilIdle,
        ],
{
    reveal_with_fuel(actions_of, 3);
    lemma_actions_command(c);
    lemma_actions_of_concat(command_script(c), data_script(d));
    assert(data_script(d).drop_first().drop_first() =~= Seq::<StepView>::empty());
    assert(data_script(d).drop_first() =~= seq![act(ActionView::WaitUntilIdle)]);
    assert(actions_of(data_script(d)) =~= seq![ActionView::Data(d), ActionView::WaitUntilIdle]);
    assert(actions_of(command_with_data_script(c, d)) =~= seq![
        ActionView::Command(c),
        ActionView::Data(d),
        ActionView::WaitUntilIdle,
    ]);
}

/// Flags of a few fixed procedures.
proof fn lemma_flags_command_with_data(f: RefreshFlags, c: u8, d: Seq<u8>)
    ensures
        flags_after(f, command_with_data_script(c, d)) == f,
{
    reveal_with_fuel(flags_after, 4);
    assert(command_with_data_script(c, d).drop_first() =~= data_script(d));
    assert(data_script(d).drop_first().drop_first() =~= Seq::<StepView>::empty());
}

/// A full refresh always leaves the driver out of partial mode, with the initial full
/// refresh done.
pub proof fn lemma_full_refresh_flags(f: RefreshFlags)
    ensures
        flags_after(f, full_refresh_script()) == (RefreshFlags {
            using_partial_mode: false,
            initial_full_refresh_done: true,
        }),
{
    let g = RefreshFlags { using_partial_mode: false, initial_full_refresh_done: true };
    let a = seq![StepView::NoteFullRefresh];
    let b = command_with_data_script(command::BORDER_WAVEFORM_CONTROL, seq![0x05u8]);
    let c = command_with_data_script(command::UPDATE_DISPLAY_CTRL2, seq![flag::DISPLAY_MODE_1]);
    let d = command_script(command::MASTER_ACTIVATE);
    let e = seq![act(ActionView::WaitUntilIdle)];
    reveal_with_fuel(flags_after, 2);
    assert(a.drop_first() =~= Seq::<StepView>::empty());
    assert(d.drop_first() =~= Seq::<StepView>::empty());
    assert(e.drop_first() =~= Seq::<StepView>::empty());
    lemma_flags_after_concat(f, a + b + c + d, e);
    lemma_flags_after_concat(f, a + b + c, d);
    lemma_flags_after_concat(f, a + b, c);
    lemma_flags_after_concat(f, a, b);
    lemma_flags_command_with_data(g, command::BORDER_WAVEFORM_CONTROL, seq![0x05u8]);
    lemma_flags_command_with_data(g, command::UPDATE_DISPLAY_CTRL2, seq![flag::DISPLAY_MODE_1]);
}

/// Every step of `q` is outside work: `q` leaves the refresh bookkeeping alone.
pub open spec fn performs_only(q: Seq<StepView>) -> bool {
    forall|i: int| 0 <= i < q.len() ==> (#[trigger] q[i]) is Perform
}

proof fn lemma_performs_only_concat(a: Seq<StepView>, b: Seq<StepView>)
    requires
        performs_only(a),
        performs_only(b),
    ensures
        performs_only(a + b),
{
    assert forall|i: int| 0 <= i < (a + b).len() implies (#[trigger] (a + b)[i]) is Perform by {
        if i < a.len() {
            assert((a + b)[i] == a[i]);
        } else {
            assert((a + b)[i] == b[i - a.len()]);
        }
    }
}

proof fn lemma_flags_unchanged(f: RefreshFlags, q: Seq<StepView>)
    requires
        performs_only(q),
    ensures
        flags_after(f, q) == f,
    decreases q.len(),
{
    if q.len() > 0 {
        assert(q[0] is Perform);
        assert forall|i: int| 0 <= i < q.drop_first().len() implies (#[trigger] q.drop_first()[i]) is Perform by {
            assert(q.drop_first()[i] == q[i + 1]);
        }
        lemma_flags_unchanged(f, q.drop_first());
    }
}

proof fn lemma_performs_only_basics(c: u8, d: Seq<u8>)
    ensures
        performs_only(command_script(c)),
        performs_only(data_script(d)),
        performs_only(command_with_data_script(c, d)),
        performs_only(hw_reset_script()),
        performs_only(sleep_script()),
        performs_only(seq![act(ActionView::WaitUntilIdle)]),
        performs_only(seq![act(ActionView::DelayMs(10))]),
{
    lemma_performs_only_concat(command_script(c), data_script(d));
}

proof fn lemma_performs_only_frame(x: int, y: int, width: int, height: int)
    ensures
        performs_only(partial_frame_script(x, y, width, height)),
        performs_only(full_frame_script(width, height)),
{
    lemma_performs_only_partial_frame(x, y, width, height);
    lemma_performs_only_partial_frame(0, 0, width, height);
}

proof fn lemma_performs_only_partial_frame(x: int, y: int, width: int, height: int)
    ensures
        performs_only(partial_frame_script(x, y, width, height)),
{
    let xa = seq![byte_of(x / 8), byte_of((x + width - 1) / 8)];
    let ya = seq![byte_of(y), byte_of(y / 256), byte_of(y + height - 1), byte_of((y + height - 1) / 256)];
    lemma_performs_only_basics(command::SET_RAMXPOS, xa);
    lemma_performs_only_basics(command::SET_RAMYPOS, ya);
    lemma_performs_only_concat(
        command_with_data_script(command::SET_RAMXPOS, xa),
        command_with_data_script(command::SET_RAMYPOS, ya),
    );
    lemma_performs_only_basics(command::SET_RAMX_COUNTER, seq![byte_of(x / 8)]);
    lemma_performs_only_basics(command::SET_RAMY_COUNTER, seq![byte_of(y), byte_of(y / 256)]);
    lemma_performs_only_concat(
        command_with_data_script(command::SET_RAMX_COUNTER, seq![byte_of(x / 8)]),
        command_with_data_script(command::SET_RAMY_COUNTER, seq![byte_of(y), byte_of(y / 256)]),
    );
    lemma_performs_only_concat(
        set_ram_area_script(x, y, x + width - 1, y + height - 1),
        set_ram_counter_script(x, y),
    );
}

proof fn lemma_performs_only_writes(ram_command: u8, buffer: Seq<u8>, x: int, y: int, width: int, height: int)
    ensures
        performs_only(write_buffer_script(ram_command, width, height, buffer)),
        performs_only(write_partial_buffer_script(ram_command, buffer, x, y, width, height)),
{
    lemma_performs_only_frame(x, y, width, height);
    lemma_performs_only_frame(0, 0, width, height);
    lemma_performs_only_basics(ram_command, buffer);
    lemma_performs_only_concat(full_frame_script(width, height), command_with_data_script(ram_command, buffer));
    lemma_performs_only_concat(
        partial_frame_script(x, y, width, height),
        command_with_data_script(ram_command, buffer),
    );
}

proof fn lemma_performs_only_init(width: int, height: int)
    ensures
        performs_only(init_script(width, height)),
        performs_only(restore_registers_script()),
{
    let s1 = hw_reset_script();
    let s2 = command_script(command::SW_RESET);
    let s3 = seq![act(ActionView::DelayMs(10)), act(ActionView::WaitUntilIdle)];
    let s4 = command_with_data_script(command::DRIVER_CONTROL, seq![byte_of(height - 1), byte_of((height - 1) / 256), 0x00u8]);
    let s5 = command_with_data_script(command::DATA_ENTRY_MODE, seq![flag::DATA_ENTRY_INCRY_INCRX]);
    let s6 = command_with_data_script(command::BORDER_WAVEFORM_CONTROL, seq![0x05u8]);
    let s7 = command_with_data_script(command::DISPLAY_UPDATE_CONTROL, seq![0x00u8, 0x80u8]);
    let s8 = command_with_data_script(command::TEMP_CONTROL, seq![flag::INTERNAL_TEMP_SENSOR]);
    let s9 = full_frame_script(width, height);
    let s10 = seq![act(ActionView::WaitUntilIdle)];
    lemma_performs_only_basics(command::SW_RESET, seq![]);
    lemma_performs_only_basics(command::DRIVER_CONTROL, seq![byte_of(height - 1), byte_of((height - 1) / 256), 0x00u8]);
    lemma_performs_only_basics(command::DATA_ENTRY_MODE, seq![flag::DATA_ENTRY_INCRY_INCRX]);
    lemma_performs_only_basics(command::BORDER_WAVEFORM_CONTROL, seq![0x05u8]);
    lemma_performs_only_basics(command::DISPLAY_UPDATE_CONTROL, seq![0x00u8, 0x80u8]);
    lemma_performs_only_basics(command::TEMP_CONTROL, seq![flag::INTERNAL_TEMP_SENSOR]);
    lemma_performs_only_basics(command::BORDER_WAVEFORM_CONTROL, seq![0x80u8]);
    lemma_performs_only_frame(0, 0, width, height);
    assert(performs_only(s3));
    lemma_performs_only_concat(s1, s2);
    lemma_performs_only_concat(s1 + s2, s3);
    lemma_performs_only_concat(s1 + s2 + s3, s4);
    lemma_performs_only_concat(s1 + s2 + s3 + s4, s5);
    lemma_performs_only_concat(s1 + s2 + s3 + s4 + s5, s6);
    lemma_performs_only_concat(s1 + s2 + s3 + s4 + s5 + s6, s7);
    lemma_performs_only_concat(s1 + s2 + s3 + s4 + s5 + s6 + s7, s8);
    lemma_performs_only_concat(s1 + s2 + s3 + s4 + s5 + s6 + s7 + s8, s9);
    lemma_performs_only_concat(s1 + s2 + s3 + s4 + s5 + s6 + s7 + s8 + s9, s10);
    let r1 = command_with_data_script(command::BORDER_WAVEFORM_CONTROL, seq![0x80u8]);
    lemma_performs_only_concat(r1, s7);
    lemma_performs_only_concat(r1 + s7, s8);
}

/// A fast refresh always leaves the driver in partial mode, with the initial full refresh
/// done: it runs a full refresh first when none was done yet.
pub proof fn lemma_fast_refresh_flags(f: RefreshFlags)
    ensures
        flags_after(f, fast_refresh_script(f.initial_full_refresh_done)) == (RefreshFlags {
            using_partial_mode: true,
            initial_full_refresh_done: true,
        }),
{
    let done = f.initial_full_refresh_done;
    let pre: Seq<StepView> = if done { Seq::empty() } else { full_refresh_script() };
    let a = seq![StepView::NotePartialMode];
    let b = command_with_data_script(command::UPDATE_DISPLAY_CTRL2, seq![flag::DISPLAY_MODE_2]);
    let c = command_script(command::MASTER_ACTIVATE);
    let d = seq![act(ActionView::WaitUntilIdle)];
    lemma_flags_after_concat(f, pre + a + b + c, d);
    lemma_flags_after_concat(f, pre + a + b, c);
    lemma_flags_after_concat(f, pre + a, b);
    lemma_flags_after_concat(f, pre, a);
    lemma_full_refresh_flags(f);
    let g = flags_after(f, pre);
    assert(g.initial_full_refresh_done);
    reveal_with_fuel(flags_after, 2);
    assert(a.drop_first() =~= Seq::<StepView>::empty());
    let h = RefreshFlags { using_partial_mode: true, initial_full_refresh_done: true };
    assert(flags_after(g, a) == h);
    lemma_performs_only_basics(command::UPDATE_DISPLAY_CTRL2, seq![flag::DISPLAY_MODE_2]);
    lemma_performs_only_basics(command::MASTER_ACTIVATE, seq![]);
    lemma_flags_unchanged(h, b);
    lemma_flags_unchanged(h, c);
    lemma_flags_unchanged(h, d);
}

/// A full update of a black/white panel leaves the driver out of partial mode, with the
/// initial full refresh done.
pub proof fn lemma_bw_full_update_flags(f: RefreshFlags, width: int, height: int, buffer: Seq<u8>)
    ensures
        flags_after(f, bw_full_update_script(width, height, buffer)) == (RefreshFlags {
            using_partial_mode: false,
            initial_full_refresh_done: true,
        }),
{
    let g = RefreshFlags { using_partial_mode: false, initial_full_refresh_done: true };
    let s1 = sleep_script();
    let s2 = seq![act(ActionView::DelayMs(10))];
    let s3 = init_script(width, height);
    let s4 = write_buffer_script(command::WRITE_BW_DATA, width, height, buffer);
    let s5 = full_refresh_script();
    let s6 = write_buffer_script(command::WRITE_RED_DATA, width, height, buffer);
    lemma_performs_only_basics(0, seq![]);
    lemma_performs_only_init(width, height);
    lemma_performs_only_writes(command::WRITE_BW_DATA, buffer, 0, 0, width, height);
    lemma_performs_only_writes(command::WRITE_RED_DATA, buffer, 0, 0, width, height);
    lemma_performs_only_concat(s1, s2);
    lemma_performs_only_concat(s1 + s2, s3);
    lemma_performs_only_concat(s1 + s2 + s3, s4);
    lemma_flags_after_concat(f, s1 + s2 + s3 + s4 + s5, s6);
    lemma_flags_after_concat(f, s1 + s2 + s3 + s4, s5);
    lemma_flags_unchanged(f, s1 + s2 + s3 + s4);
    lemma_full_refresh_flags(f);
    lemma_flags_unchanged(g, s6);
}

/// A fast update of a black/white panel, whole or partial, leaves the driver in partial
/// mode, with the initial full refresh done.
pub proof fn lemma_bw_fast_update_flags(
    f: RefreshFlags,
    width: int,
    height: int,
    buffer: Seq<u8>,
    x: int,
    y: int,
)
    ensures
        flags_after(f, bw_fast_update_script(width, height, buffer, f.initial_full_refresh_done))
            == (RefreshFlags { using_partial_mode: true, initial_full_refresh_done: true }),
        flags_after(f, bw_fast_partial_update_script(buffer, x, y, width, height, f.initial_full_refresh_done))
            == (RefreshFlags { using_partial_mode: true, initial_full_refresh_done: true }),
{
    let h = RefreshFlags { using_partial_mode: true, initial_full_refresh_done: true };
    let done = f.initial_full_refresh_done;
    let s1 = hw_reset_script();
    let s2 = seq![act(ActionView::WaitUntilIdle)];
    let s3 = restore_registers_script();
    let s4 = write_buffer_script(command::WRITE_BW_DATA, width, height, buffer);
    let s5 = fast_refresh_script(done);
    let s6 = write_buffer_script(command::WRITE_RED_DATA, width, height, buffer);
    lemma_performs_only_basics(command::BORDER_WAVEFORM_CONTROL, seq![0x80u8]);
    lemma_performs_only_init(width, height);
    lemma_performs_only_writes(command::WRITE_BW_DATA, buffer, x, y, width, height);
    lemma_performs_only_writes(command::WRITE_RED_DATA, buffer, x, y, width, height);
    lemma_fast_refresh_flags(f);
    lemma_performs_only_concat(s1, s2);
    lemma_performs_only_concat(s1 + s2, s3);
    lemma_performs_only_concat(s1 + s2 + s3, s4);
    lemma_flags_after_concat(f, s1 + s2 + s3 + s4 + s5, s6);
    lemma_flags_after_concat(f, s1 + s2 + s3 + s4, s5);
    lemma_flags_unchanged(f, s1 + s2 + s3 + s4);
    lemma_flags_unchanged(h, s6);
    let p3 = command_with_data_script(command::BORDER_WAVEFORM_CONTROL, seq![0x80u8]);
    let p4 = write_partial_buffer_script(command::WRITE_BW_DATA, buffer, x, y, width, height);
    let p6 = write_partial_buffer_script(command::WRITE_RED_DATA, buffer, x, y, width, height);
    lemma_performs_only_concat(s1 + s2, p3);
    lemma_performs_only_concat(s1 + s2 + p3, p4);
    lemma_flags_after_concat(f, s1 + s2 + p3 + p4 + s5, p6);
    lemma_flags_after_concat(f, s1 + s2 + p3 + p4, s5);
    lemma_flags_unchanged(f, s1 + s2 + p3 + p4);
    lemma_flags_unchanged(h, p6);
}

/// A full update of a tri-colour panel leaves the driver out of partial mode, with the
/// initial full refresh done.
pub proof fn lemma_tricolor_full_update_flags(
    f: RefreshFlags,
    width: int,
    height: int,
    bw_buffer: Seq<u8>,
    red_buffer: Seq<u8>,
)
    ensures
        flags_after(f, tricolor_full_update_script(width, height, bw_buffer, red_buffer)) == (RefreshFlags {
            using_partial_mode: false,
            initial_full_refresh_done: true,
        }),
{
    let s1 = write_buffer_script(command::WRITE_RED_DATA, width, height, red_buffer);
    let s2 = write_buffer_script(command::WRITE_BW_DATA, width, height, bw_buffer);
    lemma_performs_only_writes(command::WRITE_RED_DATA, red_buffer, 0, 0, width, height);
    lemma_performs_only_writes(command::WRITE_BW_DATA, bw_buffer, 0, 0, width, height);
    lemma_performs_only_concat(s1, s2);
    lemma_flags_after_concat(f, s1 + s2, full_refresh_script());
    lemma_flags_unchanged(f, s1 + s2);
    lemma_full_refresh_flags(f);
}

proof fn lemma_actions_singletons(a: ActionView)
    ensures
        actions_of(seq![act(a)]) == seq![a],
        actions_of(seq![StepView::NoteFullRefresh]) == Seq::<ActionView>::empty(),
        actions_of(seq![StepView::NotePartialMode]) == Seq::<ActionView>::empty(),
{
    reveal_with_fuel(actions_of, 2);
    assert(seq![act(a)].drop_first() =~= Seq::<StepView>::empty());
    assert(seq![StepView::NoteFullRefresh].drop_first() =~= Seq::<StepView>::empty());
    assert(seq![StepView::NotePartialMode].drop_first() =~= Seq::<StepView>::empty());
    assert(actions_of(seq![act(a)]) =~= seq![a]);
}

/// The outside work of a full refresh.
pub open spec fn full_refresh_actions() -> Seq<ActionView> {
    seq![
        ActionView::Command(0x3Cu8),
        ActionView::Data(seq![0x05u8]),
        ActionView::WaitUntilIdle,
        ActionView::Command(0x22u8),
        ActionView::Data(seq![0xF7u8]),
        ActionView::WaitUntilIdle,
        ActionView::Command(0x20u8),
        ActionView::WaitUntilIdle,
    ]
}

/// The outside work of a fast refresh once the initial full refresh is done.
pub open spec fn fast_refresh_tail_actions() -> Seq<ActionView> {
    seq![
        ActionView::Command(0x22u8),
        ActionView::Data(seq![0xFCu8]),
        ActionView::WaitUntilIdle,
        ActionView::Command(0x20u8),
        ActionView::WaitUntilIdle,
    ]
}

/// What a full refresh and a fast refresh send, as the panel sees it.
pub proof fn lemma_refresh_actions(done: bool)
    ensures
        actions_of(full_refresh_script()) == full_refresh_actions(),
        actions_of(fast_refresh_script(done)) == if done {
            fast_refresh_tail_actions()
        } else {
            full_refresh_actions() + fast_refresh_tail_actions()
        },
{
    let a = seq![StepView::NoteFullRefresh];
    let b = command_with_data_script(command::BORDER_WAVEFORM_CONTROL, seq![0x05u8]);
    let c = command_with_data_script(command::UPDATE_DISPLAY_CTRL2, seq![flag::DISPLAY_MODE_1]);
    let d = command_script(command::MASTER_ACTIVATE);
    let e = seq![act(ActionView::WaitUntilIdle)];
    lemma_actions_singletons(ActionView::WaitUntilIdle);
    lemma_actions_command_with_data(command::BORDER_WAVEFORM_CONTROL, seq![0x05u8]);
    lemma_actions_command_with_data(command::UPDATE_DISPLAY_CTRL2, seq![flag::DISPLAY_MODE_1]);
    lemma_actions_command(command::MASTER_ACTIVATE);
    lemma_actions_of_concat(a + b + c + d, e);
    lemma_actions_of_concat(a + b + c, d);
    lemma_actions_of_concat(a + b, c);
    lemma_actions_of_concat(a, b);
    assert(actions_of(full_refresh_script()) =~= full_refresh_actions());

    let pre: Seq<StepView> = if done { Seq::empty() } else { full_refresh_script() };
    let p = seq![StepView::NotePartialMode];
    let q = command_with_data_script(command::UPDATE_DISPLAY_CTRL2, seq![flag::DISPLAY_MODE_2]);
    lemma_actions_command_with_data(command::UPDATE_DISPLAY_CTRL2, seq![flag::DISPLAY_MODE_2]);
    lemma_actions_of_concat(pre + p + q + d, e);
    lemma_actions_of_concat(pre + p + q, d);
    lemma_actions_of_concat(pre + p, q);
    lemma_actions_of_concat(pre, p);
    reveal_with_fuel(actions_of, 1);
    assert(actions_of(Seq::<StepView>::empty()) =~= Seq::<ActionView>::empty());
    if done {
        assert(actions_of(fast_refresh_script(done)) =~= fast_refresh_tail_actions());
    } else {
        assert(actions_of(fast_refresh_script(done)) =~= full_refresh_actions() + fast_refresh_tail_actions());
    }
}

/// A fast refresh drives the panel's full-refresh waveform exactly when no full refresh
/// was done before it; it always drives the fast waveform.
pub proof fn lemma_fast_refresh_waveform(done: bool)
    ensures
        actions_of(fast_refresh_script(done)).contains(ActionView::Data(seq![flag::DISPLAY_MODE_1])) <==> !done,
        actions_of(fast_refresh_script(done)).contains(ActionView::Data(seq![flag::DISPLAY_MODE_2])),
{
    lemma_refresh_actions(done);
    let acts = actions_of(fast_refresh_script(done));
    let full = ActionView::Data(seq![flag::DISPLAY_MODE_1]);
    let fast = ActionView::Data(seq![flag::DISPLAY_MODE_2]);
    if done {
        assert(acts[1] == fast);
        assert forall|i: int| 0 <= i < acts.len() implies acts[i] != full by {
            if i == 1 {
                assert(seq![flag::DISPLAY_MODE_2][0] != seq![flag::DISPLAY_MODE_1][0]);
            }
        }
    } else {
        assert(acts[4] == full);
        assert(acts[9] == fast);
    }
}

/// Entering deep sleep sends the command and its parameter and never waits on the busy
/// pin, which stays high in deep sleep.
pub proof fn lemma_sleep_never_waits()
    ensures
        actions_of(sleep_script()) == seq![
            ActionView::Command(command::DEEP_SLEEP),
            ActionView::Data(seq![flag::DEEP_SLEEP_MODE_1]),
        ],
        !actions_of(sleep_script()).contains(ActionView::WaitUntilIdle),
{
    reveal_with_fuel(actions_of, 3);
    assert(sleep_script().drop_first().drop_first() =~= Seq::<StepView>::empty());
    let acts = actions_of(sleep_script());
    assert(acts =~= seq![
        ActionView::Command(command::DEEP_SLEEP),
        ActionView::Data(seq![flag::DEEP_SLEEP_MODE_1]),
    ]);
    assert(acts[0] != ActionView::WaitUntilIdle);
    assert(acts[1] != ActionView::WaitUntilIdle);
}

/// A row number below 65536 is sent as two bytes, low then high, that give it back.
pub proof fn lemma_row_bytes_round_trip(v: int)
    requires
        0 <= v < 65536,
    ensures
        byte_of(v) + 256 * byte_of(v / 256) == v,
{
}

/// For an `x` and a `width` that are multiples of 8, as the partial writes ask, the RAM
/// window spans exactly `width / 8` bytes of X address: its first byte is `x / 8` and
/// its last is `(x + width - 1) / 8`.
pub proof fn lemma_x_window_bytes(x: int, width: int)
    requires
        0 <= x,
        x % 8 == 0,
        width % 8 == 0,
        8 <= width,
    ensures
        (x + width - 1) / 8 - x / 8 + 1 == width / 8,
{
}

/// No step of `q` is the outside work `x`.
pub open spec fn never_sends(q: Seq<StepView>, x: ActionView) -> bool {
    !actions_of(q).contains(x)
}

proof fn lemma_never_sends_concat(a: Seq<StepView>, b: Seq<StepView>, x: ActionView)
    requires
        never_sends(a, x),
        never_sends(b, x),
    ensures
        never_sends(a + b, x),
{
    lemma_actions_of_concat(a, b);
    let l = actions_of(a);
    let r = actions_of(b);
    if (l + r).contains(x) {
        let i = choose|i: int| 0 <= i < (l + r).len() && (l + r)[i] == x;
        if i < l.len() {
            assert(l[i] == x);
        } else {
            assert(r[i - l.len()] == x);
        }
    }
}

proof fn lemma_never_sends_basics(c: u8, d: Seq<u8>, x: u8)
    requires
        c != x,
    ensures
        never_sends(command_script(c), ActionView::Command(x)),
        never_sends(command_with_data_script(c, d), ActionView::Command(x)),
        never_sends(hw_reset_script(), ActionView::Command(x)),
        never_sends(seq![act(ActionView::WaitUntilIdle)], ActionView::Command(x)),
        never_sends(seq![act(ActionView::DelayMs(10))], ActionView::Command(x)),
        never_sends(seq![act(ActionView::DelayMs(10)), act(ActionView::WaitUntilIdle)], ActionView::Command(x)),
{
    lemma_actions_command(c);
    lemma_actions_command_with_data(c, d);
    let cx = ActionView::Command(x);
    assert(actions_of(command_script(c))[0] != cx);
    let cd = actions_of(command_with_data_script(c, d));
    assert(cd[0] != cx && cd[1] != cx && cd[2] != cx);
    lemma_actions_singletons(ActionView::WaitUntilIdle);
    lemma_actions_singletons(ActionView::DelayMs(10));
    lemma_actions_singletons(ActionView::ResetLow);
    lemma_actions_singletons(ActionView::ResetHigh);
    lemma_actions_singletons(ActionView::DelayMs(50));
    assert(actions_of(seq![act(ActionView::WaitUntilIdle)])[0] != cx);
    assert(actions_of(seq![act(ActionView::DelayMs(10))])[0] != cx);
    lemma_never_sends_concat(seq![act(ActionView::DelayMs(10))], seq![act(ActionView::WaitUntilIdle)], cx);
    assert(seq![act(ActionView::DelayMs(10))] + seq![act(ActionView::WaitUntilIdle)] =~= seq![
        act(ActionView::DelayMs(10)),
        act(ActionView::WaitUntilIdle),
    ]);
    let r0 = seq![act(ActionView::ResetLow)];
    let r1 = seq![act(ActionView::DelayMs(50))];
    let r2 = seq![act(ActionView::ResetHigh)];
    assert(actions_of(r0)[0] != cx);
    assert(actions_of(r1)[0] != cx);
    assert(actions_of(r2)[0] != cx);
    lemma_never_sends_concat(r0, r1, cx);
    lemma_never_sends_concat(r0 + r1, r2, cx);
    lemma_never_sends_concat(r0 + r1 + r2, r1, cx);
    assert(r0 + r1 + r2 + r1 =~= hw_reset_script());
}

proof fn lemma_never_sends_frame(width: int, height: int, x: u8)
    requires
        x != command::SET_RAMXPOS,
        x != command::SET_RAMYPOS,
        x != command::SET_RAMX_COUNTER,
        x != command::SET_RAMY_COUNTER,
    ensures
        never_sends(full_frame_script(width, height), ActionView::Command(x)),
{
    let cx = ActionView::Command(x);
    let xa = seq![byte_of(0int / 8), byte_of((0 + width - 1) / 8)];
    let ya = seq![byte_of(0), byte_of(0int / 256), byte_of(0 + height - 1), byte_of((0 + height - 1) / 256)];
    let xc = seq![byte_of(0int / 8)];
    let yc = seq![byte_of(0), byte_of(0int / 256)];
    lemma_never_sends_basics(command::SET_RAMXPOS, xa, x);
    lemma_never_sends_basics(command::SET_RAMYPOS, ya, x);
    lemma_never_sends_basics(command::SET_RAMX_COUNTER, xc, x);
    lemma_never_sends_basics(command::SET_RAMY_COUNTER, yc, x);
    let a = command_with_data_script(command::SET_RAMXPOS, xa);
    let b = command_with_data_script(command::SET_RAMYPOS, ya);
    let c = command_with_data_script(command::SET_RAMX_COUNTER, xc);
    let d = command_with_data_script(command::SET_RAMY_COUNTER, yc);
    lemma_never_sends_concat(a, b, cx);
    lemma_never_sends_concat(c, d, cx);
    lemma_never_sends_concat(a + b, c + d, cx);
}

/// A full update of a black/white panel does not write the red RAM before the refresh:
/// the panel's waveform compares the new frame with the previous one that the red RAM
/// still holds. The red RAM is written with the same frame after the refresh.
pub proof fn lemma_bw_full_update_writes_red_after_refresh(width: int, height: int, buffer: Seq<u8>)
    ensures
        exists|before: Seq<ActionView>|
            {
                &&& actions_of(bw_full_update_script(width, height, buffer)) == before
                    + full_refresh_actions() + actions_of(
                    write_buffer_script(command::WRITE_RED_DATA, width, height, buffer),
                )
                &&& !before.contains(ActionView::Command(command::WRITE_RED_DATA))
            },
        actions_of(write_buffer_script(command::WRITE_RED_DATA, width, height, buffer)) == actions_of(
            full_frame_script(width, height),
        ) + seq![
            ActionView::Command(command::WRITE_RED_DATA),
            ActionView::Data(buffer),
            ActionView::WaitUntilIdle,
        ],
{
    let red = command::WRITE_RED_DATA;
    let cx = ActionView::Command(red);
    let s1 = sleep_script();
    let s2 = seq![act(ActionView::DelayMs(10))];
    let s3 = init_script(width, height);
    let s4 = write_buffer_script(command::WRITE_BW_DATA, width, height, buffer);
    let s5 = full_refresh_script();
    let s6 = write_buffer_script(red, width, height, buffer);
    lemma_sleep_never_waits();
    assert(actions_of(s1)[0] != cx && actions_of(s1)[1] != cx);
    lemma_never_sends_basics(0, seq![], red);
    lemma_never_sends_frame(width, height, red);
    // init
    let i1 = hw_reset_script();
    let i2 = command_script(command::SW_RESET);
    let i3 = seq![act(ActionView::DelayMs(10)), act(ActionView::WaitUntilIdle)];
    let i4 = command_with_data_script(command::DRIVER_CONTROL, seq![byte_of(height - 1), byte_of((height - 1) / 256), 0x00u8]);
    let i5 = command_with_data_script(command::DATA_ENTRY_MODE, seq![flag::DATA_ENTRY_INCRY_INCRX]);
    let i6 = command_with_data_script(command::BORDER_WAVEFORM_CONTROL, seq![0x05u8]);
    let i7 = command_with_data_script(command::DISPLAY_UPDATE_CONTROL, seq![0x00u8, 0x80u8]);
    let i8 = command_with_data_script(command::TEMP_CONTROL, seq![flag::INTERNAL_TEMP_SENSOR]);
    let i9 = full_frame_script(width, height);
    let i10 = seq![act(ActionView::WaitUntilIdle)];
    lemma_never_sends_basics(command::SW_RESET, seq![], red);
    lemma_never_sends_basics(command::DRIVER_CONTROL, seq![byte_of(height - 1), byte_of((height - 1) / 256), 0x00u8], red);
    lemma_never_sends_basics(command::DATA_ENTRY_MODE, seq![flag::DATA_ENTRY_INCRY_INCRX], red);
    lemma_never_sends_basics(command::BORDER_WAVEFORM_CONTROL, seq![0x05u8], red);
    lemma_never_sends_basics(command::DISPLAY_UPDATE_CONTROL, seq![0x00u8, 0x80u8], red);
    lemma_never_sends_basics(command::TEMP_CONTROL, seq![flag::INTERNAL_TEMP_SENSOR], red);
    lemma_never_sends_concat(i1, i2, cx);
    lemma_never_sends_concat(i1 + i2, i3, cx);
    lemma_never_sends_concat(i1 + i2 + i3, i4, cx);
    lemma_never_sends_concat(i1 + i2 + i3 + i4, i5, cx);
    lemma_never_sends_concat(i1 + i2 + i3 + i4 + i5, i6, cx);
    lemma_never_sends_concat(i1 + i2 + i3 + i4 + i5 + i6, i7, cx);
    lemma_never_sends_concat(i1 + i2 + i3 + i4 + i5 + i6 + i7, i8, cx);
    lemma_never_sends_concat(i1 + i2 + i3 + i4 + i5 + i6 + i7 + i8, i9, cx);
    lemma_never_sends_concat(i1 + i2 + i3 + i4 + i5 + i6 + i7 + i8 + i9, i10, cx);
    // the B/W write
    lemma_never_sends_basics(command::WRITE_BW_DATA, buffer, red);
    lemma_never_sends_concat(i9, command_with_data_script(command::WRITE_BW_DATA, buffer), cx);
    lemma_never_sends_concat(s1, s2, cx);
    lemma_never_sends_concat(s1 + s2, s3, cx);
    lemma_never_sends_concat(s1 + s2 + s3, s4, cx);
    let before = actions_of(s1 + s2 + s3 + s4);
    lemma_actions_of_concat(s1 + s2 + s3 + s4 + s5, s6);
    lemma_actions_of_concat(s1 + s2 + s3 + s4, s5);
    lemma_refresh_actions(true);
    assert(actions_of(bw_full_update_script(width, height, buffer)) == before + full_refresh_actions() + actions_of(s6));
    // the red write
    lemma_actions_command_with_data(red, buffer);
    lemma_actions_of_concat(i9, command_with_data_script(red, buffer));
}

/// Once a full refresh has been noted, no step clears that note: neither handing out
/// the next action nor passing a whole procedure ever resets `initial_full_refresh_done`.
/// (Loading a procedure and ending one with an error keep the flags as they are; only
/// `new` starts with the note cleared.)
pub proof fn lemma_full_refresh_done_is_never_cleared(f: RefreshFlags, q: Seq<StepView>)
    requires
        f.initial_full_refresh_done,
    ensures
        next_ok(f, q).0.initial_full_refresh_done,
        flags_after(f, q).initial_full_refresh_done,
    decreases q.len(),
{
    if q.len() > 0 {
        lemma_full_refresh_done_is_never_cleared(note(f, q[0]), q.drop_first());
    }
}

/// Once a full refresh has been done, a fast refresh sends neither the full-refresh
/// waveform (0xF7) nor the border command of the full refresh.
pub proof fn lemma_fast_refresh_after_full_refresh(f: RefreshFlags)
    requires
        f.initial_full_refresh_done,
    ensures
        !actions_of(fast_refresh_script(f.initial_full_refresh_done)).contains(
            ActionView::Data(seq![flag::DISPLAY_MODE_1]),
        ),
        !actions_of(fast_refresh_script(f.initial_full_refresh_done)).contains(
            ActionView::Command(command::BORDER_WAVEFORM_CONTROL),
        ),
{
    lemma_fast_refresh_waveform(true);
    lemma_refresh_actions(true);
    let acts = actions_of(fast_refresh_script(true));
    let border = ActionView::Command(command::BORDER_WAVEFORM_CONTROL);
    assert forall|i: int| 0 <= i < acts.len() implies acts[i] != border by {}
}

/// Addressing a rectangle sets the RAM window from its first to its last (inclusive)
/// column and row, then puts the address counters at its first column and row.
pub proof fn lemma_partial_frame_is_window_then_counter(x: int, y: int, width: int, height: int)
    ensures
        partial_frame_script(x, y, width, height) == set_ram_area_script(x, y, x + width - 1, y + height - 1)
            + set_ram_counter_script(x, y),
{
}

/// Addressing the whole panel is addressing the rectangle at (0, 0) of the panel's size.
pub proof fn lemma_full_frame_is_whole_panel(width: int, height: int)
    ensures
        full_frame_script(width, height) == partial_frame_script(0, 0, width, height),
        full_frame_script(width, height).len() == 12,
{
    assert(full_frame_script(width, height).len() == 12);
}

/// A write to the red RAM takes the same steps as the same write to the B/W RAM, but for
/// the one RAM-select command, 0x26 in place of 0x24; neither touches the flags.
pub proof fn lemma_red_write_mirrors_bw_write(
    f: RefreshFlags,
    buffer: Seq<u8>,
    x: int,
    y: int,
    width: int,
    height: int,
)
    ensures
        ({
            let bw = write_buffer_script(command::WRITE_BW_DATA, width, height, buffer);
            let red = write_buffer_script(command::WRITE_RED_DATA, width, height, buffer);
            &&& bw.len() == red.len()
            &&& bw[12] == act(ActionView::Command(command::WRITE_BW_DATA))
            &&& red == bw.update(12, act(ActionView::Command(command::WRITE_RED_DATA)))
            &&& flags_after(f, bw) == f
            &&& flags_after(f, red) == f
        }),
        ({
            let bw = write_partial_buffer_script(command::WRITE_BW_DATA, buffer, x, y, width, height);
            let red = write_partial_buffer_script(command::WRITE_RED_DATA, buffer, x, y, width, height);
            &&& bw.len() == red.len()
            &&& bw[12] == act(ActionView::Command(command::WRITE_BW_DATA))
            &&& red == bw.update(12, act(ActionView::Command(command::WRITE_RED_DATA)))
            &&& flags_after(f, bw) == f
            &&& flags_after(f, red) == f
        }),
{
    let bw = write_buffer_script(command::WRITE_BW_DATA, width, height, buffer);
    let red = write_buffer_script(command::WRITE_RED_DATA, width, height, buffer);
    assert(red =~= bw.update(12, act(ActionView::Command(command::WRITE_RED_DATA))));
    let pbw = write_partial_buffer_script(command::WRITE_BW_DATA, buffer, x, y, width, height);
    let pred = write_partial_buffer_script(command::WRITE_RED_DATA, buffer, x, y, width, height);
    assert(pred =~= pbw.update(12, act(ActionView::Command(command::WRITE_RED_DATA))));
    lemma_performs_only_writes(command::WRITE_BW_DATA, buffer, x, y, width, height);
    lemma_performs_only_writes(command::WRITE_RED_DATA, buffer, x, y, width, height);
    lemma_flags_unchanged(f, bw);
    lemma_flags_unchanged(f, red);
    lemma_flags_unchanged(f, pbw);
    lemma_flags_unchanged(f, pred);
}

/// Clearing the red RAM takes the same steps as clearing the B/W RAM, but for the
/// RAM-select command (0x26 in place of 0x24) and the fill byte; the count of bytes,
/// `width / 8 * height`, is the same.
pub proof fn lemma_red_clear_mirrors_bw_clear(bw_byte: u8, red_byte: u8, width: int, height: int)
    ensures
        ({
            let bw = clear_buffer_script(command::WRITE_BW_DATA, bw_byte, width, height);
            let red = clear_buffer_script(command::WRITE_RED_DATA, red_byte, width, height);
            &&& bw.len() == red.len() == 14
            &&& bw[12] == act(ActionView::Command(command::WRITE_BW_DATA))
            &&& bw[13] == act(ActionView::Repeated(bw_byte, (width / 8 * height) as u32))
            &&& red == bw.update(12, act(ActionView::Command(command::WRITE_RED_DATA))).update(
                13,
                act(ActionView::Repeated(red_byte, (width / 8 * height) as u32)),
            )
        }),
{
    let bw = clear_buffer_script(command::WRITE_BW_DATA, bw_byte, width, height);
    let red = clear_buffer_script(command::WRITE_RED_DATA, red_byte, width, height);
    assert(red =~= bw.update(12, act(ActionView::Command(command::WRITE_RED_DATA))).update(
        13,
        act(ActionView::Repeated(red_byte, (width / 8 * height) as u32)),
    ));
}

// ---------------------------------------------------------------------------------------
// What each update sends, written out with the panel's command and parameter bytes.

/// A command, its data, then a wait for the panel, as the interface sees them.
pub open spec fn cd(c: u8, d: Seq<u8>) -> Seq<ActionView> {
    seq![ActionView::Command(c), ActionView::Data(d), ActionView::WaitUntilIdle]
}

/// The low byte of a 16-bit value.
pub open spec fn lo(v: int) -> u8 {
    (v % 256) as u8
}

/// The high byte of a 16-bit value.
pub open spec fn hi(v: int) -> u8 {
    ((v / 256) % 256) as u8
}

/// The data bytes of a data action (empty for any other action).
pub open spec fn data_of(a: ActionView) -> Seq<u8> {
    match a {
        ActionView::Data(d) => d,
        _ => Seq::empty(),
    }
}

/// A hardware reset as the pins and the delay see it.
pub open spec fn reset_actions() -> Seq<ActionView> {
    seq![ActionView::ResetLow, ActionView::DelayMs(50), ActionView::ResetHigh, ActionView::DelayMs(50)]
}

/// Addressing the rectangle at (`x`, `y`) of `w` x `h` pixels: RAM window X (0x44) in
/// 8-pixel units and Y (0x45) as low/high byte pairs, then the X (0x4E) and Y (0x4F)
/// address counters at the window's first column and row.
pub open spec fn window_actions(x: int, y: int, w: int, h: int) -> Seq<ActionView> {
    (cd(0x44u8, seq![lo(x / 8), lo((x + w - 1) / 8)]) + cd(
        0x45u8,
        seq![lo(y), hi(y), lo(y + h - 1), hi(y + h - 1)],
    )) + (cd(0x4Eu8, seq![lo(x / 8)]) + cd(0x4Fu8, seq![lo(y), hi(y)]))
}

/// `init()` on a panel of `w` x `h` pixels.
pub open spec fn init_actions(w: int, h: int) -> Seq<ActionView> {
    reset_actions() + seq![ActionView::Command(0x12u8)] + seq![ActionView::DelayMs(10), ActionView::WaitUntilIdle]
        + cd(0x01u8, seq![lo(h - 1), hi(h - 1), 0x00u8]) + cd(0x11u8, seq![0x03u8]) + cd(0x3Cu8, seq![0x05u8])
        + cd(0x21u8, seq![0x00u8, 0x80u8]) + cd(0x18u8, seq![0x80u8]) + window_actions(0, 0, w, h) + seq![
        ActionView::WaitUntilIdle,
    ]
}

/// The refresh inside a fast update: a full refresh first when none was done, then the
/// fast refresh.
pub open spec fn fast_refresh_actions(done: bool) -> Seq<ActionView> {
    if done {
        fast_refresh_tail_actions()
    } else {
        full_refresh_actions() + fast_refresh_tail_actions()
    }
}

proof fn lemma_actions_pair(a: ActionView, b: ActionView)
    ensures
        actions_of(seq![act(a), act(b)]) == seq![a, b],
{
    lemma_actions_singletons(a);
    lemma_actions_singletons(b);
    lemma_actions_of_concat(seq![act(a)], seq![act(b)]);
    assert(seq![act(a)] + seq![act(b)] =~= seq![act(a), act(b)]);
    assert(seq![a] + seq![b] =~= seq![a, b]);
}

/// A hardware reset drives the reset pin low for 50 ms, then high, then pauses 50 ms.
pub proof fn lemma_actions_reset()
    ensures
        actions_of(hw_reset_script()) == reset_actions(),
{
    let r0 = seq![act(ActionView::ResetLow)];
    let r1 = seq![act(ActionView::DelayMs(50))];
    let r2 = seq![act(ActionView::ResetHigh)];
    lemma_actions_singletons(ActionView::ResetLow);
    lemma_actions_singletons(ActionView::DelayMs(50));
    lemma_actions_singletons(ActionView::ResetHigh);
    lemma_actions_of_concat(r0, r1);
    lemma_actions_of_concat(r0 + r1, r2);
    lemma_actions_of_concat(r0 + r1 + r2, r1);
    assert(r0 + r1 + r2 + r1 =~= hw_reset_script());
    assert(seq![ActionView::ResetLow] + seq![ActionView::DelayMs(50)] + seq![ActionView::ResetHigh] + seq![
        ActionView::DelayMs(50),
    ] =~= reset_actions());
}

proof fn lemma_actions_cd(c: u8, d: Seq<u8>)
    ensures
        actions_of(command_with_data_script(c, d)) == cd(c, d),
{
    lemma_actions_command_with_data(c, d);
}

/// Addressing a rectangle sends exactly `window_actions`.
pub proof fn lemma_window_actions(x: int, y: int, w: int, h: int)
    ensures
        actions_of(partial_frame_script(x, y, w, h)) == window_actions(x, y, w, h),
        actions_of(full_frame_script(w, h)) == window_actions(0, 0, w, h),
{
    lemma_window_actions_at(x, y, w, h);
    lemma_window_actions_at(0, 0, w, h);
}

proof fn lemma_window_actions_at(x: int, y: int, w: int, h: int)
    ensures
        actions_of(partial_frame_script(x, y, w, h)) == window_actions(x, y, w, h),
{
    let a = command_with_data_script(command::SET_RAMXPOS, seq![byte_of(x / 8), byte_of((x + w - 1) / 8)]);
    let b = command_with_data_script(
        command::SET_RAMYPOS,
        seq![byte_of(y), byte_of(y / 256), byte_of(y + h - 1), byte_of((y + h - 1) / 256)],
    );
    let c = command_with_data_script(command::SET_RAMX_COUNTER, seq![byte_of(x / 8)]);
    let d = command_with_data_script(command::SET_RAMY_COUNTER, seq![byte_of(y), byte_of(y / 256)]);
    lemma_actions_cd(command::SET_RAMXPOS, seq![byte_of(x / 8), byte_of((x + w - 1) / 8)]);
    lemma_actions_cd(
        command::SET_RAMYPOS,
        seq![byte_of(y), byte_of(y / 256), byte_of(y + h - 1), byte_of((y + h - 1) / 256)],
    );
    lemma_actions_cd(command::SET_RAMX_COUNTER, seq![byte_of(x / 8)]);
    lemma_actions_cd(command::SET_RAMY_COUNTER, seq![byte_of(y), byte_of(y / 256)]);
    lemma_actions_of_concat(a, b);
    lemma_actions_of_concat(c, d);
    lemma_actions_of_concat(a + b, c + d);
    assert(seq![byte_of(y), byte_of(y / 256)] =~= seq![lo(y), hi(y)]);
    assert(seq![byte_of(y), byte_of(y / 256), byte_of(y + h - 1), byte_of((y + h - 1) / 256)] =~= seq![
        lo(y),
        hi(y),
        lo(y + h - 1),
        hi(y + h - 1),
    ]);
    assert(seq![byte_of(x / 8), byte_of((x + w - 1) / 8)] =~= seq![lo(x / 8), lo((x + w - 1) / 8)]);
    assert(seq![byte_of(x / 8)] =~= seq![lo(x / 8)]);
}

/// Addressing a rectangle puts the panel's RAM window on exactly that rectangle and the
/// address counters on its first column and row: read back from the bytes sent, the X
/// window is columns `x / 8 ..= (x + w - 1) / 8` (in 8-pixel units), the Y window is rows
/// `y ..= y + h - 1` (low byte first), and the counters are `x / 8` and row `y`.
pub proof fn lemma_window_decodes(x: int, y: int, w: int, h: int)
    requires
        0 <= x,
        0 <= y,
        1 <= w,
        1 <= h,
        x + w - 1 < 2048,
        y + h - 1 < 65536,
    ensures
        ({
            let acts = actions_of(partial_frame_script(x, y, w, h));
            let xw = data_of(acts[1]);
            let yw = data_of(acts[4]);
            let xc = data_of(acts[7]);
            let yc = data_of(acts[10]);
            &&& acts.len() == 12
            &&& acts[0] == ActionView::Command(0x44u8) && acts[1] is Data
            &&& acts[3] == ActionView::Command(0x45u8) && acts[4] is Data
            &&& acts[6] == ActionView::Command(0x4Eu8) && acts[7] is Data
            &&& acts[9] == ActionView::Command(0x4Fu8) && acts[10] is Data
            &&& acts[2] == ActionView::WaitUntilIdle && acts[5] == ActionView::WaitUntilIdle
            &&& acts[8] == ActionView::WaitUntilIdle && acts[11] == ActionView::WaitUntilIdle
            &&& xw.len() == 2 && xw[0] == x / 8 && xw[1] == (x + w - 1) / 8
            &&& yw.len() == 4 && yw[0] + 256 * yw[1] == y && yw[2] + 256 * yw[3] == y + h - 1
            &&& xc.len() == 1 && xc[0] == x / 8
            &&& yc.len() == 2 && yc[0] + 256 * yc[1] == y
        }),
{
    lemma_window_actions(x, y, w, h);
}

/// Initialising the panel sends exactly `init_actions`.
pub proof fn lemma_init_actions(w: int, h: int)
    ensures
        actions_of(init_script(w, h)) == init_actions(w, h),
{
    let s1 = hw_reset_script();
    let s2 = command_script(command::SW_RESET);
    let s3 = seq![act(ActionView::DelayMs(10)), act(ActionView::WaitUntilIdle)];
    let d4 = seq![byte_of(h - 1), byte_of((h - 1) / 256), 0x00u8];
    let s4 = command_with_data_script(command::DRIVER_CONTROL, d4);
    let s5 = command_with_data_script(command::DATA_ENTRY_MODE, seq![flag::DATA_ENTRY_INCRY_INCRX]);
    let s6 = command_with_data_script(command::BORDER_WAVEFORM_CONTROL, seq![0x05u8]);
    let s7 = command_with_data_script(command::DISPLAY_UPDATE_CONTROL, seq![0x00u8, 0x80u8]);
    let s8 = command_with_data_script(command::TEMP_CONTROL, seq![flag::INTERNAL_TEMP_SENSOR]);
    let s9 = full_frame_script(w, h);
    let s10 = seq![act(ActionView::WaitUntilIdle)];
    lemma_actions_reset();
    lemma_actions_command(command::SW_RESET);
    lemma_actions_pair(ActionView::DelayMs(10), ActionView::WaitUntilIdle);
    lemma_actions_cd(command::DRIVER_CONTROL, d4);
    lemma_actions_cd(command::DATA_ENTRY_MODE, seq![flag::DATA_ENTRY_INCRY_INCRX]);
    lemma_actions_cd(command::BORDER_WAVEFORM_CONTROL, seq![0x05u8]);
    lemma_actions_cd(command::DISPLAY_UPDATE_CONTROL, seq![0x00u8, 0x80u8]);
    lemma_actions_cd(command::TEMP_CONTROL, seq![flag::INTERNAL_TEMP_SENSOR]);
    lemma_window_actions(0, 0, w, h);
    lemma_actions_singletons(ActionView::WaitUntilIdle);
    lemma_actions_of_concat(s1, s2);
    lemma_actions_of_concat(s1 + s2, s3);
    lemma_actions_of_concat(s1 + s2 + s3, s4);
    lemma_actions_of_concat(s1 + s2 + s3 + s4, s5);
    lemma_actions_of_concat(s1 + s2 + s3 + s4 + s5, s6);
    lemma_actions_of_concat(s1 + s2 + s3 + s4 + s5 + s6, s7);
    lemma_actions_of_concat(s1 + s2 + s3 + s4 + s5 + s6 + s7, s8);
    lemma_actions_of_concat(s1 + s2 + s3 + s4 + s5 + s6 + s7 + s8, s9);
    lemma_actions_of_concat(s1 + s2 + s3 + s4 + s5 + s6 + s7 + s8 + s9, s10);
    assert(d4 =~= seq![lo(h - 1), hi(h - 1), 0x00u8]);
}

/// A write of a buffer, whole-panel or to a rectangle, addresses the area and then sends
/// the RAM-select command followed by exactly the caller's buffer.
pub proof fn lemma_write_actions(c: u8, buffer: Seq<u8>, x: int, y: int, w: int, h: int)
    ensures
        actions_of(write_buffer_script(c, w, h, buffer)) == window_actions(0, 0, w, h) + cd(c, buffer),
        actions_of(write_partial_buffer_script(c, buffer, x, y, w, h)) == window_actions(x, y, w, h) + cd(
            c,
            buffer,
        ),
{
    lemma_window_actions(x, y, w, h);
    lemma_actions_cd(c, buffer);
    lemma_actions_of_concat(full_frame_script(w, h), command_with_data_script(c, buffer));
    lemma_actions_of_concat(partial_frame_script(x, y, w, h), command_with_data_script(c, buffer));
}

/// A full update of a black/white panel: deep sleep (command 0x10, mode 1), a 10 ms
/// pause, `init`, the caller's buffer to the B/W RAM (0x24), the full refresh, then the
/// same buffer to the red RAM (0x26), for every buffer.
pub proof fn lemma_bw_full_update_actions(w: int, h: int, buffer: Seq<u8>)
    ensures
        actions_of(bw_full_update_script(w, h, buffer)) == seq![
            ActionView::Command(0x10u8),
            ActionView::Data(seq![0x01u8]),
        ] + seq![ActionView::DelayMs(10)] + init_actions(w, h) + (window_actions(0, 0, w, h) + cd(0x24u8, buffer))
            + full_refresh_actions() + (window_actions(0, 0, w, h) + cd(0x26u8, buffer)),
{
    let s1 = sleep_script();
    let s2 = seq![act(ActionView::DelayMs(10))];
    let s3 = init_script(w, h);
    let s4 = write_buffer_script(command::WRITE_BW_DATA, w, h, buffer);
    let s5 = full_refresh_script();
    let s6 = write_buffer_script(command::WRITE_RED_DATA, w, h, buffer);
    lemma_sleep_never_waits();
    lemma_actions_singletons(ActionView::DelayMs(10));
    lemma_init_actions(w, h);
    lemma_write_actions(command::WRITE_BW_DATA, buffer, 0, 0, w, h);
    lemma_write_actions(command::WRITE_RED_DATA, buffer, 0, 0, w, h);
    lemma_refresh_actions(true);
    lemma_actions_of_concat(s1, s2);
    lemma_actions_of_concat(s1 + s2, s3);
    lemma_actions_of_concat(s1 + s2 + s3, s4);
    lemma_actions_of_concat(s1 + s2 + s3 + s4, s5);
    lemma_actions_of_concat(s1 + s2 + s3 + s4 + s5, s6);
}

/// A fast update of a black/white panel, with or without a full refresh done before: a
/// hardware reset and a wait, then the registers that the reset returned to their
/// power-on values set again (border 0x80, source bypass 0x00 0x80, internal temperature
/// sensor) whatever the flags, the caller's buffer to the B/W RAM, the refresh, and the
/// same buffer to the red RAM.
pub proof fn lemma_bw_fast_update_actions(w: int, h: int, buffer: Seq<u8>, done: bool)
    ensures
        actions_of(bw_fast_update_script(w, h, buffer, done)) == reset_actions() + seq![ActionView::WaitUntilIdle]
            + (cd(0x3Cu8, seq![0x80u8]) + cd(0x21u8, seq![0x00u8, 0x80u8]) + cd(0x18u8, seq![0x80u8])) + (
        window_actions(0, 0, w, h) + cd(0x24u8, buffer)) + fast_refresh_actions(done) + (window_actions(0, 0, w, h)
            + cd(0x26u8, buffer)),
{
    let s1 = hw_reset_script();
    let s2 = seq![act(ActionView::WaitUntilIdle)];
    let s3 = restore_registers_script();
    let s4 = write_buffer_script(command::WRITE_BW_DATA, w, h, buffer);
    let s5 = fast_refresh_script(done);
    let s6 = write_buffer_script(command::WRITE_RED_DATA, w, h, buffer);
    let r1 = command_with_data_script(command::BORDER_WAVEFORM_CONTROL, seq![0x80u8]);
    let r2 = command_with_data_script(command::DISPLAY_UPDATE_CONTROL, seq![0x00u8, 0x80u8]);
    let r3 = command_with_data_script(command::TEMP_CONTROL, seq![flag::INTERNAL_TEMP_SENSOR]);
    lemma_actions_cd(command::BORDER_WAVEFORM_CONTROL, seq![0x80u8]);
    lemma_actions_cd(command::DISPLAY_UPDATE_CONTROL, seq![0x00u8, 0x80u8]);
    lemma_actions_cd(command::TEMP_CONTROL, seq![flag::INTERNAL_TEMP_SENSOR]);
    lemma_actions_of_concat(r1, r2);
    lemma_actions_of_concat(r1 + r2, r3);
    lemma_actions_reset();
    lemma_actions_singletons(ActionView::WaitUntilIdle);
    lemma_write_actions(command::WRITE_BW_DATA, buffer, 0, 0, w, h);
    lemma_write_actions(command::WRITE_RED_DATA, buffer, 0, 0, w, h);
    lemma_refresh_actions(done);
    lemma_actions_of_concat(s1, s2);
    lemma_actions_of_concat(s1 + s2, s3);
    lemma_actions_of_concat(s1 + s2 + s3, s4);
    lemma_actions_of_concat(s1 + s2 + s3 + s4, s5);
    lemma_actions_of_concat(s1 + s2 + s3 + s4 + s5, s6);
}

/// A fast partial update of a black/white panel, with or without a full refresh done
/// before: a hardware reset and a wait, the border set floating (0x80), the caller's
/// buffer to the rectangle of the B/W RAM, the refresh, and then always the same buffer
/// to the same rectangle of the red RAM, the basemap of the next partial update.
pub proof fn lemma_bw_fast_partial_update_actions(buffer: Seq<u8>, x: int, y: int, w: int, h: int, done: bool)
    ensures
        actions_of(bw_fast_partial_update_script(buffer, x, y, w, h, done)) == reset_actions() + seq![
            ActionView::WaitUntilIdle,
        ] + cd(0x3Cu8, seq![0x80u8]) + (window_actions(x, y, w, h) + cd(0x24u8, buffer)) + fast_refresh_actions(
            done,
        ) + (window_actions(x, y, w, h) + cd(0x26u8, buffer)),
{
    let s1 = hw_reset_script();
    let s2 = seq![act(ActionView::WaitUntilIdle)];
    let s3 = command_with_data_script(command::BORDER_WAVEFORM_CONTROL, seq![0x80u8]);
    let s4 = write_partial_buffer_script(command::WRITE_BW_DATA, buffer, x, y, w, h);
    let s5 = fast_refresh_script(done);
    let s6 = write_partial_buffer_script(command::WRITE_RED_DATA, buffer, x, y, w, h);
    lemma_actions_reset();
    lemma_actions_singletons(ActionView::WaitUntilIdle);
    lemma_actions_cd(command::BORDER_WAVEFORM_CONTROL, seq![0x80u8]);
    lemma_write_actions(command::WRITE_BW_DATA, buffer, x, y, w, h);
    lemma_write_actions(command::WRITE_RED_DATA, buffer, x, y, w, h);
    lemma_refresh_actions(done);
    lemma_actions_of_concat(s1, s2);
    lemma_actions_of_concat(s1 + s2, s3);
    lemma_actions_of_concat(s1 + s2 + s3, s4);
    lemma_actions_of_concat(s1 + s2 + s3 + s4, s5);
    lemma_actions_of_concat(s1 + s2 + s3 + s4 + s5, s6);
}

/// A full update of a tri-colour panel sends the caller's red buffer, unchanged, to the
/// red RAM (0x26), then the caller's B/W buffer, unchanged, to the B/W RAM (0x24), then
/// the full refresh, for every pair of buffers.
pub proof fn lemma_tricolor_full_update_actions(w: int, h: int, bw_buffer: Seq<u8>, red_buffer: Seq<u8>)
    ensures
        actions_of(tricolor_full_update_script(w, h, bw_buffer, red_buffer)) == (window_actions(0, 0, w, h) + cd(
            0x26u8,
            red_buffer,
        )) + (window_actions(0, 0, w, h) + cd(0x24u8, bw_buffer)) + full_refresh_actions(),
        ({
            let acts = actions_of(tricolor_full_update_script(w, h, bw_buffer, red_buffer));
            &&& acts[12] == ActionView::Command(0x26u8) && acts[13] == ActionView::Data(red_buffer)
            &&& acts[27] == ActionView::Command(0x24u8) && acts[28] == ActionView::Data(bw_buffer)
        }),
{
    let s1 = write_buffer_script(command::WRITE_RED_DATA, w, h, red_buffer);
    let s2 = write_buffer_script(command::WRITE_BW_DATA, w, h, bw_buffer);
    let s3 = full_refresh_script();
    lemma_write_actions(command::WRITE_RED_DATA, red_buffer, 0, 0, w, h);
    lemma_write_actions(command::WRITE_BW_DATA, bw_buffer, 0, 0, w, h);
    lemma_refresh_actions(true);
    lemma_actions_of_concat(s1, s2);
    lemma_actions_of_concat(s1 + s2, s3);
}

/// Clearing the B/W RAM sends 0xFF (white) and clearing the red RAM sends 0x00 (no red),
/// `w / 8 * h` times each, after addressing the whole panel and selecting the RAM.
pub proof fn lemma_clear_actions(w: int, h: int)
    ensures
        actions_of(clear_buffer_script(command::WRITE_BW_DATA, color_bytes(Color::White).0, w, h))
            == window_actions(0, 0, w, h) + seq![ActionView::Command(0x24u8)] + seq![
            ActionView::Repeated(0xFFu8, (w / 8 * h) as u32),
        ],
        actions_of(clear_buffer_script(command::WRITE_RED_DATA, color_bytes(Color::White).1, w, h))
            == window_actions(0, 0, w, h) + seq![ActionView::Command(0x26u8)] + seq![
            ActionView::Repeated(0x00u8, (w / 8 * h) as u32),
        ],
{
    lemma_window_actions(0, 0, w, h);
    lemma_actions_command(command::WRITE_BW_DATA);
    lemma_actions_command(command::WRITE_RED_DATA);
    lemma_actions_singletons(ActionView::Repeated(0xFFu8, (w / 8 * h) as u32));
    lemma_actions_singletons(ActionView::Repeated(0x00u8, (w / 8 * h) as u32));
    let f = full_frame_script(w, h);
    let rb = seq![act(ActionView::Repeated(0xFFu8, (w / 8 * h) as u32))];
    let rr = seq![act(ActionView::Repeated(0x00u8, (w / 8 * h) as u32))];
    lemma_actions_of_concat(f, command_script(command::WRITE_BW_DATA));
    lemma_actions_of_concat(f + command_script(command::WRITE_BW_DATA), rb);
    lemma_actions_of_concat(f, command_script(command::WRITE_RED_DATA));
    lemma_actions_of_concat(f + command_script(command::WRITE_RED_DATA), rr);
}

} // verus!
