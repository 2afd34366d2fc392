//! The procedures of the driver, each as the exact sequence of steps that it takes,
//! and the functions that build those sequences.
use std::collections::VecDeque;
use vstd::prelude::*;

use crate::color::{color_bytes, Color, ColorType};
use crate::command;
use crate::flag;
use crate::steps::{steps_view, Action, ActionView, Step, StepView};

verus! {

/// Pause that each edge of a hardware reset is held for, in milliseconds.
pub const RESET_DELAY_MS: u32 = 50;

/// The low byte of `v`, as the panel takes it.
pub open spec fn byte_of(v: int) -> u8 {
    (v % 256) as u8
}

pub open spec fn act(a: ActionView) -> StepView {
    StepView::Perform(a)
}

/// `command()`: one command byte.
pub open spec fn command_script(c: u8) -> Seq<StepView> {
    seq![act(ActionView::Command(c))]
}

/// `data()`: data bytes, then wait for the panel to become idle.
pub open spec fn data_script(d: Seq<u8>) -> Seq<StepView> {
    seq![act(ActionView::Data(d)), act(ActionView::WaitUntilIdle)]
}

/// `command_with_data()`: a command, its data, then wait for the panel to become idle.
pub open spec fn command_with_data_script(c: u8, d: Seq<u8>) -> Seq<StepView> {
    command_script(c) + data_script(d)
}

/// Hardware reset: reset low, pause, reset high, pause.
pub open spec fn hw_reset_script() -> Seq<StepView> {
    seq![
        act(ActionView::ResetLow),
        act(ActionView::DelayMs(RESET_DELAY_MS)),
        act(ActionView::ResetHigh),
        act(ActionView::DelayMs(RESET_DELAY_MS)),
    ]
}

/// Set the RAM window: X in units of 8 pixels, Y as two little-endian bytes.
pub open spec fn set_ram_area_script(start_x: int, start_y: int, end_x: int, end_y: int) -> Seq<StepView> {
    command_with_data_script(command::SET_RAMXPOS, seq![byte_of(start_x / 8), byte_of(end_x / 8)])
        + command_with_data_script(
        command::SET_RAMYPOS,
        seq![byte_of(start_y), byte_of(start_y / 256), byte_of(end_y), byte_of(end_y / 256)],
    )
}

/// Set the RAM address counters.
pub open spec fn set_ram_counter_script(x: int, y: int) -> Seq<StepView> {
    command_with_data_script(command::SET_RAMX_COUNTER, seq![byte_of(x / 8)])
        + command_with_data_script(command::SET_RAMY_COUNTER, seq![byte_of(y), byte_of(y / 256)])
}

/// Address the `width` x `height` rectangle at (`x`, `y`).
pub open spec fn partial_frame_script(x: int, y: int, width: int, height: int) -> Seq<StepView> {
    set_ram_area_script(x, y, x + width - 1, y + height - 1) + set_ram_counter_script(x, y)
}

/// Address the whole panel.
pub open spec fn full_frame_script(width: int, height: int) -> Seq<StepView> {
    partial_frame_script(0, 0, width, height)
}

/// `init()`.
pub open spec fn init_script(width: int, height: int) -> Seq<StepView> {
    hw_reset_script()
        + command_script(command::SW_RESET)
        + seq![act(ActionView::DelayMs(10)), act(ActionView::WaitUntilIdle)]
        + command_with_data_script(command::DRIVER_CONTROL, seq![byte_of(height - 1), byte_of((height - 1) / 256), 0x00u8])
        + command_with_data_script(command::DATA_ENTRY_MODE, seq![flag::DATA_ENTRY_INCRY_INCRX])
        + command_with_data_script(command::BORDER_WAVEFORM_CONTROL, seq![0x05u8])
        + command_with_data_script(command::DISPLAY_UPDATE_CONTROL, seq![0x00u8, 0x80u8])
        + command_with_data_script(command::TEMP_CONTROL, seq![flag::INTERNAL_TEMP_SENSOR])
        + full_frame_script(width, height)
        + seq![act(ActionView::WaitUntilIdle)]
}

/// Write `buffer` to the RAM that `ram_command` selects, over the whole panel.
pub open spec fn write_buffer_script(ram_command: u8, width: int, height: int, buffer: Seq<u8>) -> Seq<StepView> {
    full_frame_script(width, height) + command_with_data_script(ram_command, buffer)
}

/// Write `buffer` to the RAM that `ram_command` selects, over the given rectangle.
pub open spec fn write_partial_buffer_script(
    ram_command: u8,
    buffer: Seq<u8>,
    x: int,
    y: int,
    width: int,
    height: int,
) -> Seq<StepView> {
    partial_frame_script(x, y, width, height) + command_with_data_script(ram_command, buffer)
}

/// Fill the RAM that `ram_command` selects with `byte`, over the whole panel.
pub open spec fn clear_buffer_script(ram_command: u8, byte: u8, width: int, height: int) -> Seq<StepView> {
    full_frame_script(width, height) + command_script(ram_command) + seq![
        act(ActionView::Repeated(byte, (width / 8 * height) as u32)),
    ]
}

/// `full_refresh()`.
pub open spec fn full_refresh_script() -> Seq<StepView> {
    seq![StepView::NoteFullRefresh]
        + command_with_data_script(command::BORDER_WAVEFORM_CONTROL, seq![0x05u8])
        + command_with_data_script(command::UPDATE_DISPLAY_CTRL2, seq![flag::DISPLAY_MODE_1])
        + command_script(command::MASTER_ACTIVATE)
        + seq![act(ActionView::WaitUntilIdle)]
}

/// `sleep()`: the command and its parameter, with no wait on the busy pin.
pub open spec fn sleep_script() -> Seq<StepView> {
    seq![
        act(ActionView::Command(command::DEEP_SLEEP)),
        act(ActionView::Data(seq![flag::DEEP_SLEEP_MODE_1])),
    ]
}

/// `fast_refresh()`, given whether the initial full refresh was done.
pub open spec fn fast_refresh_script(initial_full_refresh_done: bool) -> Seq<StepView> {
    (if initial_full_refresh_done { Seq::empty() } else { full_refresh_script() })
        + seq![StepView::NotePartialMode]
        + command_with_data_script(command::UPDATE_DISPLAY_CTRL2, seq![flag::DISPLAY_MODE_2])
        + command_script(command::MASTER_ACTIVATE)
        + seq![act(ActionView::WaitUntilIdle)]
}

/// `full_update_from_buffer()` of a black/white panel.
pub open spec fn bw_full_update_script(width: int, height: int, buffer: Seq<u8>) -> Seq<StepView> {
    sleep_script()
        + seq![act(ActionView::DelayMs(10))]
        + init_script(width, height)
        + write_buffer_script(command::WRITE_BW_DATA, width, height, buffer)
        + full_refresh_script()
        + write_buffer_script(command::WRITE_RED_DATA, width, height, buffer)
}

/// The registers that a hardware reset returns to their power-on values, set again
/// after the reset that starts a fast update.
pub open spec fn restore_registers_script() -> Seq<StepView> {
    command_with_data_script(command::BORDER_WAVEFORM_CONTROL, seq![0x80u8])
        + command_with_data_script(command::DISPLAY_UPDATE_CONTROL, seq![0x00u8, 0x80u8])
        + command_with_data_script(command::TEMP_CONTROL, seq![flag::INTERNAL_TEMP_SENSOR])
}

/// `fast_update_from_buffer()` of a black/white panel.
pub open spec fn bw_fast_update_script(
    width: int,
    height: int,
    buffer: Seq<u8>,
    initial_full_refresh_done: bool,
) -> Seq<StepView> {
    hw_reset_script()
        + seq![act(ActionView::WaitUntilIdle)]
        + restore_registers_script()
        + write_buffer_script(command::WRITE_BW_DATA, width, height, buffer)
        + fast_refresh_script(initial_full_refresh_done)
        + write_buffer_script(command::WRITE_RED_DATA, width, height, buffer)
}

/// `fast_partial_update_from_buffer()` of a black/white panel.
pub open spec fn bw_fast_partial_update_script(
    buffer: Seq<u8>,
    x: int,
    y: int,
    width: int,
    height: int,
    initial_full_refresh_done: bool,
) -> Seq<StepView> {
    hw_reset_script()
        + seq![act(ActionView::WaitUntilIdle)]
        + command_with_data_script(command::BORDER_WAVEFORM_CONTROL, seq![0x80u8])
        + write_partial_buffer_script(command::WRITE_BW_DATA, buffer, x, y, width, height)
        + fast_refresh_script(initial_full_refresh_done)
        + write_partial_buffer_script(command::WRITE_RED_DATA, buffer, x, y, width, height)
}

/// `full_update_from_buffer()` of a tri-colour panel.
pub open spec fn tricolor_full_update_script(
    width: int,
    height: int,
    bw_buffer: Seq<u8>,
    red_buffer: Seq<u8>,
) -> Seq<StepView> {
    write_buffer_script(command::WRITE_RED_DATA, width, height, red_buffer)
        + write_buffer_script(command::WRITE_BW_DATA, width, height, bw_buffer)
        + full_refresh_script()
}

// ---------------------------------------------------------------------------------------
// Builders. Each appends the steps of one procedure to a queue.

/// The steps that a queue holds, in order.
pub open spec fn queued(q: VecDeque<Step>) -> Seq<StepView> {
    steps_view(q@)
}

/// An empty queue.
pub fn empty_queue() -> (q: VecDeque<Step>)
    ensures
        queued(q) == Seq::<StepView>::empty(),
{
    let q = VecDeque::new();
    assert(queued(q) =~= Seq::<StepView>::empty());
    q
}

/// Appending to nothing gives what was appended.
pub proof fn lemma_empty_prefix(s: Seq<StepView>)
    ensures
        Seq::<StepView>::empty() + s == s,
{
    assert(Seq::<StepView>::empty() + s =~= s);
}

fn push_step(q: &mut VecDeque<Step>, s: Step)
    ensures
        queued(*final(q)) == queued(*old(q)).push(s@),
{
    let ghost sv = s@;
    q.push_back(s);
    assert(queued(*q) =~= queued(*old(q)).push(sv));
}

fn push_action(q: &mut VecDeque<Step>, a: Action)
    ensures
        queued(*final(q)) == queued(*old(q)).push(act(a@)),
{
    push_step(q, Step::Perform(a));
}

fn push_command(q: &mut VecDeque<Step>, c: u8)
    ensures
        queued(*final(q)) == queued(*old(q)) + command_script(c),
{
    push_action(q, Action::SendCommand(c));
    assert(queued(*q) =~= queued(*old(q)) + command_script(c));
}

fn push_data(q: &mut VecDeque<Step>, d: Vec<u8>)
    ensures
        queued(*final(q)) == queued(*old(q)) + data_script(d@),
{
    let ghost dv = d@;
    push_action(q, Action::SendData(d));
    push_action(q, Action::WaitUntilIdle);
    assert(queued(*q) =~= queued(*old(q)) + data_script(dv));
}

fn push_command_with_data(q: &mut VecDeque<Step>, c: u8, d: Vec<u8>)
    ensures
        queued(*final(q)) == queued(*old(q)) + command_with_data_script(c, d@),
{
    let ghost dv = d@;
    push_command(q, c);
    push_data(q, d);
    assert(queued(*q) =~= queued(*old(q)) + command_with_data_script(c, dv));
}

/// A one-byte data payload.
fn single_byte(b: u8) -> (v: Vec<u8>)
    ensures
        v@ == seq![b],
{
    let mut v = Vec::new();
    v.push(b);
    v
}

fn low_byte(v: u32) -> (b: u8)
    ensures
        b == byte_of(v as int),
{
    (v % 256) as u8
}

pub fn push_hw_reset(q: &mut VecDeque<Step>)
    ensures
        queued(*final(q)) == queued(*old(q)) + hw_reset_script(),
{
    push_action(q, Action::ResetLow);
    push_action(q, Action::DelayMs(RESET_DELAY_MS));
    push_action(q, Action::ResetHigh);
    push_action(q, Action::DelayMs(RESET_DELAY_MS));
    assert(queued(*q) =~= queued(*old(q)) + hw_reset_script());
}

fn push_set_ram_area(q: &mut VecDeque<Step>, start_x: u32, start_y: u32, end_x: u32, end_y: u32)
    requires
        start_x < end_x,
        start_y < end_y,
    ensures
        queued(*final(q)) == queued(*old(q)) + set_ram_area_script(
            start_x as int,
            start_y as int,
            end_x as int,
            end_y as int,
        ),
{
    push_command_with_data(q, command::SET_RAMXPOS, vec![low_byte(start_x / 8), low_byte(end_x / 8)]);
    push_command_with_data(
        q,
        command::SET_RAMYPOS,
        vec![low_byte(start_y), low_byte(start_y / 256), low_byte(end_y), low_byte(end_y / 256)],
    );
    assert(queued(*q) =~= queued(*old(q)) + set_ram_area_script(
        start_x as int,
        start_y as int,
        end_x as int,
        end_y as int,
    ));
}

fn push_set_ram_counter(q: &mut VecDeque<Step>, x: u32, y: u32)
    ensures
        queued(*final(q)) == queued(*old(q)) + set_ram_counter_script(x as int, y as int),
{
    push_command_with_data(q, command::SET_RAMX_COUNTER, single_byte(low_byte(x / 8)));
    push_command_with_data(q, command::SET_RAMY_COUNTER, vec![low_byte(y), low_byte(y / 256)]);
    assert(queued(*q) =~= queued(*old(q)) + set_ram_counter_script(x as int, y as int));
}

/// The rectangle at (`x`, `y`) of `width` x `height` pixels can be addressed: its last
/// column and row fit in a `u32` and the window spans at least two pixels each way.
pub open spec fn frame_ok(x: int, y: int, width: int, height: int) -> bool {
    &&& x + width <= u32::MAX
    &&& y + height <= u32::MAX
    &&& 2 <= width
    &&& 2 <= height
}

fn push_partial_frame(q: &mut VecDeque<Step>, x: u32, y: u32, width: u32, height: u32)
    requires
        frame_ok(x as int, y as int, width as int, height as int),
    ensures
        queued(*final(q)) == queued(*old(q)) + partial_frame_script(
            x as int,
            y as int,
            width as int,
            height as int,
        ),
{
    push_set_ram_area(q, x, y, x + width - 1, y + height - 1);
    push_set_ram_counter(q, x, y);
    assert(queued(*q) =~= queued(*old(q)) + partial_frame_script(
        x as int,
        y as int,
        width as int,
        height as int,
    ));
}

fn push_full_frame(q: &mut VecDeque<Step>, width: u32, height: u32)
    requires
        frame_ok(0, 0, width as int, height as int),
    ensures
        queued(*final(q)) == queued(*old(q)) + full_frame_script(width as int, height as int),
{
    push_partial_frame(q, 0, 0, width, height);
}

pub fn push_init(q: &mut VecDeque<Step>, width: u32, height: u32)
    requires
        frame_ok(0, 0, width as int, height as int),
    ensures
        queued(*final(q)) == queued(*old(q)) + init_script(width as int, height as int),
{
    push_hw_reset(q);
    push_command(q, command::SW_RESET);
    push_action(q, Action::DelayMs(10));
    push_action(q, Action::WaitUntilIdle);
    let last_row = height - 1;
    push_command_with_data(q, command::DRIVER_CONTROL, vec![low_byte(last_row), low_byte(last_row / 256), 0x00]);
    push_command_with_data(q, command::DATA_ENTRY_MODE, single_byte(flag::DATA_ENTRY_INCRY_INCRX));
    push_command_with_data(q, command::BORDER_WAVEFORM_CONTROL, single_byte(0x05));
    push_command_with_data(q, command::DISPLAY_UPDATE_CONTROL, vec![0x00, 0x80]);
    push_command_with_data(q, command::TEMP_CONTROL, single_byte(flag::INTERNAL_TEMP_SENSOR));
    push_full_frame(q, width, height);
    push_action(q, Action::WaitUntilIdle);
    assert(queued(*q) =~= queued(*old(q)) + init_script(width as int, height as int));
}

pub fn push_write_buffer(q: &mut VecDeque<Step>, ram_command: u8, width: u32, height: u32, buffer: &[u8])
    requires
        frame_ok(0, 0, width as int, height as int),
    ensures
        queued(*final(q)) == queued(*old(q)) + write_buffer_script(
            ram_command,
            width as int,
            height as int,
            buffer@,
        ),
{
    push_full_frame(q, width, height);
    push_command_with_data(q, ram_command, vstd::slice::slice_to_vec(buffer));
    assert(queued(*q) =~= queued(*old(q)) + write_buffer_script(
        ram_command,
        width as int,
        height as int,
        buffer@,
    ));
}

pub fn push_write_partial_buffer(
    q: &mut VecDeque<Step>,
    ram_command: u8,
    buffer: &[u8],
    x: u32,
    y: u32,
    width: u32,
    height: u32,
)
    requires
        frame_ok(x as int, y as int, width as int, height as int),
    ensures
        queued(*final(q)) == queued(*old(q)) + write_partial_buffer_script(
            ram_command,
            buffer@,
            x as int,
            y as int,
            width as int,
            height as int,
        ),
{
    push_partial_frame(q, x, y, width, height);
    push_command_with_data(q, ram_command, vstd::slice::slice_to_vec(buffer));
    assert(queued(*q) =~= queued(*old(q)) + write_partial_buffer_script(
        ram_command,
        buffer@,
        x as int,
        y as int,
        width as int,
        height as int,
    ));
}

/// The bytes of RAM that cover a panel, when they fit in a `u32`.
pub open spec fn frame_bytes_ok(width: int, height: int) -> bool {
    width / 8 * height <= u32::MAX
}

pub fn push_clear_buffer(q: &mut VecDeque<Step>, ram_command: u8, byte: u8, width: u32, height: u32)
    requires
        frame_ok(0, 0, width as int, height as int),
        frame_bytes_ok(width as int, height as int),
    ensures
        queued(*final(q)) == queued(*old(q)) + clear_buffer_script(
            ram_command,
            byte,
            width as int,
            height as int,
        ),
{
    push_full_frame(q, width, height);
    push_command(q, ram_command);
    push_action(q, Action::SendRepeated { byte, count: width / 8 * height });
    assert(queued(*q) =~= queued(*old(q)) + clear_buffer_script(
        ram_command,
        byte,
        width as int,
        height as int,
    ));
}

/// The byte that fills eight white pixels of the B/W RAM and of the red RAM.
pub fn white_bytes() -> (r: (u8, u8))
    ensures
        r == color_bytes(Color::White),
{
    Color::White.byte_value()
}

pub fn push_full_refresh(q: &mut VecDeque<Step>)
    ensures
        queued(*final(q)) == queued(*old(q)) + full_refresh_script(),
{
    push_step(q, Step::NoteFullRefresh);
    push_command_with_data(q, command::BORDER_WAVEFORM_CONTROL, single_byte(0x05));
    push_command_with_data(q, command::UPDATE_DISPLAY_CTRL2, single_byte(flag::DISPLAY_MODE_1));
    push_command(q, command::MASTER_ACTIVATE);
    push_action(q, Action::WaitUntilIdle);
    assert(queued(*q) =~= queued(*old(q)) + full_refresh_script());
}

pub fn push_sleep(q: &mut VecDeque<Step>)
    ensures
        queued(*final(q)) == queued(*old(q)) + sleep_script(),
{
    push_action(q, Action::SendCommand(command::DEEP_SLEEP));
    push_action(q, Action::SendData(single_byte(flag::DEEP_SLEEP_MODE_1)));
    assert(queued(*q) =~= queued(*old(q)) + sleep_script());
}

pub fn push_fast_refresh(q: &mut VecDeque<Step>, initial_full_refresh_done: bool)
    ensures
        queued(*final(q)) == queued(*old(q)) + fast_refresh_script(initial_full_refresh_done),
{
    if !initial_full_refresh_done {
        push_full_refresh(q);
    }
    let ghost mid = queued(*q);
    assert(mid =~= queued(*old(q)) + (if initial_full_refresh_done { Seq::empty() } else { full_refresh_script() }));
    push_step(q, Step::NotePartialMode);
    push_command_with_data(q, command::UPDATE_DISPLAY_CTRL2, single_byte(flag::DISPLAY_MODE_2));
    push_command(q, command::MASTER_ACTIVATE);
    push_action(q, Action::WaitUntilIdle);
    assert(queued(*q) =~= queued(*old(q)) + fast_refresh_script(initial_full_refresh_done));
}

pub fn push_bw_full_update(q: &mut VecDeque<Step>, width: u32, height: u32, buffer: &[u8])
    requires
        frame_ok(0, 0, width as int, height as int),
    ensures
        queued(*final(q)) == queued(*old(q)) + bw_full_update_script(width as int, height as int, buffer@),
{
    push_sleep(q);
    push_action(q, Action::DelayMs(10));
    push_init(q, width, height);
    push_write_buffer(q, command::WRITE_BW_DATA, width, height, buffer);
    push_full_refresh(q);
    push_write_buffer(q, command::WRITE_RED_DATA, width, height, buffer);
    assert(queued(*q) =~= queued(*old(q)) + bw_full_update_script(width as int, height as int, buffer@));
}

fn push_restore_registers(q: &mut VecDeque<Step>)
    ensures
        queued(*final(q)) == queued(*old(q)) + restore_registers_script(),
{
    push_command_with_data(q, command::BORDER_WAVEFORM_CONTROL, single_byte(0x80));
    push_command_with_data(q, command::DISPLAY_UPDATE_CONTROL, vec![0x00, 0x80]);
    push_command_with_data(q, command::TEMP_CONTROL, single_byte(flag::INTERNAL_TEMP_SENSOR));
    assert(queued(*q) =~= queued(*old(q)) + restore_registers_script());
}

pub fn push_bw_fast_update(
    q: &mut VecDeque<Step>,
    width: u32,
    height: u32,
    buffer: &[u8],
    initial_full_refresh_done: bool,
)
    requires
        frame_ok(0, 0, width as int, height as int),
    ensures
        queued(*final(q)) == queued(*old(q)) + bw_fast_update_script(
            width as int,
            height as int,
            buffer@,
            initial_full_refresh_done,
        ),
{
    push_hw_reset(q);
    push_action(q, Action::WaitUntilIdle);
    push_restore_registers(q);
    push_write_buffer(q, command::WRITE_BW_DATA, width, height, buffer);
    push_fast_refresh(q, initial_full_refresh_done);
    push_write_buffer(q, command::WRITE_RED_DATA, width, height, buffer);
    assert(queued(*q) =~= queued(*old(q)) + bw_fast_update_script(
        width as int,
        height as int,
        buffer@,
        initial_full_refresh_done,
    ));
}

pub fn push_bw_fast_partial_update(
    q: &mut VecDeque<Step>,
    buffer: &[u8],
    x: u32,
    y: u32,
    width: u32,
    height: u32,
    initial_full_refresh_done: bool,
)
    requires
        frame_ok(x as int, y as int, width as int, height as int),
    ensures
        queued(*final(q)) == queued(*old(q)) + bw_fast_partial_update_script(
            buffer@,
            x as int,
            y as int,
            width as int,
            height as int,
            initial_full_refresh_done,
        ),
{
    push_hw_reset(q);
    push_action(q, Action::WaitUntilIdle);
    push_command_with_data(q, command::BORDER_WAVEFORM_CONTROL, single_byte(0x80));
    push_write_partial_buffer(q, command::WRITE_BW_DATA, buffer, x, y, width, height);
    push_fast_refresh(q, initial_full_refresh_done);
    push_write_partial_buffer(q, command::WRITE_RED_DATA, buffer, x, y, width, height);
    assert(queued(*q) =~= queued(*old(q)) + bw_fast_partial_update_script(
        buffer@,
        x as int,
        y as int,
        width as int,
        height as int,
        initial_full_refresh_done,
    ));
}

pub fn push_tricolor_full_update(
    q: &mut VecDeque<Step>,
    width: u32,
    height: u32,
    bw_buffer: &[u8],
    red_buffer: &[u8],
)
    requires
        frame_ok(0, 0, width as int, height as int),
    ensures
        queued(*final(q)) == queued(*old(q)) + tricolor_full_update_script(
            width as int,
            height as int,
            bw_buffer@,
            red_buffer@,
        ),
{
    push_write_buffer(q, command::WRITE_RED_DATA, width, height, red_buffer);
    push_write_buffer(q, command::WRITE_BW_DATA, width, height, bw_buffer);
    push_full_refresh(q);
    assert(queued(*q) =~= queued(*old(q)) + tricolor_full_update_script(
        width as int,
        height as int,
        bw_buffer@,
        red_buffer@,
    ));
}

} // verus!
