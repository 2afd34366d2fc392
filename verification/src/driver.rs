//! The display driver: its state, the procedures it offers, and how it hands out their steps.
use core::marker::PhantomData;
use std::collections::VecDeque;
use vstd::prelude::*;

use crate::color::{color_bytes, Color, ColorType, TriColor};
use crate::command;
use crate::script::{
    bw_fast_partial_update_script, bw_fast_update_script, bw_full_update_script, clear_buffer_script,
    empty_queue, fast_refresh_script, frame_bytes_ok, frame_ok, full_refresh_script, hw_reset_script,
    init_script, lemma_empty_prefix, push_bw_fast_partial_update, push_bw_fast_update, push_bw_full_update,
    push_clear_buffer, push_fast_refresh, push_full_refresh, push_hw_reset, push_init, push_sleep,
    push_tricolor_full_update, push_write_buffer, push_write_partial_buffer, sleep_script,
    tricolor_full_update_script, white_bytes, write_buffer_script, write_partial_buffer_script,
};
use crate::steps::{next_ok, steps_view, Action, RefreshFlags, Step, StepView};
use display_interface::DisplayError;

verus! {

/// Display driver for the WeAct Studio 2.9 inch B/W display.
pub type WeActStudio290BlackWhiteDriver<DI, BSY, RST, DELAY> = DisplayDriver<DI, BSY, RST, DELAY, 128, 128, 296, Color>;

/// Display driver for the WeAct Studio 2.9 inch Tri-Color display.
pub type WeActStudio290TriColorDriver<DI, BSY, RST, DELAY> = DisplayDriver<DI, BSY, RST, DELAY, 128, 128, 296, TriColor>;

/// Display driver for the WeAct Studio 2.13 inch B/W display.
pub type WeActStudio213BlackWhiteDriver<DI, BSY, RST, DELAY> = DisplayDriver<DI, BSY, RST, DELAY, 128, 122, 250, Color>;

/// Display driver for the WeAct Studio 2.13 inch Tri-Color display.
pub type WeActStudio213TriColorDriver<DI, BSY, RST, DELAY> = DisplayDriver<DI, BSY, RST, DELAY, 128, 122, 250, TriColor>;

/// What the driver asks of its caller after an [`DisplayDriver::advance`].
#[derive(Debug)]
pub enum Next {
    /// Do this piece of outside work, then advance again with its outcome.
    Perform(Action),
    /// The procedure is over, with this result.
    Finished(Result<(), DisplayError>),
}

/// The main driver struct. Use one of the display-specific type aliases instead.
///
/// The driver does no I/O itself. Each procedure (such as [`Self::init`]) loads the
/// steps it takes; the caller then calls [`Self::advance`] in a loop, performs each
/// [`Action`] it is handed with the peripherals from [`Self::parts_mut`], and passes
/// the outcome back, until the driver reports that the procedure is finished.
pub struct DisplayDriver<DI, BSY, RST, DELAY, const WIDTH: u32, const VISIBLE_WIDTH: u32, const HEIGHT: u32, C> {
    _color: PhantomData<C>,
    interface: DI,
    busy: BSY,
    reset: RST,
    delay: DELAY,
    using_partial_mode: bool,
    initial_full_refresh_done: bool,
    pending: VecDeque<Step>,
}

impl<DI, BSY, RST, DELAY, const WIDTH: u32, const VISIBLE_WIDTH: u32, const HEIGHT: u32, C: ColorType>
    DisplayDriver<DI, BSY, RST, DELAY, WIDTH, VISIBLE_WIDTH, HEIGHT, C> {
    /// The display interface.
    pub closed spec fn interface(&self) -> DI {
        self.interface
    }

    /// The busy pin.
    pub closed spec fn busy(&self) -> BSY {
        self.busy
    }

    /// The reset pin.
    pub closed spec fn reset(&self) -> RST {
        self.reset
    }

    /// The delay source.
    pub closed spec fn delay(&self) -> DELAY {
        self.delay
    }

    /// The refresh bookkeeping.
    pub closed spec fn flags(&self) -> RefreshFlags {
        RefreshFlags {
            using_partial_mode: self.using_partial_mode,
            initial_full_refresh_done: self.initial_full_refresh_done,
        }
    }

    /// The steps of the current procedure that are still to come.
    pub closed spec fn pending(&self) -> Seq<StepView> {
        steps_view(self.pending@)
    }

    /// `self` holds the same peripherals as `other`.
    pub open spec fn same_parts(&self, other: &Self) -> bool {
        &&& self.interface() == other.interface()
        &&& self.busy() == other.busy()
        &&& self.reset() == other.reset()
        &&& self.delay() == other.delay()
    }

    /// `self` is `prev` with the procedure `script` loaded in place of whatever was pending.
    pub open spec fn loaded(&self, prev: &Self, script: Seq<StepView>) -> bool {
        &&& self.same_parts(prev)
        &&& self.flags() == prev.flags()
        &&& self.pending() == script
    }

    /// The panel dimensions allow addressing the whole frame.
    pub open spec fn dims_ok() -> bool {
        frame_ok(0, 0, WIDTH as int, HEIGHT as int)
    }

    /// Create a new display driver. Call [`Self::init`] before use.
    pub fn new(interface: DI, busy: BSY, reset: RST, delay: DELAY) -> (r: Self)
        ensures
            r.interface() == interface,
            r.busy() == busy,
            r.reset() == reset,
            r.delay() == delay,
            !r.flags().using_partial_mode,
            !r.flags().initial_full_refresh_done,
            r.pending() == Seq::<StepView>::empty(),
    {
        let r = Self {
            _color: PhantomData,
            interface,
            busy,
            reset,
            delay,
            using_partial_mode: false,
            initial_full_refresh_done: false,
            pending: VecDeque::new(),
        };
        assert(r.pending() =~= Seq::<StepView>::empty());
        r
    }

    /// The four peripherals, for performing the actions that [`Self::advance`] hands out.
    pub fn parts_mut(&mut self) -> (r: (&mut DI, &mut BSY, &mut RST, &mut DELAY))
        ensures
            *r.0 == old(self).interface(),
            *r.1 == old(self).busy(),
            *r.2 == old(self).reset(),
            *r.3 == old(self).delay(),
            final(self).interface() == *final(r.0),
            final(self).busy() == *final(r.1),
            final(self).reset() == *final(r.2),
            final(self).delay() == *final(r.3),
            final(self).flags() == old(self).flags(),
            final(self).pending() == old(self).pending(),
    {
        (&mut self.interface, &mut self.busy, &mut self.reset, &mut self.delay)
    }

    /// Whether the last refresh left the panel in partial (differential) mode.
    pub fn using_partial_mode(&self) -> (r: bool)
        ensures
            r == self.flags().using_partial_mode,
    {
        self.using_partial_mode
    }

    /// Whether a full refresh has been started since the driver was created.
    pub fn initial_full_refresh_done(&self) -> (r: bool)
        ensures
            r == self.flags().initial_full_refresh_done,
    {
        self.initial_full_refresh_done
    }

    /// Whether no step of a procedure is pending.
    pub fn is_idle(&self) -> (r: bool)
        ensures
            r == (self.pending().len() == 0),
    {
        self.pending.len() == 0
    }

    fn load(&mut self, q: VecDeque<Step>)
        ensures
            final(self).loaded(old(self), steps_view(q@)),
    {
        self.pending = q;
    }

    /// Hand out the next piece of outside work of the current procedure.
    ///
    /// `outcome` is the result of the action handed out last (`Ok(())` when starting,
    /// and after actions that cannot fail). An error ends the procedure with that error
    /// and drops its remaining steps; otherwise the driver passes the bookkeeping steps
    /// up to the next action and hands that out, or reports success when none is left.
    pub fn advance(&mut self, outcome: Result<(), DisplayError>) -> (next: Next)
        ensures
            final(self).same_parts(old(self)),
            match outcome {
                Err(e) => {
                    &&& next == Next::Finished(Err(e))
                    &&& final(self).pending() == Seq::<StepView>::empty()
                    &&& final(self).flags() == old(self).flags()
                },
                Ok(_) => {
                    let r = next_ok(old(self).flags(), old(self).pending());
                    &&& final(self).flags() == r.0
                    &&& final(self).pending() == r.1
                    &&& match r.2 {
                        Some(a) => next matches Next::Perform(b) && b@ == a,
                        None => next == Next::Finished(Ok(())),
                    }
                },
            },
    {
        match outcome {
            Err(e) => {
                self.pending.clear();
                assert(self.pending() =~= Seq::<StepView>::empty());
                Next::Finished(Err(e))
            },
            Ok(()) => {
                let ghost target = next_ok(self.flags(), self.pending());
                loop
                    invariant
                        self.same_parts(old(self)),
                        outcome is Ok,
                        target == next_ok(old(self).flags(), old(self).pending()),
                        next_ok(self.flags(), self.pending()) == target,
                    decreases self.pending@.len(),
                {
                    let ghost before = self.pending@;
                    match self.pending.pop_front() {
                        None => {
                            return Next::Finished(Ok(()));
                        },
                        Some(step) => {
                            assert(steps_view(self.pending@) =~= steps_view(before).drop_first());
                            match step {
                                Step::Perform(a) => {
                                    return Next::Perform(a);
                                },
                                Step::NoteFullRefresh => {
                                    self.initial_full_refresh_done = true;
                                    self.using_partial_mode = false;
                                },
                                Step::NotePartialMode => {
                                    self.using_partial_mode = true;
                                },
                            }
                        },
                    }
                }
            },
        }
    }
    /// Initialize the display.
    pub fn init(&mut self)
        requires
            Self::dims_ok(),
        ensures
            final(self).loaded(old(self), init_script(WIDTH as int, HEIGHT as int)),
    {
        let mut q = empty_queue();
        push_init(&mut q, WIDTH, HEIGHT);
        proof { lemma_empty_prefix(init_script(WIDTH as int, HEIGHT as int)); }
        self.load(q);
    }

    /// Perform a hardware reset.
    pub fn hw_reset(&mut self)
        ensures
            final(self).loaded(old(self), hw_reset_script()),
    {
        let mut q = empty_queue();
        push_hw_reset(&mut q);
        proof { lemma_empty_prefix(hw_reset_script()); }
        self.load(q);
    }

    /// Write to the B/W buffer (DTM1, 0x24).
    pub fn write_bw_buffer(&mut self, buffer: &[u8])
        requires
            Self::dims_ok(),
        ensures
            final(self).loaded(
                old(self),
                write_buffer_script(command::WRITE_BW_DATA, WIDTH as int, HEIGHT as int, buffer@),
            ),
    {
        let mut q = empty_queue();
        push_write_buffer(&mut q, command::WRITE_BW_DATA, WIDTH, HEIGHT, buffer);
        proof { lemma_empty_prefix(write_buffer_script(command::WRITE_BW_DATA, WIDTH as int, HEIGHT as int, buffer@)); }
        self.load(q);
    }

    /// Write to the red buffer (DTM2, 0x26). On B/W displays this is the differential reference.
    pub fn write_red_buffer(&mut self, buffer: &[u8])
        requires
            Self::dims_ok(),
        ensures
            final(self).loaded(
                old(self),
                write_buffer_script(command::WRITE_RED_DATA, WIDTH as int, HEIGHT as int, buffer@),
            ),
    {
        let mut q = empty_queue();
        push_write_buffer(&mut q, command::WRITE_RED_DATA, WIDTH, HEIGHT, buffer);
        proof { lemma_empty_prefix(write_buffer_script(command::WRITE_RED_DATA, WIDTH as int, HEIGHT as int, buffer@)); }
        self.load(q);
    }

    /// Write to the B/W buffer at the given position. `x` and `width` must be multiples of 8.
    pub fn write_partial_bw_buffer(&mut self, buffer: &[u8], x: u32, y: u32, width: u32, height: u32)
        requires
            frame_ok(x as int, y as int, width as int, height as int),
        ensures
            final(self).loaded(
                old(self),
                write_partial_buffer_script(command::WRITE_BW_DATA, buffer@, x as int, y as int, width as int, height as int),
            ),
    {
        let mut q = empty_queue();
        push_write_partial_buffer(&mut q, command::WRITE_BW_DATA, buffer, x, y, width, height);
        proof { lemma_empty_prefix(write_partial_buffer_script(command::WRITE_BW_DATA, buffer@, x as int, y as int, width as int, height as int)); }
        self.load(q);
    }

    /// Write to the red buffer at the given position. `x` and `width` must be multiples of 8.
    pub fn write_partial_red_buffer(&mut self, buffer: &[u8], x: u32, y: u32, width: u32, height: u32)
        requires
            frame_ok(x as int, y as int, width as int, height as int),
        ensures
            final(self).loaded(
                old(self),
                write_partial_buffer_script(command::WRITE_RED_DATA, buffer@, x as int, y as int, width as int, height as int),
            ),
    {
        let mut q = empty_queue();
        push_write_partial_buffer(&mut q, command::WRITE_RED_DATA, buffer, x, y, width, height);
        proof { lemma_empty_prefix(write_partial_buffer_script(command::WRITE_RED_DATA, buffer@, x as int, y as int, width as int, height as int)); }
        self.load(q);
    }

    /// Fill the B/W buffer with white.
    pub fn clear_bw_buffer(&mut self)
        requires
            Self::dims_ok(),
            frame_bytes_ok(WIDTH as int, HEIGHT as int),
        ensures
            final(self).loaded(
                old(self),
                clear_buffer_script(command::WRITE_BW_DATA, color_bytes(Color::White).0, WIDTH as int, HEIGHT as int),
            ),
    {
        let color = white_bytes().0;
        let mut q = empty_queue();
        push_clear_buffer(&mut q, command::WRITE_BW_DATA, color, WIDTH, HEIGHT);
        proof { lemma_empty_prefix(clear_buffer_script(command::WRITE_BW_DATA, color, WIDTH as int, HEIGHT as int)); }
        self.load(q);
    }

    /// Fill the red buffer with white.
    pub fn clear_red_buffer(&mut self)
        requires
            Self::dims_ok(),
            frame_bytes_ok(WIDTH as int, HEIGHT as int),
        ensures
            final(self).loaded(
                old(self),
                clear_buffer_script(command::WRITE_RED_DATA, color_bytes(Color::White).1, WIDTH as int, HEIGHT as int),
            ),
    {
        let color = white_bytes().1;
        let mut q = empty_queue();
        push_clear_buffer(&mut q, command::WRITE_RED_DATA, color, WIDTH, HEIGHT);
        proof { lemma_empty_prefix(clear_buffer_script(command::WRITE_RED_DATA, color, WIDTH as int, HEIGHT as int)); }
        self.load(q);
    }

    /// Full refresh using the panel OTP LUT (0xF7).
    pub fn full_refresh(&mut self)
        ensures
            final(self).loaded(old(self), full_refresh_script()),
    {
        let mut q = empty_queue();
        push_full_refresh(&mut q);
        proof { lemma_empty_prefix(full_refresh_script()); }
        self.load(q);
    }

    /// Enter deep sleep mode 1 (RAM retained). Use [`Self::wake_up`] or [`Self::init`] to resume.
    ///
    /// The busy pin stays high in deep sleep, so this procedure does not wait on it.
    pub fn sleep(&mut self)
        ensures
            final(self).loaded(old(self), sleep_script()),
    {
        let mut q = empty_queue();
        push_sleep(&mut q);
        proof { lemma_empty_prefix(sleep_script()); }
        self.load(q);
    }

    /// Wake from deep sleep mode 1 via hardware reset (registers reset, RAM retained).
    pub fn wake_up(&mut self)
        ensures
            final(self).loaded(old(self), hw_reset_script()),
    {
        self.hw_reset();
    }
}

/// Functions available only for B/W displays.
impl<DI, BSY, RST, DELAY, const WIDTH: u32, const VISIBLE_WIDTH: u32, const HEIGHT: u32>
    DisplayDriver<DI, BSY, RST, DELAY, WIDTH, VISIBLE_WIDTH, HEIGHT, Color> {
    /// Trigger a fast differential refresh (0xFC). Runs a full refresh first if needed.
    pub fn fast_refresh(&mut self)
        ensures
            final(self).loaded(old(self), fast_refresh_script(old(self).flags().initial_full_refresh_done)),
    {
        let mut q = empty_queue();
        push_fast_refresh(&mut q, self.initial_full_refresh_done);
        proof { lemma_empty_prefix(fast_refresh_script(self.flags().initial_full_refresh_done)); }
        self.load(q);
    }

    /// Full-frame update using the OTP 0xF7 waveform.
    ///
    /// Sleeps the display before the reset inside `init` so that the reset is issued from
    /// deep sleep mode 1, where the red RAM (DTM2) is retained. DTM2 is not written before
    /// the refresh, so the LUT sees the real previous frame; it is written after the
    /// refresh as the basemap for the next partial cycle.
    pub fn full_update_from_buffer(&mut self, buffer: &[u8])
        requires
            Self::dims_ok(),
        ensures
            final(self).loaded(old(self), bw_full_update_script(WIDTH as int, HEIGHT as int, buffer@)),
    {
        let mut q = empty_queue();
        push_bw_full_update(&mut q, WIDTH, HEIGHT, buffer);
        proof { lemma_empty_prefix(bw_full_update_script(WIDTH as int, HEIGHT as int, buffer@)); }
        self.load(q);
    }

    /// Full-frame fast update using the 0xFC differential waveform.
    ///
    /// The panel stays active between updates; a hardware reset is still issued every
    /// frame, and the registers it returns to their power-on values are set again before
    /// the frame is written.
    pub fn fast_update_from_buffer(&mut self, buffer: &[u8])
        requires
            Self::dims_ok(),
        ensures
            final(self).loaded(
                old(self),
                bw_fast_update_script(WIDTH as int, HEIGHT as int, buffer@, old(self).flags().initial_full_refresh_done),
            ),
    {
        let mut q = empty_queue();
        push_bw_fast_update(&mut q, WIDTH, HEIGHT, buffer, self.initial_full_refresh_done);
        proof { lemma_empty_prefix(bw_fast_update_script(WIDTH as int, HEIGHT as int, buffer@, self.flags().initial_full_refresh_done)); }
        self.load(q);
    }

    /// Partial-region fast update. `x` and `width` must be multiples of 8.
    pub fn fast_partial_update_from_buffer(&mut self, buffer: &[u8], x: u32, y: u32, width: u32, height: u32)
        requires
            frame_ok(x as int, y as int, width as int, height as int),
        ensures
            final(self).loaded(
                old(self),
                bw_fast_partial_update_script(
                    buffer@,
                    x as int,
                    y as int,
                    width as int,
                    height as int,
                    old(self).flags().initial_full_refresh_done,
                ),
            ),
    {
        let mut q = empty_queue();
        push_bw_fast_partial_update(&mut q, buffer, x, y, width, height, self.initial_full_refresh_done);
        proof {
            lemma_empty_prefix(bw_fast_partial_update_script(
                buffer@,
                x as int,
                y as int,
                width as int,
                height as int,
                self.flags().initial_full_refresh_done,
            ));
        }
        self.load(q);
    }
}

/// Functions available only for tri-color displays.
impl<DI, BSY, RST, DELAY, const WIDTH: u32, const VISIBLE_WIDTH: u32, const HEIGHT: u32>
    DisplayDriver<DI, BSY, RST, DELAY, WIDTH, VISIBLE_WIDTH, HEIGHT, TriColor> {
    /// Full-frame update using the OTP 0xF7 waveform.
    pub fn full_update_from_buffer(&mut self, bw_buffer: &[u8], red_buffer: &[u8])
        requires
            Self::dims_ok(),
        ensures
            final(self).loaded(
                old(self),
                tricolor_full_update_script(WIDTH as int, HEIGHT as int, bw_buffer@, red_buffer@),
            ),
    {
        let mut q = empty_queue();
        push_tricolor_full_update(&mut q, WIDTH, HEIGHT, bw_buffer, red_buffer);
        proof { lemma_empty_prefix(tricolor_full_update_script(WIDTH as int, HEIGHT as int, bw_buffer@, red_buffer@)); }
        self.load(q);
    }
}

} // verus!
