use weact_studio_epd::command;
use weact_studio_epd::flag;
use weact_studio_epd::{
    busy_poll_continues, Action, Color, ColorType, DisplayDriver, DisplayError, Next, TriColor, WeActStudio213BlackWhiteDriver,
    WeActStudio290BlackWhiteDriver, WeActStudio290TriColorDriver,
};

type Bw290 = WeActStudio290BlackWhiteDriver<(), (), (), ()>;
type Bw213 = WeActStudio213BlackWhiteDriver<(), (), (), ()>;
type Tri290 = WeActStudio290TriColorDriver<(), (), (), ()>;

fn bw290() -> Bw290 {
    DisplayDriver::new((), (), (), ())
}

/// Drive the loaded procedure to its end with every action succeeding.
fn drain<const W: u32, const V: u32, const H: u32, C: ColorType>(
    d: &mut DisplayDriver<(), (), (), (), W, V, H, C>,
) -> Vec<Action> {
    let mut out = Vec::new();
    loop {
        match d.advance(Ok(())) {
            Next::Perform(a) => out.push(a),
            Next::Finished(r) => {
                assert!(r.is_ok());
                return out;
            }
        }
    }
}

fn cmd_data(c: u8, d: &[u8]) -> Vec<Action> {
    vec![Action::SendCommand(c), Action::SendData(d.to_vec()), Action::WaitUntilIdle]
}

fn hw_reset() -> Vec<Action> {
    vec![Action::ResetLow, Action::DelayMs(50), Action::ResetHigh, Action::DelayMs(50)]
}

fn frame(x: u32, y: u32, w: u32, h: u32) -> Vec<Action> {
    let ex = x + w - 1;
    let ey = y + h - 1;
    let mut v = Vec::new();
    v.extend(cmd_data(0x44, &[(x / 8) as u8, (ex / 8) as u8]));
    v.extend(cmd_data(0x45, &[(y % 256) as u8, (y / 256) as u8, (ey % 256) as u8, (ey / 256) as u8]));
    v.extend(cmd_data(0x4E, &[(x / 8) as u8]));
    v.extend(cmd_data(0x4F, &[(y % 256) as u8, (y / 256) as u8]));
    v
}

fn full_refresh() -> Vec<Action> {
    let mut v = Vec::new();
    v.extend(cmd_data(0x3C, &[0x05]));
    v.extend(cmd_data(0x22, &[0xF7]));
    v.push(Action::SendCommand(0x20));
    v.push(Action::WaitUntilIdle);
    v
}

fn fast_refresh_tail() -> Vec<Action> {
    let mut v = Vec::new();
    v.extend(cmd_data(0x22, &[0xFC]));
    v.push(Action::SendCommand(0x20));
    v.push(Action::WaitUntilIdle);
    v
}

fn init_actions(w: u32, h: u32) -> Vec<Action> {
    let mut v = hw_reset();
    v.push(Action::SendCommand(0x12));
    v.push(Action::DelayMs(10));
    v.push(Action::WaitUntilIdle);
    v.extend(cmd_data(0x01, &[((h - 1) % 256) as u8, ((h - 1) / 256) as u8, 0x00]));
    v.extend(cmd_data(0x11, &[0x03]));
    v.extend(cmd_data(0x3C, &[0x05]));
    v.extend(cmd_data(0x21, &[0x00, 0x80]));
    v.extend(cmd_data(0x18, &[0x80]));
    v.extend(frame(0, 0, w, h));
    v.push(Action::WaitUntilIdle);
    v
}

#[test]
fn new_driver_starts_idle_with_clear_flags() {
    let mut d = bw290();
    assert!(d.is_idle());
    assert!(!d.using_partial_mode());
    assert!(!d.initial_full_refresh_done());
    assert!(matches!(d.advance(Ok(())), Next::Finished(Ok(()))));
}

#[test]
fn init_sends_exact_sequence_290() {
    let mut d = bw290();
    d.init();
    let acts = drain(&mut d);
    assert_eq!(acts, init_actions(128, 296));
    // 295 = 0x0127: low byte first.
    assert_eq!(acts[8], Action::SendData(vec![0x27, 0x01, 0x00]));
    // X window 0..=127 is bytes 0..=15.
    assert_eq!(acts[23], Action::SendData(vec![0x00, 0x0F]));
    assert!(d.is_idle());
}

#[test]
fn init_sends_exact_sequence_213() {
    let mut d: Bw213 = DisplayDriver::new((), (), (), ());
    d.init();
    let acts = drain(&mut d);
    assert_eq!(acts, init_actions(128, 250));
    assert_eq!(acts[8], Action::SendData(vec![0xF9, 0x00, 0x00]));
}

#[test]
fn hw_reset_and_wake_up_toggle_reset() {
    let mut d = bw290();
    d.hw_reset();
    assert_eq!(drain(&mut d), hw_reset());
    d.wake_up();
    assert_eq!(drain(&mut d), hw_reset());
}

#[test]
fn write_buffers_address_full_frame() {
    let buf = vec![0xAAu8; 4736];
    let mut d = bw290();
    d.write_bw_buffer(&buf);
    let mut expected = frame(0, 0, 128, 296);
    expected.extend(cmd_data(command::WRITE_BW_DATA, &buf));
    assert_eq!(drain(&mut d), expected);
    d.write_red_buffer(&buf);
    let mut expected = frame(0, 0, 128, 296);
    expected.extend(cmd_data(command::WRITE_RED_DATA, &buf));
    assert_eq!(drain(&mut d), expected);
}

#[test]
fn write_partial_buffers_address_window() {
    let buf = [1u8, 2, 3, 4];
    let mut d = bw290();
    d.write_partial_bw_buffer(&buf, 8, 16, 32, 20);
    let acts = drain(&mut d);
    assert_eq!(acts[1], Action::SendData(vec![1, 4]));
    assert_eq!(acts[4], Action::SendData(vec![16, 0, 35, 0]));
    assert_eq!(acts[7], Action::SendData(vec![1]));
    assert_eq!(acts[10], Action::SendData(vec![16, 0]));
    let mut expected = frame(8, 16, 32, 20);
    expected.extend(cmd_data(0x24, &buf));
    assert_eq!(acts, expected);
    d.write_partial_red_buffer(&buf, 8, 300, 32, 20);
    let acts = drain(&mut d);
    // Row 300 = 0x012C, last row 319 = 0x013F.
    assert_eq!(acts[4], Action::SendData(vec![0x2C, 0x01, 0x3F, 0x01]));
    assert_eq!(acts[12], Action::SendCommand(0x26));
}

#[test]
fn clear_buffers_fill_with_white() {
    let mut d = bw290();
    d.clear_bw_buffer();
    let mut expected = frame(0, 0, 128, 296);
    expected.push(Action::SendCommand(0x24));
    expected.push(Action::SendRepeated { byte: 0xFF, count: 16 * 296 });
    assert_eq!(drain(&mut d), expected);
    d.clear_red_buffer();
    let mut expected = frame(0, 0, 128, 296);
    expected.push(Action::SendCommand(0x26));
    expected.push(Action::SendRepeated { byte: 0x00, count: 4736 });
    assert_eq!(drain(&mut d), expected);
}

#[test]
fn full_refresh_sets_flags() {
    let mut d = bw290();
    d.full_refresh();
    assert_eq!(drain(&mut d), full_refresh());
    assert!(d.initial_full_refresh_done());
    assert!(!d.using_partial_mode());
}

#[test]
fn sleep_does_not_wait_on_busy() {
    let mut d = bw290();
    d.sleep();
    let acts = drain(&mut d);
    assert_eq!(
        acts,
        vec![Action::SendCommand(command::DEEP_SLEEP), Action::SendData(vec![flag::DEEP_SLEEP_MODE_1])]
    );
    assert!(!acts.contains(&Action::WaitUntilIdle));
}

#[test]
fn fast_refresh_runs_full_refresh_first_only_once() {
    let mut d = bw290();
    d.fast_refresh();
    let mut expected = full_refresh();
    expected.extend(fast_refresh_tail());
    assert_eq!(drain(&mut d), expected);
    assert!(d.initial_full_refresh_done());
    assert!(d.using_partial_mode());
    d.fast_refresh();
    let acts = drain(&mut d);
    assert_eq!(acts, fast_refresh_tail());
    assert!(!acts.contains(&Action::SendData(vec![0xF7])));
    assert!(d.using_partial_mode());
}

#[test]
fn full_refresh_leaves_partial_mode() {
    let mut d = bw290();
    d.fast_refresh();
    drain(&mut d);
    assert!(d.using_partial_mode());
    d.full_refresh();
    drain(&mut d);
    assert!(!d.using_partial_mode());
    assert!(d.initial_full_refresh_done());
}

#[test]
fn error_ends_procedure_and_keeps_flags_so_far() {
    let mut d = bw290();
    d.fast_refresh();
    // The first action is the border command of the full refresh; the full refresh has
    // already been noted when it is handed out.
    match d.advance(Ok(())) {
        Next::Perform(a) => assert_eq!(a, Action::SendCommand(0x3C)),
        Next::Finished(_) => panic!("expected an action"),
    }
    match d.advance(Err(DisplayError::BusWriteError)) {
        Next::Finished(Err(DisplayError::BusWriteError)) => {}
        other => panic!("unexpected {:?}", other),
    }
    assert!(d.is_idle());
    assert!(d.initial_full_refresh_done());
    assert!(!d.using_partial_mode());
    assert!(matches!(d.advance(Ok(())), Next::Finished(Ok(()))));
}

#[test]
fn error_on_last_action_keeps_all_flags() {
    let mut d = bw290();
    d.fast_refresh();
    let mut n = 0;
    loop {
        match d.advance(Ok(())) {
            Next::Perform(_) => n += 1,
            Next::Finished(_) => panic!("finished early"),
        }
        if n == 13 {
            break;
        }
    }
    assert!(d.using_partial_mode());
    assert!(matches!(d.advance(Err(DisplayError::DCError)), Next::Finished(Err(DisplayError::DCError))));
    assert!(d.using_partial_mode());
}

#[test]
fn new_procedure_replaces_pending_one() {
    let mut d = bw290();
    d.init();
    let _ = d.advance(Ok(()));
    d.sleep();
    assert_eq!(drain(&mut d).len(), 2);
}

#[test]
fn bw_full_update_writes_red_after_refresh() {
    let buf = vec![0x55u8; 4736];
    let mut d = bw290();
    d.full_update_from_buffer(&buf);
    let acts = drain(&mut d);
    let mut expected = vec![Action::SendCommand(0x10), Action::SendData(vec![0x01]), Action::DelayMs(10)];
    expected.extend(init_actions(128, 296));
    expected.extend(frame(0, 0, 128, 296));
    expected.extend(cmd_data(0x24, &buf));
    expected.extend(full_refresh());
    expected.extend(frame(0, 0, 128, 296));
    expected.extend(cmd_data(0x26, &buf));
    assert_eq!(acts, expected);
    let activate = acts.iter().position(|a| *a == Action::SendCommand(0x20)).unwrap();
    let red = acts.iter().position(|a| *a == Action::SendCommand(0x26)).unwrap();
    assert!(red > activate);
    assert!(d.initial_full_refresh_done());
    assert!(!d.using_partial_mode());
}

#[test]
fn bw_fast_update_restores_registers() {
    let buf = vec![0x0Fu8; 4736];
    let mut d = bw290();
    d.full_refresh();
    drain(&mut d);
    d.fast_update_from_buffer(&buf);
    let mut expected = hw_reset();
    expected.push(Action::WaitUntilIdle);
    expected.extend(cmd_data(0x3C, &[0x80]));
    expected.extend(cmd_data(0x21, &[0x00, 0x80]));
    expected.extend(cmd_data(0x18, &[0x80]));
    expected.extend(frame(0, 0, 128, 296));
    expected.extend(cmd_data(0x24, &buf));
    expected.extend(fast_refresh_tail());
    expected.extend(frame(0, 0, 128, 296));
    expected.extend(cmd_data(0x26, &buf));
    assert_eq!(drain(&mut d), expected);
    assert!(d.using_partial_mode());
}

#[test]
fn bw_fast_update_without_prior_full_refresh_runs_one() {
    let buf = vec![0u8; 4736];
    let mut d = bw290();
    d.fast_update_from_buffer(&buf);
    let acts = drain(&mut d);
    assert!(acts.contains(&Action::SendData(vec![0xF7])));
    assert!(acts.contains(&Action::SendData(vec![0xFC])));
    assert!(d.initial_full_refresh_done());
    assert!(d.using_partial_mode());
}

#[test]
fn bw_fast_partial_update_sequence() {
    let buf = [9u8; 8];
    let mut d = bw290();
    d.full_refresh();
    drain(&mut d);
    d.fast_partial_update_from_buffer(&buf, 16, 40, 16, 4);
    let mut expected = hw_reset();
    expected.push(Action::WaitUntilIdle);
    expected.extend(cmd_data(0x3C, &[0x80]));
    expected.extend(frame(16, 40, 16, 4));
    expected.extend(cmd_data(0x24, &buf));
    expected.extend(fast_refresh_tail());
    expected.extend(frame(16, 40, 16, 4));
    expected.extend(cmd_data(0x26, &buf));
    assert_eq!(drain(&mut d), expected);
}

#[test]
fn tricolor_full_update_writes_red_then_bw_then_refreshes() {
    let bw = vec![0xFFu8; 4736];
    let red = vec![0x01u8; 4736];
    let mut d: Tri290 = DisplayDriver::new((), (), (), ());
    d.full_update_from_buffer(&bw, &red);
    let mut expected = frame(0, 0, 128, 296);
    expected.extend(cmd_data(0x26, &red));
    expected.extend(frame(0, 0, 128, 296));
    expected.extend(cmd_data(0x24, &bw));
    expected.extend(full_refresh());
    assert_eq!(drain(&mut d), expected);
    assert!(d.initial_full_refresh_done());
}

#[test]
fn color_bytes() {
    assert_eq!(Color::White.byte_value(), (0xFF, 0x00));
    assert_eq!(Color::Black.byte_value(), (0x00, 0x00));
    assert_eq!(TriColor::White.byte_value(), (0xFF, 0x00));
    assert_eq!(TriColor::Black.byte_value(), (0x00, 0x00));
    assert_eq!(TriColor::Red.byte_value(), (0x00, 0xFF));
}

#[test]
fn parts_mut_gives_the_peripherals() {
    let mut d: DisplayDriver<u8, u16, u32, u64, 128, 128, 296, Color> = DisplayDriver::new(1, 2, 3, 4);
    {
        let (i, b, r, t) = d.parts_mut();
        assert_eq!((*i, *b, *r, *t), (1, 2, 3, 4));
        *i = 10;
        *t = 40;
    }
    let (i, b, r, t) = d.parts_mut();
    assert_eq!((*i, *b, *r, *t), (10, 2, 3, 40));
}

#[test]
fn busy_poll_stops_only_on_low() {
    assert!(busy_poll_continues(Some(true)));
    assert!(busy_poll_continues(None));
    assert!(!busy_poll_continues(Some(false)));
}

#[test]
fn red_write_mirrors_bw_write() {
    let buf = [7u8, 8, 9];
    let mut d = bw290();
    d.write_bw_buffer(&buf);
    let mut bw = drain(&mut d);
    d.write_red_buffer(&buf);
    let red = drain(&mut d);
    assert_eq!(bw[12], Action::SendCommand(0x24));
    bw[12] = Action::SendCommand(0x26);
    assert_eq!(bw, red);
    d.write_partial_bw_buffer(&buf, 0, 8, 16, 2);
    let mut pbw = drain(&mut d);
    d.write_partial_red_buffer(&buf, 0, 8, 16, 2);
    let pred = drain(&mut d);
    pbw[12] = Action::SendCommand(0x26);
    assert_eq!(pbw, pred);
}

#[test]
fn flag_stays_set_after_full_refresh() {
    let mut d = bw290();
    d.full_refresh();
    drain(&mut d);
    d.init();
    drain(&mut d);
    d.sleep();
    drain(&mut d);
    d.wake_up();
    drain(&mut d);
    d.clear_bw_buffer();
    let _ = d.advance(Ok(()));
    let _ = d.advance(Err(DisplayError::BusWriteError));
    assert!(d.initial_full_refresh_done());
    d.fast_refresh();
    let acts = drain(&mut d);
    assert!(!acts.contains(&Action::SendData(vec![0xF7])));
    assert!(!acts.contains(&Action::SendCommand(0x3C)));
}
