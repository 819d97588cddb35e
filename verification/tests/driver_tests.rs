use rmk_driver_azoteq_iqs5xx::run::{OnFailure, StepRun};
use rmk_driver_azoteq_iqs5xx::bytes::{be_bytes, i16_be_from_iter, u16_be_from_iter, u16_from_be_bytes, u16_to_i16};
use rmk_driver_azoteq_iqs5xx::driver::{report_address, ReadyWait, RegWrite, Step, WaitStep};
use rmk_driver_azoteq_iqs5xx::registers;
use rmk_driver_azoteq_iqs5xx::report::REPORT_LEN;
use rmk_driver_azoteq_iqs5xx::{Error, Event, Iqs5xx, Iqs5xxConfig, Report, Touch};

fn sample_block() -> Vec<u8> {
    let mut b = vec![0u8; REPORT_LEN];
    b[0] = 0x00; // events0
    b[1] = 0x02; // events1: scroll
    b[2] = 0x80; // sys_info0
    b[3] = 0x01; // sys_info1
    b[4] = 2; // fingers
    b[5] = 0xFF; // rel_x = -2
    b[6] = 0xFE;
    b[7] = 0x01; // rel_y = 300
    b[8] = 0x2C;
    // touch 0 at 9
    b[9] = 0x01;
    b[10] = 0x02; // abs_x = 0x0102
    b[11] = 0x03;
    b[12] = 0x04; // abs_y = 0x0304
    b[13] = 0x00;
    b[14] = 0x50; // strength = 80
    b[15] = 7; // size
    // touch 4 at 37
    b[37] = 0xAB;
    b[38] = 0xCD;
    b[43] = 9;
    b
}

#[test]
fn big_endian_words_decode() {
    let bytes = [0x12u8, 0x34, 0xFF];
    let mut pos = 0usize;
    assert_eq!(u16_be_from_iter(&bytes, &mut pos), 0x1234);
    assert_eq!(pos, 2);
    // past the end reads as zero
    assert_eq!(u16_be_from_iter(&bytes, &mut pos), 0xFF00);
    assert_eq!(pos, 4);
    let neg = [0x80u8, 0x00];
    let mut p = 0usize;
    assert_eq!(i16_be_from_iter(&neg, &mut p), i16::MIN);
    assert_eq!(u16_to_i16(0xFFFF), -1);
    assert_eq!(u16_to_i16(0x7FFF), 0x7FFF);
}

#[test]
fn be_bytes_round_trip() {
    for v in [0u16, 1, 0x00FF, 0x0100, 0x1234, 0xEEEE, 0xFFFF] {
        assert_eq!(be_bytes(v), v.to_be_bytes());
        assert_eq!(u16_from_be_bytes(be_bytes(v)), v);
    }
    assert_eq!(report_address(), [0x00, 0x0D]);
}

#[test]
fn report_block_decodes_by_offset() {
    let r = Report::from_bytes(&sample_block());
    assert_eq!(r.events0, 0);
    assert_eq!(r.events1, 2);
    assert_eq!(r.sys_info0, 0x80);
    assert_eq!(r.sys_info1, 1);
    assert_eq!(r.num_fingers, 2);
    assert_eq!(r.rel_x, -2);
    assert_eq!(r.rel_y, 300);
    assert_eq!(r.touches[0].abs_x, 0x0102);
    assert_eq!(r.touches[0].abs_y, 0x0304);
    assert_eq!(r.touches[0].strength, 80);
    assert_eq!(r.touches[0].size, 7);
    assert_eq!(r.touches[4].abs_x, 0xABCD);
    assert_eq!(r.touches[4].size, 9);
    assert_eq!(r.touches[1].abs_x, 0);
}

#[test]
fn short_block_reads_zero() {
    let r = Report::from_bytes(&[0x01, 0x00, 0x00, 0x00, 0x01, 0x00, 0x05]);
    assert_eq!(r.events0, 1);
    assert_eq!(r.rel_x, 5);
    assert_eq!(r.rel_y, 0);
    assert_eq!(r.touches[0].abs_x, 0);
    let empty = Report::from_bytes(&[]);
    assert_eq!(empty.events0, 0);
    assert_eq!(empty.touches[4].size, 0);
}

#[test]
fn touch_record_reads_seven_bytes() {
    let bytes = [0x00u8, 0x10, 0x00, 0x20, 0x01, 0x00, 0x03, 0xAA];
    let mut pos = 0usize;
    let t = Touch::from_iter(&bytes, &mut pos);
    assert_eq!((t.abs_x, t.abs_y, t.strength, t.size), (16, 32, 256, 3));
    assert_eq!(pos, 7);
}

fn report_with(events0: u8, events1: u8, rel_x: i16, rel_y: i16) -> Report {
    let mut r = Report::default();
    r.events0 = events0;
    r.events1 = events1;
    r.rel_x = rel_x;
    r.rel_y = rel_y;
    r.touches[0].abs_x = 111;
    r.touches[0].abs_y = 222;
    r
}

#[test]
fn events_classify() {
    assert_eq!(Event::from_report(&report_with(0, 0, 0, 0)), Event::Idle);
    assert_eq!(Event::from_report(&report_with(0, 0, 3, -4)), Event::Move { x: 3, y: -4 });
    assert_eq!(Event::from_report(&report_with(0x01, 0, 3, -4)), Event::SingleTap { x: 111, y: 222 });
    assert_eq!(Event::from_report(&report_with(0x02, 0, 3, -4)), Event::PressHold { x: 3, y: -4 });
    assert_eq!(Event::from_report(&report_with(0x04, 0, 3, -4)), Event::SwipeX(3));
    assert_eq!(Event::from_report(&report_with(0x08, 0, 3, -4)), Event::SwipeX(3));
    assert_eq!(Event::from_report(&report_with(0x10, 0, 3, -4)), Event::SwipeY(-4));
    assert_eq!(Event::from_report(&report_with(0x20, 0, 3, -4)), Event::SwipeY(-4));
    assert_eq!(Event::from_report(&report_with(0, 0x01, 3, -4)), Event::TwoFingerTap);
    assert_eq!(Event::from_report(&report_with(0, 0x02, 3, -4)), Event::Scroll { x: 3, y: -4 });
    assert_eq!(Event::from_report(&report_with(0, 0x04, 3, -4)), Event::Zoom(3));
}

#[test]
fn unknown_or_combined_gestures_are_invalid() {
    assert_eq!(Event::from_report(&report_with(0x03, 0, 0, 0)), Event::Invalid);
    assert_eq!(Event::from_report(&report_with(0x40, 0, 0, 0)), Event::Invalid);
    assert_eq!(Event::from_report(&report_with(0, 0x08, 0, 0)), Event::Invalid);
    assert_eq!(Event::from_report(&report_with(0x01, 0x01, 0, 0)), Event::Invalid);
}

#[test]
fn default_config_values() {
    let c = Iqs5xxConfig::default();
    assert_eq!(c.addr, 0x74);
    assert_eq!(c.ready_timeout_ms, 100);
    assert_eq!((c.reset_low_ms, c.reset_high_ms), (10, 10));
    assert!(c.enable_single_tap && c.enable_press_and_hold && c.enable_two_finger_tap && c.enable_scroll);
    assert_eq!(c.press_and_hold_time_ms, 250);
    assert!(!c.invert_x && !c.invert_y && !c.swap_xy);
    assert_eq!((c.bottom_beta, c.stationary_threshold), (5, 5));
}

#[test]
fn register_frames() {
    let w = RegWrite::Byte { reg: registers::SYSTEM_CONTROL_0, value: registers::SYSTEM_CONTROL_0_ACK_RESET };
    assert_eq!(w.frame(), vec![0x04, 0x31, 0x80]);
    let h = RegWrite::Word { reg: registers::HOLD_TIME, value: 250 };
    assert_eq!(h.frame(), vec![0x06, 0xBD, 0x00, 0xFA]);
    assert_eq!(RegWrite::end_session().frame(), vec![0xEE, 0xEE, 0x00]);
}

#[test]
fn handles_round_trip() {
    let dev: Iqs5xx<u8, u16, u32> = Iqs5xx::new(7, Some(8), None, Iqs5xxConfig::default());
    assert_eq!(dev.config().addr, 0x74);
    assert_eq!(dev.into_inner(), (7, Some(8), None));
}

#[test]
fn handles_come_back_after_a_loan() {
    let mut dev: Iqs5xx<u8, u16, u32> = Iqs5xx::new(7, Some(8), Some(9), Iqs5xxConfig::default());
    let _ = dev.reset_steps();
    let _ = dev.init_steps();
    {
        let (i2c, rdy, rst) = dev.parts_mut();
        assert_eq!((*i2c, *rdy, *rst), (7, Some(8), Some(9)));
    }
    assert_eq!(dev.into_inner(), (7, Some(8), Some(9)));
}

#[test]
fn ready_from_pin_read() {
    type D = Iqs5xx<(), (), ()>;
    assert_eq!(D::is_ready::<(), u8>(None), Ok(true));
    assert_eq!(D::is_ready::<(), u8>(Some(Ok(false))), Ok(false));
    assert_eq!(D::is_ready::<(), u8>(Some(Ok(true))), Ok(true));
    assert_eq!(D::is_ready::<(), u8>(Some(Err(()))), Err(Error::Gpio));
}

#[test]
fn reset_pulse_only_with_reset_pin() {
    let mut c = Iqs5xxConfig::default();
    c.reset_low_ms = 12;
    c.reset_high_ms = 34;
    let with: Iqs5xx<(), (), ()> = Iqs5xx::new((), None, Some(()), c);
    assert_eq!(
        with.reset_steps(),
        vec![Step::ResetLow, Step::DelayMs(12), Step::ResetHigh, Step::DelayMs(34)]
    );
    let without: Iqs5xx<(), (), ()> = Iqs5xx::new((), None, None, c);
    assert!(without.reset_steps().is_empty());
}

#[test]
fn init_sequence_with_defaults() {
    let dev: Iqs5xx<(), (), ()> = Iqs5xx::new((), Some(()), Some(()), Iqs5xxConfig::default());
    let steps = dev.init_steps();
    let b = |reg, value| Step::Write(RegWrite::Byte { reg, value });
    assert_eq!(
        steps,
        vec![
            Step::ResetLow,
            Step::DelayMs(10),
            Step::ResetHigh,
            Step::DelayMs(10),
            Step::WaitReady,
            b(registers::SYSTEM_CONTROL_0, 0x80),
            b(registers::SYSTEM_CONFIG_1, 0x07),
            b(registers::BOTTOM_BETA, 5),
            b(registers::STATIONARY_THRESHOLD, 5),
            b(registers::FILTER_SETTINGS, 0x0B),
            b(registers::SINGLE_FINGER_GESTURES_CONF, 0x03),
            Step::Write(RegWrite::Word { reg: registers::HOLD_TIME, value: 250 }),
            b(registers::MULTI_FINGER_GESTURES_CONF, 0x03),
            b(registers::XY_CONFIG_0, 0x00),
            b(registers::SYSTEM_CONFIG_0, 0x60),
            b(registers::END_WINDOW, 0),
        ]
    );
}

#[test]
fn init_bits_follow_config() {
    let mut c = Iqs5xxConfig::default();
    c.enable_single_tap = false;
    c.enable_scroll = false;
    c.invert_y = true;
    c.swap_xy = true;
    c.press_and_hold_time_ms = 0x1234;
    let dev: Iqs5xx<(), (), ()> = Iqs5xx::new((), None, None, c);
    let w = dev.setup_writes();
    assert_eq!(w[5], RegWrite::Byte { reg: registers::SINGLE_FINGER_GESTURES_CONF, value: 0x02 });
    assert_eq!(w[6].frame(), vec![0x06, 0xBD, 0x12, 0x34]);
    assert_eq!(w[7], RegWrite::Byte { reg: registers::MULTI_FINGER_GESTURES_CONF, value: 0x01 });
    assert_eq!(w[8], RegWrite::Byte { reg: registers::XY_CONFIG_0, value: 0x06 });
    let steps = dev.init_steps();
    assert_eq!(steps.len(), 12);
    assert_eq!(steps[0], Step::WaitReady);
}

#[test]
fn wait_times_out_after_timeout_sleeps() {
    let mut w = ReadyWait::new(3);
    let mut sleeps = 0;
    loop {
        match w.step::<()>(Ok(false)) {
            WaitStep::SleepOneMs => sleeps += 1,
            WaitStep::Finished(r) => {
                assert_eq!(r, Err(Error::Timeout));
                break;
            }
        }
    }
    assert_eq!(sleeps, 3);
    assert_eq!(w.waited_ms(), 3);
}

#[test]
fn wait_ends_on_ready_or_error() {
    let mut w = ReadyWait::new(100);
    assert_eq!(w.step::<()>(Ok(false)), WaitStep::SleepOneMs);
    assert_eq!(w.step::<()>(Ok(true)), WaitStep::Finished(Ok(())));
    let mut g = ReadyWait::new(100);
    assert_eq!(g.step::<()>(Err(Error::Gpio)), WaitStep::Finished(Err(Error::Gpio)));
    let mut z = ReadyWait::new(0);
    assert_eq!(z.step::<()>(Ok(false)), WaitStep::Finished(Err(Error::Timeout)));
    assert_eq!(z.waited_ms(), 0);
}

fn run_with(steps: Vec<Step>, on_failure: OnFailure, oks: &[bool]) -> (Vec<Step>, core::result::Result<(), Error<u8>>) {
    let mut run: StepRun<u8> = StepRun::new(steps, on_failure);
    let mut performed = Vec::new();
    let mut i = 0;
    while let Some(step) = run.next_step() {
        performed.push(step);
        let outcome = if oks[i] { Ok(()) } else { Err(Error::I2c(i as u8)) };
        run.record(outcome);
        i += 1;
    }
    (performed, run.finish())
}

#[test]
fn stop_run_ends_at_first_failed_step() {
    let steps = vec![Step::ResetLow, Step::DelayMs(10), Step::ResetHigh, Step::DelayMs(10)];
    let (done, r) = run_with(steps.clone(), OnFailure::Stop, &[true, true, false, true]);
    assert_eq!(done, steps[..3].to_vec());
    assert_eq!(r, Err(Error::I2c(2)));
    let (done, r) = run_with(steps.clone(), OnFailure::Stop, &[true, true, true, true]);
    assert_eq!(done, steps);
    assert_eq!(r, Ok(()));
}

#[test]
fn continue_run_performs_every_step() {
    let steps = vec![Step::WaitReady, Step::Write(RegWrite::end_session())];
    let (done, r) = run_with(steps.clone(), OnFailure::Continue, &[false, false]);
    assert_eq!(done, steps);
    assert_eq!(r, Ok(()));
    let (done, r) = run_with(Vec::new(), OnFailure::Stop, &[]);
    assert!(done.is_empty());
    assert_eq!(r, Ok(()));
}
