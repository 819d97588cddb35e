use rmk_driver_azoteq_iqs5xx::adv::{adv_has_complete_local_name, names_peripheral, peripheral_adv_data};
use rmk_driver_azoteq_iqs5xx::driver::{RegWrite, Step};
use rmk_driver_azoteq_iqs5xx::registers;
use rmk_driver_azoteq_iqs5xx::rmk_support::{
    button_mask, Axis, AxisEvent, AxisValType, InitGate, InitOutcome, InitState, InputEvent, Iqs5xxDevice,
    Iqs5xxProcessor, Iqs5xxProcessorConfig, MouseReport, ProcessResult, ProcessorState, ReportAction,
    TouchpadEvent, BUTTON_LEFT, BUTTON_RIGHT,
};
use rmk_driver_azoteq_iqs5xx::{Iqs5xxConfig, Report};

type Dev = Iqs5xxDevice<(), (), ()>;
type Ev = InputEvent<u32>;

fn device() -> Dev {
    Iqs5xxDevice::new((), (), (), Iqs5xxConfig::default())
}

fn report(events0: u8, events1: u8, sys_info0: u8, rel_x: i16, rel_y: i16) -> Report {
    let mut r = Report::default();
    r.events0 = events0;
    r.events1 = events1;
    r.sys_info0 = sys_info0;
    r.rel_x = rel_x;
    r.rel_y = rel_y;
    r
}

fn touchpad(a: (Axis, i16), b: (Axis, i16), c: (Axis, i16)) -> Ev {
    let ax = |(axis, value): (Axis, i16)| AxisEvent { typ: AxisValType::Rel, axis, value };
    InputEvent::Touchpad(TouchpadEvent { finger: 0, axis: [ax(a), ax(b), ax(c)] })
}

fn processor(divisor: i16) -> Iqs5xxProcessor<()> {
    Iqs5xxProcessor::new((), Iqs5xxProcessorConfig { scroll_divisor: divisor, natural_scroll_x: false, natural_scroll_y: false })
}

fn emitted(a: ReportAction<u32>) -> Ev {
    match a {
        ReportAction::Emit(e) => e,
        other => panic!("expected an event, got {:?}", other),
    }
}

#[test]
fn device_defaults() {
    let d = device();
    assert_eq!(d.poll_interval_ms(), 5);
    assert_eq!(d.init_state(), InitState::Pending);
    let d2: Dev = Iqs5xxDevice::with_poll_interval((), (), (), Iqs5xxConfig::default(), 20);
    assert_eq!(d2.poll_interval_ms(), 20);
    let p = Iqs5xxProcessorConfig::default();
    assert_eq!((p.scroll_divisor, p.natural_scroll_x, p.natural_scroll_y), (32, false, false));
}

#[test]
fn init_gives_up_after_three_failures() {
    let mut d = device();
    assert_eq!(d.begin_init(), InitGate::Attempt);
    assert_eq!(d.finish_init(false), InitOutcome::RetryAfterMs(100));
    assert_eq!(d.init_state(), InitState::Initializing(1));
    assert_eq!(d.begin_init(), InitGate::Attempt);
    assert_eq!(d.finish_init(false), InitOutcome::RetryAfterMs(100));
    assert_eq!(d.begin_init(), InitGate::Attempt);
    assert_eq!(d.finish_init(false), InitOutcome::GaveUp);
    assert_eq!(d.init_state(), InitState::Failed);
    assert_eq!(d.begin_init(), InitGate::GaveUp);
    assert_eq!(d.init_state(), InitState::Failed);
}

#[test]
fn init_succeeds_and_stays_ready() {
    let mut d = device();
    assert_eq!(d.begin_init(), InitGate::Attempt);
    assert_eq!(d.finish_init(false), InitOutcome::RetryAfterMs(100));
    assert_eq!(d.begin_init(), InitGate::Attempt);
    assert_eq!(d.finish_init(true), InitOutcome::Ready);
    assert_eq!(d.begin_init(), InitGate::Ready);
    assert_eq!(d.init_state(), InitState::Ready);
}

#[test]
fn reset_flag_is_acknowledged() {
    let mut d = device();
    let a: ReportAction<u32> = d.on_report(&report(0x02, 0, 0x80, 5, 5));
    assert!(matches!(a, ReportAction::AcknowledgeReset));
    assert_eq!(
        Dev::reset_ack_steps(),
        vec![
            Step::WaitReady,
            Step::Write(RegWrite::Byte { reg: registers::SYSTEM_CONTROL_0, value: 0x80 }),
            Step::Write(RegWrite::Byte { reg: registers::END_WINDOW, value: 0 }),
        ]
    );
}

#[test]
fn hold_presses_then_releases_left() {
    let mut d = device();
    let press = emitted(d.on_report(&report(0x02, 0, 0, 0, 0)));
    assert!(matches!(press, InputEvent::Custom(data) if data[0] == 2 && data[1] == BUTTON_LEFT && data[2] == 1));
    // still holding: the event of the report itself is used
    let again: ReportAction<u32> = d.on_report(&report(0x02, 0, 0, 0, 0));
    assert!(matches!(again, ReportAction::Skip));
    let release = emitted(d.on_report(&report(0, 0, 0, 0, 0)));
    assert!(matches!(release, InputEvent::Custom(data) if data[0] == 2 && data[1] == BUTTON_LEFT && data[2] == 0));
}

#[test]
fn motion_and_scroll_become_touchpad_events() {
    let mut d = device();
    match emitted(d.on_report(&report(0, 0, 0, 7, -3))) {
        InputEvent::Touchpad(tp) => {
            assert!(matches!(tp.axis[0].axis, Axis::X) && tp.axis[0].value == 7);
            assert!(matches!(tp.axis[1].axis, Axis::Y) && tp.axis[1].value == -3);
            assert!(matches!(tp.axis[2].axis, Axis::Z) && tp.axis[2].value == 0);
        }
        _ => panic!("expected a touchpad event"),
    }
    match emitted(d.on_report(&report(0, 0x02, 0, -1, 9))) {
        InputEvent::Touchpad(tp) => {
            assert!(matches!(tp.axis[0].axis, Axis::H) && tp.axis[0].value == -1);
            assert!(matches!(tp.axis[1].axis, Axis::V) && tp.axis[1].value == 9);
        }
        _ => panic!("expected a touchpad event"),
    }
    let still: ReportAction<u32> = d.on_report(&report(0, 0x02, 0, 0, 0));
    assert!(matches!(still, ReportAction::Skip));
    let idle: ReportAction<u32> = d.on_report(&report(0, 0, 0, 0, 0));
    assert!(matches!(idle, ReportAction::Skip));
}

#[test]
fn taps_click_and_swipes_are_skipped() {
    let mut d = device();
    let tap = emitted(d.on_report(&report(0x01, 0, 0, 0, 0)));
    assert!(matches!(tap, InputEvent::Custom(data) if data[0] == 1 && data[1] == BUTTON_LEFT));
    let two = emitted(d.on_report(&report(0, 0x01, 0, 0, 0)));
    assert!(matches!(two, InputEvent::Custom(data) if data[0] == 1 && data[1] == BUTTON_RIGHT));
    let swipe: ReportAction<u32> = d.on_report(&report(0x04, 0, 0, 3, 0));
    assert!(matches!(swipe, ReportAction::Skip));
    let zoom: ReportAction<u32> = d.on_report(&report(0, 0x04, 0, 3, 0));
    assert!(matches!(zoom, ReportAction::Skip));
    let bad: ReportAction<u32> = d.on_report(&report(0x01, 0x01, 0, 0, 0));
    assert!(matches!(bad, ReportAction::Skip));
}

#[test]
fn button_masks() {
    assert_eq!(button_mask(BUTTON_LEFT), 1);
    assert_eq!(button_mask(BUTTON_RIGHT), 2);
    assert_eq!(button_mask(0), 0);
    assert_eq!(button_mask(7), 0);
}

#[test]
fn motion_is_clamped_to_i8() {
    let mut p = processor(32);
    let (res, reps) = p.process(touchpad((Axis::X, 300), (Axis::Y, -5), (Axis::Z, 0)));
    assert!(matches!(res, ProcessResult::Stop));
    assert_eq!(reps, vec![MouseReport { buttons: 0, x: 127, y: -5, wheel: 0, pan: 0 }]);
    let (_, reps) = p.process(touchpad((Axis::X, -1000), (Axis::Y, 0), (Axis::Z, 0)));
    assert_eq!(reps, vec![MouseReport { buttons: 0, x: -128, y: 0, wheel: 0, pan: 0 }]);
    let (res, reps) = p.process(touchpad((Axis::X, 0), (Axis::Y, 0), (Axis::Z, 4)));
    assert!(matches!(res, ProcessResult::Stop));
    assert!(reps.is_empty());
}

#[test]
fn last_axis_value_wins() {
    let mut p = processor(32);
    let (_, reps) = p.process(touchpad((Axis::X, 3), (Axis::X, 9), (Axis::Y, 1)));
    assert_eq!(reps, vec![MouseReport { buttons: 0, x: 9, y: 1, wheel: 0, pan: 0 }]);
}

#[test]
fn scroll_accumulates_until_divisor() {
    let mut p = processor(32);
    let (_, reps) = p.process(touchpad((Axis::H, 20), (Axis::V, -20), (Axis::Z, 0)));
    assert!(reps.is_empty());
    assert_eq!(p.state(), ProcessorState { buttons: 0, scroll_x_acc: 20, scroll_y_acc: -20 });
    let (_, reps) = p.process(touchpad((Axis::H, 20), (Axis::V, -50), (Axis::Z, 0)));
    assert_eq!(reps, vec![MouseReport { buttons: 0, x: 0, y: 0, wheel: -2, pan: 1 }]);
    assert_eq!(p.state(), ProcessorState { buttons: 0, scroll_x_acc: 8, scroll_y_acc: -6 });
}

#[test]
fn natural_scroll_and_small_divisor() {
    let mut p = Iqs5xxProcessor::new((), Iqs5xxProcessorConfig { scroll_divisor: 0, natural_scroll_x: true, natural_scroll_y: true });
    let (_, reps) = p.process(touchpad((Axis::H, 3), (Axis::V, -200), (Axis::Z, 0)));
    // divisor 0 counts as 1; natural scrolling negates; the wheel is clamped
    assert_eq!(reps, vec![MouseReport { buttons: 0, x: 0, y: 0, wheel: 127, pan: -3 }]);
    assert_eq!(p.state().scroll_x_acc, 0);
    assert_eq!(p.state().scroll_y_acc, 0);
}

#[test]
fn scroll_saturates() {
    let mut p = processor(i16::MAX);
    let (_, reps) = p.process(touchpad((Axis::H, 30000), (Axis::V, 0), (Axis::Z, 0)));
    assert!(reps.is_empty());
    let (_, reps) = p.process(touchpad((Axis::H, 30000), (Axis::V, 0), (Axis::Z, 0)));
    assert_eq!(reps, vec![MouseReport { buttons: 0, x: 0, y: 0, wheel: 0, pan: 1 }]);
    assert_eq!(p.state().scroll_x_acc, 0);
}

#[test]
fn clicks_and_buttons() {
    let mut p = processor(32);
    let click: Ev = Dev::custom_click(BUTTON_RIGHT);
    let (res, reps) = p.process(click);
    assert!(matches!(res, ProcessResult::Stop));
    assert_eq!(
        reps,
        vec![
            MouseReport { buttons: 2, x: 0, y: 0, wheel: 0, pan: 0 },
            MouseReport { buttons: 0, x: 0, y: 0, wheel: 0, pan: 0 },
        ]
    );
    let (_, reps) = p.process(Dev::custom_button::<u32>(BUTTON_LEFT, true));
    assert_eq!(reps, vec![MouseReport { buttons: 1, x: 0, y: 0, wheel: 0, pan: 0 }]);
    let (_, reps) = p.process(touchpad((Axis::X, 1), (Axis::Y, 1), (Axis::Z, 0)));
    assert_eq!(reps, vec![MouseReport { buttons: 1, x: 1, y: 1, wheel: 0, pan: 0 }]);
    let (_, reps) = p.process(Dev::custom_click::<u32>(BUTTON_RIGHT));
    assert_eq!(reps[0].buttons, 3);
    assert_eq!(reps[1].buttons, 1);
    let (_, reps) = p.process(Dev::custom_button::<u32>(BUTTON_LEFT, false));
    assert_eq!(reps, vec![MouseReport { buttons: 0, x: 0, y: 0, wheel: 0, pan: 0 }]);
}

#[test]
fn other_events_pass_through() {
    let mut p = processor(32);
    let (res, reps) = p.process(InputEvent::Other(42u32));
    assert!(matches!(res, ProcessResult::Continue(InputEvent::Other(42))));
    assert!(reps.is_empty());
    let mut data = [0u8; 16];
    data[0] = 9;
    let (res, reps) = p.process(InputEvent::<u32>::Custom(data));
    assert!(matches!(res, ProcessResult::Continue(InputEvent::Custom(d)) if d[0] == 9));
    assert!(reps.is_empty());
    assert_eq!(p.get_keymap(), &());
}

#[test]
fn processor_buttons_follow_device_hold() {
    let mut d = device();
    let mut p = processor(32);
    let reports = [
        report(0x02, 0, 0, 0, 0),
        report(0x02, 0, 0, 4, 4),
        report(0, 0, 0, 1, 2),
        report(0x01, 0, 0, 0, 0),
        report(0x02, 0, 0, 0, 0),
        report(0, 0x01, 0, 0, 0),
        report(0, 0, 0, 0, 0),
    ];
    for r in reports.iter() {
        if let ReportAction::Emit(e) = d.on_report::<u32>(r) {
            let _ = p.process(e);
        }
        let held = (r.events0 & 0x02) != 0;
        assert_eq!(p.state().buttons, if held { 1 } else { 0 });
    }
}


#[test]
fn peripheral_advertising_bytes() {
    let mut expected = [0u8; 31];
    let bytes: [u8; 19] = [2, 0x01, 0x06, 11, 0x09, b'S', b'i', b'm', b'p', b'l', b'e', b'P', b'e', b'r', b'i', 3, 0x02, 0x34, 0x12];
    expected[..19].copy_from_slice(&bytes);
    assert_eq!(peripheral_adv_data(), expected);
}

#[test]
fn central_recognises_peripheral_advertising() {
    assert!(names_peripheral(&peripheral_adv_data()));
    assert!(adv_has_complete_local_name(&peripheral_adv_data(), b"SimplePeri"));
    assert!(!adv_has_complete_local_name(&peripheral_adv_data(), b"SimplePer"));
}

#[test]
fn scan_stops_at_bad_structures() {
    // shortened local name (type 0x08) does not count
    let short = [11u8, 0x08, b'S', b'i', b'm', b'p', b'l', b'e', b'P', b'e', b'r', b'i'];
    assert!(!names_peripheral(&short));
    // a zero length ends the scan before the name
    let mut padded = vec![0u8, 0];
    padded.extend_from_slice(&peripheral_adv_data());
    assert!(!names_peripheral(&padded));
    // a structure running past the end ends the scan
    let truncated = [11u8, 0x09, b'S', b'i', b'm'];
    assert!(!names_peripheral(&truncated));
    assert!(!names_peripheral(&[]));
}

#[test]
fn motion_reaches_host_report() {
    let mut d = device();
    let mut p = processor(32);
    let e = emitted(d.on_report(&report(0, 0, 0, 200, -7)));
    let (res, reps) = p.process(e);
    assert!(matches!(res, ProcessResult::Stop));
    assert_eq!(reps, vec![MouseReport { buttons: 0, x: 127, y: -7, wheel: 0, pan: 0 }]);
}

#[test]
fn scroll_reaches_accumulators() {
    let mut d = device();
    let mut p = processor(10);
    let e = emitted(d.on_report(&report(0, 0x02, 0, 25, -4)));
    let (_, reps) = p.process(e);
    assert_eq!(reps, vec![MouseReport { buttons: 0, x: 0, y: 0, wheel: 0, pan: 2 }]);
    assert_eq!(p.state(), ProcessorState { buttons: 0, scroll_x_acc: 5, scroll_y_acc: -4 });
}

#[test]
fn overflowing_scroll_is_refused() {
    let natural = Iqs5xxProcessor::new((), Iqs5xxProcessorConfig { scroll_divisor: 32, natural_scroll_x: true, natural_scroll_y: false });
    assert!(!natural.can_process(&touchpad((Axis::H, i16::MIN), (Axis::V, 0), (Axis::Z, 0))));
    assert!(natural.can_process(&touchpad((Axis::H, i16::MAX), (Axis::V, 0), (Axis::Z, 0))));
    let mut p = processor(32);
    assert!(p.can_process(&touchpad((Axis::H, 0), (Axis::V, -20), (Axis::Z, 0))));
    let _ = p.process(touchpad((Axis::H, 0), (Axis::V, -20), (Axis::Z, 0)));
    // -20 + (-32748) would reach i16::MIN
    assert!(!p.can_process(&touchpad((Axis::H, 0), (Axis::V, -32748), (Axis::Z, 0))));
    assert!(p.can_process(&touchpad((Axis::H, 0), (Axis::V, -32747), (Axis::Z, 0))));
    assert!(p.can_process(&InputEvent::Other(1u32)));
}

fn scroll_run(natural_x: bool, natural_y: bool, moves: &[(i16, i16)]) -> (Vec<Option<MouseReport>>, ProcessorState) {
    let mut p = Iqs5xxProcessor::new(
        (),
        Iqs5xxProcessorConfig { scroll_divisor: 10, natural_scroll_x: natural_x, natural_scroll_y: natural_y },
    );
    let mut out = Vec::new();
    for &(h, v) in moves {
        let (res, reps) = p.process(touchpad((Axis::H, h), (Axis::V, v), (Axis::Z, 0)));
        assert!(matches!(res, ProcessResult::Stop));
        assert!(reps.len() <= 1);
        out.push(reps.first().copied());
    }
    (out, p.state())
}

const MOVES: [(i16, i16); 6] = [(7, -3), (7, -9), (-25, 4), (1270, 13), (-1, -1), (33, -44)];

#[test]
fn scroll_is_never_lost_beyond_one_divisor() {
    let (reps, st) = scroll_run(false, false, &MOVES);
    let pan: i32 = reps.iter().flatten().map(|r| r.pan as i32).sum();
    let wheel: i32 = reps.iter().flatten().map(|r| r.wheel as i32).sum();
    let sx: i32 = MOVES.iter().map(|m| m.0 as i32).sum();
    let sy: i32 = MOVES.iter().map(|m| m.1 as i32).sum();
    assert_eq!(sx, 10 * pan + st.scroll_x_acc as i32);
    assert_eq!(sy, 10 * wheel + st.scroll_y_acc as i32);
    assert!((sx - 10 * pan).abs() < 10);
    assert!((sy - 10 * wheel).abs() < 10);
    assert_eq!((pan, wheel), (129, -4));
}

#[test]
fn natural_x_negates_pan_only() {
    let (plain, _) = scroll_run(false, false, &MOVES);
    let (flipped, _) = scroll_run(true, false, &MOVES);
    assert_eq!(plain.len(), flipped.len());
    for (a, b) in plain.iter().zip(flipped.iter()) {
        match (a, b) {
            (None, None) => {}
            (Some(a), Some(b)) => {
                assert_eq!(b.pan, -a.pan);
                assert_eq!((b.buttons, b.x, b.y, b.wheel), (a.buttons, a.x, a.y, a.wheel));
            }
            _ => panic!("one sent a report and the other did not"),
        }
    }
}

#[test]
fn natural_y_negates_wheel_only() {
    let (plain, _) = scroll_run(false, false, &MOVES);
    let (flipped, _) = scroll_run(false, true, &MOVES);
    assert_eq!(plain.len(), flipped.len());
    for (a, b) in plain.iter().zip(flipped.iter()) {
        match (a, b) {
            (None, None) => {}
            (Some(a), Some(b)) => {
                assert_eq!(b.wheel, -a.wheel);
                assert_eq!((b.buttons, b.x, b.y, b.pan), (a.buttons, a.x, a.y, a.pan));
            }
            _ => panic!("one sent a report and the other did not"),
        }
    }
}

#[test]
fn handle_scroll_keeps_remainder_below_divisor() {
    let mut p = processor(10);
    let mut pan = 0i32;
    let mut wheel = 0i32;
    for &(h, v) in MOVES.iter() {
        if let Some(r) = p.handle_scroll(h, v) {
            assert!(r.pan != 0 || r.wheel != 0);
            pan += r.pan as i32;
            wheel += r.wheel as i32;
        }
    }
    assert_eq!((pan, wheel), (129, -4));
    assert_eq!(p.state(), ProcessorState { buttons: 0, scroll_x_acc: 1, scroll_y_acc: 0 });
}

#[test]
fn device_reads_only_after_a_successful_init() {
    let mut d = device();
    assert_eq!(d.begin_init(), InitGate::Attempt);
    assert_eq!(d.finish_init(false), InitOutcome::RetryAfterMs(100));
    assert_ne!(d.begin_init(), InitGate::Ready);
    assert_eq!(d.finish_init(true), InitOutcome::Ready);
    assert_eq!(d.begin_init(), InitGate::Ready);
    assert_eq!(d.init_state(), InitState::Ready);
}
