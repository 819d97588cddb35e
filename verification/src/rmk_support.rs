//! Keyboard-firmware integration: a polling device that turns reports into
//! input events, and a processor that turns those events into mouse reports.
//!
//! The device emits a touchpad event (X/Y axes) for motion, a touchpad event
//! (H/V axes) for two-finger scroll, and custom events for taps and for
//! press-and-hold. The processor converts them into mouse reports: x/y
//! motion, wheel/pan scrolling and button states.

use vstd::prelude::*;
use crate::config::Iqs5xxConfig;
use crate::driver::{end_session_write, Iqs5xx, RegWrite, Step};
use crate::event::{event_of, Event};
use crate::registers;
use crate::report::Report;

verus! {

/// Tag of a custom event that clicks a button (press, then release).
pub const CUSTOM_TAG_CLICK: u8 = 1;
/// Tag of a custom event that sets a button's state.
pub const CUSTOM_TAG_BUTTON: u8 = 2;
/// The left mouse button.
pub const BUTTON_LEFT: u8 = 1;
/// The right mouse button.
pub const BUTTON_RIGHT: u8 = 2;
/// Initialisation attempts before the device gives up.
pub const MAX_INIT_RETRIES: u8 = 3;
/// Pause between two initialisation attempts.
pub const INIT_RETRY_DELAY_MS: u64 = 100;
/// Poll interval of a device made with [`Iqs5xxDevice::new`].
pub const DEFAULT_POLL_INTERVAL_MS: u64 = 5;

/// An axis of a pointing event.
#[derive(Debug, Clone, Copy, PartialEq, Eq, Structural)]
pub enum Axis {
    X,
    Y,
    Z,
    H,
    V,
}

/// Whether an axis value is relative or absolute.
#[derive(Debug, Clone, Copy, PartialEq, Eq, Structural)]
pub enum AxisValType {
    Rel,
    Abs,
}

/// One axis value of a pointing event.
#[derive(Debug, Clone, Copy, PartialEq, Eq, Structural)]
pub struct AxisEvent {
    pub typ: AxisValType,
    pub axis: Axis,
    pub value: i16,
}

/// A touchpad event: three axis values from one finger.
#[derive(Debug, Clone, Copy)]
pub struct TouchpadEvent {
    pub finger: u8,
    pub axis: [AxisEvent; 3],
}

/// An input event as the keyboard firmware passes it between devices and
/// processors. `Other` carries any other event of the firmware untouched.
#[derive(Debug, Clone, Copy)]
pub enum InputEvent<O> {
    Touchpad(TouchpadEvent),
    Custom([u8; 16]),
    Other(O),
}

/// What a processor did with an event.
#[derive(Debug)]
pub enum ProcessResult<O> {
    /// The event was consumed.
    Stop,
    /// The event is not this processor's; pass it on.
    Continue(InputEvent<O>),
}

/// A HID mouse report.
#[derive(Debug, Clone, Copy, PartialEq, Eq, Structural)]
pub struct MouseReport {
    pub buttons: u8,
    pub x: i8,
    pub y: i8,
    pub wheel: i8,
    pub pan: i8,
}

// ---------------------------------------------------------------------------
// Events emitted by the device
// ---------------------------------------------------------------------------

/// The relative touchpad event with values `a` and `b` on axes `first` and
/// `second`, and 0 on Z.
pub open spec fn touchpad_event_of<O>(first: Axis, a: i16, second: Axis, b: i16) -> InputEvent<O> {
    InputEvent::Touchpad(
        TouchpadEvent {
            finger: 0,
            axis: [
                AxisEvent { typ: AxisValType::Rel, axis: first, value: a },
                AxisEvent { typ: AxisValType::Rel, axis: second, value: b },
                AxisEvent { typ: AxisValType::Rel, axis: Axis::Z, value: 0 },
            ],
        },
    )
}

/// The custom payload `[tag, button, third, 0, ...]`.
pub open spec fn custom_data(tag: u8, button: u8, third: u8) -> [u8; 16] {
    [tag, button, third, 0, 0, 0, 0, 0, 0, 0, 0, 0, 0, 0, 0, 0]
}

/// The custom event that clicks `button`.
pub open spec fn click_event<O>(button: u8) -> InputEvent<O> {
    InputEvent::Custom(custom_data(CUSTOM_TAG_CLICK, button, 0))
}

/// The custom event that presses (`pressed`) or releases `button`.
pub open spec fn button_event<O>(button: u8, pressed: bool) -> InputEvent<O> {
    InputEvent::Custom(custom_data(CUSTOM_TAG_BUTTON, button, if pressed { 1 } else { 0 }))
}

fn touchpad_event<O>(first: Axis, a: i16, second: Axis, b: i16) -> (r: InputEvent<O>)
    ensures
        r == touchpad_event_of::<O>(first, a, second, b),
{
    InputEvent::Touchpad(
        TouchpadEvent {
            finger: 0,
            axis: [
                AxisEvent { typ: AxisValType::Rel, axis: first, value: a },
                AxisEvent { typ: AxisValType::Rel, axis: second, value: b },
                AxisEvent { typ: AxisValType::Rel, axis: Axis::Z, value: 0 },
            ],
        },
    )
}

/// What the device does with a report it has read.
#[derive(Debug)]
pub enum ReportAction<O> {
    /// The device reset: acknowledge it (see [`Iqs5xxDevice::reset_ack_steps`])
    /// and emit nothing.
    AcknowledgeReset,
    /// Emit this event.
    Emit(InputEvent<O>),
    /// Emit nothing.
    Skip,
}

/// What the device does with report `r` when press-and-hold was `hold`
/// before it: the new hold state and the action.
///
/// A reset flag is acknowledged first. Otherwise a change of the
/// press-and-hold bit presses or releases the left button; with no change,
/// motion and scroll become touchpad events, a single tap clicks the left
/// button, a two-finger tap the right one, and anything else is skipped.
pub open spec fn report_action_of<O>(hold: bool, r: Report) -> (bool, ReportAction<O>) {
    let hold_now = (r.events0 & registers::GESTURE_PRESS_HOLD) != 0;
    if r.sys_info0 & registers::SYSTEM_INFO_0_SHOW_RESET != 0 {
        (hold, ReportAction::AcknowledgeReset)
    } else if hold_now && !hold {
        (true, ReportAction::Emit(button_event(BUTTON_LEFT, true)))
    } else if !hold_now && hold {
        (false, ReportAction::Emit(button_event(BUTTON_LEFT, false)))
    } else {
        (
            hold,
            match event_of(r) {
                Event::Move { x, y } => if x == 0 && y == 0 {
                    ReportAction::Skip
                } else {
                    ReportAction::Emit(touchpad_event_of(Axis::X, x, Axis::Y, y))
                },
                Event::Scroll { x, y } => if x == 0 && y == 0 {
                    ReportAction::Skip
                } else {
                    ReportAction::Emit(touchpad_event_of(Axis::H, x, Axis::V, y))
                },
                Event::SingleTap { .. } => ReportAction::Emit(click_event(BUTTON_LEFT)),
                Event::TwoFingerTap => ReportAction::Emit(click_event(BUTTON_RIGHT)),
                _ => ReportAction::Skip,
            },
        )
    }
}

// ---------------------------------------------------------------------------
// The device
// ---------------------------------------------------------------------------

/// Where the device stands in bringing the trackpad up.
#[derive(Debug, Clone, Copy, PartialEq, Eq, Structural)]
pub enum InitState {
    /// Not tried yet.
    Pending,
    /// Trying; this many attempts have failed so far.
    Initializing(u8),
    /// Up and running.
    Ready,
    /// Given up after [`MAX_INIT_RETRIES`] failed attempts.
    Failed,
}

/// What to do before polling, given the initialisation state.
#[derive(Debug, Clone, Copy, PartialEq, Eq, Structural)]
pub enum InitGate {
    /// The trackpad is up: poll it.
    Ready,
    /// Initialisation was given up: skip this poll.
    GaveUp,
    /// Run the power-up sequence now and report how it went
    /// ([`Iqs5xxDevice::finish_init`]).
    Attempt,
}

/// How an initialisation attempt ended.
#[derive(Debug, Clone, Copy, PartialEq, Eq, Structural)]
pub enum InitOutcome {
    /// The trackpad is up.
    Ready,
    /// The last allowed attempt failed; no more are made.
    GaveUp,
    /// The attempt failed; pause this long before the next poll.
    RetryAfterMs(u64),
}

/// The state after asking whether to initialise, and the answer.
pub open spec fn init_gate_of(s: InitState) -> (InitState, InitGate) {
    match s {
        InitState::Ready => (InitState::Ready, InitGate::Ready),
        InitState::Failed => (InitState::Failed, InitGate::GaveUp),
        InitState::Pending => (InitState::Initializing(0), InitGate::Attempt),
        InitState::Initializing(n) => (InitState::Initializing(n), InitGate::Attempt),
    }
}

/// The state after an attempt that had `failed` earlier failures and
/// succeeded (`ok`) or not, and the outcome.
pub open spec fn init_outcome_of(failed: u8, ok: bool) -> (InitState, InitOutcome) {
    if ok {
        (InitState::Ready, InitOutcome::Ready)
    } else if failed as int + 1 >= MAX_INIT_RETRIES as int {
        (InitState::Failed, InitOutcome::GaveUp)
    } else {
        (InitState::Initializing((failed + 1) as u8), InitOutcome::RetryAfterMs(INIT_RETRY_DELAY_MS))
    }
}

/// A trackpad polled by the keyboard firmware.
pub struct Iqs5xxDevice<I2C, RDY, RST> {
    driver: Iqs5xx<I2C, RDY, RST>,
    init_state: InitState,
    poll_interval_ms: u64,
    hold_active: bool,
}

impl<I2C, RDY, RST> Iqs5xxDevice<I2C, RDY, RST> {
    pub closed spec fn driver_of(&self) -> Iqs5xx<I2C, RDY, RST> {
        self.driver
    }

    pub closed spec fn init_state_of(&self) -> InitState {
        self.init_state
    }

    pub closed spec fn poll_interval_of(&self) -> u64 {
        self.poll_interval_ms
    }

    /// Whether a press-and-hold is in progress (the left button is down).
    pub closed spec fn hold_active_of(&self) -> bool {
        self.hold_active
    }

    /// A device polled every [`DEFAULT_POLL_INTERVAL_MS`] ms.
    pub fn new(i2c: I2C, rdy: RDY, rst: RST, config: Iqs5xxConfig) -> (r: Self)
        ensures
            r.driver_of() == Iqs5xx::new_spec(i2c, Some(rdy), Some(rst), config),
            r.driver_of().i2c_of() == i2c,
            r.driver_of().rdy_pin_of() == Some(rdy),
            r.driver_of().rst_pin_of() == Some(rst),
            r.driver_of().config_of() == config,
            r.init_state_of() == InitState::Pending,
            r.poll_interval_of() == DEFAULT_POLL_INTERVAL_MS,
            !r.hold_active_of(),
    {
        Self {
            driver: Iqs5xx::new(i2c, Some(rdy), Some(rst), config),
            init_state: InitState::Pending,
            poll_interval_ms: DEFAULT_POLL_INTERVAL_MS,
            hold_active: false,
        }
    }

    /// A device polled every `poll_interval_ms` ms.
    pub fn with_poll_interval(i2c: I2C, rdy: RDY, rst: RST, config: Iqs5xxConfig, poll_interval_ms: u64) -> (r: Self)
        ensures
            r.driver_of() == Iqs5xx::new_spec(i2c, Some(rdy), Some(rst), config),
            r.driver_of().i2c_of() == i2c,
            r.driver_of().rdy_pin_of() == Some(rdy),
            r.driver_of().rst_pin_of() == Some(rst),
            r.driver_of().config_of() == config,
            r.init_state_of() == InitState::Pending,
            r.poll_interval_of() == poll_interval_ms,
            !r.hold_active_of(),
    {
        Self {
            driver: Iqs5xx::new(i2c, Some(rdy), Some(rst), config),
            init_state: InitState::Pending,
            poll_interval_ms,
            hold_active: false,
        }
    }

    /// The pause between two polls.
    pub fn poll_interval_ms(&self) -> (r: u64)
        ensures
            r == self.poll_interval_of(),
    {
        self.poll_interval_ms
    }

    /// The initialisation state.
    pub fn init_state(&self) -> (r: InitState)
        ensures
            r == self.init_state_of(),
    {
        self.init_state
    }

    /// Lends the driver out, to run the steps this device asks for.
    pub fn driver_mut(&mut self) -> (r: &mut Iqs5xx<I2C, RDY, RST>)
        ensures
            *r == old(self).driver_of(),
            final(self).driver_of() == *final(r),
            final(self).init_state_of() == old(self).init_state_of(),
            final(self).poll_interval_of() == old(self).poll_interval_of(),
            final(self).hold_active_of() == old(self).hold_active_of(),
    {
        &mut self.driver
    }

    /// First half of an initialisation try: whether the trackpad is up, was
    /// given up on, or should be set up now.
    pub fn begin_init(&mut self) -> (r: InitGate)
        ensures
            (final(self).init_state_of(), r) == init_gate_of(old(self).init_state_of()),
            final(self).driver_of() == old(self).driver_of(),
            final(self).poll_interval_of() == old(self).poll_interval_of(),
            final(self).hold_active_of() == old(self).hold_active_of(),
    {
        match self.init_state {
            InitState::Ready => InitGate::Ready,
            InitState::Failed => InitGate::GaveUp,
            InitState::Pending => {
                self.init_state = InitState::Initializing(0);
                InitGate::Attempt
            },
            InitState::Initializing(_) => InitGate::Attempt,
        }
    }

    /// Second half of an initialisation try, after [`Self::begin_init`]
    /// answered `Attempt`: `init_ok` tells whether the power-up sequence
    /// succeeded.
    pub fn finish_init(&mut self, init_ok: bool) -> (r: InitOutcome)
        requires
            old(self).init_state_of() is Initializing,
        ensures
            (final(self).init_state_of(), r) == init_outcome_of(
                old(self).init_state_of()->Initializing_0,
                init_ok,
            ),
            final(self).driver_of() == old(self).driver_of(),
            final(self).poll_interval_of() == old(self).poll_interval_of(),
            final(self).hold_active_of() == old(self).hold_active_of(),
    {
        match self.init_state {
            InitState::Initializing(failed) => {
                if init_ok {
                    self.init_state = InitState::Ready;
                    return InitOutcome::Ready;
                }
                if failed >= MAX_INIT_RETRIES - 1 {
                    self.init_state = InitState::Failed;
                    return InitOutcome::GaveUp;
                }
                self.init_state = InitState::Initializing(failed + 1);
                InitOutcome::RetryAfterMs(INIT_RETRY_DELAY_MS)
            },
            _ => InitOutcome::GaveUp,
        }
    }

    /// The custom event that clicks `button`.
    pub fn custom_click<O>(button: u8) -> (r: InputEvent<O>)
        ensures
            r == click_event::<O>(button),
    {
        InputEvent::Custom([CUSTOM_TAG_CLICK, button, 0, 0, 0, 0, 0, 0, 0, 0, 0, 0, 0, 0, 0, 0])
    }

    /// The custom event that presses or releases `button`.
    pub fn custom_button<O>(button: u8, pressed: bool) -> (r: InputEvent<O>)
        ensures
            r == button_event::<O>(button, pressed),
    {
        let p: u8 = if pressed { 1 } else { 0 };
        InputEvent::Custom([CUSTOM_TAG_BUTTON, button, p, 0, 0, 0, 0, 0, 0, 0, 0, 0, 0, 0, 0, 0])
    }

    /// The steps that acknowledge a device reset: wait for ready, set
    /// ACK_RESET in SYSTEM_CONTROL_0, close the window.
    pub fn reset_ack_steps() -> (r: Vec<Step>)
        ensures
            r@ == seq![
                Step::WaitReady,
                Step::Write(
                    RegWrite::Byte {
                        reg: registers::SYSTEM_CONTROL_0,
                        value: registers::SYSTEM_CONTROL_0_ACK_RESET,
                    },
                ),
                Step::Write(end_session_write()),
            ],
    {
        let mut s: Vec<Step> = Vec::new();
        s.push(Step::WaitReady);
        s.push(
            Step::Write(
                RegWrite::Byte { reg: registers::SYSTEM_CONTROL_0, value: registers::SYSTEM_CONTROL_0_ACK_RESET },
            ),
        );
        s.push(Step::Write(RegWrite::end_session()));
        s
    }

    /// Decides what to do with a report read from the trackpad, and tracks
    /// the press-and-hold state.
    pub fn on_report<O>(&mut self, report: &Report) -> (r: ReportAction<O>)
        ensures
            (final(self).hold_active_of(), r) == report_action_of::<O>(old(self).hold_active_of(), *report),
            final(self).driver_of() == old(self).driver_of(),
            final(self).init_state_of() == old(self).init_state_of(),
            final(self).poll_interval_of() == old(self).poll_interval_of(),
    {
        if report.sys_info0 & registers::SYSTEM_INFO_0_SHOW_RESET != 0 {
            return ReportAction::AcknowledgeReset;
        }
        let hold_now = (report.events0 & registers::GESTURE_PRESS_HOLD) != 0;
        if hold_now && !self.hold_active {
            self.hold_active = true;
            return ReportAction::Emit(Self::custom_button(BUTTON_LEFT, true));
        }
        if !hold_now && self.hold_active {
            self.hold_active = false;
            return ReportAction::Emit(Self::custom_button(BUTTON_LEFT, false));
        }
        match Event::from_report(report) {
            Event::Move { x, y } => {
                if x == 0 && y == 0 {
                    ReportAction::Skip
                } else {
                    ReportAction::Emit(touchpad_event(Axis::X, x, Axis::Y, y))
                }
            },
            Event::Scroll { x, y } => {
                if x == 0 && y == 0 {
                    ReportAction::Skip
                } else {
                    ReportAction::Emit(touchpad_event(Axis::H, x, Axis::V, y))
                }
            },
            Event::SingleTap { .. } => ReportAction::Emit(Self::custom_click(BUTTON_LEFT)),
            Event::TwoFingerTap => ReportAction::Emit(Self::custom_click(BUTTON_RIGHT)),
            _ => ReportAction::Skip,
        }
    }
}


// ---------------------------------------------------------------------------
// The processor
// ---------------------------------------------------------------------------

/// How trackpad events become mouse reports.
#[derive(Debug, Clone, Copy)]
pub struct Iqs5xxProcessorConfig {
    /// Scroll units per wheel/pan step (values below 1 count as 1).
    pub scroll_divisor: i16,
    /// Invert horizontal scrolling.
    pub natural_scroll_x: bool,
    /// Invert vertical scrolling.
    pub natural_scroll_y: bool,
}

pub open spec fn default_processor_config() -> Iqs5xxProcessorConfig {
    Iqs5xxProcessorConfig { scroll_divisor: 32, natural_scroll_x: false, natural_scroll_y: false }
}

impl Default for Iqs5xxProcessorConfig {
    fn default() -> (r: Self)
        ensures
            r == default_processor_config(),
    {
        Self { scroll_divisor: 32, natural_scroll_x: false, natural_scroll_y: false }
    }
}

/// What a processor remembers between events.
#[derive(Debug, Clone, Copy, PartialEq, Eq, Structural)]
pub struct ProcessorState {
    /// Buttons held down, one bit each (left = bit 0, right = bit 1).
    pub buttons: u8,
    /// Horizontal scroll not yet sent.
    pub scroll_x_acc: i16,
    /// Vertical scroll not yet sent.
    pub scroll_y_acc: i16,
}

/// The bit of a button in the buttons byte; other buttons have none.
pub open spec fn button_mask_of(button: u8) -> u8 {
    if button == BUTTON_LEFT {
        1
    } else if button == BUTTON_RIGHT {
        2
    } else {
        0
    }
}

/// The bit of a button in the buttons byte; other buttons have none.
pub fn button_mask(button: u8) -> (r: u8)
    ensures
        r == button_mask_of(button),
{
    match button {
        BUTTON_LEFT => 1,
        BUTTON_RIGHT => 2,
        _ => 0,
    }
}

/// `v` limited to the range of `i8`.
pub open spec fn clamp_i8(v: int) -> i8 {
    if v < -128 {
        -128i8
    } else if v > 127 {
        127i8
    } else {
        v as i8
    }
}

fn clamp_to_i8(v: i16) -> (r: i8)
    ensures
        r == clamp_i8(v as int),
{
    if v < -128 {
        -128
    } else if v > 127 {
        127
    } else {
        v as i8
    }
}

/// A report of the buttons alone.
pub open spec fn buttons_report(buttons: u8) -> MouseReport {
    MouseReport { buttons, x: 0, y: 0, wheel: 0, pan: 0 }
}

/// A report of motion, each axis limited to the range of `i8`.
pub open spec fn motion_report(buttons: u8, x: i16, y: i16) -> MouseReport {
    MouseReport { buttons, x: clamp_i8(x as int), y: clamp_i8(y as int), wheel: 0, pan: 0 }
}

/// The scroll divisor in use: the configured one, at least 1.
pub open spec fn divisor_of(c: Iqs5xxProcessorConfig) -> int {
    if c.scroll_divisor < 1 {
        1
    } else {
        c.scroll_divisor as int
    }
}

/// A scroll value, negated for natural scrolling.
pub open spec fn oriented(v: i16, natural: bool) -> int {
    if natural {
        -(v as int)
    } else {
        v as int
    }
}

/// `v` limited to the range of `i16` (what a saturating addition gives).
pub open spec fn sat_i16(v: int) -> int {
    if v > 32767 {
        32767
    } else if v < -32768 {
        -32768
    } else {
        v
    }
}

/// Magnitude of an integer.
pub open spec fn abs_int(v: int) -> int {
    if v < 0 {
        -v
    } else {
        v
    }
}

/// Quotient rounded toward zero, as integer division does in Rust.
pub open spec fn tdiv(a: int, d: int) -> int {
    if a >= 0 {
        a / d
    } else {
        -((-a) / d)
    }
}

/// Remainder with the sign of the dividend, as `%` does in Rust.
pub open spec fn trem(a: int, d: int) -> int {
    if a >= 0 {
        a % d
    } else {
        -((-a) % d)
    }
}

/// The accumulator of one scroll axis after adding `v`, before any step is
/// taken out: the sum, saturated.
pub open spec fn scroll_sum(acc: i16, v: i16, natural: bool) -> int {
    sat_i16(acc as int + oriented(v, natural))
}

/// One scroll axis: the whole steps that leave the accumulator once the new
/// value is added, and what stays. Once the sum reaches the divisor in
/// magnitude, it is split into steps and the remainder.
pub open spec fn scroll_axis(acc: i16, v: i16, natural: bool, d: int) -> (int, int) {
    let s = scroll_sum(acc, v, natural);
    if abs_int(s) >= d {
        (tdiv(s, d), trem(s, d))
    } else {
        (0, s)
    }
}

/// Scrolling one axis is defined (does not overflow): negation for natural
/// scrolling needs `v` above `i16::MIN`, and the magnitude of the sum must be
/// an `i16`.
pub open spec fn scroll_axis_defined(acc: i16, v: i16, natural: bool) -> bool {
    &&& natural ==> v != i16::MIN
    &&& scroll_sum(acc, v, natural) != i16::MIN
}

pub open spec fn scroll_defined(c: Iqs5xxProcessorConfig, st: ProcessorState, x: i16, y: i16) -> bool {
    &&& scroll_axis_defined(st.scroll_x_acc, x, c.natural_scroll_x)
    &&& scroll_axis_defined(st.scroll_y_acc, y, c.natural_scroll_y)
}

/// The state after scrolling by `x` (pan) and `y` (wheel), and the report to
/// send, if any whole step came out of either axis.
pub open spec fn scroll_of(c: Iqs5xxProcessorConfig, st: ProcessorState, x: i16, y: i16) -> (
    ProcessorState,
    Option<MouseReport>,
) {
    let d = divisor_of(c);
    let (pan, ax) = scroll_axis(st.scroll_x_acc, x, c.natural_scroll_x, d);
    let (wheel, ay) = scroll_axis(st.scroll_y_acc, y, c.natural_scroll_y, d);
    (
        ProcessorState { buttons: st.buttons, scroll_x_acc: ax as i16, scroll_y_acc: ay as i16 },
        if pan != 0 || wheel != 0 {
            Some(
                MouseReport {
                    buttons: st.buttons,
                    x: 0,
                    y: 0,
                    wheel: clamp_i8(wheel),
                    pan: clamp_i8(pan),
                },
            )
        } else {
            None
        },
    )
}

/// The value of the last of the first `n` axis events on `a`, or 0.
pub open spec fn last_axis_value(axes: Seq<AxisEvent>, a: Axis, n: int) -> i16
    decreases n,
{
    if n <= 0 {
        0
    } else if axes[n - 1].axis == a {
        axes[n - 1].value
    } else {
        last_axis_value(axes, a, n - 1)
    }
}

/// The value a touchpad event gives an axis: that of the last axis event on
/// it, or 0 when none is.
pub open spec fn axis_value(tp: TouchpadEvent, a: Axis) -> i16 {
    if tp.axis@[2].axis == a {
        tp.axis@[2].value
    } else if tp.axis@[1].axis == a {
        tp.axis@[1].value
    } else if tp.axis@[0].axis == a {
        tp.axis@[0].value
    } else {
        0
    }
}

/// Processing `ev` is defined: a touchpad event that scrolls must scroll
/// without overflow.
pub open spec fn process_defined<O>(c: Iqs5xxProcessorConfig, st: ProcessorState, ev: InputEvent<O>) -> bool {
    match ev {
        InputEvent::Touchpad(tp) => {
            let h = axis_value(tp, Axis::H);
            let v = axis_value(tp, Axis::V);
            (h != 0 || v != 0) ==> scroll_defined(c, st, h, v)
        },
        _ => true,
    }
}

/// Reports as a sequence.
pub open spec fn reports_of(r: Option<MouseReport>) -> Seq<MouseReport> {
    match r {
        Some(m) => seq![m],
        None => seq![],
    }
}

/// The state after processing `ev`, the result, and the reports sent, in
/// order.
///
/// A touchpad event scrolls when its H or V value is nonzero, else moves
/// when its X or Y value is nonzero, else does nothing; it is consumed either
/// way. A click event presses the button and releases it again (two
/// reports); a button event presses or releases it (one report). Every other
/// event is passed on untouched.
pub open spec fn process_of<O>(c: Iqs5xxProcessorConfig, st: ProcessorState, ev: InputEvent<O>) -> (
    ProcessorState,
    ProcessResult<O>,
    Seq<MouseReport>,
) {
    match ev {
        InputEvent::Touchpad(tp) => {
            let x = axis_value(tp, Axis::X);
            let y = axis_value(tp, Axis::Y);
            let h = axis_value(tp, Axis::H);
            let v = axis_value(tp, Axis::V);
            if h != 0 || v != 0 {
                let (st2, rep) = scroll_of(c, st, h, v);
                (st2, ProcessResult::Stop, reports_of(rep))
            } else if x != 0 || y != 0 {
                (st, ProcessResult::Stop, seq![motion_report(st.buttons, x, y)])
            } else {
                (st, ProcessResult::Stop, seq![])
            }
        },
        InputEvent::Custom(data) => {
            let m = button_mask_of(data[1]);
            if data[0] == CUSTOM_TAG_CLICK {
                let pressed = st.buttons | m;
                let released = pressed & !m;
                (
                    ProcessorState { buttons: released, ..st },
                    ProcessResult::Stop,
                    seq![buttons_report(pressed), buttons_report(released)],
                )
            } else if data[0] == CUSTOM_TAG_BUTTON {
                let b = if data[2] != 0 {
                    st.buttons | m
                } else {
                    st.buttons & !m
                };
                (ProcessorState { buttons: b, ..st }, ProcessResult::Stop, seq![buttons_report(b)])
            } else {
                (st, ProcessResult::Continue(ev), seq![])
            }
        },
        InputEvent::Other(_) => (st, ProcessResult::Continue(ev), seq![]),
    }
}

/// Whether scrolling one axis is defined; see [`scroll_axis_defined`].
fn axis_scroll_defined(acc: i16, v: i16, natural: bool) -> (r: bool)
    ensures
        r == scroll_axis_defined(acc, v, natural),
{
    if natural && v == i16::MIN {
        return false;
    }
    let o: i32 = if natural {
        -(v as i32)
    } else {
        v as i32
    };
    let sum: i32 = acc as i32 + o;
    sum > -32768
}

/// Scrolls one axis; see [`scroll_axis`].
fn scroll_axis_exec(acc: i16, v: i16, natural: bool, d: i16) -> (r: (i16, i16))
    requires
        d >= 1,
        scroll_axis_defined(acc, v, natural),
    ensures
        r.0 as int == scroll_axis(acc, v, natural, d as int).0,
        r.1 as int == scroll_axis(acc, v, natural, d as int).1,
{
    let o: i32 = if natural {
        -(v as i32)
    } else {
        v as i32
    };
    let sum: i32 = acc as i32 + o;
    let s: i16 = if sum > 32767 {
        32767
    } else if sum < -32768 {
        -32768
    } else {
        sum as i16
    };
    let a: i32 = if s < 0 {
        -(s as i32)
    } else {
        s as i32
    };
    if a >= d as i32 {
        let du: u32 = d as u32;
        if s >= 0 {
            let m: u32 = s as u32;
            assert(m / du <= m) by (nonlinear_arith)
                requires
                    du >= 1,
            ;
            let q: u32 = m / du;
            let rem: u32 = m % du;
            (q as i16, rem as i16)
        } else {
            let m: u32 = (-(s as i32)) as u32;
            assert(m / du <= m) by (nonlinear_arith)
                requires
                    du >= 1,
            ;
            let q: u32 = m / du;
            let rem: u32 = m % du;
            (-(q as i32) as i16, -(rem as i32) as i16)
        }
    } else {
        (0, s)
    }
}

/// A processor of trackpad events into mouse reports. `K` is the keymap
/// handle the firmware gives its processors.
pub struct Iqs5xxProcessor<K> {
    keymap: K,
    config: Iqs5xxProcessorConfig,
    buttons: u8,
    scroll_x_acc: i16,
    scroll_y_acc: i16,
}

impl<K> Iqs5xxProcessor<K> {
    pub closed spec fn keymap_of(&self) -> K {
        self.keymap
    }

    pub closed spec fn config_of(&self) -> Iqs5xxProcessorConfig {
        self.config
    }

    pub closed spec fn state_of(&self) -> ProcessorState {
        ProcessorState {
            buttons: self.buttons,
            scroll_x_acc: self.scroll_x_acc,
            scroll_y_acc: self.scroll_y_acc,
        }
    }

    /// A processor with no button down and nothing accumulated.
    pub fn new(keymap: K, config: Iqs5xxProcessorConfig) -> (r: Self)
        ensures
            r.keymap_of() == keymap,
            r.config_of() == config,
            r.state_of() == (ProcessorState { buttons: 0, scroll_x_acc: 0, scroll_y_acc: 0 }),
    {
        Self { keymap, config, buttons: 0, scroll_x_acc: 0, scroll_y_acc: 0 }
    }

    pub fn get_keymap(&self) -> (r: &K)
        ensures
            *r == self.keymap_of(),
    {
        &self.keymap
    }

    /// What the processor remembers.
    pub fn state(&self) -> (r: ProcessorState)
        ensures
            r == self.state_of(),
    {
        ProcessorState {
            buttons: self.buttons,
            scroll_x_acc: self.scroll_x_acc,
            scroll_y_acc: self.scroll_y_acc,
        }
    }

    /// Whether processing `event` is defined (see [`process_defined`]): a
    /// touchpad event that scrolls must neither negate `i16::MIN` for natural
    /// scrolling nor bring an accumulator to `i16::MIN`.
    pub fn can_process<O>(&self, event: &InputEvent<O>) -> (r: bool)
        ensures
            r == process_defined(self.config_of(), self.state_of(), *event),
    {
        match event {
            InputEvent::Touchpad(tp) => {
                let mut h: i16 = 0;
                let mut v: i16 = 0;
                for i in 0..3
                    invariant
                        h == last_axis_value(tp.axis@, Axis::H, i as int),
                        v == last_axis_value(tp.axis@, Axis::V, i as int),
                {
                    match tp.axis[i].axis {
                        Axis::H => h = tp.axis[i].value,
                        Axis::V => v = tp.axis[i].value,
                        _ => {},
                    }
                }
                assert(h == axis_value(*tp, Axis::H) && v == axis_value(*tp, Axis::V)) by {
                    reveal_with_fuel(last_axis_value, 4);
                }
                if h == 0 && v == 0 {
                    return true;
                }
                axis_scroll_defined(self.scroll_x_acc, h, self.config.natural_scroll_x)
                    && axis_scroll_defined(self.scroll_y_acc, v, self.config.natural_scroll_y)
            },
            _ => true,
        }
    }

    /// The report of the current button state.
    fn button_state_report(&self) -> (r: MouseReport)
        ensures
            r == buttons_report(self.buttons),
    {
        MouseReport { buttons: self.buttons, x: 0, y: 0, wheel: 0, pan: 0 }
    }

    /// Presses and releases a button: the two reports to send.
    fn handle_click(&mut self, button: u8) -> (r: (MouseReport, MouseReport))
        ensures
            final(self).buttons == (old(self).buttons | button_mask_of(button)) & !button_mask_of(button),
            r.0 == buttons_report(old(self).buttons | button_mask_of(button)),
            r.1 == buttons_report(final(self).buttons),
            final(self).keymap == old(self).keymap,
            final(self).config == old(self).config,
            final(self).scroll_x_acc == old(self).scroll_x_acc,
            final(self).scroll_y_acc == old(self).scroll_y_acc,
    {
        self.buttons = self.buttons | button_mask(button);
        let pressed = self.button_state_report();
        self.buttons = self.buttons & !button_mask(button);
        let released = self.button_state_report();
        (pressed, released)
    }

    /// Presses or releases a button: the report to send.
    fn handle_button(&mut self, button: u8, pressed: bool) -> (r: MouseReport)
        ensures
            final(self).buttons == if pressed {
                old(self).buttons | button_mask_of(button)
            } else {
                old(self).buttons & !button_mask_of(button)
            },
            r == buttons_report(final(self).buttons),
            final(self).keymap == old(self).keymap,
            final(self).config == old(self).config,
            final(self).scroll_x_acc == old(self).scroll_x_acc,
            final(self).scroll_y_acc == old(self).scroll_y_acc,
    {
        if pressed {
            self.buttons = self.buttons | button_mask(button);
        } else {
            self.buttons = self.buttons & !button_mask(button);
        }
        self.button_state_report()
    }

    /// The motion report for `x`, `y`.
    fn handle_motion(&self, x: i16, y: i16) -> (r: MouseReport)
        ensures
            r == motion_report(self.buttons, x, y),
    {
        MouseReport {
            buttons: self.buttons,
            x: clamp_to_i8(x),
            y: clamp_to_i8(y),
            wheel: 0,
            pan: 0,
        }
    }

    /// Adds scroll (`x` to pan, `y` to the wheel) to the accumulators; the
    /// report to send, if any whole step came out. [`Self::process`] calls it
    /// for touchpad events whose H or V value is nonzero.
    pub fn handle_scroll(&mut self, x: i16, y: i16) -> (r: Option<MouseReport>)
        requires
            scroll_defined(old(self).config_of(), old(self).state_of(), x, y),
        ensures
            (final(self).state_of(), r) == scroll_of(old(self).config_of(), old(self).state_of(), x, y),
            final(self).keymap_of() == old(self).keymap_of(),
            final(self).config_of() == old(self).config_of(),
    {
        let div: i16 = if self.config.scroll_divisor < 1 {
            1
        } else {
            self.config.scroll_divisor
        };
        let (pan, ax) = scroll_axis_exec(self.scroll_x_acc, x, self.config.natural_scroll_x, div);
        let (wheel, ay) = scroll_axis_exec(self.scroll_y_acc, y, self.config.natural_scroll_y, div);
        self.scroll_x_acc = ax;
        self.scroll_y_acc = ay;
        if pan != 0 || wheel != 0 {
            Some(
                MouseReport {
                    buttons: self.buttons,
                    x: 0,
                    y: 0,
                    wheel: clamp_to_i8(wheel),
                    pan: clamp_to_i8(pan),
                },
            )
        } else {
            None
        }
    }

    /// Handles one event: what becomes of it, and the mouse reports to send,
    /// in order.
    pub fn process<O>(&mut self, event: InputEvent<O>) -> (r: (ProcessResult<O>, Vec<MouseReport>))
        requires
            process_defined(old(self).config_of(), old(self).state_of(), event),
        ensures
            (final(self).state_of(), r.0, r.1@) == process_of(old(self).config_of(), old(self).state_of(), event),
            final(self).keymap_of() == old(self).keymap_of(),
            final(self).config_of() == old(self).config_of(),
    {
        let mut reports: Vec<MouseReport> = Vec::new();
        match event {
            InputEvent::Touchpad(tp) => {
                let mut x: i16 = 0;
                let mut y: i16 = 0;
                let mut h: i16 = 0;
                let mut v: i16 = 0;
                for i in 0..3
                    invariant
                        x == last_axis_value(tp.axis@, Axis::X, i as int),
                        y == last_axis_value(tp.axis@, Axis::Y, i as int),
                        h == last_axis_value(tp.axis@, Axis::H, i as int),
                        v == last_axis_value(tp.axis@, Axis::V, i as int),
                {
                    let e = tp.axis[i];
                    match e.axis {
                        Axis::X => x = e.value,
                        Axis::Y => y = e.value,
                        Axis::H => h = e.value,
                        Axis::V => v = e.value,
                        Axis::Z => {},
                    }
                }
                assert(x == axis_value(tp, Axis::X) && y == axis_value(tp, Axis::Y) && h == axis_value(
                    tp,
                    Axis::H,
                ) && v == axis_value(tp, Axis::V)) by {
                    reveal_with_fuel(last_axis_value, 4);
                }
                if h != 0 || v != 0 {
                    match self.handle_scroll(h, v) {
                        Some(rep) => reports.push(rep),
                        None => {},
                    }
                    assert(reports@ =~= reports_of(scroll_of(old(self).config_of(), old(self).state_of(), h, v).1));
                    return (ProcessResult::Stop, reports);
                }
                if x != 0 || y != 0 {
                    reports.push(self.handle_motion(x, y));
                    assert(reports@ =~= seq![motion_report(self.buttons, x, y)]);
                    return (ProcessResult::Stop, reports);
                }
                assert(reports@ =~= Seq::<MouseReport>::empty());
                (ProcessResult::Stop, reports)
            },
            InputEvent::Custom(data) => {
                if data[0] == CUSTOM_TAG_CLICK {
                    let (pressed, released) = self.handle_click(data[1]);
                    reports.push(pressed);
                    reports.push(released);
                    assert(reports@ =~= seq![pressed, released]);
                    (ProcessResult::Stop, reports)
                } else if data[0] == CUSTOM_TAG_BUTTON {
                    let rep = self.handle_button(data[1], data[2] != 0);
                    reports.push(rep);
                    assert(reports@ =~= seq![rep]);
                    (ProcessResult::Stop, reports)
                } else {
                    assert(reports@ =~= Seq::<MouseReport>::empty());
                    (ProcessResult::Continue(InputEvent::Custom(data)), reports)
                }
            },
            InputEvent::Other(o) => {
                assert(reports@ =~= Seq::<MouseReport>::empty());
                (ProcessResult::Continue(InputEvent::Other(o)), reports)
            },
        }
    }
}

// ---------------------------------------------------------------------------
// Laws
// ---------------------------------------------------------------------------

/// The state after `k` initialisation tries that all failed, starting from
/// `s`: each try is [`Iqs5xxDevice::begin_init`] followed, when it answers
/// `Attempt`, by [`Iqs5xxDevice::finish_init`] with a failure.
pub open spec fn after_failed_tries(s: InitState, k: nat) -> InitState
    decreases k,
{
    if k == 0 {
        s
    } else {
        let (s1, gate) = init_gate_of(s);
        let s2 = if gate == InitGate::Attempt {
            init_outcome_of(s1->Initializing_0, false).0
        } else {
            s1
        };
        after_failed_tries(s2, (k - 1) as nat)
    }
}

/// Starting from scratch, the device gives up after exactly
/// [`MAX_INIT_RETRIES`] failed attempts: before that it keeps count of the
/// failures, from then on it stays failed.
pub proof fn lemma_init_gives_up_after_max_retries(k: nat)
    ensures
        k < MAX_INIT_RETRIES ==> after_failed_tries(InitState::Pending, k) == (if k == 0 {
            InitState::Pending
        } else {
            InitState::Initializing(k as u8)
        }),
        k >= MAX_INIT_RETRIES ==> after_failed_tries(InitState::Pending, k) == InitState::Failed,
    decreases k,
{
    reveal_with_fuel(after_failed_tries, 4);
    if k > 3 {
        lemma_failed_stays_failed((k - 3) as nat);
        lemma_after_failed_tries_split(InitState::Pending, 3, (k - 3) as nat);
    }
}

proof fn lemma_after_failed_tries_split(s: InitState, a: nat, b: nat)
    ensures
        after_failed_tries(s, a + b) == after_failed_tries(after_failed_tries(s, a), b),
    decreases a,
{
    if a > 0 {
        let (s1, gate) = init_gate_of(s);
        let s2 = if gate == InitGate::Attempt {
            init_outcome_of(s1->Initializing_0, false).0
        } else {
            s1
        };
        lemma_after_failed_tries_split(s2, (a - 1) as nat, b);
        assert((a + b - 1) as nat == (a - 1) as nat + b);
    }
}

proof fn lemma_failed_stays_failed(k: nat)
    ensures
        after_failed_tries(InitState::Failed, k) == InitState::Failed,
    decreases k,
{
    if k > 0 {
        lemma_failed_stays_failed((k - 1) as nat);
    }
}

/// One initialisation try from state `s`: [`Iqs5xxDevice::begin_init`],
/// then, when it answers `Attempt`, [`Iqs5xxDevice::finish_init`] with
/// whether the power-up sequence succeeded.
pub open spec fn after_try(s: InitState, ok: bool) -> InitState {
    let (s1, gate) = init_gate_of(s);
    if gate == InitGate::Attempt {
        init_outcome_of(s1->Initializing_0, ok).0
    } else {
        s1
    }
}

/// The state after one try per entry of `oks`, made in turn from `s`.
pub open spec fn after_tries(s: InitState, oks: Seq<bool>) -> InitState
    decreases oks.len(),
{
    if oks.len() == 0 {
        s
    } else {
        after_try(after_tries(s, oks.drop_last()), oks.last())
    }
}

/// Reports are read only from a trackpad that is up, and it comes up only
/// through a successful power-up sequence. The initialisation gate lets a
/// poll go ahead exactly when the trackpad is up; an attempt brings it up
/// exactly when the sequence succeeded. Starting from the pending state, the
/// trackpad is up after a series of tries exactly when one of the first
/// [`MAX_INIT_RETRIES`] tries succeeded; when none of them did, the device
/// gives up for good after that many.
pub proof fn lemma_reads_only_after_successful_init(s: InitState, failed: u8, ok: bool, oks: Seq<bool>)
    ensures
        (init_gate_of(s).1 == InitGate::Ready) == (s == InitState::Ready),
        init_gate_of(s).0 == InitState::Ready ==> s == InitState::Ready,
        (init_outcome_of(failed, ok).0 == InitState::Ready) == ok,
        (init_outcome_of(failed, ok).1 == InitOutcome::Ready) == ok,
        (after_tries(InitState::Pending, oks) == InitState::Ready) == (exists|i: int|
            0 <= i < oks.len() && i < MAX_INIT_RETRIES && #[trigger] oks[i]),
        (forall|i: int| 0 <= i < oks.len() && i < MAX_INIT_RETRIES ==> !#[trigger] oks[i]) && oks.len()
            >= MAX_INIT_RETRIES ==> after_tries(InitState::Pending, oks) == InitState::Failed,
{
    lemma_tries_from_scratch(oks);
}

proof fn lemma_tries_from_scratch(oks: Seq<bool>)
    ensures
        ({
            let st = after_tries(InitState::Pending, oks);
            let up = exists|i: int| 0 <= i < oks.len() && i < MAX_INIT_RETRIES && #[trigger] oks[i];
            &&& up ==> st == InitState::Ready
            &&& !up && oks.len() >= MAX_INIT_RETRIES ==> st == InitState::Failed
            &&& !up && oks.len() == 0 ==> st == InitState::Pending
            &&& !up && 0 < oks.len() < MAX_INIT_RETRIES ==> st == InitState::Initializing(oks.len() as u8)
        }),
    decreases oks.len(),
{
    if oks.len() > 0 {
        let init = oks.drop_last();
        lemma_tries_from_scratch(init);
        let last = oks.len() - 1;
        assert forall|j: int| 0 <= j < init.len() implies init[j] == oks[j] by {}
        let up_init = exists|i: int| 0 <= i < init.len() && i < MAX_INIT_RETRIES && #[trigger] init[i];
        if up_init {
            let i = choose|i: int| 0 <= i < init.len() && i < MAX_INIT_RETRIES && #[trigger] init[i];
            assert(oks[i]);
        } else if oks[last] && last < MAX_INIT_RETRIES {
            assert(oks[last]);
        } else {
            assert forall|i: int| 0 <= i < oks.len() && i < MAX_INIT_RETRIES implies !#[trigger] oks[i] by {
                if i < init.len() {
                    assert(init[i] == oks[i]);
                }
            }
        }
    }
}

/// Once the trackpad is up, or given up on, neither half of an
/// initialisation try changes that.
pub proof fn lemma_init_final_states_stay(s: InitState, ok: bool)
    requires
        s == InitState::Ready || s == InitState::Failed,
    ensures
        init_gate_of(s).0 == s,
        init_gate_of(s).1 != InitGate::Attempt,
{
}

/// While a press-and-hold is in progress, a report that still shows the
/// hold (and no device reset) changes nothing and emits nothing, whatever
/// else it carries: the held finger's motion is neither sent as motion nor
/// as scroll.
pub proof fn lemma_hold_in_progress_emits_nothing<O>(r: Report)
    requires
        r.sys_info0 & registers::SYSTEM_INFO_0_SHOW_RESET == 0,
        r.events0 & registers::GESTURE_PRESS_HOLD != 0,
    ensures
        report_action_of::<O>(true, r) == (true, ReportAction::<O>::Skip),
{
    let e0 = r.events0;
    assert(e0 & 2u8 != 0 ==> e0 != 0 && e0 != 1 && e0 != 4 && e0 != 8 && e0 != 16 && e0 != 32) by (bit_vector);
}

/// Touchpad events come only from motion and two-finger scroll, with the
/// report's relative motion as their values: one is emitted exactly when no
/// reset is flagged, no hold is in progress or starting, GESTURE_EVENTS_0 is
/// clear, the motion is nonzero, and GESTURE_EVENTS_1 is either clear (then
/// the event is on the X/Y axes) or exactly the scroll bit (then it is on
/// the H/V axes). The hold state is left as it was.
pub proof fn lemma_touchpad_events_are_motion_or_scroll<O>(hold: bool, r: Report)
    ensures
        ({
            let (h2, a) = report_action_of::<O>(hold, r);
            let reported = r.sys_info0 & registers::SYSTEM_INFO_0_SHOW_RESET == 0 && !hold && r.events0 == 0 && (
            r.rel_x != 0 || r.rel_y != 0);
            &&& (a matches ReportAction::Emit(InputEvent::Touchpad(_))) == (reported && (r.events1 == 0 || r.events1
                == registers::GESTURE_SCROLL))
            &&& a matches ReportAction::Emit(InputEvent::Touchpad(tp)) ==> {
                &&& h2 == hold
                &&& tp.finger == 0
                &&& tp.axis@[0].typ == AxisValType::Rel && tp.axis@[0].value == r.rel_x
                &&& tp.axis@[1].typ == AxisValType::Rel && tp.axis@[1].value == r.rel_y
                &&& tp.axis@[2] == (AxisEvent { typ: AxisValType::Rel, axis: Axis::Z, value: 0 })
                &&& r.events1 == 0 ==> tp.axis@[0].axis == Axis::X && tp.axis@[1].axis == Axis::Y
                &&& r.events1 == registers::GESTURE_SCROLL ==> tp.axis@[0].axis == Axis::H && tp.axis@[1].axis
                    == Axis::V
            }
        }),
{
    let e0 = r.events0;
    assert(e0 == 0 ==> e0 & 2u8 == 0) by (bit_vector);
    assert(e0 & 2u8 != 0 ==> e0 != 0) by (bit_vector);
}

/// Custom events come only from taps and from the start or end of a
/// press-and-hold: a click of the left button from a lone single tap, a
/// click of the right button from a lone two-finger tap, a left press when
/// the hold bit appears and a left release when it goes; never while a reset
/// is flagged.
pub proof fn lemma_custom_events_come_from_taps_and_hold<O>(hold: bool, r: Report)
    ensures
        ({
            let (h2, a) = report_action_of::<O>(hold, r);
            let hold_bit = r.events0 & registers::GESTURE_PRESS_HOLD != 0;
            a matches ReportAction::Emit(InputEvent::Custom(d)) ==> {
                &&& r.sys_info0 & registers::SYSTEM_INFO_0_SHOW_RESET == 0
                &&& d[1] == BUTTON_LEFT || d[1] == BUTTON_RIGHT
                &&& forall|k: int| 3 <= k < 16 ==> d[k] == 0
                &&& d[0] == CUSTOM_TAG_BUTTON ==> d[1] == BUTTON_LEFT && (d[2] == 1) == hold_bit && hold_bit != hold
                    && h2 == hold_bit
                &&& d[0] == CUSTOM_TAG_CLICK ==> d[2] == 0 && h2 == hold && !hold && r.events0 & 2u8 == 0 && (
                d[1] == BUTTON_LEFT ==> r.events0 == registers::GESTURE_SINGLE_TAP && r.events1 == 0) && (d[1]
                    == BUTTON_RIGHT ==> r.events0 == 0 && r.events1 == registers::GESTURE_TWO_FINGER_TAP)
                &&& d[0] == CUSTOM_TAG_CLICK || d[0] == CUSTOM_TAG_BUTTON
            }
        }),
{
    let e0 = r.events0;
    assert(e0 == 1 ==> e0 & 2u8 == 0) by (bit_vector);
    assert(e0 == 0 ==> e0 & 2u8 == 0) by (bit_vector);
}

/// A touchpad event that moves without scrolling sends one report that
/// carries the motion, each axis held to what an `i8` can show: a value that
/// fits passes unchanged, a larger one is sent as the bound on its side; the
/// held buttons go with it, and no wheel or pan.
pub proof fn lemma_motion_report_values<O>(c: Iqs5xxProcessorConfig, st: ProcessorState, tp: TouchpadEvent)
    requires
        axis_value(tp, Axis::H) == 0,
        axis_value(tp, Axis::V) == 0,
        axis_value(tp, Axis::X) != 0 || axis_value(tp, Axis::Y) != 0,
    ensures
        ({
            let x = axis_value(tp, Axis::X);
            let y = axis_value(tp, Axis::Y);
            let (st2, res, reps) = process_of::<O>(c, st, InputEvent::Touchpad(tp));
            &&& st2 == st && res == ProcessResult::<O>::Stop && reps.len() == 1
            &&& reps[0].buttons == st.buttons && reps[0].wheel == 0 && reps[0].pan == 0
            &&& -128 <= x <= 127 ==> reps[0].x == x
            &&& x > 127 ==> reps[0].x == 127
            &&& x < -128 ==> reps[0].x == -128
            &&& -128 <= y <= 127 ==> reps[0].y == y
            &&& y > 127 ==> reps[0].y == 127
            &&& y < -128 ==> reps[0].y == -128
        }),
{
}

/// A flagged device reset is acknowledged before anything else, whatever
/// the report also carries, and leaves the hold state alone; nothing else
/// asks for an acknowledgement.
pub proof fn lemma_reset_is_acknowledged_first<O>(hold: bool, r: Report)
    ensures
        (report_action_of::<O>(hold, r).1 matches ReportAction::AcknowledgeReset) == (r.sys_info0
            & registers::SYSTEM_INFO_0_SHOW_RESET != 0),
        r.sys_info0 & registers::SYSTEM_INFO_0_SHOW_RESET != 0 ==> report_action_of::<O>(hold, r).0 == hold,
{
}

/// Events that are not the trackpad's pass through the processor untouched:
/// a custom event with another tag, or any other event, is handed on as it
/// came, with no report sent and the state unchanged.
pub proof fn lemma_foreign_events_pass_through<O>(c: Iqs5xxProcessorConfig, st: ProcessorState, ev: InputEvent<O>)
    requires
        match ev {
            InputEvent::Touchpad(_) => false,
            InputEvent::Custom(d) => d[0] != CUSTOM_TAG_CLICK && d[0] != CUSTOM_TAG_BUTTON,
            InputEvent::Other(_) => true,
        },
    ensures
        process_of(c, st, ev) == (st, ProcessResult::Continue(ev), Seq::<MouseReport>::empty()),
{
}

/// The left button is bit 0 of the buttons byte and the right button bit 1;
/// any other button has no bit.
pub proof fn lemma_button_bits(button: u8)
    ensures
        button == BUTTON_LEFT ==> button_mask_of(button) == 1,
        button == BUTTON_RIGHT ==> button_mask_of(button) == 2,
        button != BUTTON_LEFT && button != BUTTON_RIGHT ==> button_mask_of(button) == 0,
{
}

/// A scroll leaves the held buttons alone, and every report it sends
/// carries them, with no pointer motion.
pub proof fn lemma_scroll_keeps_buttons(c: Iqs5xxProcessorConfig, st: ProcessorState, x: i16, y: i16)
    ensures
        scroll_of(c, st, x, y).0.buttons == st.buttons,
        scroll_of(c, st, x, y).1 matches Some(m) ==> m.buttons == st.buttons && m.x == 0 && m.y == 0,
{
}

/// Every mouse report that a touchpad event produces carries the buttons
/// held before it, and a touchpad event leaves them held.
pub proof fn lemma_touchpad_reports_carry_buttons<O>(c: Iqs5xxProcessorConfig, st: ProcessorState, tp: TouchpadEvent)
    ensures
        ({
            let (st2, _, reps) = process_of::<O>(c, st, InputEvent::Touchpad(tp));
            &&& st2.buttons == st.buttons
            &&& forall|i: int| 0 <= i < reps.len() ==> (#[trigger] reps[i]).buttons == st.buttons
        }),
{
}

/// The press-and-hold gesture drives the left button in strict alternation:
/// a press is emitted only while no hold is active and starts one, a release
/// only while a hold is active and ends it, and every other action leaves
/// the hold state as it was.
pub proof fn lemma_hold_press_release_alternate<O>(hold: bool, r: Report)
    ensures
        ({
            let (h2, act) = report_action_of::<O>(hold, r);
            &&& act == ReportAction::Emit(button_event::<O>(BUTTON_LEFT, true)) ==> !hold && h2
            &&& act == ReportAction::Emit(button_event::<O>(BUTTON_LEFT, false)) ==> hold && !h2
            &&& h2 != hold ==> act == ReportAction::Emit(button_event::<O>(BUTTON_LEFT, h2))
        }),
{
    let (h2, act) = report_action_of::<O>(hold, r);
    if act == ReportAction::Emit(button_event::<O>(BUTTON_LEFT, true)) {
        assert(button_event::<O>(BUTTON_LEFT, true) != click_event::<O>(BUTTON_LEFT));
        assert(button_event::<O>(BUTTON_LEFT, true) != click_event::<O>(BUTTON_RIGHT));
        assert(button_event::<O>(BUTTON_LEFT, true) != button_event::<O>(BUTTON_LEFT, false));
    }
    if act == ReportAction::Emit(button_event::<O>(BUTTON_LEFT, false)) {
        assert(button_event::<O>(BUTTON_LEFT, false) != click_event::<O>(BUTTON_LEFT));
        assert(button_event::<O>(BUTTON_LEFT, false) != click_event::<O>(BUTTON_RIGHT));
        assert(button_event::<O>(BUTTON_LEFT, false) != button_event::<O>(BUTTON_LEFT, true));
    }
}

/// The buttons byte that mirrors a hold state: left down exactly while a
/// hold is active, nothing else down.
pub open spec fn hold_buttons(hold: bool) -> u8 {
    if hold {
        1
    } else {
        0
    }
}

/// A processor fed every event a device emits keeps its buttons equal to the
/// device's press-and-hold state: left down exactly while a hold is active,
/// taps clicking without leaving a button down.
pub proof fn lemma_processor_buttons_follow_hold<O>(
    c: Iqs5xxProcessorConfig,
    st: ProcessorState,
    hold: bool,
    r: Report,
)
    requires
        st.buttons == hold_buttons(hold),
        report_action_of::<O>(hold, r).1 matches ReportAction::Emit(e) ==> process_defined(c, st, e),
    ensures
        ({
            let (h2, act) = report_action_of::<O>(hold, r);
            match act {
                ReportAction::Emit(e) => process_of(c, st, e).0.buttons == hold_buttons(h2),
                _ => h2 == hold,
            }
        }),
{
    assert(0u8 | 1u8 == 1u8) by (bit_vector);
    assert(1u8 | 1u8 == 1u8) by (bit_vector);
    assert(0u8 & !1u8 == 0u8) by (bit_vector);
    assert(1u8 & !1u8 == 0u8) by (bit_vector);
    assert((0u8 | 2u8) & !2u8 == 0u8) by (bit_vector);
    assert((1u8 | 2u8) & !2u8 == 1u8) by (bit_vector);
    assert((0u8 | 1u8) & !1u8 == 0u8) by (bit_vector);
    assert((1u8 | 1u8) & !1u8 == 0u8) by (bit_vector);
    if r.events0 == registers::GESTURE_SINGLE_TAP {
        assert(registers::GESTURE_SINGLE_TAP & registers::GESTURE_PRESS_HOLD == 0) by (bit_vector);
    }
    if r.events0 == 0 {
        assert(0u8 & registers::GESTURE_PRESS_HOLD == 0) by (bit_vector);
    }
}

/// Motion read by the device reaches the host unchanged up to the range of
/// a mouse report: a moving report with no gesture, no reset flag and no
/// change of hold state becomes one touchpad event, which the processor
/// turns into one motion report of the same x and y, limited to `i8`.
pub proof fn lemma_motion_reaches_report<O>(c: Iqs5xxProcessorConfig, st: ProcessorState, hold: bool, r: Report)
    requires
        r.sys_info0 & registers::SYSTEM_INFO_0_SHOW_RESET == 0,
        r.events0 == 0,
        r.events1 == 0,
        !hold,
        r.rel_x != 0 || r.rel_y != 0,
    ensures
        ({
            let (h2, act) = report_action_of::<O>(hold, r);
            &&& act matches ReportAction::Emit(e)
            &&& process_defined(c, st, act->Emit_0)
            &&& process_of(c, st, act->Emit_0) == (
                st,
                ProcessResult::<O>::Stop,
                seq![motion_report(st.buttons, r.rel_x, r.rel_y)],
            )
        }),
{
    assert(0u8 & registers::GESTURE_PRESS_HOLD == 0) by (bit_vector);
}

/// Two-finger scrolling read by the device reaches the processor's
/// accumulators: a scrolling report with no reset flag and no change of hold
/// state becomes one touchpad event, which the processor handles as a scroll
/// of the report's x (pan) and y (wheel).
pub proof fn lemma_scroll_reaches_accumulators<O>(
    c: Iqs5xxProcessorConfig,
    st: ProcessorState,
    hold: bool,
    r: Report,
)
    requires
        r.sys_info0 & registers::SYSTEM_INFO_0_SHOW_RESET == 0,
        r.events0 == 0,
        r.events1 == registers::GESTURE_SCROLL,
        !hold,
        r.rel_x != 0 || r.rel_y != 0,
        scroll_defined(c, st, r.rel_x, r.rel_y),
    ensures
        ({
            let (h2, act) = report_action_of::<O>(hold, r);
            &&& act matches ReportAction::Emit(e)
            &&& process_defined(c, st, act->Emit_0)
            &&& process_of(c, st, act->Emit_0) == (
                scroll_of(c, st, r.rel_x, r.rel_y).0,
                ProcessResult::<O>::Stop,
                reports_of(scroll_of(c, st, r.rel_x, r.rel_y).1),
            )
        }),
{
    assert(0u8 & registers::GESTURE_PRESS_HOLD == 0) by (bit_vector);
}

/// A click event made by the device is undone by the processor: the button
/// goes down in the first report and back up in the second, and the other
/// buttons stay as they were.
pub proof fn lemma_click_round_trip<O>(c: Iqs5xxProcessorConfig, st: ProcessorState, button: u8)
    requires
        button == BUTTON_LEFT || button == BUTTON_RIGHT,
    ensures
        ({
            let m = button_mask_of(button);
            let (st2, res, reps) = process_of(c, st, click_event::<O>(button));
            &&& res == ProcessResult::<O>::Stop
            &&& reps.len() == 2
            &&& reps[0].buttons & m != 0
            &&& reps[1].buttons & m == 0
            &&& reps[1].buttons & !m == st.buttons & !m
            &&& st2 == ProcessorState { buttons: reps[1].buttons, ..st }
        }),
{
    assert(forall|b: u8| #![trigger (b | 1u8)] (b | 1u8) & 1u8 != 0) by (bit_vector);
    assert(forall|b: u8| #![trigger (b | 2u8)] (b | 2u8) & 2u8 != 0) by (bit_vector);
    assert(forall|b: u8| #![trigger (b | 1u8)] ((b | 1u8) & !1u8) & 1u8 == 0) by (bit_vector);
    assert(forall|b: u8| #![trigger (b | 2u8)] ((b | 2u8) & !2u8) & 2u8 == 0) by (bit_vector);
    assert(forall|b: u8| #![trigger (b | 1u8)] ((b | 1u8) & !1u8) & !1u8 == b & !1u8) by (bit_vector);
    assert(forall|b: u8| #![trigger (b | 2u8)] ((b | 2u8) & !2u8) & !2u8 == b & !2u8) by (bit_vector);
}

/// A button event made by the device sets the processor's button to the
/// state it carries, leaving the other buttons as they were.
pub proof fn lemma_button_round_trip<O>(c: Iqs5xxProcessorConfig, st: ProcessorState, button: u8, pressed: bool)
    requires
        button == BUTTON_LEFT || button == BUTTON_RIGHT,
    ensures
        ({
            let m = button_mask_of(button);
            let (st2, res, reps) = process_of(c, st, button_event::<O>(button, pressed));
            &&& res == ProcessResult::<O>::Stop
            &&& reps == seq![buttons_report(st2.buttons)]
            &&& (st2.buttons & m != 0) == pressed
            &&& st2.buttons & !m == st.buttons & !m
            &&& st2.scroll_x_acc == st.scroll_x_acc && st2.scroll_y_acc == st.scroll_y_acc
        }),
{
    assert(forall|b: u8| #![trigger (b | 1u8)] (b | 1u8) & 1u8 != 0) by (bit_vector);
    assert(forall|b: u8| #![trigger (b | 2u8)] (b | 2u8) & 2u8 != 0) by (bit_vector);
    assert(forall|b: u8| #![trigger (b & !1u8)] (b & !1u8) & 1u8 == 0) by (bit_vector);
    assert(forall|b: u8| #![trigger (b & !2u8)] (b & !2u8) & 2u8 == 0) by (bit_vector);
    assert(forall|b: u8| #![trigger (b | 1u8)] (b | 1u8) & !1u8 == b & !1u8) by (bit_vector);
    assert(forall|b: u8| #![trigger (b | 2u8)] (b | 2u8) & !2u8 == b & !2u8) by (bit_vector);
    assert(forall|b: u8| #![trigger (b & !1u8)] (b & !1u8) & !1u8 == b & !1u8) by (bit_vector);
    assert(forall|b: u8| #![trigger (b & !2u8)] (b & !2u8) & !2u8 == b & !2u8) by (bit_vector);
}

/// Scrolling loses nothing below the divisor: the saturated sum of what was
/// accumulated and the new value equals the whole steps sent times the
/// divisor plus what stays accumulated, what stays is smaller than the
/// divisor in magnitude, and a step is sent exactly when the sum reached the
/// divisor.
pub proof fn lemma_scroll_conserves(acc: i16, v: i16, natural: bool, d: int)
    requires
        d >= 1,
    ensures
        ({
            let (steps, rest) = scroll_axis(acc, v, natural, d);
            &&& scroll_sum(acc, v, natural) == steps * d + rest
            &&& abs_int(rest) < d
            &&& (steps != 0) == (abs_int(scroll_sum(acc, v, natural)) >= d)
        }),
{
    let s = scroll_sum(acc, v, natural);
    if abs_int(s) >= d {
        if s >= 0 {
            assert(s == (s / d) * d + s % d && 0 <= s % d < d && s / d >= 1) by (nonlinear_arith)
                requires
                    d >= 1,
                    s >= d,
            ;
        } else {
            let m = -s;
            assert(m == (m / d) * d + m % d && 0 <= m % d < d && m / d >= 1) by (nonlinear_arith)
                requires
                    d >= 1,
                    m >= d,
            ;
            assert(-(m / d) * d == -((m / d) * d)) by (nonlinear_arith);
        }
    }
}

/// After every scroll the accumulators are smaller than the divisor in
/// magnitude.
pub proof fn lemma_scroll_accumulators_bounded(c: Iqs5xxProcessorConfig, st: ProcessorState, x: i16, y: i16)
    requires
        scroll_defined(c, st, x, y),
    ensures
        abs_int(scroll_of(c, st, x, y).0.scroll_x_acc as int) < divisor_of(c),
        abs_int(scroll_of(c, st, x, y).0.scroll_y_acc as int) < divisor_of(c),
{
    lemma_scroll_conserves(st.scroll_x_acc, x, c.natural_scroll_x, divisor_of(c));
    lemma_scroll_conserves(st.scroll_y_acc, y, c.natural_scroll_y, divisor_of(c));
}


/// A scroll value small enough for the divisor in use: it cannot push an
/// accumulator below the divisor out of the range of `i16`, and it yields at
/// most 127 steps, so nothing saturates or is clamped.
pub open spec fn small_scroll_value(c: Iqs5xxProcessorConfig, v: i16) -> bool {
    &&& abs_int(v as int) + divisor_of(c) <= 32767
    &&& abs_int(v as int) <= 127 * divisor_of(c)
}

/// Every (pan, wheel) scroll of `moves` is a small scroll value.
pub open spec fn small_scroll(c: Iqs5xxProcessorConfig, moves: Seq<(i16, i16)>) -> bool {
    forall|i: int|
        0 <= i < moves.len() ==> small_scroll_value(c, #[trigger] moves[i].0) && small_scroll_value(
            c,
            moves[i].1,
        )
}

/// The state after scrolling by each (pan, wheel) of `moves` in turn, as
/// [`Iqs5xxProcessor::process`] does for touchpad events whose H or V value
/// is nonzero.
pub open spec fn scroll_final(c: Iqs5xxProcessorConfig, st: ProcessorState, moves: Seq<(i16, i16)>) -> ProcessorState
    decreases moves.len(),
{
    if moves.len() == 0 {
        st
    } else {
        let m = moves.last();
        scroll_of(c, scroll_final(c, st, moves.drop_last()), m.0, m.1).0
    }
}

/// What each scroll of `moves`, made in turn, sends: one entry per scroll.
pub open spec fn scroll_reports(c: Iqs5xxProcessorConfig, st: ProcessorState, moves: Seq<(i16, i16)>) -> Seq<
    Option<MouseReport>,
>
    decreases moves.len(),
{
    if moves.len() == 0 {
        seq![]
    } else {
        let m = moves.last();
        scroll_reports(c, st, moves.drop_last()).push(
            scroll_of(c, scroll_final(c, st, moves.drop_last()), m.0, m.1).1,
        )
    }
}

/// Every scroll of `moves`, made in turn, is defined.
pub open spec fn scroll_sequence_defined(c: Iqs5xxProcessorConfig, st: ProcessorState, moves: Seq<(i16, i16)>) -> bool
    decreases moves.len(),
{
    moves.len() == 0 || {
        let m = moves.last();
        &&& scroll_sequence_defined(c, st, moves.drop_last())
        &&& scroll_defined(c, scroll_final(c, st, moves.drop_last()), m.0, m.1)
    }
}

/// The sum of the pan steps of the reports sent.
pub open spec fn pan_sum(rs: Seq<Option<MouseReport>>) -> int
    decreases rs.len(),
{
    if rs.len() == 0 {
        0
    } else {
        pan_sum(rs.drop_last()) + match rs.last() {
            Some(r) => r.pan as int,
            None => 0,
        }
    }
}

/// The sum of the wheel steps of the reports sent.
pub open spec fn wheel_sum(rs: Seq<Option<MouseReport>>) -> int
    decreases rs.len(),
{
    if rs.len() == 0 {
        0
    } else {
        wheel_sum(rs.drop_last()) + match rs.last() {
            Some(r) => r.wheel as int,
            None => 0,
        }
    }
}

/// The sum of the pan values of `moves`, negated for natural scrolling.
pub open spec fn pan_input_sum(moves: Seq<(i16, i16)>, natural: bool) -> int
    decreases moves.len(),
{
    if moves.len() == 0 {
        0
    } else {
        pan_input_sum(moves.drop_last(), natural) + oriented(moves.last().0, natural)
    }
}

/// The sum of the wheel values of `moves`, negated for natural scrolling.
pub open spec fn wheel_input_sum(moves: Seq<(i16, i16)>, natural: bool) -> int
    decreases moves.len(),
{
    if moves.len() == 0 {
        0
    } else {
        wheel_input_sum(moves.drop_last(), natural) + oriented(moves.last().1, natural)
    }
}

/// One axis of one small scroll from an accumulator below the divisor: the
/// sum does not saturate, the scroll is defined, and at most 127 steps come
/// out, so clamping them to `i8` changes nothing.
proof fn lemma_small_scroll_axis(acc: i16, v: i16, natural: bool, d: int)
    requires
        d >= 1,
        abs_int(acc as int) < d,
        abs_int(v as int) + d <= 32767,
        abs_int(v as int) <= 127 * d,
    ensures
        scroll_sum(acc, v, natural) == acc as int + oriented(v, natural),
        scroll_axis_defined(acc, v, natural),
        -127 <= scroll_axis(acc, v, natural, d).0 <= 127,
        clamp_i8(scroll_axis(acc, v, natural, d).0) as int == scroll_axis(acc, v, natural, d).0,
        scroll_sum(acc, v, natural) == scroll_axis(acc, v, natural, d).0 * d + scroll_axis(
            acc,
            v,
            natural,
            d,
        ).1,
        abs_int(scroll_axis(acc, v, natural, d).1) < d,
        (scroll_axis(acc, v, natural, d).0 != 0) == (abs_int(scroll_sum(acc, v, natural)) >= d),
{
    lemma_scroll_conserves(acc, v, natural, d);
    let s = acc as int + oriented(v, natural);
    assert(abs_int(s) < 128 * d);
    if s >= 0 {
        assert(s / d <= 127) by (nonlinear_arith)
            requires
                d >= 1,
                0 <= s < 128 * d,
        ;
    } else {
        let m = -s;
        assert(m / d <= 127) by (nonlinear_arith)
            requires
                d >= 1,
                0 < m < 128 * d,
        ;
    }
}

/// One more scroll extends a run: the state after `moves` followed by
/// `(x, y)` is what scrolling by `(x, y)` makes of the state after `moves`,
/// the reports are those of `moves` followed by what that scroll sends, and
/// the step and input sums grow by that scroll's share.
pub proof fn lemma_scroll_run_extends(
    c: Iqs5xxProcessorConfig,
    st: ProcessorState,
    moves: Seq<(i16, i16)>,
    x: i16,
    y: i16,
)
    ensures
        ({
            let prev = scroll_final(c, st, moves);
            let (next, rep) = scroll_of(c, prev, x, y);
            let more = moves.push((x, y));
            &&& scroll_final(c, st, more) == next
            &&& scroll_sequence_defined(c, st, more) == (scroll_sequence_defined(c, st, moves)
                && scroll_defined(c, prev, x, y))
            &&& scroll_reports(c, st, more) == scroll_reports(c, st, moves).push(rep)
            &&& pan_sum(scroll_reports(c, st, more)) == pan_sum(scroll_reports(c, st, moves)) + match rep {
                Some(r) => r.pan as int,
                None => 0,
            }
            &&& wheel_sum(scroll_reports(c, st, more)) == wheel_sum(scroll_reports(c, st, moves)) + match rep {
                Some(r) => r.wheel as int,
                None => 0,
            }
            &&& pan_input_sum(more, c.natural_scroll_x) == pan_input_sum(moves, c.natural_scroll_x) + oriented(
                x,
                c.natural_scroll_x,
            )
            &&& wheel_input_sum(more, c.natural_scroll_y) == wheel_input_sum(moves, c.natural_scroll_y)
                + oriented(y, c.natural_scroll_y)
        }),
{
    let more = moves.push((x, y));
    assert(more.drop_last() =~= moves);
    let rs = scroll_reports(c, st, more);
    assert(rs.drop_last() =~= scroll_reports(c, st, moves));
}

/// Scroll carried over between calls is never lost or invented beyond one
/// divisor. For small scroll values, made one after the other from
/// accumulators below the divisor: every scroll is defined; the scroll put
/// in on each axis (negated for natural scrolling) plus what was
/// accumulated equals the divisor times the steps sent plus what stays
/// accumulated; what stays is below the divisor in magnitude; and the held
/// buttons are kept.
pub proof fn lemma_scroll_sequence_conserves(c: Iqs5xxProcessorConfig, st: ProcessorState, moves: Seq<(i16, i16)>)
    requires
        abs_int(st.scroll_x_acc as int) < divisor_of(c),
        abs_int(st.scroll_y_acc as int) < divisor_of(c),
        small_scroll(c, moves),
    ensures
        scroll_sequence_defined(c, st, moves),
        pan_input_sum(moves, c.natural_scroll_x) + st.scroll_x_acc == divisor_of(c) * pan_sum(
            scroll_reports(c, st, moves),
        ) + scroll_final(c, st, moves).scroll_x_acc,
        wheel_input_sum(moves, c.natural_scroll_y) + st.scroll_y_acc == divisor_of(c) * wheel_sum(
            scroll_reports(c, st, moves),
        ) + scroll_final(c, st, moves).scroll_y_acc,
        abs_int(scroll_final(c, st, moves).scroll_x_acc as int) < divisor_of(c),
        abs_int(scroll_final(c, st, moves).scroll_y_acc as int) < divisor_of(c),
        scroll_final(c, st, moves).buttons == st.buttons,
    decreases moves.len(),
{
    if moves.len() > 0 {
        let d = divisor_of(c);
        let init = moves.drop_last();
        let m = moves.last();
        assert(small_scroll(c, init)) by {
            assert forall|i: int| 0 <= i < init.len() implies small_scroll_value(c, #[trigger] init[i].0)
                && small_scroll_value(c, init[i].1) by {
                assert(init[i] == moves[i]);
            }
        }
        assert(small_scroll_value(c, moves[moves.len() - 1].0));
        lemma_scroll_sequence_conserves(c, st, init);
        let prev = scroll_final(c, st, init);
        lemma_small_scroll_axis(prev.scroll_x_acc, m.0, c.natural_scroll_x, d);
        lemma_small_scroll_axis(prev.scroll_y_acc, m.1, c.natural_scroll_y, d);
        let rs = scroll_reports(c, st, moves);
        assert(rs.drop_last() =~= scroll_reports(c, st, init));
        let (pan, ax) = scroll_axis(prev.scroll_x_acc, m.0, c.natural_scroll_x, d);
        let (wheel, ay) = scroll_axis(prev.scroll_y_acc, m.1, c.natural_scroll_y, d);
        assert(pan_sum(rs) == pan_sum(scroll_reports(c, st, init)) + pan);
        assert(wheel_sum(rs) == wheel_sum(scroll_reports(c, st, init)) + wheel);
        assert(d * pan_sum(rs) == d * pan_sum(scroll_reports(c, st, init)) + d * pan) by (nonlinear_arith)
            requires
                pan_sum(rs) == pan_sum(scroll_reports(c, st, init)) + pan,
        ;
        assert(d * wheel_sum(rs) == d * wheel_sum(scroll_reports(c, st, init)) + d * wheel)
            by (nonlinear_arith)
            requires
                wheel_sum(rs) == wheel_sum(scroll_reports(c, st, init)) + wheel,
        ;
        assert(pan * d == d * pan && wheel * d == d * wheel) by (nonlinear_arith);
    }
}

/// From rest (nothing accumulated), what a run of small scrolls put in on
/// each axis and the divisor times the steps sent differ by less than one
/// divisor.
pub proof fn lemma_scroll_from_rest_within_divisor(c: Iqs5xxProcessorConfig, buttons: u8, moves: Seq<(i16, i16)>)
    requires
        small_scroll(c, moves),
    ensures
        ({
            let st = ProcessorState { buttons, scroll_x_acc: 0, scroll_y_acc: 0 };
            let rs = scroll_reports(c, st, moves);
            &&& abs_int(pan_input_sum(moves, c.natural_scroll_x) - divisor_of(c) * pan_sum(rs)) < divisor_of(c)
            &&& abs_int(wheel_input_sum(moves, c.natural_scroll_y) - divisor_of(c) * wheel_sum(rs))
                < divisor_of(c)
        }),
{
    let st = ProcessorState { buttons, scroll_x_acc: 0, scroll_y_acc: 0 };
    lemma_scroll_sequence_conserves(c, st, moves);
}

/// The configuration with horizontal natural scrolling switched.
pub open spec fn flip_x(c: Iqs5xxProcessorConfig) -> Iqs5xxProcessorConfig {
    Iqs5xxProcessorConfig { natural_scroll_x: !c.natural_scroll_x, ..c }
}

/// The configuration with vertical natural scrolling switched.
pub open spec fn flip_y(c: Iqs5xxProcessorConfig) -> Iqs5xxProcessorConfig {
    Iqs5xxProcessorConfig { natural_scroll_y: !c.natural_scroll_y, ..c }
}

/// The state with the horizontal accumulator negated.
pub open spec fn negate_x_acc(st: ProcessorState) -> ProcessorState {
    ProcessorState { scroll_x_acc: (-(st.scroll_x_acc as int)) as i16, ..st }
}

/// The state with the vertical accumulator negated.
pub open spec fn negate_y_acc(st: ProcessorState) -> ProcessorState {
    ProcessorState { scroll_y_acc: (-(st.scroll_y_acc as int)) as i16, ..st }
}

/// The report with its pan negated.
pub open spec fn negate_pan(r: Option<MouseReport>) -> Option<MouseReport> {
    match r {
        Some(m) => Some(MouseReport { pan: (-(m.pan as int)) as i8, ..m }),
        None => None,
    }
}

/// The report with its wheel negated.
pub open spec fn negate_wheel(r: Option<MouseReport>) -> Option<MouseReport> {
    match r {
        Some(m) => Some(MouseReport { wheel: (-(m.wheel as int)) as i8, ..m }),
        None => None,
    }
}

/// Switching natural scrolling on one axis, with the accumulator negated,
/// negates the sum, the steps and what stays, as long as nothing saturates.
proof fn lemma_scroll_axis_flip(acc: i16, v: i16, natural: bool, d: int)
    requires
        d >= 1,
        abs_int(acc as int) < d,
        abs_int(v as int) + d <= 32767,
        abs_int(v as int) <= 127 * d,
    ensures
        ({
            let nacc = (-(acc as int)) as i16;
            &&& scroll_axis(nacc, v, !natural, d).0 == -scroll_axis(acc, v, natural, d).0
            &&& scroll_axis(nacc, v, !natural, d).1 == -scroll_axis(acc, v, natural, d).1
        }),
{
    let nacc = (-(acc as int)) as i16;
    assert(nacc as int == -(acc as int));
    lemma_small_scroll_axis(acc, v, natural, d);
    lemma_small_scroll_axis(nacc, v, !natural, d);
    let s = scroll_sum(acc, v, natural);
    assert(scroll_sum(nacc, v, !natural) == -s);
}

/// One small scroll with horizontal natural scrolling switched and the
/// horizontal accumulator negated: the new state is the old one with that
/// accumulator negated, and the report is the same but for a negated pan.
proof fn lemma_scroll_step_flip_x(c: Iqs5xxProcessorConfig, st: ProcessorState, x: i16, y: i16)
    requires
        abs_int(st.scroll_x_acc as int) < divisor_of(c),
        abs_int(st.scroll_y_acc as int) < divisor_of(c),
        small_scroll_value(c, x),
        small_scroll_value(c, y),
    ensures
        scroll_of(flip_x(c), negate_x_acc(st), x, y).0 == negate_x_acc(scroll_of(c, st, x, y).0),
        scroll_of(flip_x(c), negate_x_acc(st), x, y).1 == negate_pan(scroll_of(c, st, x, y).1),
{
    let d = divisor_of(c);
    lemma_scroll_axis_flip(st.scroll_x_acc, x, c.natural_scroll_x, d);
    lemma_small_scroll_axis(st.scroll_x_acc, x, c.natural_scroll_x, d);
    lemma_small_scroll_axis(st.scroll_y_acc, y, c.natural_scroll_y, d);
}

/// One small scroll with vertical natural scrolling switched and the
/// vertical accumulator negated: the new state is the old one with that
/// accumulator negated, and the report is the same but for a negated wheel.
proof fn lemma_scroll_step_flip_y(c: Iqs5xxProcessorConfig, st: ProcessorState, x: i16, y: i16)
    requires
        abs_int(st.scroll_x_acc as int) < divisor_of(c),
        abs_int(st.scroll_y_acc as int) < divisor_of(c),
        small_scroll_value(c, x),
        small_scroll_value(c, y),
    ensures
        scroll_of(flip_y(c), negate_y_acc(st), x, y).0 == negate_y_acc(scroll_of(c, st, x, y).0),
        scroll_of(flip_y(c), negate_y_acc(st), x, y).1 == negate_wheel(scroll_of(c, st, x, y).1),
{
    let d = divisor_of(c);
    lemma_scroll_axis_flip(st.scroll_y_acc, y, c.natural_scroll_y, d);
    lemma_small_scroll_axis(st.scroll_x_acc, x, c.natural_scroll_x, d);
    lemma_small_scroll_axis(st.scroll_y_acc, y, c.natural_scroll_y, d);
}

/// Switching horizontal natural scrolling negates pan over a whole run of
/// small scrolls: started from states that differ only in the sign of the
/// horizontal accumulator (from rest, the same state), both send a report at
/// the same scrolls, the reports differ only in the sign of their pan, and
/// the states stay so related.
pub proof fn lemma_natural_x_negates_pan(c: Iqs5xxProcessorConfig, st: ProcessorState, moves: Seq<(i16, i16)>)
    requires
        abs_int(st.scroll_x_acc as int) < divisor_of(c),
        abs_int(st.scroll_y_acc as int) < divisor_of(c),
        small_scroll(c, moves),
    ensures
        scroll_reports(flip_x(c), negate_x_acc(st), moves) == scroll_reports(c, st, moves).map_values(
            |r: Option<MouseReport>| negate_pan(r),
        ),
        scroll_final(flip_x(c), negate_x_acc(st), moves) == negate_x_acc(scroll_final(c, st, moves)),
    decreases moves.len(),
{
    if moves.len() > 0 {
        let init = moves.drop_last();
        let m = moves.last();
        assert(small_scroll(c, init)) by {
            assert forall|i: int| 0 <= i < init.len() implies small_scroll_value(c, #[trigger] init[i].0)
                && small_scroll_value(c, init[i].1) by {
                assert(init[i] == moves[i]);
            }
        }
        assert(small_scroll_value(c, moves[moves.len() - 1].0));
        lemma_natural_x_negates_pan(c, st, init);
        lemma_scroll_sequence_conserves(c, st, init);
        let prev = scroll_final(c, st, init);
        lemma_scroll_step_flip_x(c, prev, m.0, m.1);
        assert(scroll_reports(flip_x(c), negate_x_acc(st), moves) =~= scroll_reports(c, st, moves).map_values(
            |r: Option<MouseReport>| negate_pan(r),
        ));
    }
}

/// Switching vertical natural scrolling negates the wheel over a whole run
/// of small scrolls: started from states that differ only in the sign of the
/// vertical accumulator (from rest, the same state), both send a report at
/// the same scrolls, the reports differ only in the sign of their wheel, and
/// the states stay so related.
pub proof fn lemma_natural_y_negates_wheel(c: Iqs5xxProcessorConfig, st: ProcessorState, moves: Seq<(i16, i16)>)
    requires
        abs_int(st.scroll_x_acc as int) < divisor_of(c),
        abs_int(st.scroll_y_acc as int) < divisor_of(c),
        small_scroll(c, moves),
    ensures
        scroll_reports(flip_y(c), negate_y_acc(st), moves) == scroll_reports(c, st, moves).map_values(
            |r: Option<MouseReport>| negate_wheel(r),
        ),
        scroll_final(flip_y(c), negate_y_acc(st), moves) == negate_y_acc(scroll_final(c, st, moves)),
    decreases moves.len(),
{
    if moves.len() > 0 {
        let init = moves.drop_last();
        let m = moves.last();
        assert(small_scroll(c, init)) by {
            assert forall|i: int| 0 <= i < init.len() implies small_scroll_value(c, #[trigger] init[i].0)
                && small_scroll_value(c, init[i].1) by {
                assert(init[i] == moves[i]);
            }
        }
        assert(small_scroll_value(c, moves[moves.len() - 1].0));
        lemma_natural_y_negates_wheel(c, st, init);
        lemma_scroll_sequence_conserves(c, st, init);
        let prev = scroll_final(c, st, init);
        lemma_scroll_step_flip_y(c, prev, m.0, m.1);
        assert(scroll_reports(flip_y(c), negate_y_acc(st), moves) =~= scroll_reports(c, st, moves).map_values(
            |r: Option<MouseReport>| negate_wheel(r),
        ));
    }
}

} // verus!
