//! The IQS5xx driver: the handles it owns, the frames it writes, the order of
//! its power-up sequence and its wait on the ready pin.
//!
//! The bus and the pins are driven by the caller. Each operation here hands
//! out what the caller must do (bytes to write, steps to run, whether to keep
//! waiting) and takes back what the hardware answered.

use vstd::prelude::*;
use crate::bytes::{be_bytes, hi_byte, lo_byte};
use crate::config::Iqs5xxConfig;
use crate::registers;

verus! {

/// What can go wrong while talking to the trackpad.
#[derive(Debug, Clone, Copy, PartialEq, Eq)]
pub enum Error<E> {
    /// The I2C bus reported an error.
    I2c(E),
    /// A pin could not be read or driven.
    Gpio,
    /// The ready pin did not reach the awaited level in time.
    Timeout,
}

/// One register write, in the two widths the device takes.
#[allow(inconsistent_fields)]
#[derive(Debug, Clone, Copy, PartialEq, Eq, Structural)]
pub enum RegWrite {
    /// An 8-bit register.
    Byte { reg: u16, value: u8 },
    /// A 16-bit register, written big-endian.
    Word { reg: u16, value: u16 },
}

/// The bytes that go on the bus for a register write: the register address,
/// big-endian, then the value, big-endian.
pub open spec fn frame_of(w: RegWrite) -> Seq<u8> {
    match w {
        RegWrite::Byte { reg, value } => seq![hi_byte(reg), lo_byte(reg), value],
        RegWrite::Word { reg, value } => seq![hi_byte(reg), lo_byte(reg), hi_byte(value), lo_byte(value)],
    }
}

/// The write that closes the communication window: a zero to END_WINDOW.
pub open spec fn end_session_write() -> RegWrite {
    RegWrite::Byte { reg: registers::END_WINDOW, value: 0 }
}

impl RegWrite {
    /// The write that ends a communication window.
    pub fn end_session() -> (r: RegWrite)
        ensures
            r == end_session_write(),
    {
        RegWrite::Byte { reg: registers::END_WINDOW, value: 0 }
    }

    /// The bytes to write on the bus for this register write.
    pub fn frame(&self) -> (r: Vec<u8>)
        ensures
            r@ == frame_of(*self),
    {
        match *self {
            RegWrite::Byte { reg, value } => {
                let a = be_bytes(reg);
                let mut buf: Vec<u8> = Vec::new();
                buf.push(a[0]);
                buf.push(a[1]);
                buf.push(value);
                assert(buf@ =~= frame_of(*self));
                buf
            },
            RegWrite::Word { reg, value } => {
                let a = be_bytes(reg);
                let v = be_bytes(value);
                let mut buf: Vec<u8> = Vec::new();
                buf.push(a[0]);
                buf.push(a[1]);
                buf.push(v[0]);
                buf.push(v[1]);
                assert(buf@ =~= frame_of(*self));
                buf
            },
        }
    }
}

/// One step of a pin-and-bus sequence, to be carried out in order.
#[derive(Debug, Clone, Copy, PartialEq, Eq, Structural)]
pub enum Step {
    /// Drive the reset pin low.
    ResetLow,
    /// Drive the reset pin high.
    ResetHigh,
    /// Wait this many milliseconds.
    DelayMs(u64),
    /// Wait for the ready pin (see [`ReadyWait`]).
    WaitReady,
    /// Write a register.
    Write(RegWrite),
}

/// The reset pulse: low for `reset_low_ms`, then high for `reset_high_ms`;
/// nothing when there is no reset pin.
pub open spec fn reset_steps_of(has_rst: bool, c: Iqs5xxConfig) -> Seq<Step> {
    if has_rst {
        seq![
            Step::ResetLow,
            Step::DelayMs(c.reset_low_ms as u64),
            Step::ResetHigh,
            Step::DelayMs(c.reset_high_ms as u64),
        ]
    } else {
        seq![]
    }
}

/// SINGLE_FINGER_GESTURES_CONF: single tap and press-and-hold, as enabled.
pub open spec fn single_finger_bits(c: Iqs5xxConfig) -> u8 {
    (if c.enable_single_tap { registers::GESTURE_SINGLE_TAP } else { 0u8 }) | (if c.enable_press_and_hold {
        registers::GESTURE_PRESS_HOLD
    } else {
        0u8
    })
}

/// MULTI_FINGER_GESTURES_CONF: two-finger tap and scroll, as enabled.
pub open spec fn multi_finger_bits(c: Iqs5xxConfig) -> u8 {
    (if c.enable_two_finger_tap { registers::GESTURE_TWO_FINGER_TAP } else { 0u8 }) | (if c.enable_scroll {
        registers::GESTURE_SCROLL
    } else {
        0u8
    })
}

/// XY_CONFIG_0: axis flips and swap, as configured.
pub open spec fn xy_config_bits(c: Iqs5xxConfig) -> u8 {
    (if c.invert_x { registers::XY_CONFIG_FLIP_X } else { 0u8 }) | (if c.invert_y {
        registers::XY_CONFIG_FLIP_Y
    } else {
        0u8
    }) | (if c.swap_xy { registers::XY_CONFIG_SWITCH_XY } else { 0u8 })
}

/// SYSTEM_CONFIG_1 as set up by the driver: event mode with trackpad and
/// gesture events.
pub open spec fn system_config_1_bits() -> u8 {
    registers::SYSTEM_CONFIG_1_EVENT_MODE | registers::SYSTEM_CONFIG_1_TP_EVENT
        | registers::SYSTEM_CONFIG_1_GESTURE_EVENT
}

/// FILTER_SETTINGS as set up by the driver: IIR, moving average, ALP count.
pub open spec fn filter_bits() -> u8 {
    registers::FILTER_IIR | registers::FILTER_MAV | registers::FILTER_ALP_COUNT
}

/// SYSTEM_CONFIG_0 as set up by the driver: setup complete, watchdog on.
pub open spec fn system_config_0_bits() -> u8 {
    registers::SYSTEM_CONFIG_0_SETUP_COMPLETE | registers::SYSTEM_CONFIG_0_WDT
}

/// The register writes of the setup, in order, ending the window at the end.
pub open spec fn setup_writes_of(c: Iqs5xxConfig) -> Seq<RegWrite> {
    seq![
        RegWrite::Byte { reg: registers::SYSTEM_CONTROL_0, value: registers::SYSTEM_CONTROL_0_ACK_RESET },
        RegWrite::Byte { reg: registers::SYSTEM_CONFIG_1, value: system_config_1_bits() },
        RegWrite::Byte { reg: registers::BOTTOM_BETA, value: c.bottom_beta },
        RegWrite::Byte { reg: registers::STATIONARY_THRESHOLD, value: c.stationary_threshold },
        RegWrite::Byte { reg: registers::FILTER_SETTINGS, value: filter_bits() },
        RegWrite::Byte { reg: registers::SINGLE_FINGER_GESTURES_CONF, value: single_finger_bits(c) },
        RegWrite::Word { reg: registers::HOLD_TIME, value: c.press_and_hold_time_ms },
        RegWrite::Byte { reg: registers::MULTI_FINGER_GESTURES_CONF, value: multi_finger_bits(c) },
        RegWrite::Byte { reg: registers::XY_CONFIG_0, value: xy_config_bits(c) },
        RegWrite::Byte { reg: registers::SYSTEM_CONFIG_0, value: system_config_0_bits() },
        end_session_write(),
    ]
}

/// The whole power-up sequence: the reset pulse, a wait for the ready pin,
/// then the setup writes.
pub open spec fn init_steps_of(has_rst: bool, c: Iqs5xxConfig) -> Seq<Step> {
    reset_steps_of(has_rst, c) + seq![Step::WaitReady] + setup_writes_of(c).map_values(
        |w: RegWrite| Step::Write(w),
    )
}

/// Or-ing with zero, on either side, leaves a byte unchanged.
proof fn lemma_or_zero()
    ensures
        forall|a: u8| #![trigger (0u8 | a)] (0u8 | a) == a,
        forall|a: u8| #![trigger (a | 0u8)] (a | 0u8) == a,
{
    assert(forall|a: u8| #![trigger (0u8 | a)] (0u8 | a) == a) by (bit_vector);
    assert(forall|a: u8| #![trigger (a | 0u8)] (a | 0u8) == a) by (bit_vector);
}

/// The driver: the I2C bus, the optional ready and reset pins, and the
/// configuration.
pub struct Iqs5xx<I2C, RDY, RST> {
    i2c: I2C,
    rdy_pin: Option<RDY>,
    rst_pin: Option<RST>,
    config: Iqs5xxConfig,
}

impl<I2C, RDY, RST> Iqs5xx<I2C, RDY, RST> {
    /// The bus handle held.
    pub closed spec fn i2c_of(&self) -> I2C {
        self.i2c
    }

    /// The ready pin held, if any.
    pub closed spec fn rdy_pin_of(&self) -> Option<RDY> {
        self.rdy_pin
    }

    /// The reset pin held, if any.
    pub closed spec fn rst_pin_of(&self) -> Option<RST> {
        self.rst_pin
    }

    /// The configuration held.
    pub closed spec fn config_of(&self) -> Iqs5xxConfig {
        self.config
    }

    /// The driver made from these handles and this configuration.
    pub closed spec fn new_spec(i2c: I2C, rdy_pin: Option<RDY>, rst_pin: Option<RST>, config: Iqs5xxConfig) -> Self {
        Self { i2c, rdy_pin, rst_pin, config }
    }

    pub fn new(i2c: I2C, rdy_pin: Option<RDY>, rst_pin: Option<RST>, config: Iqs5xxConfig) -> (r: Self)
        ensures
            r == Self::new_spec(i2c, rdy_pin, rst_pin, config),
            r.i2c_of() == i2c,
            r.rdy_pin_of() == rdy_pin,
            r.rst_pin_of() == rst_pin,
            r.config_of() == config,
    {
        Self { i2c, rdy_pin, rst_pin, config }
    }

    /// Gives the bus and the pins back.
    pub fn into_inner(self) -> (r: (I2C, Option<RDY>, Option<RST>))
        ensures
            r == (self.i2c_of(), self.rdy_pin_of(), self.rst_pin_of()),
    {
        (self.i2c, self.rdy_pin, self.rst_pin)
    }

    pub fn config(&self) -> (r: &Iqs5xxConfig)
        ensures
            *r == self.config_of(),
    {
        &self.config
    }

    /// Lends the bus and the pins out, to carry out the steps this driver
    /// plans; what they are when the loan ends is what the driver holds.
    pub fn parts_mut(&mut self) -> (r: (&mut I2C, &mut Option<RDY>, &mut Option<RST>))
        ensures
            *r.0 == old(self).i2c_of(),
            *r.1 == old(self).rdy_pin_of(),
            *r.2 == old(self).rst_pin_of(),
            final(self).i2c_of() == *final(r.0),
            final(self).rdy_pin_of() == *final(r.1),
            final(self).rst_pin_of() == *final(r.2),
            final(self).config_of() == old(self).config_of(),
    {
        (&mut self.i2c, &mut self.rdy_pin, &mut self.rst_pin)
    }

    /// Whether the device is ready, from what reading the ready pin gave:
    /// `None` when there is no ready pin (then it is always ready), else the
    /// pin's level, where a failed read is a GPIO error.
    pub fn is_ready<P, E>(pin_read: Option<Result<bool, P>>) -> (r: Result<bool, Error<E>>)
        ensures
            r == match pin_read {
                None => Ok(true),
                Some(Ok(high)) => Ok(high),
                Some(Err(_)) => Err(Error::<E>::Gpio),
            },
    {
        match pin_read {
            Some(Ok(high)) => Ok(high),
            Some(Err(_)) => Err(Error::Gpio),
            None => Ok(true),
        }
    }

    /// The reset pulse to send on the reset pin, if there is one.
    pub fn reset_steps(&self) -> (r: Vec<Step>)
        ensures
            r@ == reset_steps_of(self.rst_pin_of().is_some(), self.config_of()),
    {
        let mut steps: Vec<Step> = Vec::new();
        if self.rst_pin.is_some() {
            steps.push(Step::ResetLow);
            steps.push(Step::DelayMs(self.config.reset_low_ms as u64));
            steps.push(Step::ResetHigh);
            steps.push(Step::DelayMs(self.config.reset_high_ms as u64));
        }
        assert(steps@ =~= reset_steps_of(self.rst_pin_of().is_some(), self.config_of()));
        steps
    }

    /// The register writes that set the device up from the configuration.
    pub fn setup_writes(&self) -> (r: Vec<RegWrite>)
        ensures
            r@ == setup_writes_of(self.config_of()),
    {
        let c = self.config;
        let mut w: Vec<RegWrite> = Vec::new();
        w.push(RegWrite::Byte { reg: registers::SYSTEM_CONTROL_0, value: registers::SYSTEM_CONTROL_0_ACK_RESET });
        w.push(
            RegWrite::Byte {
                reg: registers::SYSTEM_CONFIG_1,
                value: registers::SYSTEM_CONFIG_1_EVENT_MODE | registers::SYSTEM_CONFIG_1_TP_EVENT
                    | registers::SYSTEM_CONFIG_1_GESTURE_EVENT,
            },
        );
        w.push(RegWrite::Byte { reg: registers::BOTTOM_BETA, value: c.bottom_beta });
        w.push(RegWrite::Byte { reg: registers::STATIONARY_THRESHOLD, value: c.stationary_threshold });
        let filter_settings = registers::FILTER_IIR | registers::FILTER_MAV | registers::FILTER_ALP_COUNT;
        w.push(RegWrite::Byte { reg: registers::FILTER_SETTINGS, value: filter_settings });

        let mut single: u8 = 0;
        if c.enable_single_tap {
            single = single | registers::GESTURE_SINGLE_TAP;
        }
        if c.enable_press_and_hold {
            single = single | registers::GESTURE_PRESS_HOLD;
        }
        assert(single == single_finger_bits(c)) by {
            lemma_or_zero();
        }
        w.push(RegWrite::Byte { reg: registers::SINGLE_FINGER_GESTURES_CONF, value: single });
        w.push(RegWrite::Word { reg: registers::HOLD_TIME, value: c.press_and_hold_time_ms });

        let mut multi: u8 = 0;
        if c.enable_two_finger_tap {
            multi = multi | registers::GESTURE_TWO_FINGER_TAP;
        }
        if c.enable_scroll {
            multi = multi | registers::GESTURE_SCROLL;
        }
        assert(multi == multi_finger_bits(c)) by {
            lemma_or_zero();
        }
        w.push(RegWrite::Byte { reg: registers::MULTI_FINGER_GESTURES_CONF, value: multi });

        let mut xy: u8 = 0;
        if c.invert_x {
            xy = xy | registers::XY_CONFIG_FLIP_X;
        }
        if c.invert_y {
            xy = xy | registers::XY_CONFIG_FLIP_Y;
        }
        if c.swap_xy {
            xy = xy | registers::XY_CONFIG_SWITCH_XY;
        }
        assert(xy == xy_config_bits(c)) by {
            lemma_or_zero();
        }
        w.push(RegWrite::Byte { reg: registers::XY_CONFIG_0, value: xy });
        w.push(
            RegWrite::Byte {
                reg: registers::SYSTEM_CONFIG_0,
                value: registers::SYSTEM_CONFIG_0_SETUP_COMPLETE | registers::SYSTEM_CONFIG_0_WDT,
            },
        );
        w.push(RegWrite::end_session());
        assert(w@ =~= setup_writes_of(c));
        w
    }

    /// The power-up sequence: reset, wait for ready, then set up.
    pub fn init_steps(&self) -> (r: Vec<Step>)
        ensures
            r@ == init_steps_of(self.rst_pin_of().is_some(), self.config_of()),
    {
        let mut steps = self.reset_steps();
        steps.push(Step::WaitReady);
        let writes = self.setup_writes();
        let ghost prefix = steps@;
        let n = writes.len();
        for i in 0..n
            invariant
                n == writes@.len(),
                writes@ == setup_writes_of(self.config_of()),
                steps@ == prefix + writes@.subrange(0, i as int).map_values(|w: RegWrite| Step::Write(w)),
        {
            steps.push(Step::Write(writes[i]));
            assert(writes@.subrange(0, i + 1).map_values(|w: RegWrite| Step::Write(w)) =~= writes@.subrange(
                0,
                i as int,
            ).map_values(|w: RegWrite| Step::Write(w)).push(Step::Write(writes@[i as int])));
        }
        assert(writes@.subrange(0, n as int) =~= writes@);
        steps
    }
}


/// What to do after one look at the ready pin.
#[derive(Debug, PartialEq, Eq)]
pub enum WaitStep<E> {
    /// Stop waiting, with this outcome.
    Finished(Result<(), Error<E>>),
    /// Sleep one millisecond and look again.
    SleepOneMs,
}

/// A wait for the ready pin to reach a level, polled once per millisecond and
/// given up after `timeout_ms` sleeps.
#[derive(Debug, Clone, Copy)]
pub struct ReadyWait {
    waited_ms: u32,
    timeout_ms: u32,
}

/// Sleeps still allowed to a wait that has slept `waited` of `timeout` ms.
pub open spec fn sleeps_left(waited: u32, timeout: u32) -> nat {
    if waited >= timeout { 0 } else { (timeout - waited) as nat }
}

impl ReadyWait {
    /// Milliseconds slept so far.
    pub closed spec fn waited_of(&self) -> u32 {
        self.waited_ms
    }

    /// Milliseconds after which the wait gives up.
    pub closed spec fn timeout_of(&self) -> u32 {
        self.timeout_ms
    }

    /// A fresh wait that gives up after `timeout_ms` sleeps.
    pub fn new(timeout_ms: u32) -> (r: ReadyWait)
        ensures
            r.waited_of() == 0,
            r.timeout_of() == timeout_ms,
    {
        ReadyWait { waited_ms: 0, timeout_ms }
    }

    /// Milliseconds slept so far.
    pub fn waited_ms(&self) -> (r: u32)
        ensures
            r == self.waited_of(),
    {
        self.waited_ms
    }

    /// Takes one look at the pin: `level` is whether the awaited level was
    /// seen, or the error reading it gave. A read error ends the wait with
    /// that error; the awaited level ends it with success; otherwise the wait
    /// sleeps one more millisecond, unless it has already slept `timeout_ms`,
    /// in which case it ends with a timeout.
    pub fn step<E>(&mut self, level: Result<bool, Error<E>>) -> (r: WaitStep<E>)
        ensures
            final(self).timeout_of() == old(self).timeout_of(),
            match level {
                Err(e) => r == WaitStep::Finished(Err(e)) && final(self).waited_of() == old(
                    self,
                ).waited_of(),
                Ok(true) => r == WaitStep::<E>::Finished(Ok(())) && final(self).waited_of() == old(
                    self,
                ).waited_of(),
                Ok(false) => if old(self).waited_of() >= old(self).timeout_of() {
                    r == WaitStep::<E>::Finished(Err(Error::Timeout)) && final(self).waited_of()
                        == old(self).waited_of()
                } else {
                    r == WaitStep::<E>::SleepOneMs && final(self).waited_of() == old(
                        self,
                    ).waited_of() + 1
                },
            },
            // a sleep always uses up one of the sleeps left; a timeout comes
            // only when none is left
            r == WaitStep::<E>::SleepOneMs ==> sleeps_left(old(self).waited_of(), old(self).timeout_of()) > 0
                && sleeps_left(final(self).waited_of(), final(self).timeout_of()) + 1 == sleeps_left(
                old(self).waited_of(),
                old(self).timeout_of(),
            ),
            r == WaitStep::<E>::Finished(Err(Error::Timeout)) && level == Ok::<bool, Error<E>>(false)
                ==> sleeps_left(old(self).waited_of(), old(self).timeout_of()) == 0,
    {
        match level {
            Err(e) => WaitStep::Finished(Err(e)),
            Ok(true) => WaitStep::Finished(Ok(())),
            Ok(false) => {
                if self.waited_ms >= self.timeout_ms {
                    WaitStep::Finished(Err(Error::Timeout))
                } else {
                    self.waited_ms = self.waited_ms + 1;
                    WaitStep::SleepOneMs
                }
            },
        }
    }
}


/// A register frame starts with the register's address in the big-endian
/// form the report decoder reads: decoding its first two bytes gives the
/// register back, and for a 16-bit write the last two give the value back.
pub proof fn lemma_frame_decodes(w: RegWrite)
    ensures
        crate::bytes::be16(frame_of(w)[0], frame_of(w)[1]) == match w {
            RegWrite::Byte { reg, .. } => reg,
            RegWrite::Word { reg, .. } => reg,
        },
        w is Byte ==> frame_of(w).len() == 3 && frame_of(w)[2] == w->Byte_value,
        w is Word ==> frame_of(w).len() == 4 && crate::bytes::be16(frame_of(w)[2], frame_of(w)[3])
            == w->Word_value,
{
    match w {
        RegWrite::Byte { reg, value } => {
            crate::bytes::lemma_be_roundtrip(reg);
        },
        RegWrite::Word { reg, value } => {
            crate::bytes::lemma_be_roundtrip(reg);
            crate::bytes::lemma_be_roundtrip(value);
        },
    }
}

/// Each gesture-enable bit written at setup is set exactly when the
/// configuration enables that gesture, and each axis bit exactly when the
/// configuration asks for that flip or swap; no other bit is set.
pub proof fn lemma_setup_bits_follow_config(c: Iqs5xxConfig)
    ensures
        (single_finger_bits(c) & registers::GESTURE_SINGLE_TAP != 0) == c.enable_single_tap,
        (single_finger_bits(c) & registers::GESTURE_PRESS_HOLD != 0) == c.enable_press_and_hold,
        single_finger_bits(c) & !(registers::GESTURE_SINGLE_TAP | registers::GESTURE_PRESS_HOLD) == 0,
        (multi_finger_bits(c) & registers::GESTURE_TWO_FINGER_TAP != 0) == c.enable_two_finger_tap,
        (multi_finger_bits(c) & registers::GESTURE_SCROLL != 0) == c.enable_scroll,
        multi_finger_bits(c) & !(registers::GESTURE_TWO_FINGER_TAP | registers::GESTURE_SCROLL) == 0,
        (xy_config_bits(c) & registers::XY_CONFIG_FLIP_X != 0) == c.invert_x,
        (xy_config_bits(c) & registers::XY_CONFIG_FLIP_Y != 0) == c.invert_y,
        (xy_config_bits(c) & registers::XY_CONFIG_SWITCH_XY != 0) == c.swap_xy,
        xy_config_bits(c) & !(registers::XY_CONFIG_FLIP_X | registers::XY_CONFIG_FLIP_Y
            | registers::XY_CONFIG_SWITCH_XY) == 0,
{
    let a = c.enable_single_tap;
    let b = c.enable_press_and_hold;
    assert(((if a { 1u8 } else { 0u8 }) | (if b { 2u8 } else { 0u8 })) & 1u8 != 0 <==> a) by (bit_vector);
    assert(((if a { 1u8 } else { 0u8 }) | (if b { 2u8 } else { 0u8 })) & 2u8 != 0 <==> b) by (bit_vector);
    assert(((if a { 1u8 } else { 0u8 }) | (if b { 2u8 } else { 0u8 })) & !(1u8 | 2u8) == 0) by (bit_vector);
    let t = c.enable_two_finger_tap;
    let s = c.enable_scroll;
    assert(((if t { 1u8 } else { 0u8 }) | (if s { 2u8 } else { 0u8 })) & 1u8 != 0 <==> t) by (bit_vector);
    assert(((if t { 1u8 } else { 0u8 }) | (if s { 2u8 } else { 0u8 })) & 2u8 != 0 <==> s) by (bit_vector);
    assert(((if t { 1u8 } else { 0u8 }) | (if s { 2u8 } else { 0u8 })) & !(1u8 | 2u8) == 0) by (bit_vector);
    let x = c.invert_x;
    let y = c.invert_y;
    let w = c.swap_xy;
    assert(((if x { 1u8 } else { 0u8 }) | (if y { 2u8 } else { 0u8 }) | (if w { 4u8 } else { 0u8 })) & 1u8 != 0
        <==> x) by (bit_vector);
    assert(((if x { 1u8 } else { 0u8 }) | (if y { 2u8 } else { 0u8 }) | (if w { 4u8 } else { 0u8 })) & 2u8 != 0
        <==> y) by (bit_vector);
    assert(((if x { 1u8 } else { 0u8 }) | (if y { 2u8 } else { 0u8 }) | (if w { 4u8 } else { 0u8 })) & 4u8 != 0
        <==> w) by (bit_vector);
    assert(((if x { 1u8 } else { 0u8 }) | (if y { 2u8 } else { 0u8 }) | (if w { 4u8 } else { 0u8 })) & !(1u8
        | 2u8 | 4u8) == 0) by (bit_vector);
}

/// Each tuning value of the configuration reaches its own register: the
/// setup writes BOTTOM_BETA once, with `bottom_beta`, STATIONARY_THRESHOLD
/// once, with `stationary_threshold`, and HOLD_TIME once, as a word, with
/// `press_and_hold_time_ms`; these are the third, fourth and seventh writes.
pub proof fn lemma_config_values_reach_their_registers(c: Iqs5xxConfig)
    ensures
        ({
            let w = setup_writes_of(c);
            &&& w[2] == RegWrite::Byte { reg: registers::BOTTOM_BETA, value: c.bottom_beta }
            &&& w[3] == RegWrite::Byte { reg: registers::STATIONARY_THRESHOLD, value: c.stationary_threshold }
            &&& w[6] == RegWrite::Word { reg: registers::HOLD_TIME, value: c.press_and_hold_time_ms }
            &&& forall|i: int|
                0 <= i < w.len() ==> match #[trigger] w[i] {
                    RegWrite::Byte { reg, value } => {
                        &&& reg == registers::BOTTOM_BETA ==> i == 2 && value == c.bottom_beta
                        &&& reg == registers::STATIONARY_THRESHOLD ==> i == 3 && value
                            == c.stationary_threshold
                        &&& reg != registers::HOLD_TIME
                    },
                    RegWrite::Word { reg, value } => i == 6 && reg == registers::HOLD_TIME && value
                        == c.press_and_hold_time_ms,
                }
        }),
{
    let w = setup_writes_of(c);
    assert(w.len() == 11);
    assert forall|i: int| 0 <= i < w.len() implies match #[trigger] w[i] {
        RegWrite::Byte { reg, value } => {
            &&& reg == registers::BOTTOM_BETA ==> i == 2 && value == c.bottom_beta
            &&& reg == registers::STATIONARY_THRESHOLD ==> i == 3 && value == c.stationary_threshold
            &&& reg != registers::HOLD_TIME
        },
        RegWrite::Word { reg, value } => i == 6 && reg == registers::HOLD_TIME && value == c.press_and_hold_time_ms,
    } by {
        assert(i == 0 || i == 1 || i == 2 || i == 3 || i == 4 || i == 5 || i == 6 || i == 7 || i == 8 || i == 9
            || i == 10);
    }
}

/// The power-up sequence pulses reset first (when there is a reset pin),
/// waits for the ready pin before it writes anything, acknowledges the reset
/// with its first write, marks setup complete with its last register write,
/// and closes the communication window at the very end.
pub proof fn lemma_init_sequence_shape(has_rst: bool, c: Iqs5xxConfig)
    ensures
        ({
            let s = init_steps_of(has_rst, c);
            let k: int = if has_rst { 4 } else { 0 };
            &&& s.len() == k + 12
            &&& has_rst ==> s[0] == Step::ResetLow && s[2] == Step::ResetHigh
            &&& s[k] == Step::WaitReady
            &&& forall|i: int| 0 <= i < k ==> !(#[trigger] s[i] is Write)
            &&& forall|i: int| k < i < s.len() ==> #[trigger] s[i] is Write
            &&& s[k + 1] == Step::Write(
                RegWrite::Byte { reg: registers::SYSTEM_CONTROL_0, value: registers::SYSTEM_CONTROL_0_ACK_RESET },
            )
            &&& s[k + 10] == Step::Write(
                RegWrite::Byte { reg: registers::SYSTEM_CONFIG_0, value: system_config_0_bits() },
            )
            &&& s[s.len() - 1] == Step::Write(end_session_write())
        }),
{
    let s = init_steps_of(has_rst, c);
    let w = setup_writes_of(c);
    let k: int = if has_rst { 4 } else { 0 };
    assert(reset_steps_of(has_rst, c).len() == k);
    assert forall|i: int| k < i < s.len() implies #[trigger] s[i] is Write by {
        assert(s[i] == Step::Write(w[i - k - 1]));
    }
}

/// The number of sleeps a wait that has slept `waited` ms takes before it
/// times out, when the pin is never seen at the awaited level.
pub open spec fn sleeps_until_timeout(waited: u32, timeout: u32) -> nat
    decreases timeout - waited,
{
    if waited >= timeout {
        0
    } else {
        1 + sleeps_until_timeout((waited + 1) as u32, timeout)
    }
}

/// A wait that keeps seeing the pin not ready sleeps exactly the sleeps it
/// has left before it reports a timeout (one sleep per step, see
/// [`ReadyWait::step`]); a fresh wait thus sleeps `ready_timeout_ms` times.
pub proof fn lemma_wait_gives_up_after_timeout(waited: u32, timeout: u32)
    ensures
        sleeps_until_timeout(waited, timeout) == sleeps_left(waited, timeout),
        sleeps_left(0, timeout) == timeout,
    decreases timeout - waited,
{
    if waited < timeout {
        lemma_wait_gives_up_after_timeout((waited + 1) as u32, timeout);
    }
}

/// A driver gives back the very handles it was made with: the bus and the
/// two pins that `new` was given (with the same `Some`/`None` shape) are what
/// [`Iqs5xx::into_inner`] returns, and the configuration is the one given.
pub proof fn lemma_handles_round_trip<I2C, RDY, RST>(
    i2c: I2C,
    rdy_pin: Option<RDY>,
    rst_pin: Option<RST>,
    config: Iqs5xxConfig,
)
    ensures
        ({
            let d = Iqs5xx::<I2C, RDY, RST>::new_spec(i2c, rdy_pin, rst_pin, config);
            &&& (d.i2c_of(), d.rdy_pin_of(), d.rst_pin_of()) == (i2c, rdy_pin, rst_pin)
            &&& d.config_of() == config
        }),
{
}

/// The register address that a report block is read from.
pub fn report_address() -> (r: [u8; 2])
    ensures
        r@ == seq![hi_byte(registers::GESTURE_EVENTS_0), lo_byte(registers::GESTURE_EVENTS_0)],
{
    be_bytes(registers::GESTURE_EVENTS_0)
}

} // verus!
