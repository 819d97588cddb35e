//! Driver configuration.

use vstd::prelude::*;

verus! {

/// How the trackpad is addressed, timed and set up.
#[derive(Debug, Clone, Copy)]
pub struct Iqs5xxConfig {
    /// 7-bit I2C address.
    pub addr: u8,
    /// How long to wait for the ready pin, in 1 ms polls.
    pub ready_timeout_ms: u32,
    /// How long the reset pin is held low.
    pub reset_low_ms: u16,
    /// How long to wait after releasing reset.
    pub reset_high_ms: u16,
    pub enable_single_tap: bool,
    pub enable_press_and_hold: bool,
    /// Press-and-hold time, in ms, written to HOLD_TIME.
    pub press_and_hold_time_ms: u16,
    pub enable_two_finger_tap: bool,
    pub enable_scroll: bool,
    pub invert_x: bool,
    pub invert_y: bool,
    pub swap_xy: bool,
    pub bottom_beta: u8,
    pub stationary_threshold: u8,
}

/// The configuration used when the caller has no preference.
pub open spec fn default_config() -> Iqs5xxConfig {
    Iqs5xxConfig {
        addr: 0x74,
        ready_timeout_ms: 100,
        reset_low_ms: 10,
        reset_high_ms: 10,
        enable_single_tap: true,
        enable_press_and_hold: true,
        press_and_hold_time_ms: 250,
        enable_two_finger_tap: true,
        enable_scroll: true,
        invert_x: false,
        invert_y: false,
        swap_xy: false,
        bottom_beta: 5,
        stationary_threshold: 5,
    }
}

impl Default for Iqs5xxConfig {
    fn default() -> (r: Self)
        ensures
            r == default_config(),
    {
        Self {
            addr: 0x74,
            ready_timeout_ms: 100,
            reset_low_ms: 10,
            reset_high_ms: 10,
            enable_single_tap: true,
            enable_press_and_hold: true,
            press_and_hold_time_ms: 250,
            enable_two_finger_tap: true,
            enable_scroll: true,
            invert_x: false,
            invert_y: false,
            swap_xy: false,
            bottom_beta: 5,
            stationary_threshold: 5,
        }
    }
}

} // verus!
