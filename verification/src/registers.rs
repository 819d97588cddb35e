//! Register IDs and bit definitions for IQS5xx.

use vstd::prelude::*;

verus! {

pub const PRODUCT_NUMBER_0: u16 = 0x0000;
pub const GESTURE_EVENTS_0: u16 = 0x000D;
pub const GESTURE_EVENTS_1: u16 = 0x000E;
pub const SYSTEM_INFO_0: u16 = 0x000F;
pub const SYSTEM_INFO_1: u16 = 0x0010;
pub const NUM_FINGERS: u16 = 0x0011;
pub const REL_X: u16 = 0x0012;
pub const REL_Y: u16 = 0x0014;
pub const ABS_X: u16 = 0x0016;
pub const ABS_Y: u16 = 0x0018;
pub const TOUCH_STRENGTH: u16 = 0x001A;
pub const TOUCH_AREA: u16 = 0x001C;

pub const SYSTEM_CONTROL_0: u16 = 0x0431;

pub const SYSTEM_CONFIG_0: u16 = 0x058E;
pub const SYSTEM_CONFIG_1: u16 = 0x058F;

pub const FILTER_SETTINGS: u16 = 0x0632;
pub const BOTTOM_BETA: u16 = 0x0637;
pub const XY_CONFIG_0: u16 = 0x0669;
pub const STATIONARY_THRESHOLD: u16 = 0x0672;

pub const SINGLE_FINGER_GESTURES_CONF: u16 = 0x06B7;
pub const MULTI_FINGER_GESTURES_CONF: u16 = 0x06B8;
pub const HOLD_TIME: u16 = 0x06BD;

/// Writing to this address closes the communication window.
pub const END_WINDOW: u16 = 0xEEEE;

/// SYSTEM_CONTROL_0, bit 7: acknowledge a reset.
pub const SYSTEM_CONTROL_0_ACK_RESET: u8 = 0x80;

/// SYSTEM_CONFIG_0, bit 6: setup complete.
pub const SYSTEM_CONFIG_0_SETUP_COMPLETE: u8 = 0x40;
/// SYSTEM_CONFIG_0, bit 5: watchdog enable.
pub const SYSTEM_CONFIG_0_WDT: u8 = 0x20;

/// SYSTEM_CONFIG_1, bit 0: event mode.
pub const SYSTEM_CONFIG_1_EVENT_MODE: u8 = 0x01;
/// SYSTEM_CONFIG_1, bit 1: gesture events.
pub const SYSTEM_CONFIG_1_GESTURE_EVENT: u8 = 0x02;
/// SYSTEM_CONFIG_1, bit 2: trackpad events.
pub const SYSTEM_CONFIG_1_TP_EVENT: u8 = 0x04;

/// FILTER_SETTINGS, bit 0: IIR filter.
pub const FILTER_IIR: u8 = 0x01;
/// FILTER_SETTINGS, bit 1: moving-average filter.
pub const FILTER_MAV: u8 = 0x02;
/// FILTER_SETTINGS, bit 2: IIR select.
pub const FILTER_IIR_SELECT: u8 = 0x04;
/// FILTER_SETTINGS, bit 3: ALP count filter.
pub const FILTER_ALP_COUNT: u8 = 0x08;

/// SYSTEM_INFO_0, bit 7: the device has reset.
pub const SYSTEM_INFO_0_SHOW_RESET: u8 = 0x80;

/// SYSTEM_INFO_1, bit 0: trackpad movement.
pub const SYSTEM_INFO_1_TP_MOVEMENT: u8 = 0x01;

/// Single-finger gesture bits (GESTURE_EVENTS_0 and its enable register).
pub const GESTURE_SINGLE_TAP: u8 = 0x01;
pub const GESTURE_PRESS_HOLD: u8 = 0x02;
pub const GESTURE_SWIPE_LEFT: u8 = 0x04;
pub const GESTURE_SWIPE_RIGHT: u8 = 0x08;
pub const GESTURE_SWIPE_UP: u8 = 0x10;
pub const GESTURE_SWIPE_DOWN: u8 = 0x20;

/// Multi-finger gesture bits (GESTURE_EVENTS_1 and its enable register).
pub const GESTURE_TWO_FINGER_TAP: u8 = 0x01;
pub const GESTURE_SCROLL: u8 = 0x02;
pub const GESTURE_ZOOM: u8 = 0x04;

/// XY_CONFIG_0, bit 0: flip the X axis.
pub const XY_CONFIG_FLIP_X: u8 = 0x01;
/// XY_CONFIG_0, bit 1: flip the Y axis.
pub const XY_CONFIG_FLIP_Y: u8 = 0x02;
/// XY_CONFIG_0, bit 2: swap the X and Y axes.
pub const XY_CONFIG_SWITCH_XY: u8 = 0x04;

} // verus!
