//! The gesture that a report stands for.

use vstd::prelude::*;
use crate::registers;
use crate::report::Report;

verus! {

/// A gesture or motion decoded from one report.
#[allow(inconsistent_fields)]
#[derive(Debug, Clone, Copy, PartialEq, Eq, Structural)]
pub enum Event {
    /// Nothing happened: no gesture and no motion.
    Idle,
    Move { x: i16, y: i16 },
    SingleTap { x: u16, y: u16 },
    PressHold { x: i16, y: i16 },
    SwipeX(i16),
    SwipeY(i16),
    TwoFingerTap,
    Scroll { x: i16, y: i16 },
    Zoom(i16),
    Invalid,
}

/// The event a report stands for. A report with no gesture bit set is plain
/// motion (or nothing, when it does not move); exactly one single-finger
/// gesture in GESTURE_EVENTS_0, or exactly one multi-finger gesture in
/// GESTURE_EVENTS_1, names its gesture; any other combination is invalid.
pub open spec fn event_of(r: Report) -> Event {
    let e0 = r.events0;
    let e1 = r.events1;
    if e0 == 0 && e1 == 0 {
        if r.rel_x == 0 && r.rel_y == 0 {
            Event::Idle
        } else {
            Event::Move { x: r.rel_x, y: r.rel_y }
        }
    } else if e1 == 0 {
        if e0 == registers::GESTURE_SINGLE_TAP {
            Event::SingleTap { x: r.touches@[0].abs_x, y: r.touches@[0].abs_y }
        } else if e0 == registers::GESTURE_PRESS_HOLD {
            Event::PressHold { x: r.rel_x, y: r.rel_y }
        } else if e0 == registers::GESTURE_SWIPE_RIGHT || e0 == registers::GESTURE_SWIPE_LEFT {
            Event::SwipeX(r.rel_x)
        } else if e0 == registers::GESTURE_SWIPE_DOWN || e0 == registers::GESTURE_SWIPE_UP {
            Event::SwipeY(r.rel_y)
        } else {
            Event::Invalid
        }
    } else if e0 == 0 {
        if e1 == registers::GESTURE_TWO_FINGER_TAP {
            Event::TwoFingerTap
        } else if e1 == registers::GESTURE_SCROLL {
            Event::Scroll { x: r.rel_x, y: r.rel_y }
        } else if e1 == registers::GESTURE_ZOOM {
            Event::Zoom(r.rel_x)
        } else {
            Event::Invalid
        }
    } else {
        Event::Invalid
    }
}

impl Event {
    /// Classifies a report.
    pub fn from_report(report: &Report) -> (r: Self)
        ensures
            r == event_of(*report),
            // both gesture registers set at once is never a gesture
            report.events0 != 0 && report.events1 != 0 ==> r == Event::Invalid,
    {
        match (report.events0, report.events1) {
            (0, 0) if report.rel_x == 0 && report.rel_y == 0 => Self::Idle,
            (0, 0) => Self::Move { x: report.rel_x, y: report.rel_y },
            (registers::GESTURE_SINGLE_TAP, 0) => Self::SingleTap {
                x: report.touches[0].abs_x,
                y: report.touches[0].abs_y,
            },
            (registers::GESTURE_PRESS_HOLD, 0) => Self::PressHold { x: report.rel_x, y: report.rel_y },
            (registers::GESTURE_SWIPE_RIGHT, 0) => Self::SwipeX(report.rel_x),
            (registers::GESTURE_SWIPE_LEFT, 0) => Self::SwipeX(report.rel_x),
            (registers::GESTURE_SWIPE_DOWN, 0) => Self::SwipeY(report.rel_y),
            (registers::GESTURE_SWIPE_UP, 0) => Self::SwipeY(report.rel_y),
            (0, registers::GESTURE_TWO_FINGER_TAP) => Self::TwoFingerTap,
            (0, registers::GESTURE_SCROLL) => Self::Scroll { x: report.rel_x, y: report.rel_y },
            (0, registers::GESTURE_ZOOM) => Self::Zoom(report.rel_x),
            _ => Self::Invalid,
        }
    }
}

/// What each event says of the report it came from: a gesture is named
/// only by its own bit, alone in its register, with the other register
/// clear; each event carries the report's values for it (horizontal swipes
/// and zoom the X motion, vertical swipes the Y motion, a single tap the
/// first finger's position); motion and idleness need both registers clear.
/// Conversely a lone known gesture bit is never invalid.
pub proof fn lemma_events_follow_gesture_bits(r: Report)
    ensures
        ({
            let e0 = r.events0;
            let e1 = r.events1;
            &&& event_of(r) == Event::Idle <==> e0 == 0 && e1 == 0 && r.rel_x == 0 && r.rel_y == 0
            &&& event_of(r) matches Event::Move { x, y } ==> e0 == 0 && e1 == 0 && x == r.rel_x && y == r.rel_y
                && (x != 0 || y != 0)
            &&& event_of(r) matches Event::SingleTap { x, y } ==> e0 == registers::GESTURE_SINGLE_TAP && e1 == 0
                && x == r.touches@[0].abs_x && y == r.touches@[0].abs_y
            &&& event_of(r) matches Event::PressHold { x, y } ==> e0 == registers::GESTURE_PRESS_HOLD && e1 == 0
                && x == r.rel_x && y == r.rel_y
            &&& event_of(r) matches Event::SwipeX(v) ==> e1 == 0 && (e0 == registers::GESTURE_SWIPE_LEFT || e0
                == registers::GESTURE_SWIPE_RIGHT) && v == r.rel_x
            &&& event_of(r) matches Event::SwipeY(v) ==> e1 == 0 && (e0 == registers::GESTURE_SWIPE_UP || e0
                == registers::GESTURE_SWIPE_DOWN) && v == r.rel_y
            &&& event_of(r) == Event::TwoFingerTap ==> e0 == 0 && e1 == registers::GESTURE_TWO_FINGER_TAP
            &&& event_of(r) matches Event::Scroll { x, y } ==> e0 == 0 && e1 == registers::GESTURE_SCROLL && x
                == r.rel_x && y == r.rel_y
            &&& event_of(r) matches Event::Zoom(v) ==> e0 == 0 && e1 == registers::GESTURE_ZOOM && v == r.rel_x
            &&& e1 == 0 && (e0 == 1 || e0 == 2 || e0 == 4 || e0 == 8 || e0 == 16 || e0 == 32) ==> event_of(r)
                != Event::Invalid
            &&& e0 == 0 && (e1 == 1 || e1 == 2 || e1 == 4) ==> event_of(r) != Event::Invalid
        }),
{
}

} // verus!
