//! Monitors as capture sources. Every monitor the platform reports is
//! capturable; none is filtered out.

use crate::setup::CaptureSource;
use vstd::prelude::*;

verus! {

/// A monitor that may be captured.
#[derive(Clone, Copy, Debug, PartialEq, Eq, Structural)]
pub struct Screen {
    pub hmonitor: isize,
}

/// The namespace of monitor enumeration.
#[derive(Debug)]
pub struct Screens;

impl Screens {
    /// Makes a screen of every monitor handle, keeping the order in which
    /// the platform reported them.
    pub fn enumerate(monitors: &Vec<isize>) -> (screens: Vec<Screen>)
        ensures
            screens.len() == monitors.len(),
            forall|i: int| 0 <= i < monitors.len() ==> (#[trigger] screens[i]).hmonitor == monitors[i],
    {
        let mut screens: Vec<Screen> = Vec::new();
        let mut i: usize = 0;
        while i < monitors.len()
            invariant
                i <= monitors.len(),
                screens.len() == i,
                forall|j: int| 0 <= j < i ==> (#[trigger] screens[j]).hmonitor == monitors[j],
            decreases monitors.len() - i,
        {
            screens.push(Screen { hmonitor: monitors[i] });
            i = i + 1;
        }
        screens
    }
}

/// Picks the monitor to capture: the first one reported, if there is any.
pub fn select_screen(screens: &Vec<Screen>) -> (source: Option<CaptureSource>)
    ensures
        source == if screens.len() == 0 {
            None
        } else {
            Some(CaptureSource::Monitor(screens[0].hmonitor))
        },
{
    if screens.len() == 0 {
        None
    } else {
        Some(CaptureSource::Monitor(screens[0].hmonitor))
    }
}

} // verus!
