//! What the display is asked to do after a drawing operation.

use vstd::prelude::*;

verus! {

/// A rectangle of the display, as its driver describes one.
#[derive(Clone, Copy, Debug, PartialEq, Eq, Structural)]
pub struct ScreenRect {
    pub top: u32,
    pub left: u32,
    pub width: u32,
    pub height: u32,
}

/// How an element wants the display refreshed after it has drawn.
#[derive(Clone, Copy, Debug, PartialEq, Eq, Structural)]
pub enum UIConstraintRefresh {
    /// Leave the display as it is.
    NoRefresh,
    /// Ask for a refresh and go on.
    Refresh,
    /// Ask for a refresh and wait until it is complete.
    RefreshAndWait,
}

/// The waveforms that this library asks for.
#[derive(Clone, Copy, Debug, PartialEq, Eq, Structural)]
pub enum WaveformMode {
    /// The initialising waveform, which wipes the whole panel.
    Init,
    /// The fast sixteen-level waveform.
    Gc16Fast,
}

/// The temperature settings that this library asks for.
#[derive(Clone, Copy, Debug, PartialEq, Eq, Structural)]
pub enum DisplayTemp {
    /// The ambient temperature.
    Ambient,
    /// The setting for drawing.
    RemarkableDraw,
}

/// The dithering that this library asks for.
#[derive(Clone, Copy, Debug, PartialEq, Eq, Structural)]
pub enum DitherMode {
    /// No dithering.
    Passthrough,
}

/// Whether a partial refresh returns at once or when it is complete.
#[derive(Clone, Copy, Debug, PartialEq, Eq, Structural)]
pub enum PartialRefreshMode {
    Async,
    Wait,
}

/// A refresh of one rectangle.
#[derive(Clone, Copy, Debug, PartialEq, Eq, Structural)]
pub struct PartialRefresh {
    pub area: ScreenRect,
    pub mode: PartialRefreshMode,
    pub waveform: WaveformMode,
    pub temperature: DisplayTemp,
    pub dither: DitherMode,
    pub marker_seed: u32,
}

/// A refresh of the whole display.
#[derive(Clone, Copy, Debug, PartialEq, Eq, Structural)]
pub struct FullRefresh {
    pub waveform: WaveformMode,
    pub temperature: DisplayTemp,
    pub dither: DitherMode,
    pub marker_seed: u32,
    pub wait_completion: bool,
}

/// A refresh of either kind.
#[derive(Clone, Copy, Debug, PartialEq, Eq, Structural)]
pub enum Refresh {
    Partial(PartialRefresh),
    Full(FullRefresh),
}

/// What follows a drawing operation: the refresh to ask for, if any, and
/// whether to wait for the marker that the refresh returns.
#[derive(Clone, Copy, Debug, PartialEq, Eq, Structural)]
pub struct DrawRefresh {
    pub refresh: Option<PartialRefresh>,
    pub wait: bool,
}

/// The refresh of a freshly drawn rectangle: at once, with the fast
/// waveform at the drawing temperature.
pub open spec fn drawn_refresh(area: ScreenRect) -> PartialRefresh {
    PartialRefresh {
        area,
        mode: PartialRefreshMode::Async,
        waveform: WaveformMode::Gc16Fast,
        temperature: DisplayTemp::RemarkableDraw,
        dither: DitherMode::Passthrough,
        marker_seed: 0,
    }
}

/// What follows a drawing operation under the given constraint.
pub open spec fn after_draw(area: ScreenRect, refresh: UIConstraintRefresh) -> DrawRefresh {
    match refresh {
        UIConstraintRefresh::NoRefresh => DrawRefresh { refresh: None, wait: false },
        UIConstraintRefresh::Refresh => DrawRefresh { refresh: Some(drawn_refresh(area)), wait: false },
        UIConstraintRefresh::RefreshAndWait => DrawRefresh { refresh: Some(drawn_refresh(area)), wait: true },
    }
}

/// What follows the clearing of a display `yres` high and `xres` wide: a
/// deep clear wipes the whole panel, a shallow one refreshes it as one
/// rectangle, and both wait for completion.
pub open spec fn after_clear(yres: u32, xres: u32, deep: bool) -> Refresh {
    if deep {
        Refresh::Full(
            FullRefresh {
                waveform: WaveformMode::Init,
                temperature: DisplayTemp::Ambient,
                dither: DitherMode::Passthrough,
                marker_seed: 0,
                wait_completion: true,
            },
        )
    } else {
        Refresh::Partial(
            PartialRefresh {
                area: ScreenRect { top: 0, left: 0, height: yres, width: xres },
                mode: PartialRefreshMode::Wait,
                waveform: WaveformMode::Gc16Fast,
                temperature: DisplayTemp::Ambient,
                dither: DitherMode::Passthrough,
                marker_seed: 0,
            },
        )
    }
}

/// Decides what follows a drawing operation that touched `area`.
pub fn refresh_after_draw(area: ScreenRect, refresh: UIConstraintRefresh) -> (plan: DrawRefresh)
    ensures
        plan == after_draw(area, refresh),
{
    let request = PartialRefresh {
        area,
        mode: PartialRefreshMode::Async,
        waveform: WaveformMode::Gc16Fast,
        temperature: DisplayTemp::RemarkableDraw,
        dither: DitherMode::Passthrough,
        marker_seed: 0,
    };
    match refresh {
        UIConstraintRefresh::Refresh => DrawRefresh { refresh: Some(request), wait: false },
        UIConstraintRefresh::RefreshAndWait => DrawRefresh { refresh: Some(request), wait: true },
        UIConstraintRefresh::NoRefresh => DrawRefresh { refresh: None, wait: false },
    }
}

/// Decides what follows the clearing of the display.
pub fn refresh_after_clear(yres: u32, xres: u32, deep: bool) -> (refresh: Refresh)
    ensures
        refresh == after_clear(yres, xres, deep),
{
    if deep {
        Refresh::Full(
            FullRefresh {
                waveform: WaveformMode::Init,
                temperature: DisplayTemp::Ambient,
                dither: DitherMode::Passthrough,
                marker_seed: 0,
                wait_completion: true,
            },
        )
    } else {
        Refresh::Partial(
            PartialRefresh {
                area: ScreenRect { top: 0, left: 0, height: yres, width: xres },
                mode: PartialRefreshMode::Wait,
                waveform: WaveformMode::Gc16Fast,
                temperature: DisplayTemp::Ambient,
                dither: DitherMode::Passthrough,
                marker_seed: 0,
            },
        )
    }
}

} // verus!
