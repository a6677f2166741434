//! What the program around the library is asked to do, in order.

use crate::scene::{PointerFocus, SurfaceId};
use vstd::prelude::*;

verus! {

/// The refresh rate that the output advertises, in millihertz.
pub const REFRESH_MHZ: i32 = 60_000;

/// Which scale factor the compositor works with.
#[derive(Clone, Copy, Debug, PartialEq, Eq, Structural)]
pub enum ScaleChoice {
    /// That of the screen the window is on: clients are laid out in logical
    /// pixels.
    System,
    /// One: clients are laid out in physical pixels.
    Unit,
}

/// A video mode of the output.
#[derive(Clone, Copy, Debug, PartialEq, Eq, Structural)]
pub struct OutputMode {
    pub width: i32,
    pub height: i32,
    /// In millihertz.
    pub refresh: i32,
}

/// One thing to do.
#[derive(Clone, Copy, Debug, PartialEq, Eq, Structural)]
pub enum Effect {
    /// Maximize the window, or restore it.
    SetMaximized(bool),
    /// Make the window a borderless fullscreen one, or restore it.
    SetFullscreen(bool),
    /// Work with another scale factor from now on.
    SetScale(ScaleChoice),
    /// Tell the clients the current scale factor, rounded.
    AdvertiseScale,
    /// Tell the clients the mode, with the normal transform, the current scale
    /// factor, rounded, and the output at the origin.
    AdvertiseMode(OutputMode),
    /// Mark the mode as the preferred one.
    PreferMode(OutputMode),
    /// Give the renderer's surface a size in physical pixels.
    ResizeRenderer { width: u32, height: u32 },
    /// Lay the clients out in a view of this many physical pixels, divided by
    /// the current scale factor.
    FitView { physical_width: i64, physical_height: i64 },
    /// Lay the clients out in a view of this many logical pixels.
    SetViewSize { logical_width: i32, logical_height: i32 },
    /// Ask every client in the layout for the size of its tile.
    RequestTileSizes,
    /// Move the tile of this surface to where the pointer holds it.
    MoveTile(SurfaceId),
    /// Draw a new frame soon.
    RequestRedraw,
    /// Fill the frame with the background.
    ClearFrame,
    /// Connect to the saved machine at this index, if there is one.
    OpenConnection(usize),
    /// Take over the scale factor that the window reported, in the compositor
    /// and then in the renderer.
    AdoptScaleFactor,
    /// Leave the event loop.
    Exit,
    /// Send the clients what is queued for them.
    FlushClients,
    /// Look at the frame timer.
    CheckTimer,
    /// Sleep until this time, in nanoseconds, unless an event comes first.
    WaitUntil(u128),
    /// Install the menu bar and keep the window out of tabbing.
    InstallMenu,
    /// Give the keyboard focus to the surface, or to none.
    FocusKeyboard(Option<SurfaceId>),
    /// Tell the window of this surface that it is the active one.
    ActivateToplevel(SurfaceId),
    /// Find out which tile is under the pointer, now that the tiles are in
    /// place, and report the movement.
    FindFocus,
    /// Report to the surface under the pointer, if any, how far the pointer
    /// moved.
    RelativeMotion(Option<PointerFocus>),
    /// Report to the surface under the pointer, if any, where the pointer is.
    Motion(Option<PointerFocus>),
    /// Report a pointer button by its evdev code.
    Button { code: u32, pressed: bool },
    /// Close the group of pointer events.
    PointerFrame,
}

} // verus!
