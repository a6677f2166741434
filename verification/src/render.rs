//! Drawing a frame: what of each surface is drawn, and where.

use crate::effect::Effect;
use crate::scene::SurfaceId;
use vstd::prelude::*;

verus! {

/// The width of the border around the focused window, in physical pixels.
pub const BORDER_WIDTH: i32 = 4;

/// A size in pixels.
#[derive(Clone, Copy, Debug, PartialEq, Eq, Structural)]
pub struct Size {
    pub width: i32,
    pub height: i32,
}

/// What begins a frame. A window without area shows none; otherwise the
/// renderer takes over the window's size, if it has another one, and the frame
/// is cleared.
pub fn begin_frame(
    window_width: u32,
    window_height: u32,
    renderer_width: u32,
    renderer_height: u32,
) -> (effects: Vec<Effect>)
    ensures
        effects@ == (if window_width == 0 || window_height == 0 {
            Seq::empty()
        } else if window_width == renderer_width && window_height == renderer_height {
            seq![Effect::ClearFrame]
        } else {
            seq![
                Effect::ResizeRenderer { width: window_width, height: window_height },
                Effect::ClearFrame,
            ]
        }),
{
    let mut effects: Vec<Effect> = Vec::new();
    if window_width > 0 && window_height > 0 {
        if window_width != renderer_width || window_height != renderer_height {
            effects.push(Effect::ResizeRenderer { width: window_width, height: window_height });
        }
        effects.push(Effect::ClearFrame);
    }
    effects
}

/// The steps of a frame.
#[derive(Clone, Copy, Debug, PartialEq, Eq, Structural)]
pub enum FrameStep {
    /// Bring the renderer to the window's size and clear the frame.
    Begin,
    /// Drop the textures of the windows that are gone.
    EvictDead,
    /// Drop the windows that are gone.
    DropDead,
    /// Let the layout follow the size of the view.
    LayOut,
    /// Draw the window at this index of the layout.
    Window(usize),
    /// Draw the border of the window at this index.
    Border(usize),
    /// Drop the popups that are gone.
    DropDeadPopups,
    /// Draw the popup at this index.
    Popup(usize),
    /// Show the frame.
    Present,
    /// Tell the clients that the frame was shown.
    AnswerCallbacks,
    /// The frame is over.
    Done,
}

impl FrameStep {
    /// The step that follows in a frame with `windows` windows and `popups`
    /// popups; `visible` says whether the window has an area to draw on.
    pub open spec fn following(self, visible: bool, windows: usize, popups: usize) -> FrameStep {
        match self {
            FrameStep::Begin => if visible {
                FrameStep::EvictDead
            } else {
                FrameStep::Done
            },
            FrameStep::EvictDead => FrameStep::DropDead,
            FrameStep::DropDead => FrameStep::LayOut,
            FrameStep::LayOut => if windows > 0 {
                FrameStep::Window(0)
            } else {
                FrameStep::DropDeadPopups
            },
            FrameStep::Window(i) => FrameStep::Border(i),
            FrameStep::Border(i) => if i + 1 < windows {
                FrameStep::Window((i + 1) as usize)
            } else {
                FrameStep::DropDeadPopups
            },
            FrameStep::DropDeadPopups => if popups > 0 {
                FrameStep::Popup(0)
            } else {
                FrameStep::Present
            },
            FrameStep::Popup(i) => if i + 1 < popups {
                FrameStep::Popup((i + 1) as usize)
            } else {
                FrameStep::Present
            },
            FrameStep::Present => FrameStep::AnswerCallbacks,
            FrameStep::AnswerCallbacks => FrameStep::Done,
            FrameStep::Done => FrameStep::Done,
        }
    }

    /// The step at which a frame arrives after `n` others.
    pub open spec fn nth(n: nat, visible: bool, windows: usize, popups: usize) -> FrameStep
        decreases n,
    {
        if n == 0 {
            FrameStep::Begin
        } else {
            FrameStep::nth((n - 1) as nat, visible, windows, popups).following(
                visible,
                windows,
                popups,
            )
        }
    }

    /// Whether a frame with so many windows and popups has this step.
    pub open spec fn occurs(self, windows: usize, popups: usize) -> bool {
        match self {
            FrameStep::Window(i) => i < windows,
            FrameStep::Border(i) => i < windows,
            FrameStep::Popup(i) => i < popups,
            _ => true,
        }
    }

    /// How many steps of a frame that is drawn come before this one.
    pub open spec fn rank(self, windows: usize, popups: usize) -> nat {
        match self {
            FrameStep::Begin => 0,
            FrameStep::EvictDead => 1,
            FrameStep::DropDead => 2,
            FrameStep::LayOut => 3,
            FrameStep::Window(i) => 4 + 2 * i as nat,
            FrameStep::Border(i) => 5 + 2 * i as nat,
            FrameStep::DropDeadPopups => 4 + 2 * windows as nat,
            FrameStep::Popup(i) => 5 + 2 * windows as nat + i as nat,
            FrameStep::Present => 5 + 2 * windows as nat + popups as nat,
            FrameStep::AnswerCallbacks => 6 + 2 * windows as nat + popups as nat,
            FrameStep::Done => 7 + 2 * windows as nat + popups as nat,
        }
    }

    /// Goes on to the next step of a frame. The number of windows counts from
    /// the layout on, that of popups from when the dead ones were dropped.
    pub fn next(self, visible: bool, windows: usize, popups: usize) -> (step: FrameStep)
        ensures
            step == self.following(visible, windows, popups),
    {
        match self {
            FrameStep::Begin => if visible {
                FrameStep::EvictDead
            } else {
                FrameStep::Done
            },
            FrameStep::EvictDead => FrameStep::DropDead,
            FrameStep::DropDead => FrameStep::LayOut,
            FrameStep::LayOut => if windows > 0 {
                FrameStep::Window(0)
            } else {
                FrameStep::DropDeadPopups
            },
            FrameStep::Window(i) => FrameStep::Border(i),
            FrameStep::Border(i) => if i < windows && windows - i > 1 {
                FrameStep::Window(i + 1)
            } else {
                FrameStep::DropDeadPopups
            },
            FrameStep::DropDeadPopups => if popups > 0 {
                FrameStep::Popup(0)
            } else {
                FrameStep::Present
            },
            FrameStep::Popup(i) => if i < popups && popups - i > 1 {
                FrameStep::Popup(i + 1)
            } else {
                FrameStep::Present
            },
            FrameStep::Present => FrameStep::AnswerCallbacks,
            FrameStep::AnswerCallbacks => FrameStep::Done,
            FrameStep::Done => FrameStep::Done,
        }
    }
}

/// What a surface belongs to.
#[derive(Clone, Copy, Debug, PartialEq, Eq, Structural)]
pub enum SurfaceRole {
    Window,
    Popup,
}

/// What the last commit of a surface did to its buffer.
#[derive(Clone, Copy, Debug, PartialEq, Eq, Structural)]
pub enum BufferState {
    /// It attached a buffer.
    Attached,
    /// It took the buffer away.
    Removed,
    /// It left the buffer as it was.
    Unchanged,
}

/// The size at which a surface is drawn, before scaling.
#[derive(Clone, Copy, Debug, PartialEq, Eq, Structural)]
pub enum DrawSize {
    /// In logical pixels: multiply by the scale factor.
    Logical(Size),
    /// In buffer pixels: divide by the scale of the buffer, then multiply by the
    /// scale factor.
    Buffer { size: Size, buffer_scale: i32 },
}

/// The next step in drawing a surface.
#[derive(Clone, Copy, Debug, PartialEq, Eq, Structural)]
pub enum DrawStep {
    /// Look for a texture made from this buffer before.
    FindTexture,
    /// Read the pixels of the buffer.
    ReadPixels,
    /// Draw. `upload` is the size of the pixels that were read; without it the
    /// texture that was found is drawn.
    Draw { upload: Option<Size>, size: DrawSize },
    /// Draw the texture of an earlier frame, if there is one.
    Reuse,
    /// Drop the texture of the surface.
    Evict,
    /// Draw nothing.
    Skip,
}

/// A surface to be drawn.
#[derive(Clone, Copy, Debug, PartialEq, Eq, Structural)]
pub struct Surface {
    pub role: SurfaceRole,
    /// The size that the client asked to be shown at, if it did.
    pub viewport: Option<Size>,
    /// How many buffer pixels make up a logical one.
    pub buffer_scale: i32,
}

impl DrawStep {
    /// Whether the step asks for something that decides what comes next.
    pub open spec fn is_question(self) -> bool {
        self is FindTexture || self is ReadPixels
    }
}

impl Surface {
    /// The size at which pixels of the given size are drawn. Windows are shown
    /// in their viewport, where they have one.
    pub open spec fn size_for(self, pixels: Size) -> DrawSize {
        if self.role == SurfaceRole::Window && self.viewport is Some {
            DrawSize::Logical(self.viewport->0)
        } else {
            DrawSize::Buffer { size: pixels, buffer_scale: self.buffer_scale }
        }
    }

    /// The first step. Without a new buffer, a window shows what it showed
    /// before, unless its buffer was taken away; a popup shows nothing.
    pub open spec fn first_step(self, buffer: BufferState) -> DrawStep {
        match (buffer, self.role) {
            (BufferState::Attached, _) => DrawStep::FindTexture,
            (_, SurfaceRole::Popup) => DrawStep::Skip,
            (BufferState::Removed, SurfaceRole::Window) => DrawStep::Evict,
            (BufferState::Unchanged, SurfaceRole::Window) => DrawStep::Reuse,
        }
    }

    /// The step after a texture was looked for.
    pub open spec fn step_after_texture(self, texture: Option<Size>) -> DrawStep {
        match texture {
            Some(pixels) => DrawStep::Draw { upload: None, size: self.size_for(pixels) },
            None => DrawStep::ReadPixels,
        }
    }

    /// The step after the pixels were read, or found to be in a format that
    /// cannot be read.
    pub open spec fn step_after_pixels(self, pixels: Option<Size>) -> DrawStep {
        match pixels {
            Some(pixels) => DrawStep::Draw { upload: Some(pixels), size: self.size_for(pixels) },
            None => if self.role == SurfaceRole::Window {
                DrawStep::Reuse
            } else {
                DrawStep::Skip
            },
        }
    }

    /// The step at which drawing arrives when the questions on the way are
    /// answered by `texture` and `pixels`.
    pub open spec fn last_step(
        self,
        buffer: BufferState,
        texture: Option<Size>,
        pixels: Option<Size>,
    ) -> DrawStep {
        let first = self.first_step(buffer);
        if first is FindTexture {
            let second = self.step_after_texture(texture);
            if second is ReadPixels {
                self.step_after_pixels(pixels)
            } else {
                second
            }
        } else {
            first
        }
    }

    /// Whether a step put a window on screen; `reused` says whether a texture
    /// of an earlier frame was there to be drawn.
    pub open spec fn is_drawn_by(self, step: DrawStep, reused: bool) -> bool {
        self.role == SurfaceRole::Window && (step is Draw || (step is Reuse && reused))
    }

    /// The size at which pixels of the given size are drawn.
    fn draw_size(&self, pixels: Size) -> (size: DrawSize)
        ensures
            size == self.size_for(pixels),
    {
        match (self.role, self.viewport) {
            (SurfaceRole::Window, Some(viewport)) => DrawSize::Logical(viewport),
            _ => DrawSize::Buffer { size: pixels, buffer_scale: self.buffer_scale },
        }
    }

    /// Begins to draw a surface.
    pub fn begin(&self, buffer: BufferState) -> (step: DrawStep)
        ensures
            step == self.first_step(buffer),
    {
        match (buffer, self.role) {
            (BufferState::Attached, _) => DrawStep::FindTexture,
            (_, SurfaceRole::Popup) => DrawStep::Skip,
            (BufferState::Removed, SurfaceRole::Window) => DrawStep::Evict,
            (BufferState::Unchanged, SurfaceRole::Window) => DrawStep::Reuse,
        }
    }

    /// Goes on after a texture was looked for: `texture` is its size.
    pub fn after_texture(&self, texture: Option<Size>) -> (step: DrawStep)
        ensures
            step == self.step_after_texture(texture),
    {
        match texture {
            Some(pixels) => DrawStep::Draw { upload: None, size: self.draw_size(pixels) },
            None => DrawStep::ReadPixels,
        }
    }

    /// Goes on after the buffer was read: `pixels` is its size, if its format
    /// could be read.
    pub fn after_pixels(&self, pixels: Option<Size>) -> (step: DrawStep)
        ensures
            step == self.step_after_pixels(pixels),
    {
        match pixels {
            Some(pixels) => DrawStep::Draw { upload: Some(pixels), size: self.draw_size(pixels) },
            None => match self.role {
                SurfaceRole::Window => DrawStep::Reuse,
                SurfaceRole::Popup => DrawStep::Skip,
            },
        }
    }

    /// Whether the last step counts as having drawn a window.
    pub fn is_drawn(&self, step: DrawStep, reused: bool) -> (drawn: bool)
        ensures
            drawn == self.is_drawn_by(step, reused),
    {
        match self.role {
            SurfaceRole::Window => match step {
                DrawStep::Draw { .. } => true,
                DrawStep::Reuse => reused,
                _ => false,
            },
            SurfaceRole::Popup => false,
        }
    }
}

/// Whether a frame that drew `drawn` surfaces of `tiles` windows stayed empty
/// although there was something to draw.
pub fn is_starved(drawn: usize, tiles: usize) -> (starved: bool)
    ensures
        starved == (drawn == 0 && tiles > 0),
{
    drawn == 0 && tiles > 0
}

/// A rectangle in physical pixels.
#[derive(Clone, Copy, Debug, PartialEq, Eq, Structural)]
pub struct Rect {
    pub x: i32,
    pub y: i32,
    pub width: i32,
    pub height: i32,
}

/// Whether a window gets a border: it has the keyboard focus, and there is room
/// for the border to its left and above it.
pub open spec fn has_border(focus: Option<SurfaceId>, surface: SurfaceId, window: Rect) -> bool {
    focus == Some(surface) && window.x >= BORDER_WIDTH && window.y >= BORDER_WIDTH
}

/// The outline of the border around a window.
pub fn focus_border(focus: Option<SurfaceId>, surface: SurfaceId, window: Rect) -> (border: Option<
    Rect,
>)
    requires
        has_border(focus, surface, window) ==> window.width <= i32::MAX - 2 * BORDER_WIDTH
            && window.height <= i32::MAX - 2 * BORDER_WIDTH,
    ensures
        border is Some <==> has_border(focus, surface, window),
        border matches Some(border) ==> {
            &&& border.x == window.x - BORDER_WIDTH
            &&& border.y == window.y - BORDER_WIDTH
            &&& border.width == window.width + 2 * BORDER_WIDTH
            &&& border.height == window.height + 2 * BORDER_WIDTH
            &&& border.x >= 0
            &&& border.y >= 0
        },
{
    let focused = match focus {
        Some(focus) => focus == surface,
        None => false,
    };
    if focused && window.x >= BORDER_WIDTH && window.y >= BORDER_WIDTH {
        Some(
            Rect {
                x: window.x - BORDER_WIDTH,
                y: window.y - BORDER_WIDTH,
                width: window.width + BORDER_WIDTH * 2,
                height: window.height + BORDER_WIDTH * 2,
            },
        )
    } else {
        None
    }
}

/// A frame that is drawn has each of its steps once, in the order of their
/// ranks.
pub proof fn law_frame_has_each_step_once(step: FrameStep, windows: usize, popups: usize, n: nat)
    requires
        step.occurs(windows, popups),
        n <= FrameStep::Done.rank(windows, popups),
    ensures
        FrameStep::nth(n, true, windows, popups) == step <==> n == step.rank(windows, popups),
{
    lemma_nth_step(n, windows, popups);
    lemma_nth_step(step.rank(windows, popups), windows, popups);
    lemma_rank_identifies(
        FrameStep::nth(step.rank(windows, popups), true, windows, popups),
        step,
        windows,
        popups,
    );
}

proof fn lemma_nth_step(n: nat, windows: usize, popups: usize)
    requires
        n <= FrameStep::Done.rank(windows, popups),
    ensures
        FrameStep::nth(n, true, windows, popups).rank(windows, popups) == n,
        FrameStep::nth(n, true, windows, popups).occurs(windows, popups),
    decreases n,
{
    if n > 0 {
        lemma_nth_step((n - 1) as nat, windows, popups);
    }
}

proof fn lemma_rank_identifies(a: FrameStep, b: FrameStep, windows: usize, popups: usize)
    requires
        a.occurs(windows, popups),
        b.occurs(windows, popups),
        a.rank(windows, popups) == b.rank(windows, popups),
    ensures
        a == b,
{
}

/// Within a frame, textures are evicted before windows are dropped, and windows
/// are dropped before the layout follows; every window comes after the layout,
/// later windows over earlier ones and each border over its window; popups come
/// over all windows and borders; the frame is shown when all is drawn, and the
/// clients are told after that.
pub proof fn law_frame_order(windows: usize, popups: usize, i: usize, j: usize, k: usize)
    ensures
        ({
            let rank = |step: FrameStep| step.rank(windows, popups);
            &&& rank(FrameStep::Begin) < rank(FrameStep::EvictDead)
            &&& rank(FrameStep::EvictDead) < rank(FrameStep::DropDead)
            &&& rank(FrameStep::DropDead) < rank(FrameStep::LayOut)
            &&& i < windows ==> rank(FrameStep::LayOut) < rank(FrameStep::Window(i))
            &&& i < windows ==> rank(FrameStep::Window(i)) < rank(FrameStep::Border(i))
            &&& i < j < windows ==> rank(FrameStep::Border(i)) < rank(FrameStep::Window(j))
            &&& i < windows && k < popups ==> rank(FrameStep::Border(i)) < rank(
                FrameStep::Popup(k),
            )
            &&& i < windows ==> rank(FrameStep::Border(i)) < rank(FrameStep::Present)
            &&& k < popups ==> rank(FrameStep::DropDeadPopups) < rank(FrameStep::Popup(k))
            &&& k < popups ==> rank(FrameStep::Popup(k)) < rank(FrameStep::Present)
            &&& rank(FrameStep::LayOut) < rank(FrameStep::Present)
            &&& rank(FrameStep::Present) < rank(FrameStep::AnswerCallbacks)
            &&& rank(FrameStep::AnswerCallbacks) < rank(FrameStep::Done)
        }),
{
}

/// A window without area gets no frame at all.
pub proof fn law_no_area_no_frame(windows: usize, popups: usize, n: nat)
    requires
        n > 0,
    ensures
        FrameStep::nth(n, false, windows, popups) == FrameStep::Done,
    decreases n,
{
    if n > 1 {
        law_no_area_no_frame(windows, popups, (n - 1) as nat);
    } else {
        assert(FrameStep::nth(0, false, windows, popups) == FrameStep::Begin);
    }
}

/// Two answers settle any surface: drawing ends in a step that asks nothing.
pub proof fn law_drawing_ends(
    surface: Surface,
    buffer: BufferState,
    texture: Option<Size>,
    pixels: Option<Size>,
)
    ensures
        !surface.last_step(buffer, texture, pixels).is_question(),
{
}

/// A buffer that has a texture is never read again.
pub proof fn law_textures_are_not_read_again(surface: Surface, texture: Size, pixels: Option<Size>)
    ensures
        surface.last_step(BufferState::Attached, Some(texture), pixels) == (DrawStep::Draw {
            upload: None,
            size: surface.size_for(texture),
        }),
{
}

/// Popups come and go with their buffers: they neither reuse a texture of an
/// earlier frame nor drop one, and never count as a window drawn.
pub proof fn law_popups_leave_no_trace(
    surface: Surface,
    buffer: BufferState,
    texture: Option<Size>,
    pixels: Option<Size>,
    reused: bool,
)
    requires
        surface.role == SurfaceRole::Popup,
    ensures
        ({
            let step = surface.last_step(buffer, texture, pixels);
            &&& !(step is Reuse)
            &&& !(step is Evict)
            &&& !surface.is_drawn_by(step, reused)
        }),
{
}

/// A window keeps its picture for as long as it has a buffer: only taking the
/// buffer away drops its texture, and every other commit draws something new or
/// falls back on what was drawn before.
pub proof fn law_windows_keep_their_picture(
    surface: Surface,
    buffer: BufferState,
    texture: Option<Size>,
    pixels: Option<Size>,
)
    requires
        surface.role == SurfaceRole::Window,
    ensures
        ({
            let step = surface.last_step(buffer, texture, pixels);
            &&& (step is Evict <==> buffer == BufferState::Removed)
            &&& (buffer != BufferState::Removed ==> step is Draw || step is Reuse)
        }),
{
}

/// Pixels are drawn at the viewport of a window that has one, and otherwise at
/// their own size and the scale of their buffer.
pub proof fn law_size_of_pixels(surface: Surface, pixels: Size)
    ensures
        match surface.size_for(pixels) {
            DrawSize::Logical(size) => surface.role == SurfaceRole::Window && surface.viewport
                == Some(size),
            DrawSize::Buffer { size, buffer_scale } => {
                &&& surface.role == SurfaceRole::Popup || surface.viewport is None
                &&& size == pixels
                &&& buffer_scale == surface.buffer_scale
            },
        },
{
}

/// Any surface, window or popup, whose new buffer can be read is drawn: what was
/// read is uploaded as it is, at the viewport of a window that has one and
/// otherwise at the size read and the scale of the buffer.
pub proof fn law_readable_buffers_are_drawn(surface: Surface, pixels: Size)
    ensures
        surface.first_step(BufferState::Attached) == DrawStep::FindTexture,
        surface.step_after_texture(None) == DrawStep::ReadPixels,
        surface.step_after_pixels(Some(pixels)) == surface.last_step(
            BufferState::Attached,
            None,
            Some(pixels),
        ),
        surface.step_after_pixels(Some(pixels)) matches DrawStep::Draw { upload, size } && {
            &&& upload == Some(pixels)
            &&& size == (if surface.role == SurfaceRole::Window && surface.viewport is Some {
                DrawSize::Logical(surface.viewport->0)
            } else {
                DrawSize::Buffer { size: pixels, buffer_scale: surface.buffer_scale }
            })
        },
{
}

/// Any surface whose new buffer has a texture is drawn from it, with nothing
/// uploaded, and at the same size as if the buffer had been read.
pub proof fn law_cached_textures_are_drawn(surface: Surface, pixels: Size)
    ensures
        surface.step_after_texture(Some(pixels)) matches DrawStep::Draw { upload, size } && {
            &&& upload is None
            &&& surface.step_after_pixels(Some(pixels)) == (DrawStep::Draw {
                upload: Some(pixels),
                size,
            })
            &&& size == (if surface.role == SurfaceRole::Window && surface.viewport is Some {
                DrawSize::Logical(surface.viewport->0)
            } else {
                DrawSize::Buffer { size: pixels, buffer_scale: surface.buffer_scale }
            })
        },
{
}

/// Only a new buffer is looked up. A window without one shows what it showed
/// before, unless its buffer was taken away; a popup shows nothing.
pub proof fn law_without_a_new_buffer(surface: Surface, buffer: BufferState)
    ensures
        surface.first_step(buffer) == DrawStep::FindTexture <==> buffer == BufferState::Attached,
        surface.first_step(buffer) == DrawStep::Evict <==> buffer == BufferState::Removed
            && surface.role == SurfaceRole::Window,
        surface.first_step(buffer) == DrawStep::Reuse <==> buffer == BufferState::Unchanged
            && surface.role == SurfaceRole::Window,
        surface.first_step(buffer) == DrawStep::Skip <==> buffer != BufferState::Attached
            && surface.role == SurfaceRole::Popup,
{
}

/// A buffer that cannot be read leaves a window with its earlier picture and a
/// popup with none.
pub proof fn law_unreadable_buffers(surface: Surface)
    ensures
        surface.step_after_pixels(None) == DrawStep::Reuse <==> surface.role
            == SurfaceRole::Window,
        surface.step_after_pixels(None) == DrawStep::Skip <==> surface.role == SurfaceRole::Popup,
{
}

/// A window counts as drawn exactly if something was drawn for it: new pixels,
/// its texture, or an earlier picture that was there.
pub proof fn law_counted_as_drawn(surface: Surface, step: DrawStep, reused: bool)
    ensures
        surface.role == SurfaceRole::Popup ==> !surface.is_drawn_by(step, reused),
        surface.role == SurfaceRole::Window ==> match step {
            DrawStep::Draw { .. } => surface.is_drawn_by(step, reused),
            DrawStep::Reuse => surface.is_drawn_by(step, reused) == reused,
            _ => !surface.is_drawn_by(step, reused),
        },
{
}

/// A window has a border exactly if it is the one with the keyboard focus and
/// there is room for four pixels to its left and above it.
pub proof fn law_border_of_the_focused_window(
    focus: Option<SurfaceId>,
    surface: SurfaceId,
    window: Rect,
)
    ensures
        focus is None ==> !has_border(focus, surface, window),
        focus is Some && focus->0 != surface ==> !has_border(focus, surface, window),
        window.x < 4 || window.y < 4 ==> !has_border(focus, surface, window),
        focus == Some(surface) && window.x >= 4 && window.y >= 4 ==> has_border(
            focus,
            surface,
            window,
        ),
{
}

/// Going from step to step, a frame that is drawn evicts, drops, lays out, draws
/// each window and its border in the order of the layout, then each popup, and
/// then is shown and reported; and that is all.
pub proof fn law_course_of_a_frame(
    course: Seq<FrameStep>,
    windows: usize,
    popups: usize,
    i: usize,
    k: usize,
)
    requires
        course.len() == 8 + 2 * windows + popups,
        course[0] == FrameStep::Begin,
        course.drop_first() == course.drop_last().map_values(
            |step: FrameStep| step.following(true, windows, popups),
        ),
    ensures
        course[1] == FrameStep::EvictDead,
        course[2] == FrameStep::DropDead,
        course[3] == FrameStep::LayOut,
        i < windows ==> course[4 + 2 * i] == FrameStep::Window(i),
        i < windows ==> course[5 + 2 * i] == FrameStep::Border(i),
        course[4 + 2 * windows] == FrameStep::DropDeadPopups,
        k < popups ==> course[5 + 2 * windows + k] == FrameStep::Popup(k),
        course[5 + 2 * windows + popups] == FrameStep::Present,
        course[6 + 2 * windows + popups] == FrameStep::AnswerCallbacks,
        course[7 + 2 * windows + popups] == FrameStep::Done,
{
    lemma_course(course, windows, popups, 1);
    lemma_course(course, windows, popups, 2);
    lemma_course(course, windows, popups, 3);
    if i < windows {
        lemma_course(course, windows, popups, 4 + 2 * i);
        lemma_course(course, windows, popups, 5 + 2 * i);
    }
    lemma_course(course, windows, popups, 4 + 2 * windows);
    if k < popups {
        lemma_course(course, windows, popups, 5 + 2 * windows + k);
    }
    lemma_course(course, windows, popups, 5 + 2 * windows + popups);
    lemma_course(course, windows, popups, 6 + 2 * windows + popups);
    lemma_course(course, windows, popups, 7 + 2 * windows + popups);
}

proof fn lemma_course(course: Seq<FrameStep>, windows: usize, popups: usize, n: int)
    requires
        course.len() == 8 + 2 * windows + popups,
        course[0] == FrameStep::Begin,
        course.drop_first() == course.drop_last().map_values(
            |step: FrameStep| step.following(true, windows, popups),
        ),
        0 <= n < course.len(),
    ensures
        course[n].rank(windows, popups) == n,
        course[n].occurs(windows, popups),
    decreases n,
{
    if n > 0 {
        lemma_course(course, windows, popups, n - 1);
        assert(course.drop_first()[n - 1] == course[n - 1].following(true, windows, popups));
    }
}

/// Without an area the frame ends where it begins, and a frame that is over stays
/// over.
pub proof fn law_frame_ends(visible: bool, windows: usize, popups: usize)
    ensures
        FrameStep::Begin.following(false, windows, popups) == FrameStep::Done,
        FrameStep::Done.following(visible, windows, popups) == FrameStep::Done,
{
}

/// After its last window a frame goes on to the popups, and after its last popup
/// it is shown, whatever the index of that window or popup.
pub proof fn law_frame_goes_on(visible: bool, windows: usize, popups: usize, i: usize)
    ensures
        FrameStep::Window(i).following(visible, windows, popups) == FrameStep::Border(i),
        i + 1 >= windows ==> FrameStep::Border(i).following(visible, windows, popups)
            == FrameStep::DropDeadPopups,
        i + 1 >= popups ==> FrameStep::Popup(i).following(visible, windows, popups)
            == FrameStep::Present,
{
}

/// Once a frame has begun, whether the window has an area no longer matters.
pub proof fn law_area_matters_at_the_start(step: FrameStep, windows: usize, popups: usize)
    requires
        step != FrameStep::Begin,
    ensures
        step.following(true, windows, popups) == step.following(false, windows, popups),
{
}

} // verus!
