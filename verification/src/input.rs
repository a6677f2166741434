//! Keyboard and pointer input.

use crate::drag::Drag;
use crate::effect::Effect;
use crate::scene::{PointerFocus, SurfaceId};
use vstd::prelude::*;

verus! {

/// The distance from evdev scancodes to XKB keycodes.
pub const KEYCODE_OFFSET: u32 = 8;

/// The evdev codes of the pointer buttons.
pub const BTN_LEFT: u32 = 0x110;

pub const BTN_RIGHT: u32 = 0x111;

pub const BTN_MIDDLE: u32 = 0x112;

/// How far one line of a scroll wheel goes, in logical pixels.
pub const LINE_LENGTH: i32 = 10;

/// A key event for the focused client.
#[derive(Clone, Copy, Debug, PartialEq, Eq, Structural)]
pub struct KeyInput {
    pub keycode: u32,
    pub pressed: bool,
}

/// A pointer button.
#[derive(Clone, Copy, Debug, PartialEq, Eq, Structural)]
pub enum MouseButton {
    Left,
    Right,
    Middle,
    /// Any other button.
    Other,
}

/// Translates a key event: there is one for the clients if the seat has a
/// keyboard and the key has a scancode.
pub fn key_input(has_keyboard: bool, scancode: Option<u32>, pressed: bool) -> (input: Option<
    KeyInput,
>)
    requires
        has_keyboard ==> (scancode matches Some(code) ==> code <= u32::MAX - KEYCODE_OFFSET),
    ensures
        input is Some <==> has_keyboard && scancode is Some,
        input matches Some(input) ==> {
            &&& input.keycode == scancode->0 + KEYCODE_OFFSET
            &&& input.pressed == pressed
        },
{
    if has_keyboard {
        match scancode {
            Some(code) => Some(KeyInput { keycode: code + KEYCODE_OFFSET, pressed }),
            None => None,
        }
    } else {
        None
    }
}

/// The code that a button is reported by. A button without one of its own
/// counts as the left one.
pub open spec fn code_of(button: MouseButton) -> u32 {
    match button {
        MouseButton::Left => BTN_LEFT,
        MouseButton::Right => BTN_RIGHT,
        MouseButton::Middle => BTN_MIDDLE,
        MouseButton::Other => BTN_LEFT,
    }
}

/// The code that a button is reported by.
pub fn button_code(button: MouseButton) -> (code: u32)
    ensures
        code == code_of(button),
{
    match button {
        MouseButton::Left => BTN_LEFT,
        MouseButton::Right => BTN_RIGHT,
        MouseButton::Middle => BTN_MIDDLE,
        MouseButton::Other => BTN_LEFT,
    }
}

/// What a click does to the keyboard focus: it goes to the surface under the
/// pointer, whose window becomes the active one, or away from all surfaces.
pub open spec fn click_effects(focus: Option<SurfaceId>, toplevels: Seq<SurfaceId>) -> Seq<Effect> {
    match focus {
        Some(surface) => if toplevels.contains(surface) {
            seq![Effect::FocusKeyboard(Some(surface)), Effect::ActivateToplevel(surface)]
        } else {
            seq![Effect::FocusKeyboard(Some(surface))]
        },
        None => seq![Effect::FocusKeyboard(None)],
    }
}

/// What a button event makes the program do. Every button is reported to the
/// client; pressing the left one moves the keyboard focus first.
pub open spec fn button_effects(
    button: MouseButton,
    pressed: bool,
    focus: Option<SurfaceId>,
    toplevels: Seq<SurfaceId>,
) -> Seq<Effect> {
    let report = seq![Effect::Button { code: code_of(button), pressed }, Effect::PointerFrame];
    if button == MouseButton::Left && pressed {
        click_effects(focus, toplevels) + report
    } else {
        report
    }
}

/// What a button event does to an interactive move: pressing the left button
/// begins a requested one, releasing it ends the move.
pub open spec fn drag_after_button<O>(
    drag: Drag<O>,
    button: MouseButton,
    pressed: bool,
    grab: O,
) -> Drag<O> {
    if button != MouseButton::Left {
        drag
    } else if pressed {
        drag.begun(grab)
    } else {
        drag.ended()
    }
}

/// Whether the list holds the surface.
fn is_listed(surfaces: &[SurfaceId], surface: SurfaceId) -> (listed: bool)
    ensures
        listed == surfaces@.contains(surface),
{
    let mut i: usize = 0;
    while i < surfaces.len()
        invariant
            i <= surfaces@.len(),
            forall|j: int| 0 <= j < i ==> surfaces@[j] != surface,
        decreases surfaces@.len() - i,
    {
        if surfaces[i] == surface {
            return true;
        }
        i = i + 1;
    }
    false
}

/// A button went down or up. `focus` is the surface under the pointer,
/// `toplevels` lists the surfaces of all windows, and `grab` is where the
/// pointer holds the window that asked to be moved.
pub fn mouse_button<O>(
    drag: &mut Drag<O>,
    button: MouseButton,
    pressed: bool,
    focus: Option<SurfaceId>,
    toplevels: &[SurfaceId],
    grab: O,
) -> (effects: Vec<Effect>)
    ensures
        effects@ == button_effects(button, pressed, focus, toplevels@),
        *final(drag) == drag_after_button(*old(drag), button, pressed, grab),
{
    let mut effects: Vec<Effect> = Vec::new();
    if button == MouseButton::Left {
        if pressed {
            match focus {
                Some(surface) => {
                    effects.push(Effect::FocusKeyboard(Some(surface)));
                    if is_listed(toplevels, surface) {
                        effects.push(Effect::ActivateToplevel(surface));
                    }
                },
                None => {
                    effects.push(Effect::FocusKeyboard(None));
                },
            }
            drag.begin(grab);
        } else {
            drag.end();
        }
    }
    effects.push(Effect::Button { code: button_code(button), pressed });
    effects.push(Effect::PointerFrame);
    assert(effects@ =~= button_effects(button, pressed, focus, toplevels@));
    effects
}

/// A constraint that a client put on the pointer.
#[derive(Clone, Copy, Debug, PartialEq, Eq, Structural)]
pub struct PointerConstraint {
    /// Whether the pointer is to stay in place, rather than in a region.
    pub locked: bool,
    pub active: bool,
}

/// Whether the surface under the pointer holds it in place.
pub open spec fn is_held(
    focus: Option<PointerFocus>,
    constraint: Option<PointerConstraint>,
) -> bool {
    &&& focus is Some
    &&& constraint matches Some(constraint)
    &&& constraint.locked
    &&& constraint.active
}

/// What a movement of the pointer makes the program report, and to which
/// surface.
pub open spec fn motion_effects(
    focus: Option<PointerFocus>,
    moved: bool,
    held: bool,
) -> Seq<Effect> {
    let relative = if moved {
        seq![Effect::RelativeMotion(focus)]
    } else {
        Seq::empty()
    };
    let absolute = if held {
        Seq::empty()
    } else {
        seq![Effect::Motion(focus)]
    };
    relative + absolute + seq![Effect::PointerFrame]
}

/// The pointer moved. `moved` says whether it did so by a distance other than
/// zero; `constraint` is that of the surface in `focus`.
pub fn pointer_motion(
    focus: Option<PointerFocus>,
    constraint: Option<PointerConstraint>,
    moved: bool,
) -> (effects: Vec<Effect>)
    ensures
        effects@ == motion_effects(focus, moved, is_held(focus, constraint)),
{
    let held = match (focus, constraint) {
        (Some(_), Some(constraint)) => constraint.locked && constraint.active,
        _ => false,
    };
    let mut effects: Vec<Effect> = Vec::new();
    if moved {
        effects.push(Effect::RelativeMotion(focus));
    }
    if !held {
        effects.push(Effect::Motion(focus));
    }
    effects.push(Effect::PointerFrame);
    assert(effects@ =~= motion_effects(focus, moved, held));
    effects
}

/// A scroll event: for each axis, whether it moved.
#[derive(Clone, Copy, Debug, PartialEq, Eq, Structural)]
pub enum Scroll {
    /// Counted in lines, as by a wheel.
    Lines { horizontal: bool, vertical: bool },
    /// Counted in logical pixels, as by a touchpad.
    Pixels { horizontal: bool, vertical: bool },
}

/// A scroll direction.
#[derive(Clone, Copy, Debug, PartialEq, Eq, Structural)]
pub enum Axis {
    Horizontal,
    Vertical,
}

/// What the user scrolled with.
#[derive(Clone, Copy, Debug, PartialEq, Eq, Structural)]
pub enum AxisSource {
    Wheel,
    Finger,
}

/// A scroll event for the client: the movement along `axis`, times `factor`.
/// Nothing moves along the other axis.
#[derive(Clone, Copy, Debug, PartialEq, Eq, Structural)]
pub struct AxisMotion {
    pub axis: Axis,
    pub factor: i32,
    pub source: AxisSource,
    /// Whether the movement along the horizontal axis came to its end.
    pub stop_horizontal: bool,
    /// Whether the movement along the vertical axis came to its end.
    pub stop_vertical: bool,
}

impl Scroll {
    /// Whether it goes sideways.
    pub open spec fn horizontal(self) -> bool {
        match self {
            Scroll::Lines { horizontal, .. } => horizontal,
            Scroll::Pixels { horizontal, .. } => horizontal,
        }
    }

    /// Whether it goes up or down.
    pub open spec fn vertical(self) -> bool {
        match self {
            Scroll::Lines { vertical, .. } => vertical,
            Scroll::Pixels { vertical, .. } => vertical,
        }
    }

    /// The axis that is reported: the horizontal one wins.
    pub open spec fn axis(self) -> Axis {
        if self.horizontal() {
            Axis::Horizontal
        } else {
            Axis::Vertical
        }
    }
}

/// Translates a scroll event; `ended` says that the fingers left the touchpad.
/// Contents move against the scroll direction, hence the negative factor. A
/// scroll that does not move at all is not reported.
pub fn wheel(scroll: Scroll, ended: bool) -> (motion: Option<AxisMotion>)
    ensures
        motion is Some <==> scroll.horizontal() || scroll.vertical(),
        motion matches Some(motion) ==> {
            &&& motion.axis == scroll.axis()
            &&& motion.factor == (if scroll is Lines {
                -LINE_LENGTH
            } else {
                -1
            })
            &&& motion.source == (if scroll is Lines {
                AxisSource::Wheel
            } else {
                AxisSource::Finger
            })
            &&& motion.stop_horizontal == (ended && motion.axis == Axis::Horizontal)
            &&& motion.stop_vertical == (ended && motion.axis == Axis::Vertical)
        },
{
    let (horizontal, vertical, factor, source): (bool, bool, i32, AxisSource) = match scroll {
        Scroll::Lines { horizontal, vertical } => (
            horizontal,
            vertical,
            -LINE_LENGTH,
            AxisSource::Wheel,
        ),
        Scroll::Pixels { horizontal, vertical } => (horizontal, vertical, -1, AxisSource::Finger),
    };
    if horizontal {
        Some(
            AxisMotion {
                axis: Axis::Horizontal,
                factor,
                source,
                stop_horizontal: ended,
                stop_vertical: false,
            },
        )
    } else if vertical {
        Some(
            AxisMotion {
                axis: Axis::Vertical,
                factor,
                source,
                stop_horizontal: false,
                stop_vertical: ended,
            },
        )
    } else {
        None
    }
}

/// The time stamp of an event, from the milliseconds since the start: as the
/// protocol has it, it wraps around after 32 bits.
pub fn timestamp(elapsed_ms: u128) -> (time: u32)
    ensures
        time == elapsed_ms % 0x1_0000_0000,
{
    assert(#[verifier::truncate] (elapsed_ms as u32) == elapsed_ms % 0x1_0000_0000) by (bit_vector);
    #[verifier::truncate]
    (elapsed_ms as u32)
}

/// The same time stamp in microseconds.
pub fn utime(time: u32) -> (utime: u64)
    ensures
        utime == time * 1000,
{
    time as u64 * 1000
}

/// Every button event is reported to the client, once and last, and nothing but
/// a press of the left button touches the keyboard focus.
pub proof fn law_buttons_are_reported(
    button: MouseButton,
    pressed: bool,
    focus: Option<SurfaceId>,
    toplevels: Seq<SurfaceId>,
)
    ensures
        ({
            let effects = button_effects(button, pressed, focus, toplevels);
            &&& effects.len() >= 2
            &&& effects[effects.len() - 2] == (Effect::Button { code: code_of(button), pressed })
            &&& effects.last() == Effect::PointerFrame
            &&& forall|i: int|
                0 <= i < effects.len() - 2 ==> !((#[trigger] effects[i]) is Button) && effects[i]
                    != Effect::PointerFrame
            &&& (effects[0] is FocusKeyboard <==> button == MouseButton::Left && pressed)
        }),
{
}

/// A click in which the left button goes down and up again leaves no window
/// moving.
pub proof fn law_release_ends_move<O>(drag: Drag<O>, press: O, release: O)
    ensures
        ({
            let down = drag_after_button(drag, MouseButton::Left, true, press);
            let up = drag_after_button(down, MouseButton::Left, false, release);
            up == Drag::<O>::idle()
        }),
{
}

/// Only a surface that holds the pointer in place is spared its position, what
/// is reported goes to the surface under the pointer and to no other, and every
/// movement is closed by a frame.
pub proof fn law_motion_goes_to_the_focus(focus: Option<PointerFocus>, moved: bool, held: bool)
    ensures
        ({
            let effects = motion_effects(focus, moved, held);
            &&& effects.contains(Effect::Motion(focus)) <==> !held
            &&& effects.contains(Effect::RelativeMotion(focus)) <==> moved
            &&& forall|other: Option<PointerFocus>|
                other != focus ==> !(#[trigger] effects.contains(Effect::Motion(other)))
            &&& forall|other: Option<PointerFocus>|
                other != focus ==> !(#[trigger] effects.contains(Effect::RelativeMotion(other)))
            &&& effects.last() == Effect::PointerFrame
        }),
{
    let effects = motion_effects(focus, moved, held);
    if moved {
        assert(effects[0] == Effect::RelativeMotion(focus));
        if !held {
            assert(effects[1] == Effect::Motion(focus));
        }
    } else if !held {
        assert(effects[0] == Effect::Motion(focus));
    }
}

/// The right and the middle button have codes of their own, one above the other;
/// every other button shares the code below them.
pub proof fn law_button_codes(button: MouseButton)
    ensures
        code_of(button) == 0x111 <==> button == MouseButton::Right,
        code_of(button) == 0x112 <==> button == MouseButton::Middle,
        code_of(button) == 0x110 <==> button == MouseButton::Left || button == MouseButton::Other,
{
}

/// A press of the left button gives the keyboard to the very surface under the
/// pointer, before anything else, and activates the window of that surface and no
/// other, if it has one. No other button event does either.
pub proof fn law_click_focuses_what_was_clicked(
    button: MouseButton,
    pressed: bool,
    focus: Option<SurfaceId>,
    toplevels: Seq<SurfaceId>,
    surface: SurfaceId,
    target: Option<SurfaceId>,
)
    ensures
        ({
            let effects = button_effects(button, pressed, focus, toplevels);
            let click = button == MouseButton::Left && pressed;
            &&& click ==> effects[0] == Effect::FocusKeyboard(focus)
            &&& effects.contains(Effect::FocusKeyboard(target)) <==> click && target == focus
            &&& effects.contains(Effect::ActivateToplevel(surface)) <==> click && focus == Some(
                surface,
            ) && toplevels.contains(surface)
            &&& effects.len() == 2 + (if click {
                1int
            } else {
                0
            }) + (if click && focus is Some && toplevels.contains(focus->0) {
                1int
            } else {
                0
            })
        }),
{
    let effects = button_effects(button, pressed, focus, toplevels);
    let click = button == MouseButton::Left && pressed;
    if click {
        assert(effects[0] == Effect::FocusKeyboard(focus));
        if focus is Some && toplevels.contains(focus->0) {
            assert(effects[1] == Effect::ActivateToplevel(focus->0));
        }
    }
}

/// Only the left button moves windows: pressing it makes a request the move,
/// held where the pointer is, and releasing it ends the move and leaves a request
/// alone.
pub proof fn law_left_button_moves_windows<O>(
    drag: Drag<O>,
    button: MouseButton,
    pressed: bool,
    grab: O,
)
    ensures
        ({
            let after = drag_after_button(drag, button, pressed, grab);
            &&& button != MouseButton::Left ==> after == drag
            &&& button == MouseButton::Left && !pressed ==> after.active is None && after.request
                == drag.request
            &&& button == MouseButton::Left && pressed && drag.request is None ==> after == drag
            &&& button == MouseButton::Left && pressed && drag.request is Some ==> after.active
                == Some((drag.request->0, grab)) && after.request is None
        }),
{
}

/// The pointer is held exactly by an active lock of a surface under it.
pub proof fn law_held_by_an_active_lock(
    focus: Option<PointerFocus>,
    constraint: Option<PointerConstraint>,
)
    ensures
        focus is None || constraint is None ==> !is_held(focus, constraint),
        focus is Some && constraint is Some ==> (is_held(focus, constraint) <==> constraint->0.locked
            && constraint->0.active),
{
}

/// A movement is reported in this order: how far, then where, then the end of the
/// group; nothing else is reported.
pub proof fn law_motion_order(focus: Option<PointerFocus>, moved: bool, held: bool)
    ensures
        ({
            let effects = motion_effects(focus, moved, held);
            &&& effects.len() == (if moved {
                2int
            } else {
                1
            }) + (if held {
                0int
            } else {
                1
            })
            &&& moved ==> effects[0] == Effect::RelativeMotion(focus)
            &&& !held ==> effects[effects.len() - 2] == Effect::Motion(focus)
            &&& effects[effects.len() - 1] == Effect::PointerFrame
        }),
{
}

/// The axis that is reported is one that moved, for lines and for pixels alike:
/// the horizontal one whenever that moved, and the vertical one only if nothing
/// else did.
pub proof fn law_scroll_along_an_axis_that_moved(scroll: Scroll)
    ensures
        match scroll {
            Scroll::Lines { horizontal, vertical } => {
                &&& scroll.axis() == Axis::Horizontal <==> horizontal
                &&& scroll.horizontal() == horizontal
                &&& scroll.vertical() == vertical
            },
            Scroll::Pixels { horizontal, vertical } => {
                &&& scroll.axis() == Axis::Horizontal <==> horizontal
                &&& scroll.horizontal() == horizontal
                &&& scroll.vertical() == vertical
            },
        },
{
}

/// Wheels and touchpads scroll along the same axis: only the unit differs.
pub proof fn law_lines_and_pixels_scroll_alike(horizontal: bool, vertical: bool)
    ensures
        (Scroll::Lines { horizontal, vertical }).axis() == (Scroll::Pixels {
            horizontal,
            vertical,
        }).axis(),
{
}

} // verus!
