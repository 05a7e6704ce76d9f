//! The overlay window's own state: whether the settings panel is open,
//! whether the window has a border, the settings button's hover state, and
//! whether the next frame has to be drawn.

use vstd::prelude::*;

verus! {

/// The side of the square settings button in the window's top right corner,
/// in pixels.
pub const BUTTON_SIZE: i32 = 32;

/// A mouse button as the overlay distinguishes them.
#[derive(Clone, Copy, Debug, PartialEq, Eq, Structural)]
pub enum MouseButton {
    Left,
    Right,
    Other,
}

/// Whether the point `(x, y)` lies inside the settings button of a window
/// `window_width` pixels wide (borders excluded).
pub open spec fn over_button(window_width: int, x: int, y: int) -> bool {
    x > window_width - BUTTON_SIZE && x < window_width && y < BUTTON_SIZE && y > 0
}

/// Whether the point `(x, y)` lies inside the settings button of a window
/// `window_width` pixels wide.
pub fn is_over_button(window_width: i32, x: i32, y: i32) -> (r: bool)
    ensures
        r == over_button(window_width as int, x as int, y as int),
{
    let w = window_width as i64;
    (x as i64) > w - (BUTTON_SIZE as i64) && (x as i64) < w && y < BUTTON_SIZE && y > 0
}

/// The overlay window's state.
#[derive(Clone, Copy, Debug, PartialEq, Eq, Structural)]
pub struct Overlay {
    pub settings_open: bool,
    pub bordered: bool,
    pub show_settings_button: bool,
    pub hovering: bool,
    pub needs_redraw: bool,
}

impl Overlay {
    /// The state at start-up. With no expression configured the window opens
    /// with a border and with the settings panel and its button shown.
    pub fn new(catalog_empty: bool) -> (o: Overlay)
        ensures
            o == (Overlay {
                settings_open: catalog_empty,
                bordered: catalog_empty,
                show_settings_button: catalog_empty,
                hovering: false,
                needs_redraw: true,
            }),
    {
        Overlay {
            settings_open: catalog_empty,
            bordered: catalog_empty,
            show_settings_button: catalog_empty,
            hovering: false,
            needs_redraw: true,
        }
    }

    /// The application went to, or is about to go to, the background.
    pub fn on_background(&mut self)
        ensures
            *final(self) == (Overlay { needs_redraw: true, ..*old(self) }),
    {
        self.needs_redraw = true;
    }

    /// A mouse button was pressed at `(x, y)`. A left click on the settings
    /// button opens the settings panel; a right click anywhere toggles the
    /// border and the settings button. Returns whether the border changed.
    pub fn on_mouse_down(&mut self, button: MouseButton, x: i32, y: i32, window_width: i32) -> (toggled: bool)
        ensures
            button == MouseButton::Left && over_button(window_width as int, x as int, y as int)
                ==> !toggled && *final(self) == (Overlay {
                settings_open: true,
                needs_redraw: true,
                ..*old(self)
            }),
            button == MouseButton::Right ==> toggled && *final(self) == (Overlay {
                bordered: !old(self).bordered,
                show_settings_button: !old(self).show_settings_button,
                needs_redraw: true,
                ..*old(self)
            }),
            button == MouseButton::Other || (button == MouseButton::Left && !over_button(
                window_width as int,
                x as int,
                y as int,
            )) ==> !toggled && *final(self) == *old(self),
    {
        match button {
            MouseButton::Left => {
                if is_over_button(window_width, x, y) {
                    self.settings_open = true;
                    self.needs_redraw = true;
                }
                false
            },
            MouseButton::Right => {
                self.bordered = !self.bordered;
                self.show_settings_button = !self.show_settings_button;
                self.needs_redraw = true;
                true
            },
            MouseButton::Other => false,
        }
    }

    /// The mouse moved to `(x, y)`: the settings button is highlighted while
    /// the pointer is over it and the panel is closed.
    pub fn on_mouse_motion(&mut self, x: i32, y: i32, window_width: i32)
        ensures
            ({
                let over = over_button(window_width as int, x as int, y as int)
                    && !old(self).settings_open;
                *final(self) == if over != old(self).hovering {
                    Overlay { hovering: over, needs_redraw: true, ..*old(self) }
                } else {
                    *old(self)
                }
            }),
    {
        let over = is_over_button(window_width, x, y) && !self.settings_open;
        if !self.hovering && over {
            self.hovering = true;
            self.needs_redraw = true;
        } else if self.hovering && !over {
            self.hovering = false;
            self.needs_redraw = true;
        }
    }

    /// A tick of the expression engine ran; `changed` says whether it changed
    /// anything visible.
    pub fn on_tick(&mut self, changed: bool)
        ensures
            *final(self) == (Overlay {
                needs_redraw: old(self).needs_redraw || changed,
                ..*old(self)
            }),
    {
        if changed {
            self.needs_redraw = true;
        }
    }

    /// Starts a frame: returns whether it is to be drawn. A drawn frame
    /// clears the redraw request, except while the settings panel is open,
    /// which is drawn on every frame.
    pub fn begin_frame(&mut self) -> (draw: bool)
        ensures
            draw == old(self).needs_redraw,
            *final(self) == (Overlay {
                needs_redraw: old(self).needs_redraw && old(self).settings_open,
                ..*old(self)
            }),
    {
        if !self.needs_redraw {
            return false;
        }
        if !self.settings_open {
            self.needs_redraw = false;
        }
        true
    }

    /// The settings panel was closed.
    pub fn close_settings(&mut self)
        ensures
            *final(self) == (Overlay { settings_open: false, ..*old(self) }),
    {
        self.settings_open = false;
    }
}

} // verus!
