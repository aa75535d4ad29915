//! Built-in widgets: the clickable button, the text label and the panel.
//! Each one updates from the frame's input snapshot and renders by
//! producing draw commands.

use vstd::prelude::*;

use crate::draw::Color;
use crate::draw::DrawCmd;
use crate::draw::TextAlignment;
use crate::events::WidgetEvent;
use crate::events::WidgetId;
use crate::geometry::UIRect;
use crate::input::Input;

verus! {

/// Opaque white, used for button outlines and as the default text colour.
pub open spec fn spec_white() -> Color {
    Color { r: 255, g: 255, b: 255, a: 255 }
}

/// Button state for visual feedback, re-derived every frame from the
/// pointer alone.
#[derive(Debug, Clone, Copy, PartialEq, Eq, Structural)]
pub enum ButtonState {
    Normal,
    Hovered,
    Pressed,
}

/// A clickable button widget with a text caption.
pub struct Button {
    pub id: WidgetId,
    pub bounds: UIRect,
    pub text: String,
    pub state: ButtonState,
    pub enabled: bool,
}

/// The button state after one update: disabled buttons are left alone;
/// otherwise the state is a pure function of this frame's pointer data —
/// pressed on a press edge over the button, hovered when merely over it,
/// normal when the pointer is elsewhere.
pub open spec fn button_after(b: Button, input: Input) -> Button {
    if !b.enabled {
        b
    } else {
        let over = b.bounds.spec_contains(input.mouse_x as int, input.mouse_y as int);
        if over && input.mouse_pressed {
            Button { state: ButtonState::Pressed, ..b }
        } else if over {
            Button { state: ButtonState::Hovered, ..b }
        } else {
            Button { state: ButtonState::Normal, ..b }
        }
    }
}

/// The event one update emits: exactly one click, on the frame whose
/// press edge lands over an enabled button, and nothing otherwise. The
/// press edge is edge-triggered, so holding the button down on the next
/// frame emits nothing.
pub open spec fn button_event(b: Button, input: Input) -> Option<WidgetEvent> {
    if b.enabled && b.bounds.spec_contains(input.mouse_x as int, input.mouse_y as int)
        && input.mouse_pressed {
        Some(WidgetEvent::ButtonClicked(b.id))
    } else {
        None
    }
}

/// The pair (background, caption) of colours a button paints with, from
/// its enabled flag and state.
pub open spec fn button_colors(b: Button) -> (Color, Color) {
    if !b.enabled {
        (Color { r: 80, g: 80, b: 80, a: 255 }, Color { r: 130, g: 130, b: 130, a: 255 })
    } else {
        match b.state {
            ButtonState::Normal => (
                Color { r: 130, g: 130, b: 130, a: 255 },
                Color { r: 255, g: 255, b: 255, a: 255 },
            ),
            ButtonState::Hovered => (
                Color { r: 199, g: 199, b: 199, a: 255 },
                Color { r: 0, g: 0, b: 0, a: 255 },
            ),
            ButtonState::Pressed => (
                Color { r: 80, g: 80, b: 80, a: 255 },
                Color { r: 255, g: 255, b: 255, a: 255 },
            ),
        }
    }
}

/// The commands a button paints: its filled background, a white outline,
/// and its caption centred in the bounds at two fifths of the height.
pub open spec fn button_render(b: Button) -> Seq<DrawCmd> {
    let colors = button_colors(b);
    let font_size = (2 * b.bounds.height) / 5;
    seq![
        DrawCmd::FillRect { rect: b.bounds, color: colors.0 },
        DrawCmd::OutlineRect { rect: b.bounds, thickness: 2, color: spec_white() },
        DrawCmd::DrawText {
            text: b.text,
            rect: b.bounds,
            font_size: font_size as i32,
            color: colors.1,
            align: TextAlignment::Center,
        },
    ]
}

/// A press edge over an enabled button emits exactly one click pulse:
/// the frame with the edge emits `ButtonClicked`, and the next frame,
/// with the pointer still held down over the button but no new press
/// edge, emits nothing.
pub proof fn lemma_button_single_pulse(b: Button, press: Input, hold: Input)
    requires
        b.enabled,
        b.bounds.spec_contains(press.mouse_x as int, press.mouse_y as int),
        press.mouse_pressed,
        b.bounds.spec_contains(hold.mouse_x as int, hold.mouse_y as int),
        !hold.mouse_pressed,
    ensures
        button_event(b, press) == Some(WidgetEvent::ButtonClicked(b.id)),
        button_event(button_after(b, press), hold) is None,
{
}

impl Button {
    /// Create a new button with the given id and caption, with a default
    /// size, enabled, in the normal state.
    pub fn new(id: WidgetId, text: &str) -> (r: Button)
        ensures
            r.id == id,
            r.text@ == text@,
            r.bounds == (UIRect { x: 0, y: 0, width: 120, height: 40 }),
            r.state is Normal,
            r.enabled,
    {
        Button {
            id,
            bounds: UIRect { x: 0, y: 0, width: 120, height: 40 },
            text: text.to_owned(),
            state: ButtonState::Normal,
            enabled: true,
        }
    }

    /// Set the size of the button.
    pub fn with_size(self, width: i32, height: i32) -> (r: Button)
        ensures
            r == (Button {
                bounds: UIRect { x: self.bounds.x, y: self.bounds.y, width, height },
                ..self
            }),
    {
        let mut b = self;
        b.bounds.width = width;
        b.bounds.height = height;
        b
    }

    /// Set whether the button is enabled.
    pub fn enabled(self, enabled: bool) -> (r: Button)
        ensures
            r == (Button { enabled, ..self }),
    {
        let mut b = self;
        b.enabled = enabled;
        b
    }

    /// The pair (background, caption) of colours to paint with.
    pub fn get_colors(&self) -> (r: (Color, Color))
        ensures
            r == button_colors(*self),
    {
        if !self.enabled {
            return (Color { r: 80, g: 80, b: 80, a: 255 }, Color { r: 130, g: 130, b: 130, a: 255 });
        }
        match self.state {
            ButtonState::Normal => (
                Color { r: 130, g: 130, b: 130, a: 255 },
                Color { r: 255, g: 255, b: 255, a: 255 },
            ),
            ButtonState::Hovered => (
                Color { r: 199, g: 199, b: 199, a: 255 },
                Color { r: 0, g: 0, b: 0, a: 255 },
            ),
            ButtonState::Pressed => (
                Color { r: 80, g: 80, b: 80, a: 255 },
                Color { r: 255, g: 255, b: 255, a: 255 },
            ),
        }
    }

    /// Re-derive the visual state from this frame's pointer and emit a
    /// single click pulse when a press edge lands over the enabled button.
    /// Safe to call with zero-area or degenerate bounds.
    pub fn update(&mut self, input: &Input) -> (e: Option<WidgetEvent>)
        ensures
            *final(self) == button_after(*old(self), *input),
            e == button_event(*old(self), *input),
    {
        if !self.enabled {
            return None;
        }
        let mouse_over = self.bounds.contains_point(input.mouse_x, input.mouse_y);
        if mouse_over {
            if input.mouse_pressed {
                self.state = ButtonState::Pressed;
                return Some(WidgetEvent::ButtonClicked(self.id));
            } else {
                self.state = ButtonState::Hovered;
            }
        } else {
            self.state = ButtonState::Normal;
        }
        None
    }

    /// Paint the button: background, outline, centred caption.
    pub fn render(&self) -> (r: Vec<DrawCmd>)
        ensures
            r@ == button_render(*self),
    {
        let (bg_color, text_color) = self.get_colors();
        let doubled: i64 = 2 * (self.bounds.height as i64);
        let font_size: i64 = if doubled >= 0 {
            doubled / 5
        } else {
            let q: i64 = (-doubled) / 5;
            if q * 5 == -doubled {
                -q
            } else {
                -q - 1
            }
        };
        let mut cmds: Vec<DrawCmd> = Vec::new();
        cmds.push(DrawCmd::FillRect { rect: self.bounds, color: bg_color });
        cmds.push(
            DrawCmd::OutlineRect {
                rect: self.bounds,
                thickness: 2,
                color: Color { r: 255, g: 255, b: 255, a: 255 },
            },
        );
        cmds.push(
            DrawCmd::DrawText {
                text: self.text.clone(),
                rect: self.bounds,
                font_size: font_size as i32,
                color: text_color,
                align: TextAlignment::Center,
            },
        );
        proof {
            assert(cmds@ =~= button_render(*self));
        }
        cmds
    }

    /// The last bounds assigned.
    pub fn bounds(&self) -> (r: UIRect)
        ensures
            r == self.bounds,
    {
        self.bounds
    }

    /// Assign new bounds; called top-down by a parent during layout.
    pub fn set_bounds(&mut self, bounds: UIRect)
        ensures
            *final(self) == (Button { bounds, ..*old(self) }),
    {
        self.bounds = bounds;
    }

    /// Stable identity for event correlation.
    pub fn id(&self) -> (r: WidgetId)
        ensures
            r == self.id,
    {
        self.id
    }
}

/// A stateless text label with an alignment. Never emits events.
pub struct Text {
    pub id: WidgetId,
    pub bounds: UIRect,
    pub text: String,
    pub color: Color,
    pub font_size: i32,
    pub alignment: TextAlignment,
}

/// The single command a text label paints.
pub open spec fn text_render(t: Text) -> Seq<DrawCmd> {
    seq![
        DrawCmd::DrawText {
            text: t.text,
            rect: t.bounds,
            font_size: t.font_size,
            color: t.color,
            align: t.alignment,
        },
    ]
}

impl Text {
    /// Create a new text label with defaults: white, font size 20,
    /// left-aligned.
    pub fn new(id: WidgetId, text: &str) -> (r: Text)
        ensures
            r.id == id,
            r.text@ == text@,
            r.bounds == (UIRect { x: 0, y: 0, width: 200, height: 30 }),
            r.color == spec_white(),
            r.font_size == 20,
            r.alignment is Left,
    {
        Text {
            id,
            bounds: UIRect { x: 0, y: 0, width: 200, height: 30 },
            text: text.to_owned(),
            color: Color { r: 255, g: 255, b: 255, a: 255 },
            font_size: 20,
            alignment: TextAlignment::Left,
        }
    }

    /// Set the text colour.
    pub fn with_color(self, color: Color) -> (r: Text)
        ensures
            r == (Text { color, ..self }),
    {
        let mut t = self;
        t.color = color;
        t
    }

    /// Set the font size.
    pub fn with_font_size(self, size: i32) -> (r: Text)
        ensures
            r == (Text { font_size: size, ..self }),
    {
        let mut t = self;
        t.font_size = size;
        t
    }

    /// Set the text alignment.
    pub fn with_alignment(self, alignment: TextAlignment) -> (r: Text)
        ensures
            r == (Text { alignment, ..self }),
    {
        let mut t = self;
        t.alignment = alignment;
        t
    }

    /// Update the text content.
    pub fn set_text(&mut self, text: &str)
        ensures
            *final(self) == (Text { text: final(self).text, ..*old(self) }),
            final(self).text@ == text@,
    {
        self.text = text.to_owned();
    }

    /// A label never changes and never emits from an update.
    pub fn update(&mut self, input: &Input) -> (e: Option<WidgetEvent>)
        ensures
            *final(self) == *old(self),
            e is None,
    {
        None
    }

    /// Paint the label.
    pub fn render(&self) -> (r: Vec<DrawCmd>)
        ensures
            r@ == text_render(*self),
    {
        let mut cmds: Vec<DrawCmd> = Vec::new();
        cmds.push(
            DrawCmd::DrawText {
                text: self.text.clone(),
                rect: self.bounds,
                font_size: self.font_size,
                color: self.color,
                align: self.alignment,
            },
        );
        proof {
            assert(cmds@ =~= text_render(*self));
        }
        cmds
    }

    /// The last bounds assigned.
    pub fn bounds(&self) -> (r: UIRect)
        ensures
            r == self.bounds,
    {
        self.bounds
    }

    /// Assign new bounds; called top-down by a parent during layout.
    pub fn set_bounds(&mut self, bounds: UIRect)
        ensures
            *final(self) == (Text { bounds, ..*old(self) }),
    {
        self.bounds = bounds;
    }

    /// Stable identity for event correlation.
    pub fn id(&self) -> (r: WidgetId)
        ensures
            r == self.id,
    {
        self.id
    }
}

/// A stateless rectangular panel with a background fill and an optional
/// outline. Never emits events.
pub struct Panel {
    pub id: WidgetId,
    pub bounds: UIRect,
    pub background_color: Color,
    pub border_color: Option<Color>,
    pub border_width: i32,
}

/// The commands a panel paints: its background fill, then its outline
/// when it has one.
pub open spec fn panel_render(p: Panel) -> Seq<DrawCmd> {
    let fill = seq![DrawCmd::FillRect { rect: p.bounds, color: p.background_color }];
    match p.border_color {
        Option::Some(c) => fill.push(
            DrawCmd::OutlineRect { rect: p.bounds, thickness: p.border_width, color: c },
        ),
        Option::None => fill,
    }
}

impl Panel {
    /// Create a new panel with defaults: translucent dark background and
    /// a thin white border.
    pub fn new(id: WidgetId) -> (r: Panel)
        ensures
            r.id == id,
            r.bounds == (UIRect { x: 0, y: 0, width: 100, height: 100 }),
            r.background_color == (Color { r: 51, g: 51, b: 51, a: 204 }),
            r.border_color == Some(spec_white()),
            r.border_width == 1,
    {
        Panel {
            id,
            bounds: UIRect { x: 0, y: 0, width: 100, height: 100 },
            background_color: Color { r: 51, g: 51, b: 51, a: 204 },
            border_color: Some(Color { r: 255, g: 255, b: 255, a: 255 }),
            border_width: 1,
        }
    }

    /// Set the background colour.
    pub fn with_background(self, color: Color) -> (r: Panel)
        ensures
            r == (Panel { background_color: color, ..self }),
    {
        let mut p = self;
        p.background_color = color;
        p
    }

    /// Set the border colour and width.
    pub fn with_border(self, color: Color, width: i32) -> (r: Panel)
        ensures
            r == (Panel { border_color: Some(color), border_width: width, ..self }),
    {
        let mut p = self;
        p.border_color = Some(color);
        p.border_width = width;
        p
    }

    /// Remove the border.
    pub fn no_border(self) -> (r: Panel)
        ensures
            r == (Panel { border_color: None, ..self }),
    {
        let mut p = self;
        p.border_color = None;
        p
    }

    /// A panel never changes and never emits from an update.
    pub fn update(&mut self, input: &Input) -> (e: Option<WidgetEvent>)
        ensures
            *final(self) == *old(self),
            e is None,
    {
        None
    }

    /// Paint the panel.
    pub fn render(&self) -> (r: Vec<DrawCmd>)
        ensures
            r@ == panel_render(*self),
    {
        let mut cmds: Vec<DrawCmd> = Vec::new();
        cmds.push(DrawCmd::FillRect { rect: self.bounds, color: self.background_color });
        if let Some(border_color) = self.border_color {
            cmds.push(
                DrawCmd::OutlineRect {
                    rect: self.bounds,
                    thickness: self.border_width,
                    color: border_color,
                },
            );
        }
        proof {
            assert(cmds@ =~= panel_render(*self));
        }
        cmds
    }

    /// The last bounds assigned.
    pub fn bounds(&self) -> (r: UIRect)
        ensures
            r == self.bounds,
    {
        self.bounds
    }

    /// Assign new bounds; called top-down by a parent during layout.
    pub fn set_bounds(&mut self, bounds: UIRect)
        ensures
            *final(self) == (Panel { bounds, ..*old(self) }),
    {
        self.bounds = bounds;
    }

    /// Stable identity for event correlation.
    pub fn id(&self) -> (r: WidgetId)
        ensures
            r == self.id,
    {
        self.id
    }
}

} // verus!
