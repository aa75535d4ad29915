use cross_magic_ui::draw::Color;
use cross_magic_ui::draw::DrawCmd;
use cross_magic_ui::draw::TextAlignment;
use cross_magic_ui::events::WidgetEvent;
use cross_magic_ui::geometry::UIRect;
use cross_magic_ui::input::Input;
use cross_magic_ui::widgets::Button;
use cross_magic_ui::widgets::ButtonState;
use cross_magic_ui::widgets::Panel;
use cross_magic_ui::widgets::Text;

fn pointer(x: i32, y: i32, pressed: bool) -> Input {
    let mut input = Input::new();
    input.update(x, y, pressed, false, Vec::new(), Vec::new());
    input
}

#[test]
fn button_single_pulse_emission() {
    let mut b = Button::new(7, "go");
    // bounds default to 120 x 40 at the origin; press inside
    let e = b.update(&pointer(10, 10, true));
    assert_eq!(e, Some(WidgetEvent::ButtonClicked(7)));
    assert!(matches!(b.state, ButtonState::Pressed));
    // next frame: pointer held over the button, but no new press edge
    let e2 = b.update(&pointer(10, 10, false));
    assert_eq!(e2, None);
    assert!(matches!(b.state, ButtonState::Hovered));
}

#[test]
fn button_hover_without_press() {
    let mut b = Button::new(7, "go");
    assert_eq!(b.update(&pointer(119, 39, false)), None);
    assert!(matches!(b.state, ButtonState::Hovered));
    assert_eq!(b.update(&pointer(200, 10, false)), None);
    assert!(matches!(b.state, ButtonState::Normal));
}

#[test]
fn button_press_outside_emits_nothing() {
    let mut b = Button::new(7, "go");
    assert_eq!(b.update(&pointer(121, 10, true)), None);
    assert!(matches!(b.state, ButtonState::Normal));
}

#[test]
fn disabled_button_never_emits_nor_changes() {
    let mut b = Button::new(7, "go").enabled(false);
    assert_eq!(b.update(&pointer(10, 10, true)), None);
    assert!(matches!(b.state, ButtonState::Normal));
}

#[test]
fn button_with_size_keeps_position() {
    let b = Button::new(7, "go").with_size(30, 20);
    assert_eq!(b.bounds(), UIRect::new(0, 0, 30, 20));
    let mut b2 = Button::new(8, "go");
    b2.set_bounds(UIRect::new(5, 6, 1, 1));
    let b2 = b2.with_size(30, 20);
    assert_eq!(b2.bounds(), UIRect::new(5, 6, 30, 20));
}

#[test]
fn button_colors_follow_state() {
    let mut b = Button::new(7, "go");
    assert_eq!(b.get_colors(), (Color::new(130, 130, 130, 255), Color::new(255, 255, 255, 255)));
    b.state = ButtonState::Hovered;
    assert_eq!(b.get_colors(), (Color::new(199, 199, 199, 255), Color::new(0, 0, 0, 255)));
    b.state = ButtonState::Pressed;
    assert_eq!(b.get_colors(), (Color::new(80, 80, 80, 255), Color::new(255, 255, 255, 255)));
    let d = b.enabled(false);
    assert_eq!(d.get_colors(), (Color::new(80, 80, 80, 255), Color::new(130, 130, 130, 255)));
}

#[test]
fn button_render_commands() {
    let mut b = Button::new(7, "go").with_size(100, 40);
    b.set_bounds(UIRect::new(10, 20, 100, 40));
    let cmds = b.render();
    assert_eq!(cmds.len(), 3);
    assert_eq!(
        cmds[0],
        DrawCmd::FillRect {
            rect: UIRect::new(10, 20, 100, 40),
            color: Color::new(130, 130, 130, 255)
        }
    );
    assert_eq!(
        cmds[1],
        DrawCmd::OutlineRect {
            rect: UIRect::new(10, 20, 100, 40),
            thickness: 2,
            color: Color::new(255, 255, 255, 255)
        }
    );
    match &cmds[2] {
        DrawCmd::DrawText { text, rect, font_size, color, align } => {
            assert_eq!(text, "go");
            assert_eq!(*rect, UIRect::new(10, 20, 100, 40));
            // two fifths of the height
            assert_eq!(*font_size, 16);
            assert_eq!(*color, Color::new(255, 255, 255, 255));
            assert!(matches!(align, TextAlignment::Center));
        },
        other => panic!("expected a text command, got {:?}", other),
    }
}

#[test]
fn render_is_pure_and_idempotent() {
    let mut b = Button::new(7, "go");
    let c1 = b.render();
    let c2 = b.render();
    let c3 = b.render();
    assert_eq!(c1, c2);
    assert_eq!(c2, c3);
    // rendering never changed the button: an update behaves exactly as on
    // a twin that was never rendered
    let mut twin = Button::new(7, "go");
    let e_rendered = b.update(&pointer(10, 10, true));
    let e_twin = twin.update(&pointer(10, 10, true));
    assert_eq!(e_rendered, e_twin);
    assert!(matches!(b.state, ButtonState::Pressed));
    assert!(matches!(twin.state, ButtonState::Pressed));
    assert_eq!(b.render(), twin.render());
}

#[test]
fn text_never_emits_and_never_changes() {
    let mut t = Text::new(3, "hello")
        .with_color(Color::new(1, 2, 3, 4))
        .with_font_size(24)
        .with_alignment(TextAlignment::Right);
    assert_eq!(t.update(&pointer(0, 0, true)), None);
    assert_eq!(t.text, "hello");
    t.set_text("bye");
    assert_eq!(t.text, "bye");
    let cmds = t.render();
    assert_eq!(cmds.len(), 1);
    match &cmds[0] {
        DrawCmd::DrawText { text, rect, font_size, color, align } => {
            assert_eq!(text, "bye");
            assert_eq!(*rect, UIRect::new(0, 0, 200, 30));
            assert_eq!(*font_size, 24);
            assert_eq!(*color, Color::new(1, 2, 3, 4));
            assert!(matches!(align, TextAlignment::Right));
        },
        other => panic!("expected a text command, got {:?}", other),
    }
}

#[test]
fn panel_renders_fill_and_optional_border() {
    let p = Panel::new(5)
        .with_background(Color::new(9, 9, 9, 255))
        .with_border(Color::new(200, 200, 200, 255), 3);
    let cmds = p.render();
    assert_eq!(cmds.len(), 2);
    assert_eq!(
        cmds[0],
        DrawCmd::FillRect { rect: UIRect::new(0, 0, 100, 100), color: Color::new(9, 9, 9, 255) }
    );
    assert_eq!(
        cmds[1],
        DrawCmd::OutlineRect {
            rect: UIRect::new(0, 0, 100, 100),
            thickness: 3,
            color: Color::new(200, 200, 200, 255)
        }
    );
    let bare = Panel::new(6).no_border();
    assert_eq!(bare.render().len(), 1);
}

#[test]
fn panel_never_emits() {
    let mut p = Panel::new(5);
    assert_eq!(p.update(&pointer(50, 50, true)), None);
}
