use cross_magic_ui::container::UIContainer;
use cross_magic_ui::container::Widget;
use cross_magic_ui::events::WidgetEvent;
use cross_magic_ui::geometry::UIRect;
use cross_magic_ui::input::Input;
use cross_magic_ui::layout::Layout;
use cross_magic_ui::manager::UIManager;
use cross_magic_ui::widgets::Button;
use cross_magic_ui::widgets::ButtonState;

fn pointer(x: i32, y: i32, pressed: bool) -> Input {
    let mut input = Input::new();
    input.update(x, y, pressed, false, Vec::new(), Vec::new());
    input
}

#[test]
fn id_allocation_is_strictly_increasing() {
    let mut m = UIManager::new();
    let a = m.next_id();
    let b = m.next_id();
    let c = m.next_id();
    assert_eq!((a, b, c), (1, 2, 3));
    assert!(0 < a && a < b && b < c);
}

#[test]
fn two_managers_allocate_independently() {
    let mut m1 = UIManager::new();
    let mut m2 = UIManager::new();
    assert_eq!(m1.next_id(), 1);
    assert_eq!(m1.next_id(), 2);
    assert_eq!(m2.next_id(), 1);
}

#[test]
fn update_stamps_root_to_viewport() {
    let mut m = UIManager::new();
    m.update(Input::new(), 800, 600);
    assert_eq!(m.root.bounds(), UIRect::new(0, 0, 800, 600));
    assert!(m.get_events().is_empty());
}

#[test]
fn click_reaches_button_through_manager() {
    let mut m = UIManager::new();
    let root = UIContainer::new(1, Layout::Absolute { x: 100, y: 100 })
        .add_child(Widget::Button(Button::new(100, "New Game").with_size(100, 35)));
    m.set_root(Widget::Container(root));
    m.update(pointer(150, 120, true), 800, 600);
    assert_eq!(m.get_events(), &[WidgetEvent::ButtonClicked(100)]);
    // the frame after: the edge has passed, the buffer clears
    m.update(pointer(150, 120, false), 800, 600);
    assert!(m.get_events().is_empty());
}

#[test]
fn event_buffer_holds_at_most_one_event() {
    let mut m = UIManager::new();
    let root = UIContainer::new(1, Layout::Absolute { x: 0, y: 0 })
        .add_child(Widget::Button(Button::new(10, "a")))
        .add_child(Widget::Button(Button::new(11, "b")));
    m.set_root(Widget::Container(root));
    // both buttons overlap under the pointer, both would fire
    m.update(pointer(5, 5, true), 800, 600);
    assert_eq!(m.get_events(), &[WidgetEvent::ButtonClicked(10)]);
}

#[test]
fn event_short_circuit_skips_later_siblings() {
    let mut m = UIManager::new();
    let root = UIContainer::new(1, Layout::Absolute { x: 0, y: 0 })
        .add_child(Widget::Button(Button::new(10, "a")))
        .add_child(Widget::Button(Button::new(11, "b")))
        .add_child(Widget::Button(Button::new(12, "c")));
    m.set_root(Widget::Container(root));
    m.update(pointer(5, 5, true), 800, 600);
    // the first child's event is returned
    assert_eq!(m.get_events(), &[WidgetEvent::ButtonClicked(10)]);
    match &m.root {
        Widget::Container(c) => {
            // the first child was updated and pressed
            match &c.children[0] {
                Widget::Button(b) => assert!(matches!(b.state, ButtonState::Pressed)),
                _ => panic!("expected a button"),
            }
            // the later siblings were laid out but never saw the input:
            // their state is untouched even though the pointer pressed
            // inside their bounds
            for i in 1..3 {
                match &c.children[i] {
                    Widget::Button(b) => {
                        assert_eq!(b.bounds(), UIRect::new(0, 0, 120, 40));
                        assert!(matches!(b.state, ButtonState::Normal));
                    },
                    _ => panic!("expected a button"),
                }
            }
        },
        _ => panic!("expected the container root"),
    }
}

#[test]
fn render_does_not_change_update_behaviour() {
    let mut m = UIManager::new();
    let root = UIContainer::new(1, Layout::Absolute { x: 0, y: 0 })
        .add_child(Widget::Button(Button::new(10, "a")));
    m.set_root(Widget::Container(root));
    m.update(Input::new(), 800, 600);
    let r1 = m.render();
    let r2 = m.render();
    let r3 = m.render();
    assert_eq!(r1, r2);
    assert_eq!(r2, r3);
    // after any number of renders, the next update still sees the click
    m.update(pointer(5, 5, true), 800, 600);
    assert_eq!(m.get_events(), &[WidgetEvent::ButtonClicked(10)]);
}

#[test]
fn set_root_discards_previous_tree() {
    let mut m = UIManager::new();
    let first = UIContainer::new(1, Layout::Absolute { x: 0, y: 0 })
        .add_child(Widget::Button(Button::new(10, "a")));
    m.set_root(Widget::Container(first));
    let second = UIContainer::new(2, Layout::Absolute { x: 0, y: 0 });
    m.set_root(Widget::Container(second));
    m.update(pointer(5, 5, true), 800, 600);
    assert!(m.get_events().is_empty());
    assert_eq!(m.root.id(), 2);
}

#[test]
fn stored_input_is_readable() {
    let mut m = UIManager::new();
    m.update(pointer(31, 47, true), 640, 480);
    assert_eq!(m.input().mouse_x, 31);
    assert_eq!(m.input().mouse_y, 47);
    assert!(m.input().mouse_pressed);
}
