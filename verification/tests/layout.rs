use cross_magic_ui::container::UIContainer;
use cross_magic_ui::draw::Color;
use cross_magic_ui::draw::DrawCmd;
use cross_magic_ui::container::Widget;
use cross_magic_ui::geometry::UIRect;
use cross_magic_ui::input::Input;
use cross_magic_ui::layout::Alignment;
use cross_magic_ui::layout::FlexDirection;
use cross_magic_ui::layout::Layout;
use cross_magic_ui::widgets::Button;
use cross_magic_ui::widgets::Panel;
use cross_magic_ui::widgets::Text;

fn child_bounds(c: &UIContainer, i: usize) -> UIRect {
    c.children[i].bounds()
}

#[test]
fn flex_row_divides_evenly() {
    let mut c = UIContainer::new(
        1,
        Layout::Flex { direction: FlexDirection::Row, gap: 10, align: Alignment::Start },
    )
    .add_child(Widget::Button(Button::new(2, "a")))
    .add_child(Widget::Button(Button::new(3, "b")))
    .add_child(Widget::Button(Button::new(4, "c")));
    c.set_bounds(UIRect::new(0, 0, 320, 100));
    let e = c.update(&Input::new());
    assert!(e.is_none());
    // (320 - 10 * 2) / 3 = 100 each, placed consecutively with the gap
    assert_eq!(child_bounds(&c, 0), UIRect::new(0, 0, 100, 100));
    assert_eq!(child_bounds(&c, 1), UIRect::new(110, 0, 100, 100));
    assert_eq!(child_bounds(&c, 2), UIRect::new(220, 0, 100, 100));
}

#[test]
fn flex_column_divides_evenly() {
    let mut c = UIContainer::new(
        1,
        Layout::Flex { direction: FlexDirection::Column, gap: 10, align: Alignment::Center },
    )
    .add_child(Widget::Panel(Panel::new(2)))
    .add_child(Widget::Panel(Panel::new(3)))
    .add_child(Widget::Panel(Panel::new(4)));
    c.set_bounds(UIRect::new(0, 0, 100, 320));
    c.update(&Input::new());
    assert_eq!(child_bounds(&c, 0), UIRect::new(0, 0, 100, 100));
    assert_eq!(child_bounds(&c, 1), UIRect::new(0, 110, 100, 100));
    assert_eq!(child_bounds(&c, 2), UIRect::new(0, 220, 100, 100));
}

#[test]
fn flex_division_floors_the_remainder() {
    let mut c = UIContainer::new(
        1,
        Layout::Flex { direction: FlexDirection::Row, gap: 0, align: Alignment::Start },
    )
    .add_child(Widget::Panel(Panel::new(2)))
    .add_child(Widget::Panel(Panel::new(3)))
    .add_child(Widget::Panel(Panel::new(4)));
    c.set_bounds(UIRect::new(0, 0, 100, 50));
    c.update(&Input::new());
    // 100 / 3 floors to 33; the remainder is not redistributed
    assert_eq!(child_bounds(&c, 0), UIRect::new(0, 0, 33, 50));
    assert_eq!(child_bounds(&c, 1), UIRect::new(33, 0, 33, 50));
    assert_eq!(child_bounds(&c, 2), UIRect::new(66, 0, 33, 50));
}

#[test]
fn flex_single_child_fills_padded_bounds() {
    let mut c = UIContainer::new(
        1,
        Layout::Flex { direction: FlexDirection::Row, gap: 7, align: Alignment::End },
    )
    .with_padding(10)
    .add_child(Widget::Panel(Panel::new(2)));
    c.set_bounds(UIRect::new(5, 5, 200, 100));
    c.update(&Input::new());
    assert_eq!(child_bounds(&c, 0), UIRect::new(15, 15, 180, 80));
}

#[test]
fn flex_overlarge_padding_yields_degenerate_children() {
    let mut c = UIContainer::new(
        1,
        Layout::Flex { direction: FlexDirection::Row, gap: 0, align: Alignment::Start },
    )
    .with_padding(400)
    .add_child(Widget::Panel(Panel::new(2)));
    c.set_bounds(UIRect::new(0, 0, 10, 10));
    // must not panic; the child's rectangle is degenerate
    c.update(&Input::new());
    let b = child_bounds(&c, 0);
    assert_eq!(b, UIRect::new(400, 400, -790, -790));
    assert!(!b.contains_point(400, 400));
}

#[test]
fn grid_row_major_assignment() {
    let mut c = UIContainer::new(1, Layout::Grid { cols: 3, rows: 2, gap: 0 });
    for i in 0..7 {
        let mut p = Panel::new(10 + i);
        p.set_bounds(UIRect::new(999, 999, 7, 7));
        c = c.add_child(Widget::Panel(p));
    }
    c.set_bounds(UIRect::new(0, 0, 300, 200));
    c.update(&Input::new());
    // children 0..=4 fill cells (0,0) (1,0) (2,0) (0,1) (1,1)
    assert_eq!(child_bounds(&c, 0), UIRect::new(0, 0, 100, 100));
    assert_eq!(child_bounds(&c, 1), UIRect::new(100, 0, 100, 100));
    assert_eq!(child_bounds(&c, 2), UIRect::new(200, 0, 100, 100));
    assert_eq!(child_bounds(&c, 3), UIRect::new(0, 100, 100, 100));
    assert_eq!(child_bounds(&c, 4), UIRect::new(100, 100, 100, 100));
    // a sixth child maps to cell (2,1)
    assert_eq!(child_bounds(&c, 5), UIRect::new(200, 100, 100, 100));
    // the seventh child does not fit and keeps its prior bounds
    assert_eq!(child_bounds(&c, 6), UIRect::new(999, 999, 7, 7));
}

#[test]
fn grid_with_gap() {
    let mut c = UIContainer::new(1, Layout::Grid { cols: 3, rows: 2, gap: 10 });
    for i in 0..6 {
        c = c.add_child(Widget::Panel(Panel::new(10 + i)));
    }
    c.set_bounds(UIRect::new(0, 0, 300, 200));
    c.update(&Input::new());
    // cell width (300 - 20) / 3 = 93, cell height (200 - 10) / 2 = 95
    assert_eq!(child_bounds(&c, 0), UIRect::new(0, 0, 93, 95));
    assert_eq!(child_bounds(&c, 1), UIRect::new(103, 0, 93, 95));
    assert_eq!(child_bounds(&c, 2), UIRect::new(206, 0, 93, 95));
    assert_eq!(child_bounds(&c, 3), UIRect::new(0, 105, 93, 95));
}

#[test]
fn grid_zero_cols_is_a_no_op() {
    let mut c = UIContainer::new(1, Layout::Grid { cols: 0, rows: 2, gap: 0 });
    let mut p = Panel::new(2);
    p.set_bounds(UIRect::new(11, 22, 33, 44));
    c = c.add_child(Widget::Panel(p));
    c.set_bounds(UIRect::new(0, 0, 300, 200));
    c.update(&Input::new());
    assert_eq!(child_bounds(&c, 0), UIRect::new(11, 22, 33, 44));
}

#[test]
fn grid_zero_rows_is_a_no_op() {
    let mut c = UIContainer::new(1, Layout::Grid { cols: 2, rows: 0, gap: 0 });
    let mut p = Panel::new(2);
    p.set_bounds(UIRect::new(11, 22, 33, 44));
    c = c.add_child(Widget::Panel(p));
    c.set_bounds(UIRect::new(0, 0, 300, 200));
    c.update(&Input::new());
    assert_eq!(child_bounds(&c, 0), UIRect::new(11, 22, 33, 44));
}

#[test]
fn absolute_repositions_without_resizing() {
    let mut p = Panel::new(2);
    p.set_bounds(UIRect::new(0, 0, 50, 30));
    let mut c = UIContainer::new(1, Layout::Absolute { x: 10, y: 20 })
        .with_padding(5)
        .add_child(Widget::Panel(p));
    c.set_bounds(UIRect::new(0, 0, 200, 200));
    c.update(&Input::new());
    assert_eq!(child_bounds(&c, 0), UIRect::new(15, 25, 50, 30));
}

#[test]
fn absolute_applies_to_every_child() {
    let mut a = Panel::new(2);
    a.set_bounds(UIRect::new(0, 0, 50, 30));
    let mut b = Panel::new(3);
    b.set_bounds(UIRect::new(70, 80, 9, 9));
    let mut c = UIContainer::new(1, Layout::Absolute { x: 1, y: 2 })
        .add_child(Widget::Panel(a))
        .add_child(Widget::Panel(b));
    c.set_bounds(UIRect::new(100, 100, 200, 200));
    c.update(&Input::new());
    assert_eq!(child_bounds(&c, 0), UIRect::new(101, 102, 50, 30));
    assert_eq!(child_bounds(&c, 1), UIRect::new(101, 102, 9, 9));
}

#[test]
fn empty_container_update_is_a_no_op() {
    let mut c = UIContainer::new(
        1,
        Layout::Flex { direction: FlexDirection::Row, gap: 3, align: Alignment::Start },
    );
    c.set_bounds(UIRect::new(0, 0, 100, 100));
    assert!(c.update(&Input::new()).is_none());
    assert_eq!(c.children.len(), 0);
}

#[test]
fn container_renders_every_child_in_order() {
    let c = UIContainer::new(
        1,
        Layout::Flex { direction: FlexDirection::Row, gap: 0, align: Alignment::Start },
    )
    .add_child(Widget::Panel(Panel::new(2).no_border().with_background(Color::new(1, 1, 1, 255))))
    .add_child(Widget::Text(Text::new(3, "label")));
    let cmds = c.render();
    assert_eq!(cmds.len(), 2);
    assert!(matches!(cmds[0], DrawCmd::FillRect { .. }));
    assert!(matches!(&cmds[1], DrawCmd::DrawText { text, .. } if text == "label"));
}

#[test]
fn nested_containers_lay_out_recursively() {
    let inner = UIContainer::new(
        2,
        Layout::Flex { direction: FlexDirection::Row, gap: 0, align: Alignment::Start },
    )
    .add_child(Widget::Panel(Panel::new(3)))
    .add_child(Widget::Panel(Panel::new(4)));
    let mut outer = UIContainer::new(
        1,
        Layout::Flex { direction: FlexDirection::Column, gap: 0, align: Alignment::Start },
    )
    .add_child(Widget::Container(inner));
    outer.set_bounds(UIRect::new(0, 0, 200, 100));
    outer.update(&Input::new());
    // the inner container fills the outer; its two children split it
    assert_eq!(child_bounds(&outer, 0), UIRect::new(0, 0, 200, 100));
    match &outer.children[0] {
        Widget::Container(inner2) => {
            assert_eq!(inner2.children[0].bounds(), UIRect::new(0, 0, 100, 100));
            assert_eq!(inner2.children[1].bounds(), UIRect::new(100, 0, 100, 100));
        },
        _ => panic!("inner widget should be a container"),
    }
}
