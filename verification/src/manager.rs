//! The manager: owns the root widget, the current input snapshot, an
//! event buffer of at most one event per frame, and the widget-id
//! allocator, and drives one update/render pair per frame.

use vstd::prelude::*;

use crate::container::lemma_apply_bounds_wf;
use crate::container::widget_event;
use crate::container::widget_render;
use crate::container::widget_step_ok;
use crate::container::widget_wf;
use crate::container::with_bounds;
use crate::container::UIContainer;
use crate::container::Widget;
use crate::draw::DrawCmd;
use crate::events::WidgetEvent;
use crate::events::WidgetId;
use crate::geometry::UIRect;
use crate::input::Input;
use crate::layout::Alignment;
use crate::layout::FlexDirection;
use crate::layout::Layout;

verus! {

/// Central manager for one UI session. Replacing the root discards the
/// previous tree entirely; the id counter is owned by the instance, never
/// process-wide, so independent sessions can coexist.
pub struct UIManager {
    pub root: Widget,
    pub input: Input,
    pub events: Vec<WidgetEvent>,
    pub next_widget_id: WidgetId,
}

/// A manager is well formed when its tree is and its id counter has moved
/// past the reserved placeholder id 0.
pub open spec fn manager_wf(m: UIManager) -> bool {
    &&& widget_wf(m.root)
    &&& 1 <= m.next_widget_id
}

/// A freshly created manager: a placeholder root container with the
/// reserved id 0, an empty input snapshot, no events, and the id counter
/// at 1.
pub open spec fn manager_fresh(m: UIManager) -> bool {
    &&& m.root matches Widget::Container(c) && {
        &&& c.id == 0
        &&& c.bounds == (UIRect { x: 0, y: 0, width: 0, height: 0 })
        &&& c.layout == (Layout::Flex {
            direction: FlexDirection::Column,
            gap: 0,
            align: Alignment::Start,
        })
        &&& c.children@ == Seq::<Widget>::empty()
        &&& c.padding == 0
    }
    &&& m.input.mouse_x == 0
    &&& m.input.mouse_y == 0
    &&& !m.input.mouse_pressed
    &&& !m.input.mouse_released
    &&& m.input.keys_pressed@ == Seq::<crate::input::Key>::empty()
    &&& m.input.chars_pressed@ == Seq::<char>::empty()
    &&& m.events@ == Seq::<WidgetEvent>::empty()
    &&& m.next_widget_id == 1
}

impl UIManager {
    /// Create a new manager with a placeholder root.
    pub fn new() -> (r: UIManager)
        ensures
            manager_fresh(r),
            manager_wf(r),
    {
        UIManager {
            root: Widget::Container(
                UIContainer::new(
                    0,
                    Layout::Flex { direction: FlexDirection::Column, gap: 0, align: Alignment::Start },
                ),
            ),
            input: Input::new(),
            events: Vec::new(),
            next_widget_id: 1,
        }
    }

    /// Hand out the next widget id and advance the allocator. Ids are
    /// strictly increasing for the life of the manager and never reused.
    pub fn next_id(&mut self) -> (id: WidgetId)
        requires
            old(self).next_widget_id < usize::MAX,
        ensures
            id == old(self).next_widget_id,
            *final(self) == (UIManager {
                next_widget_id: (old(self).next_widget_id + 1) as usize,
                ..*old(self)
            }),
    {
        let id = self.next_widget_id;
        self.next_widget_id = self.next_widget_id + 1;
        id
    }

    /// Install a new root widget, discarding the previous tree.
    pub fn set_root(&mut self, root: Widget)
        requires
            widget_wf(root),
        ensures
            *final(self) == (UIManager { root, ..*old(self) }),
    {
        self.root = root;
    }

    /// Run one frame's update: store the fresh input snapshot, stamp the
    /// root's bounds to the viewport (origin at zero), clear the event
    /// buffer, update the tree, and buffer the event if one fired. The
    /// buffer holds at most one event per frame: the first event emitted
    /// anywhere in the tree suppresses dispatch to the widgets after it.
    pub fn update(&mut self, input: Input, width: i32, height: i32)
        requires
            manager_wf(*old(self)),
        ensures
            ({
                let staged = with_bounds(old(self).root, UIRect { x: 0, y: 0, width, height });
                &&& final(self).input == input
                &&& widget_step_ok(staged, None, input, final(self).root)
                &&& final(self).events@ == (match widget_event(staged, None, input) {
                    Option::Some(e) => seq![e],
                    Option::None => Seq::<WidgetEvent>::empty(),
                })
                &&& final(self).next_widget_id == old(self).next_widget_id
                &&& manager_wf(*final(self))
            }),
    {
        self.input = input;
        self.root.set_bounds(UIRect::new(0, 0, width, height));
        proof {
            lemma_apply_bounds_wf(
                old(self).root,
                Some(UIRect { x: 0, y: 0, width, height }),
            );
        }
        self.events.clear();
        let e = self.root.update(&self.input);
        if let Some(ev) = e {
            self.events.push(ev);
        }
        proof {
            assert(self.events@ =~= (match widget_event(
                with_bounds(old(self).root, UIRect { x: 0, y: 0, width, height }),
                None,
                self.input,
            ) {
                Option::Some(e) => seq![e],
                Option::None => Seq::<WidgetEvent>::empty(),
            }));
        }
    }

    /// Render the tree, producing this frame's draw commands. Rendering
    /// reads the tree immutably and never changes update behaviour.
    pub fn render(&self) -> (r: Vec<DrawCmd>)
        ensures
            r@ == widget_render(self.root),
    {
        self.root.render()
    }

    /// The events collected by the last update: none, or exactly one.
    pub fn get_events(&self) -> (r: &[WidgetEvent])
        ensures
            r@ == self.events@,
    {
        self.events.as_slice()
    }

    /// The current input snapshot.
    pub fn input(&self) -> (r: &Input)
        ensures
            *r == self.input,
    {
        &self.input
    }
}

impl Default for UIManager {
    fn default() -> (r: UIManager)
        ensures
            manager_fresh(r),
            manager_wf(r),
    {
        UIManager::new()
    }
}

/// Allocating `count` ids from a counter that starts at or above 1 (id 0
/// is the reserved placeholder) yields strictly increasing, pairwise
/// distinct, positive identifiers: the `k`-th allocation returns
/// `start + k`, since each allocation returns the counter and advances it
/// by one.
pub proof fn lemma_id_allocation(start: WidgetId, count: nat)
    requires
        1 <= start,
    ensures
        ({
            let ids = Seq::<int>::new(count, |k: int| start + k);
            &&& forall|p: int, q: int|
                #![trigger ids[p], ids[q]]
                0 <= p < q < count ==> ids[p] < ids[q]
            &&& forall|p: int, q: int|
                #![trigger ids[p], ids[q]]
                0 <= p < count && 0 <= q < count && p != q ==> ids[p] != ids[q]
            &&& forall|p: int| 0 <= p < count ==> #[trigger] ids[p] >= 1
        }),
{
}

} // verus!
