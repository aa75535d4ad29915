//! The widget tree: the closed set of widget variants, the container that
//! owns and arranges children, and the per-frame update and render
//! protocols. A container's update first resolves each child's bounds
//! from its layout strategy, then dispatches the input to the children in
//! their stored order; the first child to emit an event short-circuits
//! the frame, and later siblings receive their new bounds but no input.
//! Rendering visits every child unconditionally and mutates nothing.

use vstd::prelude::*;

use crate::draw::DrawCmd;
use crate::events::WidgetEvent;
use crate::events::WidgetId;
use crate::geometry::UIRect;
use crate::input::Input;
use crate::layout::child_new_bounds;
use crate::layout::compute_child_bounds;
use crate::layout::layout_wf;
use crate::layout::Layout;
use crate::layout::MAX_CHILDREN;
use crate::layout::MAX_DIM;
use crate::widgets::button_after;
use crate::widgets::button_event;
use crate::widgets::button_render;
use crate::widgets::panel_render;
use crate::widgets::text_render;
use crate::widgets::Button;
use crate::widgets::Panel;
use crate::widgets::Text;

verus! {

/// A widget: one of the closed set of variants every element of a tree
/// belongs to. Containers nest, so trees of any shape compose.
pub enum Widget {
    Button(Button),
    Text(Text),
    Panel(Panel),
    Container(UIContainer),
}

/// A composite widget that owns an ordered collection of children and
/// arranges them with a layout strategy, re-applied every frame.
pub struct UIContainer {
    pub id: WidgetId,
    pub bounds: UIRect,
    pub layout: Layout,
    pub children: Vec<Widget>,
    pub padding: i32,
}

/// Well-formedness of a widget tree: every container in it has
/// non-negative bounded padding, a well-formed layout configuration, and
/// at most `MAX_CHILDREN` children. Constructors establish it and updates
/// preserve it.
pub open spec fn widget_wf(w: Widget) -> bool
    decreases w,
{
    match w {
        Widget::Container(c) => {
            &&& 0 <= c.padding <= MAX_DIM
            &&& layout_wf(c.layout)
            &&& c.children@.len() <= MAX_CHILDREN
            &&& forall|i: int|
                0 <= i < c.children@.len() ==> widget_wf(#[trigger] c.children@[i])
        },
        _ => true,
    }
}

/// Well-formedness of a container, seen as a widget.
pub open spec fn container_wf(c: UIContainer) -> bool {
    widget_wf(Widget::Container(c))
}

/// The widget with its bounds replaced and everything else kept. Bounds
/// assignment is shallow: a container's children move only when the
/// container itself updates.
pub open spec fn with_bounds(w: Widget, b: UIRect) -> Widget {
    match w {
        Widget::Button(x) => Widget::Button(Button { bounds: b, ..x }),
        Widget::Text(x) => Widget::Text(Text { bounds: b, ..x }),
        Widget::Panel(x) => Widget::Panel(Panel { bounds: b, ..x }),
        Widget::Container(c) => Widget::Container(UIContainer { bounds: b, ..c }),
    }
}

/// The widget with its bounds replaced when the layout assigned new ones,
/// and unchanged when it did not.
pub open spec fn apply_bounds(w: Widget, nb: Option<UIRect>) -> Widget {
    match nb {
        Option::Some(b) => with_bounds(w, b),
        Option::None => w,
    }
}

impl Widget {
    /// The last bounds assigned to this widget.
    pub open spec fn spec_bounds(self) -> UIRect {
        match self {
            Widget::Button(x) => x.bounds,
            Widget::Text(x) => x.bounds,
            Widget::Panel(x) => x.bounds,
            Widget::Container(c) => c.bounds,
        }
    }

    /// This widget's stable identity.
    pub open spec fn spec_id(self) -> WidgetId {
        match self {
            Widget::Button(x) => x.id,
            Widget::Text(x) => x.id,
            Widget::Panel(x) => x.id,
            Widget::Container(c) => c.id,
        }
    }
}

/// The bounds the container's layout assigns to child `i`, given the
/// container's resolved bounds `cb`, its padding and layout, the child
/// list (for its length) and the child's own current bounds.
pub open spec fn nb_of(
    children: Seq<Widget>,
    i: int,
    cb: UIRect,
    padding: int,
    layout: Layout,
) -> Option<UIRect> {
    child_new_bounds(cb, padding, layout, i, children.len() as int, children[i].spec_bounds())
}

/// The event one widget emits when it is updated after receiving the
/// bounds `nb`: a button emits its click pulse; labels and panels never
/// emit; a container emits the event of the first child that emits,
/// dispatching in stored order.
pub open spec fn widget_event(w: Widget, nb: Option<UIRect>, input: Input) -> Option<WidgetEvent>
    decreases w, 1int,
{
    match w {
        Widget::Button(b) => button_event(
            match nb {
                Option::Some(r) => Button { bounds: r, ..b },
                Option::None => b,
            },
            input,
        ),
        Widget::Text(t) => None,
        Widget::Panel(p) => None,
        Widget::Container(c) => {
            let newb = match nb {
                Option::Some(r) => r,
                Option::None => c.bounds,
            };
            children_event(c.children@, newb, c.padding as int, c.layout, input)
        },
    }
}

/// The index of the first child, at or after `k`, whose update emits an
/// event this frame; the child count when none does.
pub open spec fn first_emitter_from(
    children: Seq<Widget>,
    k: int,
    cb: UIRect,
    padding: int,
    layout: Layout,
    input: Input,
) -> int
    decreases children, children.len() - k,
{
    if k < 0 || k >= children.len() {
        children.len() as int
    } else if widget_event(children[k], nb_of(children, k, cb, padding, layout), input) is Some {
        k
    } else {
        first_emitter_from(children, k + 1, cb, padding, layout, input)
    }
}

/// The event a container's dispatch produces: that of the first emitting
/// child, or none.
pub open spec fn children_event(
    children: Seq<Widget>,
    cb: UIRect,
    padding: int,
    layout: Layout,
    input: Input,
) -> Option<WidgetEvent>
    decreases children, children.len() + 1,
{
    let j = first_emitter_from(children, 0, cb, padding, layout, input);
    if 0 <= j < children.len() {
        widget_event(children[j], nb_of(children, j, cb, padding, layout), input)
    } else {
        None
    }
}

/// How one update transforms a widget: `post` is `pre` after receiving
/// the bounds `nb` (when the layout assigned new ones) and then updating
/// from the input. A button re-derives its state; labels and panels only
/// take the bounds; a container takes the bounds, lays its children out,
/// and dispatches the input to them in order up to and including the
/// first child that emits — children after that one receive their new
/// bounds but are not updated this frame.
pub open spec fn widget_step_ok(pre: Widget, nb: Option<UIRect>, input: Input, post: Widget) -> bool
    decreases pre, 1int,
{
    match pre {
        Widget::Button(b) => {
            let b2 = match nb {
                Option::Some(r) => Button { bounds: r, ..b },
                Option::None => b,
            };
            post == Widget::Button(button_after(b2, input))
        },
        Widget::Text(t) => post == Widget::Text(
            match nb {
                Option::Some(r) => Text { bounds: r, ..t },
                Option::None => t,
            },
        ),
        Widget::Panel(p) => post == Widget::Panel(
            match nb {
                Option::Some(r) => Panel { bounds: r, ..p },
                Option::None => p,
            },
        ),
        Widget::Container(c) => {
            let newb = match nb {
                Option::Some(r) => r,
                Option::None => c.bounds,
            };
            match post {
                Widget::Container(c2) => {
                    &&& c2.id == c.id
                    &&& c2.bounds == newb
                    &&& c2.layout == c.layout
                    &&& c2.padding == c.padding
                    &&& children_step_ok(
                        c.children@,
                        newb,
                        c.padding as int,
                        c.layout,
                        input,
                        c2.children@,
                    )
                },
                _ => false,
            }
        },
    }
}

/// How one dispatch transforms a container's children: every child up to
/// and including the first emitter is laid out and updated; every child
/// after it is laid out only.
pub open spec fn children_step_ok(
    pre: Seq<Widget>,
    cb: UIRect,
    padding: int,
    layout: Layout,
    input: Input,
    post: Seq<Widget>,
) -> bool
    decreases pre, pre.len() + 2,
{
    let j = first_emitter_from(pre, 0, cb, padding, layout, input);
    &&& post.len() == pre.len()
    &&& forall|i: int|
        0 <= i < pre.len() && i <= j ==> widget_step_ok(
            pre[i],
            nb_of(pre, i, cb, padding, layout),
            input,
            #[trigger] post[i],
        )
    &&& forall|i: int|
        j < i < pre.len() ==> #[trigger] post[i] == apply_bounds(
            pre[i],
            nb_of(pre, i, cb, padding, layout),
        )
}

/// The draw commands one widget paints: leaves paint themselves; a
/// container paints nothing of its own and visits every child in order,
/// unconditionally.
pub open spec fn widget_render(w: Widget) -> Seq<DrawCmd>
    decreases w, 1int,
{
    match w {
        Widget::Button(b) => button_render(b),
        Widget::Text(t) => text_render(t),
        Widget::Panel(p) => panel_render(p),
        Widget::Container(c) => render_from(c.children@, 0),
    }
}

/// The draw commands of the children from index `k` on, concatenated in
/// order.
pub open spec fn render_from(children: Seq<Widget>, k: int) -> Seq<DrawCmd>
    decreases children, children.len() - k,
{
    if k < 0 || k >= children.len() {
        Seq::empty()
    } else {
        widget_render(children[k]) + render_from(children, k + 1)
    }
}

/// When no child before `k` emits, the dispatch's first emitter at or
/// after zero is its first emitter at or after `k`.
proof fn lemma_first_emitter_prefix(
    children: Seq<Widget>,
    k: int,
    cb: UIRect,
    padding: int,
    layout: Layout,
    input: Input,
)
    requires
        0 <= k <= children.len(),
        forall|i: int|
            0 <= i < k ==> widget_event(
                #[trigger] children[i],
                nb_of(children, i, cb, padding, layout),
                input,
            ) is None,
    ensures
        first_emitter_from(children, 0, cb, padding, layout, input) == first_emitter_from(
            children,
            k,
            cb,
            padding,
            layout,
            input,
        ),
    decreases k,
{
    if k > 0 {
        lemma_first_emitter_prefix(children, k - 1, cb, padding, layout, input);
    }
}

/// A bounds assignment alone preserves well-formedness: it never touches
/// a container's configuration or children.
pub proof fn lemma_apply_bounds_wf(w: Widget, nb: Option<UIRect>)
    requires
        widget_wf(w),
    ensures
        widget_wf(apply_bounds(w, nb)),
{
    match nb {
        Option::Some(b) => {
            match w {
                Widget::Container(c) => {
                    let c2 = UIContainer { bounds: b, ..c };
                    assert forall|i: int|
                        0 <= i < c2.children@.len() implies widget_wf(
                        #[trigger] c2.children@[i],
                    ) by {
                        assert(widget_wf(c.children@[i]));
                    }
                },
                _ => {},
            }
        },
        Option::None => {},
    }
}

/// One update preserves well-formedness of the whole tree: no layout
/// configuration changes, no child is added or removed.
pub proof fn lemma_step_preserves_wf(pre: Widget, nb: Option<UIRect>, input: Input, post: Widget)
    requires
        widget_wf(pre),
        widget_step_ok(pre, nb, input, post),
    ensures
        widget_wf(post),
    decreases pre, 1int,
{
    match pre {
        Widget::Container(c) => {
            let newb = match nb {
                Option::Some(r) => r,
                Option::None => c.bounds,
            };
            match post {
                Widget::Container(c2) => {
                    let j = first_emitter_from(
                        c.children@,
                        0,
                        newb,
                        c.padding as int,
                        c.layout,
                        input,
                    );
                    assert forall|i: int|
                        0 <= i < c2.children@.len() implies widget_wf(
                        #[trigger] c2.children@[i],
                    ) by {
                        assert(widget_wf(c.children@[i]));
                        if i <= j {
                            lemma_step_preserves_wf(
                                c.children@[i],
                                nb_of(c.children@, i, newb, c.padding as int, c.layout),
                                input,
                                c2.children@[i],
                            );
                        } else {
                            lemma_apply_bounds_wf(
                                c.children@[i],
                                nb_of(c.children@, i, newb, c.padding as int, c.layout),
                            );
                        }
                    }
                },
                _ => {},
            }
        },
        _ => {},
    }
}

/// Dispatch short-circuits on the first event: when the children before
/// `j` emit nothing and child `j` emits, the container's event is child
/// `j`'s, and every later sibling receives its new bounds but is not
/// updated that frame.
pub proof fn lemma_event_short_circuit(
    children: Seq<Widget>,
    cb: UIRect,
    padding: int,
    layout: Layout,
    input: Input,
    post: Seq<Widget>,
    j: int,
)
    requires
        children_step_ok(children, cb, padding, layout, input, post),
        0 <= j < children.len(),
        widget_event(children[j], nb_of(children, j, cb, padding, layout), input) is Some,
        forall|i: int|
            0 <= i < j ==> widget_event(
                #[trigger] children[i],
                nb_of(children, i, cb, padding, layout),
                input,
            ) is None,
    ensures
        children_event(children, cb, padding, layout, input) == widget_event(
            children[j],
            nb_of(children, j, cb, padding, layout),
            input,
        ),
        forall|i: int|
            j < i < children.len() ==> #[trigger] post[i] == apply_bounds(
                children[i],
                nb_of(children, i, cb, padding, layout),
            ),
{
    lemma_first_emitter_prefix(children, j, cb, padding, layout, input);
}

impl Widget {
    /// The last bounds assigned.
    pub fn bounds(&self) -> (r: UIRect)
        ensures
            r == self.spec_bounds(),
    {
        match self {
            Widget::Button(x) => x.bounds,
            Widget::Text(x) => x.bounds,
            Widget::Panel(x) => x.bounds,
            Widget::Container(c) => c.bounds,
        }
    }

    /// Assign new bounds; called top-down by a parent during layout,
    /// never bottom-up. Shallow: children move when the container next
    /// updates.
    pub fn set_bounds(&mut self, bounds: UIRect)
        ensures
            *final(self) == with_bounds(*old(self), bounds),
    {
        match self {
            Widget::Button(x) => x.bounds = bounds,
            Widget::Text(x) => x.bounds = bounds,
            Widget::Panel(x) => x.bounds = bounds,
            Widget::Container(c) => c.bounds = bounds,
        }
    }

    /// Stable identity for event correlation.
    pub fn id(&self) -> (r: WidgetId)
        ensures
            r == self.spec_id(),
    {
        match self {
            Widget::Button(x) => x.id,
            Widget::Text(x) => x.id,
            Widget::Panel(x) => x.id,
            Widget::Container(c) => c.id,
        }
    }

    /// Update this widget from the frame's input, optionally emitting one
    /// event. Safe to call with zero-area or degenerate bounds.
    pub fn update(&mut self, input: &Input) -> (e: Option<WidgetEvent>)
        requires
            widget_wf(*old(self)),
        ensures
            widget_step_ok(*old(self), None, *input, *final(self)),
            e == widget_event(*old(self), None, *input),
            widget_wf(*final(self)),
    {
        match self {
            Widget::Button(b) => b.update(input),
            Widget::Text(t) => t.update(input),
            Widget::Panel(p) => p.update(input),
            Widget::Container(c) => c.update(input),
        }
    }

    /// Paint this widget, producing its draw commands in order. Takes the
    /// tree immutably: rendering cannot change any widget state, so it is
    /// idempotent and repaints identically until the next update.
    pub fn render(&self) -> (r: Vec<DrawCmd>)
        ensures
            r@ == widget_render(*self),
        decreases *self, 1int,
    {
        match self {
            Widget::Button(b) => b.render(),
            Widget::Text(t) => t.render(),
            Widget::Panel(p) => p.render(),
            Widget::Container(c) => c.render(),
        }
    }
}

/// Update one owned widget: assign it the bounds its parent's layout
/// computed (when any), then run its own update.
fn widget_step(w: Widget, nb: Option<UIRect>, input: &Input) -> (res: (
    Widget,
    Option<WidgetEvent>,
))
    requires
        widget_wf(w),
    ensures
        widget_step_ok(w, nb, *input, res.0),
        res.1 == widget_event(w, nb, *input),
    decreases w, 1int,
{
    let ghost w0 = w;
    match w {
        Widget::Button(b) => {
            let mut b = b;
            if let Some(r) = nb {
                b.bounds = r;
            }
            let e = b.update(input);
            (Widget::Button(b), e)
        },
        Widget::Text(t) => {
            let mut t = t;
            if let Some(r) = nb {
                t.bounds = r;
            }
            (Widget::Text(t), None)
        },
        Widget::Panel(p) => {
            let mut p = p;
            if let Some(r) = nb {
                p.bounds = r;
            }
            (Widget::Panel(p), None)
        },
        Widget::Container(c) => {
            let ghost c0 = c;
            let UIContainer { id, bounds, layout, children, padding } = c;
            let newb = match nb {
                Option::Some(b) => b,
                Option::None => bounds,
            };
            proof {
                assert(decreases_to!(w0 => c0));
                assert(decreases_to!(c0 => c0.children));
                assert(decreases_to!(c0.children => c0.children@));
            }
            let (new_children, e) = dispatch_children(children, newb, padding, &layout, input);
            (
                Widget::Container(
                    UIContainer { id, bounds: newb, layout, children: new_children, padding },
                ),
                e,
            )
        },
    }
}

/// Lay out and dispatch a container's children in their stored order:
/// each child in turn receives the bounds the layout computes for it;
/// children are updated until the first one emits an event, after which
/// the remaining ones only receive their bounds.
#[verifier::loop_isolation(false)]
fn dispatch_children(
    children: Vec<Widget>,
    cb: UIRect,
    padding: i32,
    layout: &Layout,
    input: &Input,
) -> (res: (Vec<Widget>, Option<WidgetEvent>))
    requires
        0 <= padding <= MAX_DIM,
        layout_wf(*layout),
        children@.len() <= MAX_CHILDREN,
        forall|i: int| 0 <= i < children@.len() ==> widget_wf(#[trigger] children@[i]),
    ensures
        children_step_ok(children@, cb, padding as int, *layout, *input, res.0@),
        res.1 == children_event(children@, cb, padding as int, *layout, *input),
    decreases children@, 0int,
{
    let ghost pre = children@;
    let ghost lay = *layout;
    let n = children.len();
    let mut cs = children;
    let mut out: Vec<Widget> = Vec::new();
    let mut ev: Option<WidgetEvent> = None;
    let ghost mut j: int = 0;
    let mut k: usize = 0;
    while k < n
        invariant
            n == pre.len(),
            0 <= k <= n,
            cs@ == pre.subrange(k as int, n as int),
            out@.len() == k,
            0 <= padding <= MAX_DIM,
            layout_wf(lay),
            lay == *layout,
            n <= MAX_CHILDREN,
            forall|i: int| 0 <= i < n ==> widget_wf(#[trigger] pre[i]),
            ev is None ==> forall|i: int|
                0 <= i < k ==> widget_event(
                    #[trigger] pre[i],
                    nb_of(pre, i, cb, padding as int, lay),
                    *input,
                ) is None,
            ev is None ==> forall|i: int|
                0 <= i < k ==> widget_step_ok(
                    pre[i],
                    nb_of(pre, i, cb, padding as int, lay),
                    *input,
                    #[trigger] out@[i],
                ),
            ev is Some ==> {
                &&& 0 <= j < k
                &&& forall|i: int|
                    0 <= i < j ==> widget_event(
                        #[trigger] pre[i],
                        nb_of(pre, i, cb, padding as int, lay),
                        *input,
                    ) is None
                &&& ev == widget_event(pre[j], nb_of(pre, j, cb, padding as int, lay), *input)
                &&& forall|i: int|
                    0 <= i <= j ==> widget_step_ok(
                        pre[i],
                        nb_of(pre, i, cb, padding as int, lay),
                        *input,
                        #[trigger] out@[i],
                    )
                &&& forall|i: int|
                    j < i < k ==> #[trigger] out@[i] == apply_bounds(
                        pre[i],
                        nb_of(pre, i, cb, padding as int, lay),
                    )
            },
        decreases n - k,
    {
        let child = cs.remove(0);
        proof {
            assert(child == pre[k as int]);
            assert(cs@ =~= pre.subrange(k as int + 1, n as int));
        }
        let cur = child.bounds();
        let nb = compute_child_bounds(cb, padding, layout, k, n, cur);
        proof {
            assert(nb == nb_of(pre, k as int, cb, padding as int, lay));
        }
        if ev.is_none() {
            proof {
                assert(decreases_to!(pre => pre[k as int]));
                assert(decreases_to!(pre, 0int => child, 1int));
            }
            let (c2, e) = widget_step(child, nb, input);
            out.push(c2);
            if e.is_some() {
                proof {
                    j = k as int;
                }
            }
            ev = e;
        } else {
            let mut ch = child;
            if let Some(b) = nb {
                ch.set_bounds(b);
            }
            proof {
                assert(ch == apply_bounds(pre[k as int], nb_of(pre, k as int, cb, padding as int, lay)));
            }
            out.push(ch);
        }
        k += 1;
    }
    proof {
        if ev is None {
            lemma_first_emitter_prefix(pre, n as int, cb, padding as int, lay, *input);
            assert(first_emitter_from(pre, 0, cb, padding as int, lay, *input) == n as int);
        } else {
            lemma_first_emitter_prefix(pre, j, cb, padding as int, lay, *input);
            assert(first_emitter_from(pre, j, cb, padding as int, lay, *input) == j);
        }
    }
    (out, ev)
}

impl UIContainer {
    /// Create a new container with the specified layout, no children, no
    /// padding, and zero bounds.
    pub fn new(id: WidgetId, layout: Layout) -> (r: UIContainer)
        requires
            layout_wf(layout),
        ensures
            r == (UIContainer {
                id,
                bounds: UIRect { x: 0, y: 0, width: 0, height: 0 },
                layout,
                children: r.children,
                padding: 0,
            }),
            r.children@ == Seq::<Widget>::empty(),
            container_wf(r),
    {
        UIContainer {
            id,
            bounds: UIRect { x: 0, y: 0, width: 0, height: 0 },
            layout,
            children: Vec::new(),
            padding: 0,
        }
    }

    /// Set the container's padding: the amount its bounds shrink on all
    /// four sides before children are laid out.
    pub fn with_padding(self, padding: i32) -> (r: UIContainer)
        requires
            0 <= padding <= MAX_DIM,
        ensures
            r == (UIContainer { padding, ..self }),
            container_wf(self) ==> container_wf(r),
    {
        let mut c = self;
        c.padding = padding;
        proof {
            if container_wf(c) {
            }
        }
        c
    }

    /// Move a child widget into the container, after the existing ones.
    pub fn add_child(self, child: Widget) -> (r: UIContainer)
        requires
            self.children@.len() < MAX_CHILDREN,
        ensures
            r.id == self.id,
            r.bounds == self.bounds,
            r.layout == self.layout,
            r.padding == self.padding,
            r.children@ == self.children@.push(child),
            container_wf(self) && widget_wf(child) ==> container_wf(r),
    {
        let ghost pre = self;
        let mut c = self;
        c.children.push(child);
        proof {
            if container_wf(pre) && widget_wf(child) {
                assert forall|i: int|
                    0 <= i < c.children@.len() implies widget_wf(#[trigger] c.children@[i]) by {
                    if i < pre.children@.len() {
                        assert(widget_wf(pre.children@[i]));
                    }
                }
            }
        }
        c
    }

    /// Recompute the children's layout from this container's current
    /// bounds, then dispatch the input to the children in stored order,
    /// short-circuiting on the first event.
    pub fn update(&mut self, input: &Input) -> (e: Option<WidgetEvent>)
        requires
            container_wf(*old(self)),
        ensures
            widget_step_ok(
                Widget::Container(*old(self)),
                None,
                *input,
                Widget::Container(*final(self)),
            ),
            e == widget_event(Widget::Container(*old(self)), None, *input),
            container_wf(*final(self)),
    {
        let mut taken: Vec<Widget> = Vec::new();
        core::mem::swap(&mut taken, &mut self.children);
        let (new_children, e) = dispatch_children(
            taken,
            self.bounds,
            self.padding,
            &self.layout,
            input,
        );
        self.children = new_children;
        proof {
            assert(widget_step_ok(
                Widget::Container(*old(self)),
                None,
                *input,
                Widget::Container(*self),
            ));
            lemma_step_preserves_wf(
                Widget::Container(*old(self)),
                None,
                *input,
                Widget::Container(*self),
            );
        }
        e
    }

    /// Paint the container: it draws nothing of its own and visits every
    /// child in order, unconditionally.
    pub fn render(&self) -> (r: Vec<DrawCmd>)
        ensures
            r@ == render_from(self.children@, 0),
        decreases self.children, 0int,
    {
        let ghost pre = self.children@;
        let n = self.children.len();
        let mut out: Vec<DrawCmd> = Vec::new();
        let mut i: usize = 0;
        while i < n
            invariant
                n == pre.len(),
                0 <= i <= n,
                pre == self.children@,
                render_from(pre, 0) == out@ + render_from(pre, i as int),
            decreases n - i,
        {
            proof {
                assert(decreases_to!(self.children => self.children@));
                assert(decreases_to!(self.children@ => self.children@[i as int]));
            }
            let mut cmds = self.children[i].render();
            out.append(&mut cmds);
            proof {
                assert(render_from(pre, i as int) == widget_render(pre[i as int]) + render_from(
                    pre,
                    i as int + 1,
                ));
                assert(render_from(pre, 0) =~= out@ + render_from(pre, i as int + 1));
            }
            i += 1;
        }
        proof {
            assert(render_from(pre, n as int) =~= Seq::<DrawCmd>::empty());
            assert(out@ =~= render_from(pre, 0));
        }
        out
    }

    /// The last bounds assigned.
    pub fn bounds(&self) -> (r: UIRect)
        ensures
            r == self.bounds,
    {
        self.bounds
    }

    /// Assign new bounds; called top-down by a parent during layout. The
    /// children move when this container next updates.
    pub fn set_bounds(&mut self, bounds: UIRect)
        ensures
            *final(self) == (UIContainer { bounds, ..*old(self) }),
    {
        self.bounds = bounds;
    }

    /// Stable identity for event correlation.
    pub fn id(&self) -> (r: WidgetId)
        ensures
            r == self.id,
    {
        self.id
    }
}

} // verus!
