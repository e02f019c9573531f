//! The drawable tree: named, recursively nested regions of screen content.
//!
//! A widget is either a composite, owning an ordered sequence of child
//! widgets, or a leaf carrying literal text at its origin. Children are
//! addressed by identifier, intended unique among the children of one
//! composite; adding, deleting and replacing work one level deep, and
//! drawing is a depth-first walk that emits every leaf at its absolute
//! coordinates, later leaves after (and so, where regions overlap, over)
//! earlier ones.

use crate::terminal::{cmds_view, DrawCmd, DrawCmdView};
use vstd::prelude::*;

verus! {

/// A 1-based terminal coordinate, column `x` and row `y`.
#[derive(Clone, Copy, PartialEq, Eq, Structural, Debug)]
pub struct Point {
    pub x: u16,
    pub y: u16,
}

/// One node of the drawable tree.
pub struct Widget {
    /// The top left corner of the node's content.
    pub p0: Point,
    /// The node's identifier, intended unique among its siblings.
    pub uid: String,
    /// The node's content: child widgets, or literal text.
    pub children: Component,
}

/// The content of a widget: a composite's children, or a leaf's text.
pub enum Component {
    Widgets(Vec<Widget>),
    Str(String),
}

/// The mathematical image of a [`Widget`].
#[verifier::ext_equal]
pub ghost struct WidgetView {
    pub x: u16,
    pub y: u16,
    pub uid: Seq<char>,
    pub children: ComponentView,
}

/// The mathematical image of a [`Component`].
#[verifier::ext_equal]
pub ghost enum ComponentView {
    Widgets(Seq<WidgetView>),
    Str(Seq<char>),
}

impl Widget {
    /// The image of this widget.
    pub open spec fn view_spec(self) -> WidgetView
        decreases self,
    {
        WidgetView {
            x: self.p0.x,
            y: self.p0.y,
            uid: self.uid@,
            children: self.children.view_spec(),
        }
    }
}

impl Component {
    /// The image of this content.
    pub open spec fn view_spec(self) -> ComponentView
        decreases self,
    {
        match self {
            Component::Widgets(v) => ComponentView::Widgets(widget_views(v@)),
            Component::Str(s) => ComponentView::Str(s@),
        }
    }
}

/// The images of a sequence of widgets.
pub open spec fn widget_views(s: Seq<Widget>) -> Seq<WidgetView>
    decreases s,
{
    if s.len() == 0 {
        Seq::empty()
    } else {
        seq![s[0].view_spec()] + widget_views(s.drop_first())
    }
}

/// The image of a widget sequence is the pointwise image.
pub proof fn lemma_widget_views(s: Seq<Widget>)
    ensures
        widget_views(s).len() == s.len(),
        forall|i: int| 0 <= i < s.len() ==> widget_views(s)[i] == s[i].view_spec(),
    decreases s.len(),
{
    if s.len() > 0 {
        lemma_widget_views(s.drop_first());
    }
}

impl View for Widget {
    type V = WidgetView;

    open spec fn view(&self) -> WidgetView {
        (*self).view_spec()
    }
}

impl View for Component {
    type V = ComponentView;

    open spec fn view(&self) -> ComponentView {
        (*self).view_spec()
    }
}

/// What drawing a widget emits: a leaf emits its text at its origin, a
/// composite emits what its children emit, in child order.
pub open spec fn render(w: WidgetView) -> Seq<DrawCmdView>
    decreases w,
{
    match w.children {
        ComponentView::Widgets(ws) => render_seq(ws),
        ComponentView::Str(t) => seq![DrawCmdView { x: w.x, y: w.y, text: t }],
    }
}

/// What drawing a sequence of widgets emits, first widget first.
pub open spec fn render_seq(ws: Seq<WidgetView>) -> Seq<DrawCmdView>
    decreases ws,
{
    if ws.len() == 0 {
        Seq::empty()
    } else {
        render(ws[0]) + render_seq(ws.drop_first())
    }
}

/// Appending a widget appends its emissions.
pub proof fn lemma_render_seq_push(ws: Seq<WidgetView>, w: WidgetView)
    ensures
        render_seq(ws.push(w)) == render_seq(ws) + render(w),
    decreases ws.len(),
{
    if ws.len() == 0 {
        assert(ws.push(w)[0] == w);
        assert(ws.push(w).drop_first() =~= Seq::<WidgetView>::empty());
        assert(render_seq(ws.push(w)) == render(w) + render_seq(Seq::<WidgetView>::empty()));
        assert(render_seq(ws.push(w)) =~= render_seq(ws) + render(w));
    } else {
        assert(ws.push(w)[0] == ws[0]);
        assert(ws.push(w).drop_first() =~= ws.drop_first().push(w));
        lemma_render_seq_push(ws.drop_first(), w);
        assert(render_seq(ws.push(w)) == render(ws[0]) + (render_seq(ws.drop_first()) + render(
            w,
        )));
        assert(render_seq(ws.push(w)) =~= render_seq(ws) + render(w));
    }
}

/// The position of the first child of `ws` whose identifier is `uid`, or -1
/// when no child carries it.
pub open spec fn find_child(ws: Seq<WidgetView>, uid: Seq<char>) -> int
    decreases ws,
{
    if ws.len() == 0 {
        -1
    } else if ws[0].uid == uid {
        0
    } else {
        let r = find_child(ws.drop_first(), uid);
        if r == -1 {
            -1
        } else {
            r + 1
        }
    }
}

/// `find_child` names the first match: a nonnegative result is the position
/// of a matching child with none before it, and -1 means no child matches.
pub proof fn lemma_find_child(ws: Seq<WidgetView>, uid: Seq<char>)
    ensures
        find_child(ws, uid) == -1 ==> forall|i: int| 0 <= i < ws.len() ==> ws[i].uid != uid,
        find_child(ws, uid) != -1 ==> {
            let j = find_child(ws, uid);
            &&& 0 <= j < ws.len()
            &&& ws[j].uid == uid
            &&& forall|i: int| 0 <= i < j ==> ws[i].uid != uid
        },
    decreases ws.len(),
{
    if ws.len() > 0 && ws[0].uid != uid {
        let t = ws.drop_first();
        lemma_find_child(t, uid);
        assert(forall|i: int| 0 <= i < t.len() ==> t[i] == ws[i + 1]);
        let r = find_child(t, uid);
        if r == -1 {
            assert(find_child(ws, uid) == -1);
            assert forall|i: int| 0 <= i < ws.len() implies ws[i].uid != uid by {
                if i > 0 {
                    assert(t[i - 1].uid != uid);
                }
            }
        } else {
            assert(find_child(ws, uid) == r + 1);
            assert forall|i: int| 0 <= i < r + 1 implies ws[i].uid != uid by {
                if i > 0 {
                    assert(t[i - 1].uid != uid);
                }
            }
        }
    }
}

/// The tree after a one-level delete: the first child named `uid` is taken
/// out; a tree without one, and a leaf, stay as they are.
pub open spec fn spec_delete(w: WidgetView, uid: Seq<char>) -> WidgetView {
    match w.children {
        ComponentView::Widgets(ws) => {
            let j = find_child(ws, uid);
            if j == -1 {
                w
            } else {
                WidgetView { children: ComponentView::Widgets(ws.remove(j)), ..w }
            }
        },
        ComponentView::Str(_) => w,
    }
}

/// The tree after an append of one child to a composite.
pub open spec fn spec_add(w: WidgetView, child: WidgetView) -> WidgetView
    recommends
        (w.children is Widgets),
{
    match w.children {
        ComponentView::Widgets(ws) => WidgetView {
            children: ComponentView::Widgets(ws.push(child)),
            ..w
        },
        ComponentView::Str(_) => w,
    }
}

/// The tree after a replace: the first child named `uid` is taken out, and
/// the new child appended — so an identifier not yet present is created
/// rather than rejected.
pub open spec fn spec_update(w: WidgetView, uid: Seq<char>, child: WidgetView) -> WidgetView {
    spec_add(spec_delete(w, uid), child)
}

impl Widget {
    /// Emits the widget depth-first: every leaf's text at that leaf's
    /// origin, children in sequence order.
    #[verifier::loop_isolation(false)]
    pub fn draw(&self) -> (r: Vec<DrawCmd>)
        ensures
            cmds_view(r@) == render(self@),
        decreases *self,
    {
        match &self.children {
            Component::Widgets(vw) => {
                let mut r: Vec<DrawCmd> = Vec::new();
                let ghost ws = widget_views(vw@);
                proof {
                    lemma_widget_views(vw@);
                    assert(cmds_view(r@) =~= render_seq(ws.take(0)));
                }
                let n = vw.len();
                let mut i: usize = 0;
                while i < n
                    invariant
                        i <= n,
                        cmds_view(r@) == render_seq(ws.take(i as int)),
                    decreases n - i,
                {
                    let ghost r0 = r@;
                    let mut sub = vw[i].draw();
                    r.append(&mut sub);
                    i = i + 1;
                    proof {
                        assert(cmds_view(r0).len() == r0.len());
                        assert(ws.take(i as int).drop_last() =~= ws.take(i as int - 1));
                        lemma_render_seq_push(ws.take(i as int - 1), ws[i as int - 1]);
                        assert(ws.take(i as int - 1).push(ws[i as int - 1]) =~= ws.take(i as int));
                        assert(cmds_view(r@) =~= render_seq(ws.take(i as int)));
                    }
                }
                proof {
                    assert(ws.take(n as int) =~= ws);
                }
                r
            },
            Component::Str(s) => {
                let mut r: Vec<DrawCmd> = Vec::new();
                r.push(DrawCmd { x: self.p0.x, y: self.p0.y, text: s.clone() });
                proof {
                    assert(cmds_view(r@) =~= render(self@));
                }
                r
            },
        }
    }

    /// Appends `widget` to this composite's children. A leaf cannot acquire
    /// children: the tree was built wrong if one is asked to.
    pub fn add(&mut self, widget: Widget)
        requires
            (old(self)@.children is Widgets),
        ensures
            final(self)@ == spec_add(old(self)@, widget@),
    {
        match &mut self.children {
            Component::Widgets(vw) => {
                let ghost vw0 = vw@;
                vw.push(widget);
                proof {
                    lemma_widget_views(vw0);
                    lemma_widget_views(vw@);
                    assert(widget_views(vw@) =~= widget_views(vw0).push(widget@));
                    assert(final(self)@ =~~= spec_add(old(self)@, widget@));
                }
            },
            Component::Str(_) => {
                proof {
                    assert(false);
                }
            },
        }
    }

    /// Takes out this widget's first immediate child named `uid`, searching
    /// one level deep only, and reports whether one was found; without a
    /// match, and on a leaf, the tree stays as it is.
    #[verifier::loop_isolation(false)]
    pub fn delete(&mut self, uid: &String) -> (found: bool)
        ensures
            final(self)@ == spec_delete(old(self)@, uid@),
            found <==> (old(self)@.children matches ComponentView::Widgets(ws) && find_child(
                ws,
                uid@,
            ) != -1),
    {
        match &mut self.children {
            Component::Widgets(vw) => {
                let ghost ws = widget_views(vw@);
                proof {
                    lemma_widget_views(vw@);
                }
                let n = vw.len();
                let mut i: usize = 0;
                let mut idx: usize = n;
                while i < n
                    invariant
                        i <= n,
                        idx <= n,
                        idx == n ==> forall|k: int| 0 <= k < i ==> ws[k].uid != uid@,
                        idx < n ==> ws[idx as int].uid == uid@,
                        idx < n ==> forall|k: int| 0 <= k < idx ==> ws[k].uid != uid@,
                    decreases n - i,
                {
                    if idx == n && vw[i].uid == *uid {
                        idx = i;
                    }
                    i = i + 1;
                }
                proof {
                    lemma_find_child(ws, uid@);
                }
                let i = idx;
                if i < n {
                    proof {
                        assert(find_child(ws, uid@) == i as int);
                        lemma_widget_views(vw@.remove(i as int));
                        assert(widget_views(vw@.remove(i as int)) =~= ws.remove(i as int));
                    }
                    vw.remove(i);
                    proof {
                        assert(final(self)@ =~~= spec_delete(old(self)@, uid@));
                    }
                    true
                } else {
                    proof {
                        assert(find_child(ws, uid@) == -1);
                        assert(final(self)@ =~~= spec_delete(old(self)@, uid@));
                    }
                    false
                }
            },
            Component::Str(_) => {
                proof {
                    assert(final(self)@ =~~= spec_delete(old(self)@, uid@));
                }
                false
            },
        }
    }

    /// Replaces this composite's first child named `uid` by `widget`,
    /// appending it at the end of the children — and so creating the
    /// identifier when no child carried it yet.
    pub fn update(&mut self, uid: &String, widget: Widget)
        requires
            (old(self)@.children is Widgets),
        ensures
            final(self)@ == spec_update(old(self)@, uid@, widget@),
    {
        self.delete(uid);
        self.add(widget);
    }
}

/// Replacing a child and then drawing always renders the new node's text at
/// the new node's origin — as the final emission, over anything under it —
/// whether or not the identifier already existed.
pub proof fn lemma_update_then_draw(
    w: WidgetView,
    uid: Seq<char>,
    node: WidgetView,
    text: Seq<char>,
)
    requires
        (w.children is Widgets),
        node.children == ComponentView::Str(text),
    ensures
        render(spec_update(w, uid, node)).len() > 0,
        render(spec_update(w, uid, node)).last() == (DrawCmdView {
            x: node.x,
            y: node.y,
            text,
        }),
{
    let d = spec_delete(w, uid);
    let ws = d.children->Widgets_0;
    lemma_render_seq_push(ws, node);
    assert(render(node) =~= seq![DrawCmdView { x: node.x, y: node.y, text }]);
}

/// Ids at most once, one level deep: no two children of `ws` share a name.
pub open spec fn ids_unique(ws: Seq<WidgetView>) -> bool {
    forall|i: int, j: int| 0 <= i < j < ws.len() ==> ws[i].uid != ws[j].uid
}

/// Deleting is idempotent where identifiers are unique among the children:
/// a second delete of the same identifier finds nothing and changes
/// nothing. (With a duplicated identifier the second call would take out
/// the second bearer.)
pub proof fn lemma_delete_idempotent(w: WidgetView, uid: Seq<char>)
    requires
        w.children matches ComponentView::Widgets(ws) ==> ids_unique(ws),
    ensures
        spec_delete(spec_delete(w, uid), uid) == spec_delete(w, uid),
{
    match w.children {
        ComponentView::Widgets(ws) => {
            lemma_find_child(ws, uid);
            let j = find_child(ws, uid);
            if j != -1 {
                let ws1 = ws.remove(j);
                lemma_find_child(ws1, uid);
                let k = find_child(ws1, uid);
                if k != -1 {
                    let orig = if k < j {
                        k
                    } else {
                        k + 1
                    };
                    assert(ws[orig].uid == uid);
                    assert(false);
                }
                assert(spec_delete(spec_delete(w, uid), uid) =~~= spec_delete(w, uid));
            }
        },
        ComponentView::Str(_) => {},
    }
}

} // verus!
