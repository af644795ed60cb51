use vstd::prelude::*;
use crate::kind::{WidgetKind, derives_from, is_container_kind, lemma_derives_transitive};
use crate::layout::{DeclView, Layout, layout_wf, parent_fits};
use crate::builder::{Builder, Entry, EntryView, WidgetRef};

verus! {

/// The state of one live widget.
#[derive(Clone, Copy, Debug)]
pub struct Node {
    pub kind: WidgetKind,
    /// The container that holds the widget.
    pub parent: Option<usize>,
    pub visible: bool,
    /// The popover that a click on this widget opens.
    pub on_click: Option<usize>,
}

/// The parent of widget `i` is a container of `s`, and its click target is
/// a widget of `s`.
pub open spec fn node_fits(s: Seq<Node>, i: int) -> bool {
    &&& match s[i].parent {
        Some(p) => p < s.len() && is_container_kind(s[p as int].kind),
        None => true,
    }
    &&& match s[i].on_click {
        Some(p) => p < s.len(),
        None => true,
    }
}

pub open spec fn ui_wf(s: Seq<Node>) -> bool {
    forall|i: int| 0 <= i < s.len() ==> #[trigger] node_fits(s, i)
}

/// How many widgets `p` holds directly.
pub open spec fn count_children(s: Seq<Node>, p: usize) -> nat
    decreases s.len(),
{
    if s.len() == 0 {
        0
    } else {
        count_children(s.drop_last(), p) + if s.last().parent == Some(p) {
            1nat
        } else {
            0nat
        }
    }
}

/// The widget that a declaration becomes once its layout is loaded at
/// position `base`.
pub open spec fn node_of(d: DeclView, base: nat) -> Node {
    Node {
        kind: d.kind,
        parent: match d.parent {
            Some(p) => Some((base + p) as usize),
            None => None,
        },
        visible: d.visible,
        on_click: None,
    }
}

pub open spec fn nodes_of(s: Seq<DeclView>, base: nat) -> Seq<Node> {
    s.map_values(|d: DeclView| node_of(d, base))
}

/// The named objects that loading the declarations `s` at position `base`
/// exposes.
pub open spec fn entries_of(s: Seq<DeclView>, base: nat) -> Seq<EntryView> {
    Seq::new(
        s.len(),
        |i: int| EntryView { id: s[i].id, kind: s[i].kind, widget: WidgetRef { index: (base + i) as usize } },
    )
}

proof fn lemma_push_node_wf(s: Seq<Node>, x: Node)
    requires
        ui_wf(s),
        match x.parent {
            Some(p) => p < s.len() && is_container_kind(s[p as int].kind),
            None => true,
        },
        match x.on_click {
            Some(p) => p < s.len(),
            None => true,
        },
    ensures
        ui_wf(s.push(x)),
{
    let t = s.push(x);
    assert forall|k: int| 0 <= k < t.len() implies #[trigger] node_fits(t, k) by {
        if k < s.len() {
            assert(t[k] == s[k]);
            assert(node_fits(s, k));
            if let Some(p) = s[k].parent {
                assert(t[p as int] == s[p as int]);
            }
        } else if let Some(p) = x.parent {
            assert(t[p as int] == s[p as int]);
        }
    }
}

proof fn lemma_load_step(start: Seq<Node>, decls: Seq<DeclView>, base: nat, i: int)
    requires
        layout_wf(decls),
        base == start.len(),
        base + decls.len() <= usize::MAX,
        0 <= i < decls.len(),
        ui_wf(start + nodes_of(decls.take(i), base)),
    ensures
        start + nodes_of(decls.take(i + 1), base) == (start + nodes_of(decls.take(i), base)).push(
            node_of(decls[i], base),
        ),
        ui_wf(start + nodes_of(decls.take(i + 1), base)),
{
    let before = start + nodes_of(decls.take(i), base);
    let x = node_of(decls[i], base);
    assert(nodes_of(decls.take(i + 1), base) =~= nodes_of(decls.take(i), base).push(x));
    assert(start + nodes_of(decls.take(i + 1), base) =~= before.push(x));
    assert(parent_fits(decls, i));
    if let Some(p) = decls[i].parent {
        assert(decls.take(i)[p as int] == decls[p as int]);
        assert(before[base + p] == node_of(decls[p as int], base));
    }
    lemma_push_node_wf(before, x);
}

proof fn lemma_update_node_wf(s: Seq<Node>, k: int, x: Node)
    requires
        ui_wf(s),
        0 <= k < s.len(),
        x.kind == s[k].kind,
        match x.parent {
            Some(p) => p < s.len() && is_container_kind(s[p as int].kind),
            None => true,
        },
        match x.on_click {
            Some(p) => p < s.len(),
            None => true,
        },
    ensures
        ui_wf(s.update(k, x)),
{
    let t = s.update(k, x);
    assert forall|j: int| 0 <= j < t.len() implies #[trigger] node_fits(t, j) by {
        if j != k {
            assert(node_fits(s, j));
            if let Some(p) = s[j].parent {
                assert(t[p as int].kind == s[p as int].kind);
            }
        } else if let Some(p) = x.parent {
            assert(t[p as int].kind == s[p as int].kind);
        }
    }
}

proof fn lemma_count_push(s: Seq<Node>, x: Node, p: usize)
    ensures
        count_children(s.push(x), p) == count_children(s, p) + if x.parent == Some(p) {
            1nat
        } else {
            0nat
        },
{
    assert(s.push(x).drop_last() =~= s);
}

proof fn lemma_count_update(s: Seq<Node>, k: int, x: Node, p: usize)
    requires
        0 <= k < s.len(),
    ensures
        count_children(s.update(k, x), p) + (if s[k].parent == Some(p) {
            1nat
        } else {
            0nat
        }) == count_children(s, p) + if x.parent == Some(p) {
            1nat
        } else {
            0nat
        },
    decreases s.len(),
{
    let t = s.update(k, x);
    if k == s.len() - 1 {
        assert(t.drop_last() =~= s.drop_last());
    } else {
        assert(t.drop_last() =~= s.drop_last().update(k, x));
        lemma_count_update(s.drop_last(), k, x, p);
    }
}

/// A tree of live widgets, which layouts are loaded into.
pub struct Ui {
    nodes: Vec<Node>,
}

impl View for Ui {
    type V = Seq<Node>;

    closed spec fn view(&self) -> Seq<Node> {
        self.nodes@
    }
}

impl Ui {
    pub open spec fn wf(&self) -> bool {
        ui_wf(self@)
    }

    pub open spec fn holds_spec(&self, w: WidgetRef) -> bool {
        w.index < self@.len()
    }

    pub fn new() -> (r: Ui)
        ensures
            r@ == Seq::<Node>::empty(),
            r.wf(),
    {
        Ui { nodes: Vec::new() }
    }

    pub fn len(&self) -> (r: usize)
        ensures
            r == self@.len(),
    {
        self.nodes.len()
    }

    /// Whether `w` refers to a widget of this tree.
    pub fn holds(&self, w: WidgetRef) -> (r: bool)
        ensures
            r == self.holds_spec(w),
    {
        w.index < self.nodes.len()
    }

    pub fn node(&self, w: WidgetRef) -> (r: Node)
        requires
            self.holds_spec(w),
        ensures
            r == self@[w.index as int],
    {
        self.nodes[w.index]
    }

    pub fn is_visible(&self, w: WidgetRef) -> (r: bool)
        requires
            self.holds_spec(w),
        ensures
            r == self@[w.index as int].visible,
    {
        self.nodes[w.index].visible
    }

    /// Creates the widgets that `layout` declares, after those already
    /// present, and returns the builder that names them.
    pub fn load(&mut self, layout: &Layout) -> (r: Builder)
        requires
            old(self).wf(),
            layout.wf(),
            old(self)@.len() + layout@.len() <= usize::MAX,
        ensures
            final(self).wf(),
            final(self)@ == old(self)@ + nodes_of(layout@, old(self)@.len()),
            r@ == entries_of(layout@, old(self)@.len()),
    {
        let base = self.nodes.len();
        let n = layout.len();
        let ghost start = self@;
        let ghost decls = layout@;
        let mut builder = Builder::empty();
        let mut i: usize = 0;
        while i < n
            invariant
                n == decls.len(),
                decls == layout@,
                layout_wf(decls),
                base == start.len(),
                base + n <= usize::MAX,
                i <= n,
                ui_wf(self@),
                self@ == start + nodes_of(decls.take(i as int), base as nat),
                builder@ == entries_of(decls, base as nat).take(i as int),
            decreases n - i,
        {
            let d = layout.decl(i);
            assert(parent_fits(decls, i as int));
            let parent = match d.parent {
                Some(p) => Some(base + p),
                None => None,
            };
            let node = Node { kind: d.kind, parent, visible: d.visible, on_click: None };
            assert(node == node_of(decls[i as int], base as nat));
            proof {
                lemma_load_step(start, decls, base as nat, i as int);
            }
            self.nodes.push(node);
            builder.push_entry(Entry { id: d.id.clone(), kind: d.kind, widget: WidgetRef { index: base + i } });
            assert(entries_of(decls, base as nat).take(i + 1) =~= entries_of(decls, base as nat).take(
                i as int,
            ).push(entries_of(decls, base as nat)[i as int]));
            i += 1;
        }
        assert(decls.take(n as int) =~= decls);
        assert(entries_of(decls, base as nat).take(n as int) =~= entries_of(decls, base as nat));
        builder
    }

    /// Makes a click on `button` open `popover`.
    pub fn connect_clicked(&mut self, button: WidgetRef, popover: WidgetRef)
        requires
            old(self).wf(),
            old(self).holds_spec(button),
            old(self).holds_spec(popover),
            derives_from(old(self)@[button.index as int].kind, WidgetKind::Button),
            derives_from(old(self)@[popover.index as int].kind, WidgetKind::Popover),
        ensures
            final(self).wf(),
            final(self)@ == old(self)@.update(
                button.index as int,
                Node { on_click: Some(popover.index), ..old(self)@[button.index as int] },
            ),
    {
        let mut node = self.nodes[button.index];
        node.on_click = Some(popover.index);
        proof {
            assert(node_fits(self@, button.index as int));
            lemma_update_node_wf(self@, button.index as int, node);
        }
        self.nodes.set(button.index, node);
    }

    /// Shows `w`.
    pub fn popup(&mut self, w: WidgetRef)
        requires
            old(self).wf(),
            old(self).holds_spec(w),
        ensures
            final(self).wf(),
            final(self)@ == old(self)@.update(
                w.index as int,
                Node { visible: true, ..old(self)@[w.index as int] },
            ),
    {
        let mut node = self.nodes[w.index];
        node.visible = true;
        proof {
            assert(node_fits(self@, w.index as int));
            lemma_update_node_wf(self@, w.index as int, node);
        }
        self.nodes.set(w.index, node);
    }

    /// A click on `button`: shows the popover connected to it, if any, and
    /// returns that popover.
    pub fn click(&mut self, button: WidgetRef) -> (r: Option<WidgetRef>)
        requires
            old(self).wf(),
            old(self).holds_spec(button),
        ensures
            final(self).wf(),
            match old(self)@[button.index as int].on_click {
                Some(p) => {
                    &&& r == Some(WidgetRef { index: p })
                    &&& final(self)@ == old(self)@.update(
                        p as int,
                        Node { visible: true, ..old(self)@[p as int] },
                    )
                },
                None => r == None::<WidgetRef> && final(self)@ == old(self)@,
            },
    {
        proof {
            assert(node_fits(self@, button.index as int));
        }
        match self.nodes[button.index].on_click {
            Some(p) => {
                let target = WidgetRef { index: p };
                self.popup(target);
                Some(target)
            },
            None => None,
        }
    }

    /// Detaches `w` from the container that holds it.
    pub fn unparent(&mut self, w: WidgetRef)
        requires
            old(self).wf(),
            old(self).holds_spec(w),
        ensures
            final(self).wf(),
            final(self)@ == old(self)@.update(
                w.index as int,
                Node { parent: None, ..old(self)@[w.index as int] },
            ),
    {
        let mut node = self.nodes[w.index];
        node.parent = None;
        proof {
            assert(node_fits(self@, w.index as int));
            lemma_update_node_wf(self@, w.index as int, node);
        }
        self.nodes.set(w.index, node);
    }

    /// How many widgets `w` holds directly.
    pub fn child_count(&self, w: WidgetRef) -> (r: usize)
        ensures
            r == count_children(self@, w.index),
    {
        let mut count: usize = 0;
        let mut i: usize = 0;
        while i < self.nodes.len()
            invariant
                i <= self@.len(),
                count == count_children(self@.take(i as int), w.index),
                count <= i,
            decreases self@.len() - i,
        {
            assert(self@.take(i + 1).drop_last() =~= self@.take(i as int));
            if self.nodes[i].parent == Some(w.index) {
                count += 1;
            }
            i += 1;
        }
        assert(self@.take(i as int) =~= self@);
        count
    }

    /// Appends the detached widget `child` to the list `list`. A child that
    /// is not a row is first wrapped in a new, visible row, which is then the
    /// list's new child. Returns the row.
    pub fn insert(&mut self, list: WidgetRef, child: WidgetRef) -> (r: WidgetRef)
        requires
            old(self).wf(),
            old(self).holds_spec(list),
            old(self).holds_spec(child),
            derives_from(old(self)@[list.index as int].kind, WidgetKind::ListBox),
            old(self)@[child.index as int].parent == None::<usize>,
            old(self)@.len() < usize::MAX,
        ensures
            final(self).wf(),
            count_children(final(self)@, list.index) == count_children(old(self)@, list.index) + 1,
            if derives_from(old(self)@[child.index as int].kind, WidgetKind::ListBoxRow) {
                &&& r == child
                &&& final(self)@ == old(self)@.update(
                    child.index as int,
                    Node { parent: Some(list.index), ..old(self)@[child.index as int] },
                )
            } else {
                &&& r == WidgetRef { index: old(self)@.len() as usize }
                &&& final(self)@ == old(self)@.update(
                    child.index as int,
                    Node { parent: Some(old(self)@.len() as usize), ..old(self)@[child.index as int] },
                ).push(
                    Node { kind: WidgetKind::ListBoxRow, parent: Some(list.index), visible: true, on_click: None },
                )
            },
    {
        let ghost s = self@;
        let mut node = self.nodes[child.index];
        proof {
            assert(node_fits(s, child.index as int));
            assert(derives_from(WidgetKind::ListBox, WidgetKind::Container)) by {
                reveal_with_fuel(derives_from, 2);
            }
            lemma_derives_transitive(s[list.index as int].kind, WidgetKind::ListBox, WidgetKind::Container);
        }
        if node.kind.is_a(WidgetKind::ListBoxRow) {
            node.parent = Some(list.index);
            proof {
                lemma_update_node_wf(s, child.index as int, node);
                lemma_count_update(s, child.index as int, node, list.index);
            }
            self.nodes.set(child.index, node);
            child
        } else {
            let row_index = self.nodes.len();
            let row = Node { kind: WidgetKind::ListBoxRow, parent: Some(list.index), visible: true, on_click: None };
            node.parent = Some(row_index);
            self.nodes.push(row);
            proof {
                assert(derives_from(WidgetKind::ListBoxRow, WidgetKind::Container)) by {
                    reveal_with_fuel(derives_from, 3);
                }
                lemma_push_node_wf(s, row);
                lemma_count_push(s, row, list.index);
                lemma_update_node_wf(s.push(row), child.index as int, node);
                lemma_count_update(s.push(row), child.index as int, node, list.index);
                assert(s.push(row).update(child.index as int, node) =~= s.update(child.index as int, node).push(row));
            }
            self.nodes.set(child.index, node);
            WidgetRef { index: row_index }
        }
    }
}

} // verus!
