use vstd::prelude::*;

verus! {

/// The widget classes a layout may declare, arranged in a single-inheritance
/// class tree rooted at `Widget`.
#[derive(Clone, Copy, Debug, PartialEq, Eq, Structural)]
pub enum WidgetKind {
    Widget,
    Misc,
    Label,
    Container,
    Bin,
    Window,
    ApplicationWindow,
    Popover,
    Button,
    ListBox,
    ListBoxRow,
    Grid,
}

/// The direct superclass of a class; `Widget` has none.
pub open spec fn superclass(k: WidgetKind) -> Option<WidgetKind> {
    match k {
        WidgetKind::Widget => None,
        WidgetKind::Misc => Some(WidgetKind::Widget),
        WidgetKind::Label => Some(WidgetKind::Misc),
        WidgetKind::Container => Some(WidgetKind::Widget),
        WidgetKind::Bin => Some(WidgetKind::Container),
        WidgetKind::Window => Some(WidgetKind::Bin),
        WidgetKind::ApplicationWindow => Some(WidgetKind::Window),
        WidgetKind::Popover => Some(WidgetKind::Bin),
        WidgetKind::Button => Some(WidgetKind::Bin),
        WidgetKind::ListBox => Some(WidgetKind::Container),
        WidgetKind::ListBoxRow => Some(WidgetKind::Bin),
        WidgetKind::Grid => Some(WidgetKind::Container),
    }
}

/// Distance of a class from the root of the class tree.
pub open spec fn depth(k: WidgetKind) -> nat {
    match k {
        WidgetKind::Widget => 0,
        WidgetKind::Misc | WidgetKind::Container => 1,
        WidgetKind::Label | WidgetKind::Bin | WidgetKind::ListBox | WidgetKind::Grid => 2,
        WidgetKind::Window | WidgetKind::Popover | WidgetKind::Button | WidgetKind::ListBoxRow => 3,
        WidgetKind::ApplicationWindow => 4,
    }
}

/// `k` is `target` or one of its subclasses: a widget of class `k` can be
/// used where a `target` is expected.
pub open spec fn derives_from(k: WidgetKind, target: WidgetKind) -> bool
    decreases depth(k),
{
    k == target || match superclass(k) {
        Some(p) => derives_from(p, target),
        None => false,
    }
}

/// A class that can hold child widgets.
pub open spec fn is_container_kind(k: WidgetKind) -> bool {
    derives_from(k, WidgetKind::Container)
}

/// A class derives from every class that its superclasses derive from.
pub proof fn lemma_derives_transitive(a: WidgetKind, b: WidgetKind, c: WidgetKind)
    requires
        derives_from(a, b),
        derives_from(b, c),
    ensures
        derives_from(a, c),
    decreases depth(a),
{
    if a != b {
        if let Some(p) = superclass(a) {
            lemma_derives_transitive(p, b, c);
        }
    }
}

impl WidgetKind {
    pub fn superclass(self) -> (r: Option<WidgetKind>)
        ensures
            r == superclass(self),
    {
        match self {
            WidgetKind::Widget => None,
            WidgetKind::Misc => Some(WidgetKind::Widget),
            WidgetKind::Label => Some(WidgetKind::Misc),
            WidgetKind::Container => Some(WidgetKind::Widget),
            WidgetKind::Bin => Some(WidgetKind::Container),
            WidgetKind::Window => Some(WidgetKind::Bin),
            WidgetKind::ApplicationWindow => Some(WidgetKind::Window),
            WidgetKind::Popover => Some(WidgetKind::Bin),
            WidgetKind::Button => Some(WidgetKind::Bin),
            WidgetKind::ListBox => Some(WidgetKind::Container),
            WidgetKind::ListBoxRow => Some(WidgetKind::Bin),
            WidgetKind::Grid => Some(WidgetKind::Container),
        }
    }

    /// Whether a widget of this class can be used as a `target`, found by
    /// walking up the superclass chain.
    pub fn is_a(self, target: WidgetKind) -> (r: bool)
        ensures
            r == derives_from(self, target),
    {
        let mut cur = self;
        loop
            invariant
                derives_from(self, target) == derives_from(cur, target),
            decreases depth(cur),
        {
            if cur == target {
                return true;
            }
            match cur.superclass() {
                Some(p) => {
                    cur = p;
                },
                None => {
                    return false;
                },
            }
        }
    }

    pub fn is_container(self) -> (r: bool)
        ensures
            r == is_container_kind(self),
    {
        self.is_a(WidgetKind::Container)
    }
}

} // verus!
