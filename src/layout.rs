use vstd::prelude::*;
use crate::kind::{WidgetKind, is_container_kind};

verus! {

/// One widget declared by a layout source.
pub struct Decl {
    pub id: String,
    pub kind: WidgetKind,
    /// Position, within the same layout, of the enclosing container.
    pub parent: Option<usize>,
    pub visible: bool,
}

pub struct DeclView {
    pub id: Seq<char>,
    pub kind: WidgetKind,
    pub parent: Option<usize>,
    pub visible: bool,
}

impl View for Decl {
    type V = DeclView;

    open spec fn view(&self) -> DeclView {
        DeclView { id: self.id@, kind: self.kind, parent: self.parent, visible: self.visible }
    }
}

/// Some declaration of `s` carries the identifier `id`.
pub open spec fn declares(s: Seq<DeclView>, id: Seq<char>) -> bool {
    exists|i: int| 0 <= i < s.len() && #[trigger] s[i].id == id
}

/// Identifiers are unique, and each parent is an earlier container.
pub open spec fn layout_wf(s: Seq<DeclView>) -> bool {
    &&& forall|i: int, j: int|
        0 <= i < s.len() && 0 <= j < s.len() && i != j ==> #[trigger] s[i].id != #[trigger] s[j].id
    &&& forall|i: int| 0 <= i < s.len() ==> #[trigger] parent_fits(s, i)
}

/// Declaration `i` of `s` sits at the top level or in an earlier container.
pub open spec fn parent_fits(s: Seq<DeclView>, i: int) -> bool {
    match s[i].parent {
        Some(p) => p < i && is_container_kind(s[p as int].kind),
        None => true,
    }
}

/// Why a declaration was refused.
#[derive(Debug)]
pub enum LayoutError {
    DuplicateId { id: String },
    UnknownParent { parent: String },
    ParentNotContainer { parent: String },
}

/// A layout source: a tree of named widgets, in declaration order.
pub struct Layout {
    decls: Vec<Decl>,
}

impl View for Layout {
    type V = Seq<DeclView>;

    closed spec fn view(&self) -> Seq<DeclView> {
        self.decls@.map_values(|d: Decl| d@)
    }
}

proof fn lemma_push_keeps_wf(s: Seq<DeclView>, d: DeclView)
    requires
        layout_wf(s),
        !declares(s, d.id),
        match d.parent {
            Some(p) => p < s.len() && is_container_kind(s[p as int].kind),
            None => true,
        },
    ensures
        layout_wf(s.push(d)),
{
    let t = s.push(d);
    assert forall|a: int, b: int|
        0 <= a < t.len() && 0 <= b < t.len() && a != b implies #[trigger] t[a].id
        != #[trigger] t[b].id by {
        if a == s.len() {
            assert(t[b] == s[b]);
        } else if b == s.len() {
            assert(t[a] == s[a]);
        } else {
            assert(t[a] == s[a] && t[b] == s[b]);
        }
    }
    assert forall|a: int| 0 <= a < t.len() implies #[trigger] parent_fits(t, a) by {
        if a < s.len() {
            assert(t[a] == s[a]);
            assert(parent_fits(s, a));
            if let Some(p) = s[a].parent {
                assert(t[p as int] == s[p as int]);
            }
        } else if let Some(p) = d.parent {
            assert(t[p as int] == s[p as int]);
        }
    }
}

impl Layout {
    pub open spec fn wf(&self) -> bool {
        layout_wf(self@)
    }

    pub fn new() -> (r: Layout)
        ensures
            r@ == Seq::<DeclView>::empty(),
            r.wf(),
    {
        let r = Layout { decls: Vec::new() };
        assert(r@ =~= Seq::<DeclView>::empty());
        r
    }

    pub fn len(&self) -> (r: usize)
        ensures
            r == self@.len(),
    {
        self.decls.len()
    }

    pub fn decl(&self, i: usize) -> (r: &Decl)
        requires
            i < self@.len(),
        ensures
            r@ == self@[i as int],
    {
        &self.decls[i]
    }

    /// Position of the declaration named `id`, if any.
    pub fn position(&self, id: &String) -> (r: Option<usize>)
        ensures
            match r {
                Some(i) => i < self@.len() && self@[i as int].id == id@,
                None => !declares(self@, id@),
            },
    {
        let mut i: usize = 0;
        while i < self.decls.len()
            invariant
                i <= self.decls@.len(),
                forall|j: int| 0 <= j < i ==> self@[j].id != id@,
            decreases self.decls@.len() - i,
        {
            if self.decls[i].id == *id {
                return Some(i);
            }
            i += 1;
        }
        None
    }

    /// Adds a widget named `id` under the container named `parent` (at the
    /// top level when `parent` is `None`), returning its position.
    pub fn declare(&mut self, id: &str, kind: WidgetKind, parent: Option<&str>, visible: bool) -> (r:
        Result<usize, LayoutError>)
        requires
            old(self).wf(),
        ensures
            final(self).wf(),
            match r {
                Ok(i) => {
                    &&& !declares(old(self)@, id@)
                    &&& i == old(self)@.len()
                    &&& final(self)@.len() == i + 1
                    &&& final(self)@.drop_last() == old(self)@
                    &&& final(self)@[i as int].id == id@
                    &&& final(self)@[i as int].kind == kind
                    &&& final(self)@[i as int].visible == visible
                    &&& match parent {
                        None => final(self)@[i as int].parent == None::<usize>,
                        Some(pid) => exists|p: usize|
                            final(self)@[i as int].parent == Some(p) && p < i && old(self)@[p as int].id
                                == pid@,
                    }
                },
                Err(LayoutError::DuplicateId { id: s }) => {
                    &&& s@ == id@
                    &&& declares(old(self)@, id@)
                    &&& final(self)@ == old(self)@
                },
                Err(LayoutError::UnknownParent { parent: s }) => {
                    &&& !declares(old(self)@, id@)
                    &&& parent.is_some() && parent.unwrap()@ == s@
                    &&& !declares(old(self)@, s@)
                    &&& final(self)@ == old(self)@
                },
                Err(LayoutError::ParentNotContainer { parent: s }) => {
                    &&& !declares(old(self)@, id@)
                    &&& parent.is_some() && parent.unwrap()@ == s@
                    &&& exists|p: int|
                        0 <= p < old(self)@.len() && old(self)@[p].id == s@ && !is_container_kind(
                            old(self)@[p].kind,
                        )
                    &&& final(self)@ == old(self)@
                },
            },
    {
        let name = id.to_owned();
        if let Some(_) = self.position(&name) {
            return Err(LayoutError::DuplicateId { id: name });
        }
        let parent_pos = match parent {
            None => None,
            Some(pid) => {
                let pname = pid.to_owned();
                match self.position(&pname) {
                    None => {
                        return Err(LayoutError::UnknownParent { parent: pname });
                    },
                    Some(p) => {
                        if !self.decls[p].kind.is_container() {
                            return Err(LayoutError::ParentNotContainer { parent: pname });
                        }
                        Some(p)
                    },
                }
            },
        };
        let ghost before = self@;
        let i = self.decls.len();
        let d = Decl { id: name, kind, parent: parent_pos, visible };
        let ghost dv = d@;
        self.decls.push(d);
        assert(self@ =~= before.push(dv));
        assert(self@.drop_last() =~= before);
        proof {
            lemma_push_keeps_wf(before, dv);
        }
        Ok(i)
    }
}

} // verus!
