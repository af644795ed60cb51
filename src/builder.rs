use vstd::prelude::*;
use crate::kind::{WidgetKind, derives_from};

verus! {

/// A reference to a live widget, by its position in the widget tree that
/// owns it.
#[derive(Clone, Copy, Debug, PartialEq, Eq, Structural)]
pub struct WidgetRef {
    pub index: usize,
}

/// One named object of a builder.
pub struct Entry {
    pub id: String,
    pub kind: WidgetKind,
    pub widget: WidgetRef,
}

pub struct EntryView {
    pub id: Seq<char>,
    pub kind: WidgetKind,
    pub widget: WidgetRef,
}

impl View for Entry {
    type V = EntryView;

    open spec fn view(&self) -> EntryView {
        EntryView { id: self.id@, kind: self.kind, widget: self.widget }
    }
}

/// Why a widget could not be resolved.
#[derive(Debug)]
pub enum ResolutionFailure {
    /// No object carries the identifier.
    Missing { id: String },
    /// The object under the identifier is not of the expected class.
    WrongKind { id: String, expected: WidgetKind, found: WidgetKind },
}

pub enum FailureView {
    Missing { id: Seq<char> },
    WrongKind { id: Seq<char>, expected: WidgetKind, found: WidgetKind },
}

impl FailureView {
    pub open spec fn id(self) -> Seq<char> {
        match self {
            FailureView::Missing { id } => id,
            FailureView::WrongKind { id, .. } => id,
        }
    }
}

impl View for ResolutionFailure {
    type V = FailureView;

    open spec fn view(&self) -> FailureView {
        match self {
            ResolutionFailure::Missing { id } => FailureView::Missing { id: id@ },
            ResolutionFailure::WrongKind { id, expected, found } => FailureView::WrongKind {
                id: id@,
                expected: *expected,
                found: *found,
            },
        }
    }
}

impl ResolutionFailure {
    /// The identifier that failed to resolve.
    pub fn identifier(&self) -> (r: &str)
        ensures
            r@ == self@.id(),
    {
        match self {
            ResolutionFailure::Missing { id } => id.as_str(),
            ResolutionFailure::WrongKind { id, .. } => id.as_str(),
        }
    }
}

/// `i` is the first position of `s` that carries `id`.
pub open spec fn first_with_id(s: Seq<EntryView>, id: Seq<char>, i: int) -> bool {
    &&& 0 <= i < s.len()
    &&& s[i].id == id
    &&& forall|j: int| 0 <= j < i ==> s[j].id != id
}

/// What resolving `id` as a `kind` yields against the objects `s`: the
/// first object named `id`, provided its class derives from `kind`.
pub open spec fn resolution(s: Seq<EntryView>, id: Seq<char>, kind: WidgetKind) -> Result<
    WidgetRef,
    FailureView,
> {
    if exists|i: int| #[trigger] first_with_id(s, id, i) {
        let i = choose|i: int| #[trigger] first_with_id(s, id, i);
        if derives_from(s[i].kind, kind) {
            Ok(s[i].widget)
        } else {
            Err(FailureView::WrongKind { id, expected: kind, found: s[i].kind })
        }
    } else {
        Err(FailureView::Missing { id })
    }
}

pub open spec fn result_view(r: Result<WidgetRef, ResolutionFailure>) -> Result<
    WidgetRef,
    FailureView,
> {
    match r {
        Ok(w) => Ok(w),
        Err(e) => Err(e@),
    }
}

/// The named objects that one layout source produced.
pub struct Builder {
    entries: Vec<Entry>,
}

impl View for Builder {
    type V = Seq<EntryView>;

    closed spec fn view(&self) -> Seq<EntryView> {
        self.entries@.map_values(|e: Entry| e@)
    }
}

impl Builder {
    pub(crate) fn empty() -> (r: Builder)
        ensures
            r@ == Seq::<EntryView>::empty(),
    {
        let r = Builder { entries: Vec::new() };
        assert(r@ =~= Seq::<EntryView>::empty());
        r
    }

    pub(crate) fn push_entry(&mut self, e: Entry)
        ensures
            final(self)@ == old(self)@.push(e@),
    {
        let ghost ev = e@;
        self.entries.push(e);
        assert(self@ =~= old(self)@.push(ev));
    }

    pub fn len(&self) -> (r: usize)
        ensures
            r == self@.len(),
    {
        self.entries.len()
    }

    /// Looks up the object named `id` and checks that it can be used as a
    /// `kind`.
    pub fn resolve(&self, id: &str, kind: WidgetKind) -> (r: Result<WidgetRef, ResolutionFailure>)
        ensures
            result_view(r) == resolution(self@, id@, kind),
    {
        let name = id.to_owned();
        let mut i: usize = 0;
        while i < self.entries.len()
            invariant
                i <= self.entries@.len(),
                name@ == id@,
                forall|j: int| 0 <= j < i ==> self@[j].id != id@,
            decreases self.entries@.len() - i,
        {
            if self.entries[i].id == name {
                assert(first_with_id(self@, id@, i as int));
                let ghost k = choose|k: int| #[trigger] first_with_id(self@, id@, k);
                assert(k == i) by {
                    if k < i {
                        assert(self@[k].id != id@);
                    } else if k > i {
                        assert(self@[i as int].id != id@);
                    }
                }
                let found = self.entries[i].kind;
                if found.is_a(kind) {
                    return Ok(self.entries[i].widget);
                } else {
                    return Err(ResolutionFailure::WrongKind { id: name, expected: kind, found });
                }
            }
            i += 1;
        }
        assert(!exists|k: int| #[trigger] first_with_id(self@, id@, k));
        Err(ResolutionFailure::Missing { id: name })
    }
}

} // verus!
