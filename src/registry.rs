use vstd::prelude::*;
use crate::kind::{WidgetKind, derives_from};
use crate::layout::{DeclView, declares, layout_wf};
use crate::builder::{Builder, FailureView, ResolutionFailure, WidgetRef, first_with_id, resolution};
use crate::ui::entries_of;

verus! {

/// A typed handle: a widget that layouts declare under a fixed identifier
/// and that must belong to a fixed class.
pub trait Widget: Sized {
    spec fn spec_id() -> Seq<char>;

    spec fn spec_kind() -> WidgetKind;

    spec fn spec_inner(&self) -> WidgetRef;

    /// The identifier under which layouts declare this widget.
    fn id() -> (r: &'static str)
        ensures
            r@ == Self::spec_id(),
    ;

    /// The class the declared widget must derive from.
    fn kind() -> (r: WidgetKind)
        ensures
            r == Self::spec_kind(),
    ;

    /// The widget this handle refers to.
    fn inner(self) -> (r: WidgetRef)
        ensures
            r == self.spec_inner(),
    ;

    fn wrap(w: WidgetRef) -> (r: Self)
        ensures
            r.spec_inner() == w,
    ;
}

/// Resolution of typed handles against a source of named objects.
pub trait GetObject {
    spec fn resolves(&self, id: Seq<char>, kind: WidgetKind) -> Result<WidgetRef, FailureView>;

    /// The handle `T` for the object named `T::id()`, provided it derives
    /// from `T::kind()`.
    fn make_object<T: Widget>(&self) -> (r: Result<T, ResolutionFailure>)
        ensures
            match r {
                Ok(h) => self.resolves(T::spec_id(), T::spec_kind()) == Ok::<WidgetRef, FailureView>(
                    h.spec_inner(),
                ),
                Err(e) => self.resolves(T::spec_id(), T::spec_kind()) == Err::<WidgetRef, FailureView>(
                    e@,
                ),
            },
    ;
}

impl GetObject for Builder {
    open spec fn resolves(&self, id: Seq<char>, kind: WidgetKind) -> Result<WidgetRef, FailureView> {
        resolution(self@, id, kind)
    }

    fn make_object<T: Widget>(&self) -> (r: Result<T, ResolutionFailure>) {
        match self.resolve(T::id(), T::kind()) {
            Ok(w) => Ok(T::wrap(w)),
            Err(e) => Err(e),
        }
    }
}

/// The application's main window.
#[derive(Clone, Copy, Debug)]
pub struct MainWindow(pub WidgetRef);

impl Widget for MainWindow {
    open spec fn spec_id() -> Seq<char> {
        "MainWindow"@
    }

    open spec fn spec_kind() -> WidgetKind {
        WidgetKind::ApplicationWindow
    }

    open spec fn spec_inner(&self) -> WidgetRef {
        self.0
    }

    fn id() -> (r: &'static str) {
        "MainWindow"
    }

    fn kind() -> (r: WidgetKind) {
        WidgetKind::ApplicationWindow
    }

    fn inner(self) -> (r: WidgetRef) {
        self.0
    }

    fn wrap(w: WidgetRef) -> (r: Self) {
        MainWindow(w)
    }
}

/// The popover that holds the send form.
#[derive(Clone, Copy, Debug)]
pub struct SendArea(pub WidgetRef);

impl Widget for SendArea {
    open spec fn spec_id() -> Seq<char> {
        "SendArea"@
    }

    open spec fn spec_kind() -> WidgetKind {
        WidgetKind::Popover
    }

    open spec fn spec_inner(&self) -> WidgetRef {
        self.0
    }

    fn id() -> (r: &'static str) {
        "SendArea"
    }

    fn kind() -> (r: WidgetKind) {
        WidgetKind::Popover
    }

    fn inner(self) -> (r: WidgetRef) {
        self.0
    }

    fn wrap(w: WidgetRef) -> (r: Self) {
        SendArea(w)
    }
}

/// The popover that holds the receive form.
#[derive(Clone, Copy, Debug)]
pub struct ReceiveArea(pub WidgetRef);

impl Widget for ReceiveArea {
    open spec fn spec_id() -> Seq<char> {
        "ReceiveArea"@
    }

    open spec fn spec_kind() -> WidgetKind {
        WidgetKind::Popover
    }

    open spec fn spec_inner(&self) -> WidgetRef {
        self.0
    }

    fn id() -> (r: &'static str) {
        "ReceiveArea"
    }

    fn kind() -> (r: WidgetKind) {
        WidgetKind::Popover
    }

    fn inner(self) -> (r: WidgetRef) {
        self.0
    }

    fn wrap(w: WidgetRef) -> (r: Self) {
        ReceiveArea(w)
    }
}

/// The button that opens the send popover.
#[derive(Clone, Copy, Debug)]
pub struct SendButton(pub WidgetRef);

impl Widget for SendButton {
    open spec fn spec_id() -> Seq<char> {
        "SendButton"@
    }

    open spec fn spec_kind() -> WidgetKind {
        WidgetKind::Button
    }

    open spec fn spec_inner(&self) -> WidgetRef {
        self.0
    }

    fn id() -> (r: &'static str) {
        "SendButton"
    }

    fn kind() -> (r: WidgetKind) {
        WidgetKind::Button
    }

    fn inner(self) -> (r: WidgetRef) {
        self.0
    }

    fn wrap(w: WidgetRef) -> (r: Self) {
        SendButton(w)
    }
}

/// The button that opens the receive popover.
#[derive(Clone, Copy, Debug)]
pub struct ReceiveButton(pub WidgetRef);

impl Widget for ReceiveButton {
    open spec fn spec_id() -> Seq<char> {
        "ReceiveButton"@
    }

    open spec fn spec_kind() -> WidgetKind {
        WidgetKind::Button
    }

    open spec fn spec_inner(&self) -> WidgetRef {
        self.0
    }

    fn id() -> (r: &'static str) {
        "ReceiveButton"
    }

    fn kind() -> (r: WidgetKind) {
        WidgetKind::Button
    }

    fn inner(self) -> (r: WidgetRef) {
        self.0
    }

    fn wrap(w: WidgetRef) -> (r: Self) {
        ReceiveButton(w)
    }
}

/// The list of accounts.
#[derive(Clone, Copy, Debug)]
pub struct AccountList(pub WidgetRef);

impl Widget for AccountList {
    open spec fn spec_id() -> Seq<char> {
        "AccountList"@
    }

    open spec fn spec_kind() -> WidgetKind {
        WidgetKind::ListBox
    }

    open spec fn spec_inner(&self) -> WidgetRef {
        self.0
    }

    fn id() -> (r: &'static str) {
        "AccountList"
    }

    fn kind() -> (r: WidgetKind) {
        WidgetKind::ListBox
    }

    fn inner(self) -> (r: WidgetRef) {
        self.0
    }

    fn wrap(w: WidgetRef) -> (r: Self) {
        AccountList(w)
    }
}

/// The template of one account's entry in the account list.
#[derive(Clone, Copy, Debug)]
pub struct AccountEntryTemplate(pub WidgetRef);

impl Widget for AccountEntryTemplate {
    open spec fn spec_id() -> Seq<char> {
        "AccountEntryTemplate"@
    }

    open spec fn spec_kind() -> WidgetKind {
        WidgetKind::Grid
    }

    open spec fn spec_inner(&self) -> WidgetRef {
        self.0
    }

    fn id() -> (r: &'static str) {
        "AccountEntryTemplate"
    }

    fn kind() -> (r: WidgetKind) {
        WidgetKind::Grid
    }

    fn inner(self) -> (r: WidgetRef) {
        self.0
    }

    fn wrap(w: WidgetRef) -> (r: Self) {
        AccountEntryTemplate(w)
    }
}

/// Every widget that a layout declares resolves, once the layout is loaded,
/// to the widget created from its declaration, for every class that the
/// declared class derives from.
pub proof fn lemma_declared_widget_resolves(decls: Seq<DeclView>, base: nat, i: int, kind: WidgetKind)
    requires
        layout_wf(decls),
        base + decls.len() <= usize::MAX,
        0 <= i < decls.len(),
        derives_from(decls[i].kind, kind),
    ensures
        resolution(entries_of(decls, base), decls[i].id, kind) == Ok::<WidgetRef, FailureView>(
            WidgetRef { index: (base + i) as usize },
        ),
{
    let s = entries_of(decls, base);
    let id = decls[i].id;
    assert(first_with_id(s, id, i));
    let k = choose|k: int| #[trigger] first_with_id(s, id, k);
    assert(k == i) by {
        if k != i {
            assert(decls[k].id != decls[i].id);
        }
    }
}

/// A builder loaded from a layout that declares a handle's identifier with a
/// class deriving from the handle's class hands out that handle, referring to
/// the widget created from the declaration.
pub proof fn lemma_declared_handle_resolves<T: Widget>(
    b: &Builder,
    decls: Seq<DeclView>,
    base: nat,
    i: int,
)
    requires
        b@ == entries_of(decls, base),
        layout_wf(decls),
        base + decls.len() <= usize::MAX,
        0 <= i < decls.len(),
        decls[i].id == T::spec_id(),
        derives_from(decls[i].kind, T::spec_kind()),
    ensures
        b.resolves(T::spec_id(), T::spec_kind()) == Ok::<WidgetRef, FailureView>(
            WidgetRef { index: (base + i) as usize },
        ),
{
    lemma_declared_widget_resolves(decls, base, i, T::spec_kind());
}

/// An identifier that a layout does not declare fails to resolve, with a
/// failure that names it.
pub proof fn lemma_undeclared_widget_fails(decls: Seq<DeclView>, base: nat, id: Seq<char>, kind: WidgetKind)
    requires
        !declares(decls, id),
    ensures
        resolution(entries_of(decls, base), id, kind) == Err::<WidgetRef, FailureView>(
            FailureView::Missing { id },
        ),
{
    let s = entries_of(decls, base);
    assert forall|k: int| !first_with_id(s, id, k) by {
        if 0 <= k < s.len() && s[k].id == id {
            assert(decls[k].id == id);
        }
    }
}

/// A declared widget requested as a class that its own class does not derive
/// from fails to resolve, with a failure that names it and both classes.
pub proof fn lemma_mismatched_widget_fails(decls: Seq<DeclView>, base: nat, i: int, kind: WidgetKind)
    requires
        layout_wf(decls),
        0 <= i < decls.len(),
        !derives_from(decls[i].kind, kind),
    ensures
        resolution(entries_of(decls, base), decls[i].id, kind) == Err::<WidgetRef, FailureView>(
            FailureView::WrongKind { id: decls[i].id, expected: kind, found: decls[i].kind },
        ),
{
    let s = entries_of(decls, base);
    let id = decls[i].id;
    assert(first_with_id(s, id, i));
    let k = choose|k: int| #[trigger] first_with_id(s, id, k);
    assert(k == i) by {
        if k != i {
            assert(decls[k].id != decls[i].id);
        }
    }
}

} // verus!
