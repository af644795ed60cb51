use wallet_widgets::builder::{Builder, ResolutionFailure, WidgetRef};
use wallet_widgets::kind::WidgetKind;
use wallet_widgets::layout::{Layout, LayoutError};
use wallet_widgets::registry::{
    AccountEntryTemplate, AccountList, GetObject, MainWindow, ReceiveArea, ReceiveButton, SendArea,
    SendButton, Widget,
};
use wallet_widgets::ui::Ui;

fn app_layout() -> Layout {
    let mut l = Layout::new();
    l.declare("MainWindow", WidgetKind::ApplicationWindow, None, false).unwrap();
    l.declare("MainGrid", WidgetKind::Grid, Some("MainWindow"), true).unwrap();
    l.declare("SendButton", WidgetKind::Button, Some("MainGrid"), true).unwrap();
    l.declare("ReceiveButton", WidgetKind::Button, Some("MainGrid"), true).unwrap();
    l.declare("AccountList", WidgetKind::ListBox, Some("MainGrid"), true).unwrap();
    l.declare("SendArea", WidgetKind::Popover, None, false).unwrap();
    l.declare("ReceiveArea", WidgetKind::Popover, None, false).unwrap();
    l
}

fn account_layout() -> Layout {
    let mut l = Layout::new();
    l.declare("AccountWindow", WidgetKind::Window, None, false).unwrap();
    l.declare("AccountEntryTemplate", WidgetKind::Grid, Some("AccountWindow"), true).unwrap();
    l.declare("AccountName", WidgetKind::Label, Some("AccountEntryTemplate"), true).unwrap();
    l
}

fn loaded(layout: &Layout) -> (Ui, Builder) {
    let mut ui = Ui::new();
    let b = ui.load(layout);
    (ui, b)
}

#[test]
fn every_declared_handle_resolves_under_its_own_identifier() {
    let (ui, b) = loaded(&app_layout());
    let w = b.make_object::<MainWindow>().unwrap();
    assert_eq!(w.0, WidgetRef { index: 0 });
    assert_eq!(b.make_object::<SendButton>().unwrap().0, WidgetRef { index: 2 });
    assert_eq!(b.make_object::<ReceiveButton>().unwrap().0, WidgetRef { index: 3 });
    assert_eq!(b.make_object::<AccountList>().unwrap().0, WidgetRef { index: 4 });
    assert_eq!(b.make_object::<SendArea>().unwrap().0, WidgetRef { index: 5 });
    assert_eq!(b.make_object::<ReceiveArea>().unwrap().inner(), WidgetRef { index: 6 });
    assert_eq!(ui.node(w.0).kind, WidgetKind::ApplicationWindow);
    assert_eq!(MainWindow::id(), "MainWindow");
    assert_eq!(SendArea::id(), "SendArea");
    assert_eq!(AccountEntryTemplate::kind(), WidgetKind::Grid);
}

#[test]
fn undeclared_identifier_is_reported_missing() {
    let (_ui, b) = loaded(&account_layout());
    match b.make_object::<SendButton>() {
        Err(ResolutionFailure::Missing { id }) => assert_eq!(id, "SendButton"),
        other => panic!("unexpected {:?}", other.map(|h| h.0)),
    }
}

#[test]
fn incompatible_kind_is_reported() {
    let (_ui, b) = loaded(&app_layout());
    match b.resolve("SendArea", WidgetKind::Button) {
        Err(ResolutionFailure::WrongKind { id, expected, found }) => {
            assert_eq!(id, "SendArea");
            assert_eq!(expected, WidgetKind::Button);
            assert_eq!(found, WidgetKind::Popover);
        }
        other => panic!("unexpected {:?}", other),
    }
    let e = b.resolve("MainGrid", WidgetKind::ListBox).unwrap_err();
    assert_eq!(e.identifier(), "MainGrid");
}

#[test]
fn a_plain_window_is_not_an_application_window() {
    let mut l = Layout::new();
    l.declare("MainWindow", WidgetKind::Window, None, false).unwrap();
    let (_ui, b) = loaded(&l);
    let e = b.make_object::<MainWindow>().unwrap_err();
    assert_eq!(e.identifier(), "MainWindow");
    assert!(matches!(e, ResolutionFailure::WrongKind { .. }));
}

#[test]
fn resolution_accepts_superclasses() {
    let (_ui, b) = loaded(&app_layout());
    assert_eq!(b.resolve("MainWindow", WidgetKind::Window).unwrap(), WidgetRef { index: 0 });
    assert_eq!(b.resolve("MainWindow", WidgetKind::Container).unwrap(), WidgetRef { index: 0 });
    assert_eq!(b.resolve("SendButton", WidgetKind::Bin).unwrap(), WidgetRef { index: 2 });
    assert_eq!(b.resolve("AccountList", WidgetKind::Widget).unwrap(), WidgetRef { index: 4 });
    assert!(b.resolve("AccountList", WidgetKind::Bin).is_err());
}

#[test]
fn class_tree() {
    assert!(WidgetKind::ApplicationWindow.is_a(WidgetKind::Window));
    assert!(WidgetKind::ApplicationWindow.is_a(WidgetKind::Widget));
    assert!(!WidgetKind::Window.is_a(WidgetKind::ApplicationWindow));
    assert!(!WidgetKind::Label.is_a(WidgetKind::Container));
    assert!(WidgetKind::Grid.is_container());
    assert!(!WidgetKind::Label.is_container());
    assert_eq!(WidgetKind::Popover.superclass(), Some(WidgetKind::Bin));
    assert_eq!(WidgetKind::Widget.superclass(), None);
}

#[test]
fn click_opens_the_connected_popover() {
    let (mut ui, b) = loaded(&app_layout());
    let _window = b.make_object::<MainWindow>().unwrap();
    let button = b.make_object::<SendButton>().unwrap();
    let area = b.make_object::<SendArea>().unwrap();
    ui.connect_clicked(button.0, area.0);
    assert!(!ui.is_visible(area.0));
    assert_eq!(ui.click(button.0), Some(area.0));
    assert!(ui.is_visible(area.0));
    let receive = b.make_object::<ReceiveArea>().unwrap();
    assert!(!ui.is_visible(receive.0));
}

#[test]
fn click_without_handler_changes_nothing() {
    let (mut ui, b) = loaded(&app_layout());
    let button = b.make_object::<ReceiveButton>().unwrap();
    let area = b.make_object::<ReceiveArea>().unwrap();
    assert_eq!(ui.click(button.0), None);
    assert!(!ui.is_visible(area.0));
}

#[test]
fn omitted_receive_button_is_named_in_the_failure() {
    let mut l = Layout::new();
    l.declare("MainWindow", WidgetKind::ApplicationWindow, None, false).unwrap();
    l.declare("SendButton", WidgetKind::Button, Some("MainWindow"), true).unwrap();
    let (_ui, b) = loaded(&l);
    let e = b.make_object::<ReceiveButton>().unwrap_err();
    assert_eq!(e.identifier(), "ReceiveButton");
    assert!(matches!(e, ResolutionFailure::Missing { .. }));
}

#[test]
fn template_from_second_layout_joins_the_account_list() {
    let mut ui = Ui::new();
    let app = ui.load(&app_layout());
    let accounts = ui.load(&account_layout());
    let list = app.make_object::<AccountList>().unwrap();
    let template = accounts.make_object::<AccountEntryTemplate>().unwrap();
    assert_eq!(template.0, WidgetRef { index: 8 });
    assert_eq!(ui.child_count(list.0), 0);
    assert_eq!(ui.child_count(WidgetRef { index: 7 }), 1);
    ui.unparent(template.0);
    assert_eq!(ui.child_count(WidgetRef { index: 7 }), 0);
    let row = ui.insert(list.0, template.0);
    assert_eq!(ui.child_count(list.0), 1);
    assert_eq!(row, WidgetRef { index: 10 });
    assert_eq!(ui.node(row).kind, WidgetKind::ListBoxRow);
    assert!(ui.node(row).visible);
    assert_eq!(ui.node(template.0).parent, Some(10));
    assert_eq!(ui.child_count(row), 1);
    assert_eq!(ui.child_count(template.0), 1);
}

#[test]
fn a_row_is_inserted_as_it_is() {
    let mut l = Layout::new();
    l.declare("List", WidgetKind::ListBox, None, true).unwrap();
    l.declare("Row", WidgetKind::ListBoxRow, None, false).unwrap();
    let (mut ui, b) = loaded(&l);
    let list = b.resolve("List", WidgetKind::ListBox).unwrap();
    let row = b.resolve("Row", WidgetKind::ListBoxRow).unwrap();
    assert_eq!(ui.insert(list, row), row);
    assert_eq!(ui.len(), 2);
    assert_eq!(ui.child_count(list), 1);
    assert_eq!(ui.node(row).parent, Some(0));
}

#[test]
fn second_layout_is_placed_after_the_first() {
    let mut ui = Ui::new();
    let first = ui.load(&app_layout());
    let second = ui.load(&account_layout());
    assert_eq!(first.len(), 7);
    assert_eq!(second.len(), 3);
    assert_eq!(ui.len(), 10);
    assert_eq!(ui.node(WidgetRef { index: 9 }).parent, Some(8));
    assert_eq!(ui.node(WidgetRef { index: 2 }).parent, Some(1));
    assert!(!ui.holds(WidgetRef { index: 10 }));
}

#[test]
fn popup_shows_a_widget() {
    let (mut ui, b) = loaded(&app_layout());
    let w = b.make_object::<MainWindow>().unwrap();
    assert!(!ui.is_visible(w.0));
    ui.popup(w.0);
    assert!(ui.is_visible(w.0));
}

#[test]
fn duplicate_identifier_is_refused() {
    let mut l = app_layout();
    match l.declare("SendButton", WidgetKind::Label, None, true) {
        Err(LayoutError::DuplicateId { id }) => assert_eq!(id, "SendButton"),
        other => panic!("unexpected {:?}", other),
    }
    assert_eq!(l.len(), 7);
}

#[test]
fn unknown_parent_is_refused() {
    let mut l = Layout::new();
    match l.declare("Child", WidgetKind::Label, Some("Nowhere"), true) {
        Err(LayoutError::UnknownParent { parent }) => assert_eq!(parent, "Nowhere"),
        other => panic!("unexpected {:?}", other),
    }
    assert_eq!(l.len(), 0);
}

#[test]
fn parent_that_is_not_a_container_is_refused() {
    let mut l = Layout::new();
    l.declare("Caption", WidgetKind::Label, None, true).unwrap();
    match l.declare("Child", WidgetKind::Label, Some("Caption"), true) {
        Err(LayoutError::ParentNotContainer { parent }) => assert_eq!(parent, "Caption"),
        other => panic!("unexpected {:?}", other),
    }
    assert_eq!(l.declare("Other", WidgetKind::Grid, None, true).unwrap(), 1);
    assert_eq!(l.position(&"Other".to_string()), Some(1));
    assert_eq!(l.decl(1).kind, WidgetKind::Grid);
}

#[test]
fn empty_layout_resolves_nothing() {
    let (ui, b) = loaded(&Layout::new());
    assert_eq!(ui.len(), 0);
    assert_eq!(b.len(), 0);
    assert!(matches!(b.make_object::<AccountList>(), Err(ResolutionFailure::Missing { .. })));
}
