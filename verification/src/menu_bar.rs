//! The application's menu bar and its quick-connect dialog, as plain
//! descriptions, and what happens when an item is chosen.
//!
//! The bar holds an application menu, a "Connections" menu and a "View" menu.
//! "Connections" starts with an item that opens the quick-connect dialog; below
//! a separator stand the saved connections.

use crate::connections::Connection;
use crate::messages;
use crate::messages::{send, Channels, CompositorMessage, Sender};
use vstd::prelude::*;

verus! {

/// The tabbing mode of a window that takes no part in tabbing.
pub const TABBING_DISALLOWED: isize = 2;

/// What choosing a menu item does.
#[derive(Clone, Copy, Debug, PartialEq, Eq, Structural)]
pub enum MenuAction {
    /// Quit the application.
    Terminate,
    /// Open the quick-connect dialog.
    QuickConnect,
    /// Connect to the saved machine whose index is the item's tag.
    ConnectMachine,
    /// Switch the display mode.
    ToggleHiDpi,
}

/// One item of a menu.
#[derive(Debug)]
pub struct MenuItem {
    pub title: String,
    /// A label has no action.
    pub action: Option<MenuAction>,
    /// The keyboard shortcut, empty where there is none.
    pub key: String,
    /// Whether the action goes to the [`MenuHandler`] rather than to the
    /// application.
    pub handled: bool,
    pub tag: isize,
    /// 1 for an item with a check mark, 0 for one without.
    pub state: isize,
    pub enabled: bool,
    pub separator: bool,
}

/// The mathematical model of a [`MenuItem`].
pub struct MenuItemView {
    pub title: Seq<char>,
    pub action: Option<MenuAction>,
    pub key: Seq<char>,
    pub handled: bool,
    pub tag: isize,
    pub state: isize,
    pub enabled: bool,
    pub separator: bool,
}

impl View for MenuItem {
    type V = MenuItemView;

    open spec fn view(&self) -> MenuItemView {
        MenuItemView {
            title: self.title@,
            action: self.action,
            key: self.key@,
            handled: self.handled,
            tag: self.tag,
            state: self.state,
            enabled: self.enabled,
            separator: self.separator,
        }
    }
}

/// A menu: an entry of the bar with the items that drop down from it.
#[derive(Debug)]
pub struct Menu {
    /// The entry in the bar.
    pub entry: MenuItem,
    /// The title of the menu itself.
    pub title: String,
    pub items: Vec<MenuItem>,
}

/// The mathematical model of a [`Menu`].
pub struct MenuView {
    pub entry: MenuItemView,
    pub title: Seq<char>,
    pub items: Seq<MenuItemView>,
}

/// The models of the items of a menu, in order.
pub open spec fn item_views(items: Seq<MenuItem>) -> Seq<MenuItemView> {
    items.map_values(|item: MenuItem| item@)
}

impl View for Menu {
    type V = MenuView;

    open spec fn view(&self) -> MenuView {
        MenuView { entry: self.entry@, title: self.title@, items: item_views(self.items@) }
    }
}

/// The models of the menus of a bar, from left to right.
pub open spec fn menu_views(menus: Seq<Menu>) -> Seq<MenuView> {
    menus.map_values(|menu: Menu| menu@)
}

/// An item with a title that does nothing.
pub open spec fn label_view(title: Seq<char>) -> MenuItemView {
    MenuItemView {
        title,
        action: None,
        key: ""@,
        handled: false,
        tag: 0,
        state: 0,
        enabled: true,
        separator: false,
    }
}

/// An item with an action and a shortcut.
pub open spec fn action_view(title: Seq<char>, action: MenuAction, key: Seq<char>) -> MenuItemView {
    MenuItemView {
        action: Some(action),
        key,
        handled: action != MenuAction::Terminate,
        ..label_view(title)
    }
}

/// The line between two groups of items.
pub open spec fn separator_view() -> MenuItemView {
    MenuItemView { separator: true, ..label_view(""@) }
}

/// The tag of the item for the saved connection at index `i`.
pub open spec fn connection_tag(i: int) -> isize {
    (i as usize) as isize
}

/// The item for the saved connection at index `i`.
pub open spec fn connection_view(name: Seq<char>, i: int) -> MenuItemView {
    MenuItemView {
        tag: connection_tag(i),
        ..action_view(name, MenuAction::ConnectMachine, ""@)
    }
}

/// The part of "Connections" below the separator: one item for each saved
/// connection or, where there is none, a disabled hint.
pub open spec fn saved_views(connections: Seq<Connection>) -> Seq<MenuItemView> {
    if connections.len() == 0 {
        seq![
            MenuItemView {
                enabled: false,
                ..label_view("No saved connections — use 'Connect to Machine…'"@)
            },
        ]
    } else {
        Seq::new(connections.len(), |i: int| connection_view(connections[i]@.name, i))
    }
}

/// The application menu.
pub open spec fn app_menu_view() -> MenuView {
    MenuView {
        entry: label_view("Cocoa-Way"@),
        title: "Cocoa-Way"@,
        items: seq![action_view("Quit Cocoa-Way"@, MenuAction::Terminate, "q"@)],
    }
}

/// The "Connections" menu.
pub open spec fn connections_menu_view(connections: Seq<Connection>) -> MenuView {
    MenuView {
        entry: label_view("Connections"@),
        title: "Connections"@,
        items: seq![
            action_view("Connect to Machine…"@, MenuAction::QuickConnect, "n"@),
            separator_view(),
        ] + saved_views(connections),
    }
}

/// The "View" menu. The display starts in normal mode, so its item is
/// unchecked.
pub open spec fn view_menu_view() -> MenuView {
    MenuView {
        entry: label_view("View"@),
        title: "View"@,
        items: seq![action_view("HiDPI Display"@, MenuAction::ToggleHiDpi, ""@)],
    }
}

/// The whole menu bar.
pub open spec fn menu_bar_view(connections: Seq<Connection>) -> Seq<MenuView> {
    seq![app_menu_view(), connections_menu_view(connections), view_menu_view()]
}

/// An item that only shows its title.
pub fn label_item(title: &str) -> (item: MenuItem)
    ensures
        item@ == label_view(title@),
{
    MenuItem {
        title: title.to_owned(),
        action: None,
        key: "".to_owned(),
        handled: false,
        tag: 0,
        state: 0,
        enabled: true,
        separator: false,
    }
}

/// An item that carries out `action` when it is chosen or `key` is pressed.
pub fn action_item(title: &str, action: MenuAction, key: &str) -> (item: MenuItem)
    ensures
        item@ == action_view(title@, action, key@),
{
    let mut item = label_item(title);
    item.action = Some(action);
    item.key = key.to_owned();
    item.handled = action != MenuAction::Terminate;
    item
}

/// The items for the saved connections.
fn saved_items(connections: &[Connection]) -> (items: Vec<MenuItem>)
    ensures
        item_views(items@) == saved_views(connections@),
{
    let mut items: Vec<MenuItem> = Vec::new();
    if connections.len() == 0 {
        let mut hint = label_item("No saved connections — use 'Connect to Machine…'");
        hint.enabled = false;
        items.push(hint);
        assert(item_views(items@) =~= saved_views(connections@));
        return items;
    }
    let mut i: usize = 0;
    while i < connections.len()
        invariant
            i <= connections@.len(),
            items@.len() == i,
            forall|j: int|
                0 <= j < i ==> (#[trigger] items@[j])@ == connection_view(
                    connections@[j]@.name,
                    j,
                ),
        decreases connections@.len() - i,
    {
        let mut item = action_item(connections[i].name.as_str(), MenuAction::ConnectMachine, "");
        item.tag = i as isize;
        items.push(item);
        i = i + 1;
    }
    assert(item_views(items@) =~= saved_views(connections@));
    items
}

/// Describes the menu bar for the given saved connections and puts `sender` in
/// the menu bar's slot, so that what its items send goes through that sender. A
/// sender that was in the slot before is given back. Nothing is sent.
pub fn setup_menu(
    connections: &[Connection],
    channels: &mut Channels,
    slot: &mut Option<Sender>,
    sender: Sender,
) -> (menus: Vec<Menu>)
    ensures
        menu_views(menus@) == menu_bar_view(connections@),
        *final(slot) == Some(sender),
        final(channels)@ == old(channels)@.slot_refilled(*old(slot)),
{
    match slot.take() {
        Some(replaced) => channels.close(replaced),
        None => {},
    }
    *slot = Some(sender);

    let mut app_items: Vec<MenuItem> = Vec::new();
    app_items.push(action_item("Quit Cocoa-Way", MenuAction::Terminate, "q"));
    let app_menu = Menu {
        entry: label_item("Cocoa-Way"),
        title: "Cocoa-Way".to_owned(),
        items: app_items,
    };
    assert(app_menu@.items =~= app_menu_view().items);

    let mut conn_items: Vec<MenuItem> = Vec::new();
    conn_items.push(action_item("Connect to Machine…", MenuAction::QuickConnect, "n"));
    let mut line = label_item("");
    line.separator = true;
    conn_items.push(line);
    let mut saved = saved_items(connections);
    let ghost saved_before = saved@;
    let ghost head = conn_items@;
    conn_items.append(&mut saved);
    let conn_menu = Menu {
        entry: label_item("Connections"),
        title: "Connections".to_owned(),
        items: conn_items,
    };
    assert(conn_menu@.items =~= item_views(head) + item_views(saved_before));
    assert(conn_menu@.items =~= connections_menu_view(connections@).items);

    let mut view_items: Vec<MenuItem> = Vec::new();
    view_items.push(action_item("HiDPI Display", MenuAction::ToggleHiDpi, ""));
    let view_menu = Menu {
        entry: label_item("View"),
        title: "View".to_owned(),
        items: view_items,
    };
    assert(view_menu@.items =~= view_menu_view().items);

    let mut menus: Vec<Menu> = Vec::new();
    menus.push(app_menu);
    menus.push(conn_menu);
    menus.push(view_menu);
    assert(menu_views(menus@) =~= menu_bar_view(connections@));
    menus
}

/// The tabbing mode to give to the window at an address. There is none to give
/// where the address is null.
pub fn disable_window_tabbing(ns_window: usize) -> (mode: Option<isize>)
    ensures
        mode == (if ns_window == 0 {
            None
        } else {
            Some(TABBING_DISALLOWED)
        }),
{
    if ns_window == 0 {
        None
    } else {
        Some(TABBING_DISALLOWED)
    }
}

/// The state of a check mark after the item was chosen.
pub open spec fn flipped(state: isize) -> isize {
    if state == 1 {
        0
    } else {
        1
    }
}

/// The state of a check mark after the item was chosen `n` times.
pub open spec fn flipped_times(state: isize, n: nat) -> isize
    decreases n,
{
    if n == 0 {
        state
    } else {
        flipped(flipped_times(state, (n - 1) as nat))
    }
}

/// The message that choosing an item with this tag sends.
pub open spec fn connect_message(tag: isize) -> CompositorMessage {
    CompositorMessage::Connect(tag as usize)
}

/// Receives the actions of the menu items.
#[derive(Debug)]
pub struct MenuHandler;

impl MenuHandler {
    /// "Connect to Machine…" was chosen: the dialog to show.
    pub fn quick_connect(&self) -> (dialog: Dialog)
        ensures
            dialog@ == quick_connect_dialog_view(),
    {
        quick_connect_dialog()
    }

    /// A saved connection was chosen.
    pub fn connect_machine(&self, channels: &mut Channels, slot: Option<&Option<Sender>>, tag: isize)
        ensures
            final(channels)@ == old(channels)@.sent(
                messages::seen_in(slot),
                connect_message(tag),
            ),
    {
        send(channels, slot, CompositorMessage::Connect(tag as usize));
    }

    /// "HiDPI Display" was chosen while its check mark was in `state`: asks the
    /// event loop to switch and returns the new state of the check mark.
    pub fn toggle_hidpi(
        &self,
        channels: &mut Channels,
        slot: Option<&Option<Sender>>,
        state: isize,
    ) -> (next: isize)
        ensures
            next == flipped(state),
            final(channels)@ == old(channels)@.sent(
                messages::seen_in(slot),
                CompositorMessage::ToggleHiDpi,
            ),
    {
        let next: isize = if state == 1 {
            0
        } else {
            1
        };
        send(channels, slot, CompositorMessage::ToggleHiDpi);
        next
    }
}

/// A text field of a dialog. Its origin is its lower left corner, and `y` grows
/// upward.
#[derive(Debug)]
pub struct DialogField {
    pub x: i32,
    pub y: i32,
    pub width: i32,
    pub height: i32,
    /// What the field shows while it is empty.
    pub placeholder: String,
    /// Whether what is typed is masked.
    pub secure: bool,
}

/// The mathematical model of a [`DialogField`].
pub struct DialogFieldView {
    pub x: i32,
    pub y: i32,
    pub width: i32,
    pub height: i32,
    pub placeholder: Seq<char>,
    pub secure: bool,
}

impl View for DialogField {
    type V = DialogFieldView;

    open spec fn view(&self) -> DialogFieldView {
        DialogFieldView {
            x: self.x,
            y: self.y,
            width: self.width,
            height: self.height,
            placeholder: self.placeholder@,
            secure: self.secure,
        }
    }
}

/// A modal dialog with text fields and two buttons.
#[derive(Debug)]
pub struct Dialog {
    pub message: String,
    pub informative: String,
    /// The size of the view that holds the fields.
    pub width: i32,
    pub height: i32,
    pub host: DialogField,
    pub password: DialogField,
    pub app: DialogField,
    pub confirm: String,
    pub cancel: String,
}

/// The mathematical model of a [`Dialog`].
pub struct DialogView {
    pub message: Seq<char>,
    pub informative: Seq<char>,
    pub width: i32,
    pub height: i32,
    pub host: DialogFieldView,
    pub password: DialogFieldView,
    pub app: DialogFieldView,
    pub confirm: Seq<char>,
    pub cancel: Seq<char>,
}

impl View for Dialog {
    type V = DialogView;

    open spec fn view(&self) -> DialogView {
        DialogView {
            message: self.message@,
            informative: self.informative@,
            width: self.width,
            height: self.height,
            host: self.host@,
            password: self.password@,
            app: self.app@,
            confirm: self.confirm@,
            cancel: self.cancel@,
        }
    }
}

/// A field that fills a row of the quick-connect dialog.
pub open spec fn row_view(y: i32, placeholder: Seq<char>, secure: bool) -> DialogFieldView {
    DialogFieldView { x: 0, y, width: 300, height: 28, placeholder, secure }
}

/// The quick-connect dialog: from top to bottom it asks for the host, the
/// password and the application.
pub open spec fn quick_connect_dialog_view() -> DialogView {
    DialogView {
        message: "Connect to Remote Machine"@,
        informative: "Enter the SSH host and the Wayland app to launch."@,
        width: 300,
        height: 116,
        host: row_view(80, "user@hostname-or-IP"@, false),
        password: row_view(44, "Password (leave blank to use SSH key)"@, true),
        app: row_view(8, "App to launch (e.g. weston-terminal)"@, false),
        confirm: "Connect"@,
        cancel: "Cancel"@,
    }
}

/// A field that fills a row of the quick-connect dialog.
fn row(y: i32, placeholder: &str, secure: bool) -> (field: DialogField)
    ensures
        field@ == row_view(y, placeholder@, secure),
{
    DialogField { x: 0, y, width: 300, height: 28, placeholder: placeholder.to_owned(), secure }
}

/// Whether a field lies inside the view of its dialog.
pub open spec fn inside(field: DialogFieldView, dialog: DialogView) -> bool {
    &&& 0 <= field.x && field.x + field.width <= dialog.width
    &&& 0 <= field.y && field.y + field.height <= dialog.height
}

/// Whether the fields of a dialog lie inside its view without overlap, the host
/// above the password and that above the application, and only the password is
/// masked.
pub open spec fn well_laid_out(dialog: DialogView) -> bool {
    &&& inside(dialog.host, dialog)
    &&& inside(dialog.password, dialog)
    &&& inside(dialog.app, dialog)
    &&& dialog.app.y + dialog.app.height <= dialog.password.y
    &&& dialog.password.y + dialog.password.height <= dialog.host.y
    &&& dialog.password.secure
    &&& !dialog.host.secure
    &&& !dialog.app.secure
}

/// Describes the quick-connect dialog.
pub fn quick_connect_dialog() -> (dialog: Dialog)
    ensures
        dialog@ == quick_connect_dialog_view(),
        well_laid_out(dialog@),
{
    Dialog {
        message: "Connect to Remote Machine".to_owned(),
        informative: "Enter the SSH host and the Wayland app to launch.".to_owned(),
        width: 300,
        height: 116,
        host: row(80, "user@hostname-or-IP", false),
        password: row(44, "Password (leave blank to use SSH key)", true),
        app: row(8, "App to launch (e.g. weston-terminal)", false),
        confirm: "Connect".to_owned(),
        cancel: "Cancel".to_owned(),
    }
}

/// A tag carries any index: choosing the item for the connection at index `i`
/// asks for the connection at index `i`.
pub proof fn law_item_asks_for_its_connection(connections: Seq<Connection>, i: usize)
    requires
        i < connections.len(),
    ensures
        ({
            let item = connections_menu_view(connections).items[2 + i];
            &&& item.title == connections[i as int]@.name
            &&& item.action == Some(MenuAction::ConnectMachine)
            &&& item.enabled
            &&& connect_message(item.tag) == CompositorMessage::Connect(i)
        }),
{
    assert((i as isize) as usize == i) by (bit_vector);
    assert(connections_menu_view(connections).items[2 + i] == saved_views(connections)[i as int]);
}

/// "Connections" always offers the quick-connect dialog, and holds no item that
/// connects to a saved machine beyond one for each saved connection.
pub proof fn law_connections_menu_is_complete(connections: Seq<Connection>)
    ensures
        ({
            let items = connections_menu_view(connections).items;
            &&& items[0].action == Some(MenuAction::QuickConnect)
            &&& items[0].enabled
            &&& items[1].separator && items[1].action is None
            &&& connections.len() > 0 ==> items.len() == 2 + connections.len()
            &&& connections.len() == 0 ==> items.len() == 3 && !items[2].enabled
                && items[2].action is None
        }),
{
}

/// Every choice flips the check mark: after an even number of choices it is
/// back where it was, after an odd number it is not.
pub proof fn law_check_mark_alternates(state: isize, n: nat)
    requires
        state == 0 || state == 1,
    ensures
        flipped_times(state, n) == (if n % 2 == 0 {
            state
        } else {
            flipped(state)
        }),
    decreases n,
{
    if n > 0 {
        law_check_mark_alternates(state, (n - 1) as nat);
    }
}

/// The model of an item shows every field as it is.
pub proof fn law_model_of_an_item(item: MenuItem)
    ensures
        item@.title == item.title@,
        item@.action == item.action,
        item@.key == item.key@,
        item@.handled == item.handled,
        item@.tag == item.tag,
        item@.state == item.state,
        item@.enabled == item.enabled,
        item@.separator == item.separator,
{
}

/// The model of a menu shows its entry, its title and each item in its place.
pub proof fn law_model_of_a_menu(menu: Menu, i: int)
    ensures
        menu@.entry == menu.entry@,
        menu@.title == menu.title@,
        menu@.items.len() == menu.items@.len(),
        0 <= i < menu.items@.len() ==> menu@.items[i] == menu.items@[i]@,
{
}

/// The models of items and of menus stand in the order of what they model.
pub proof fn law_models_in_order(items: Seq<MenuItem>, menus: Seq<Menu>, i: int)
    ensures
        item_views(items).len() == items.len(),
        menu_views(menus).len() == menus.len(),
        0 <= i < items.len() ==> item_views(items)[i] == items[i]@,
        0 <= i < menus.len() ==> menu_views(menus)[i] == menus[i]@,
{
}

/// The model of a dialog shows every field as it is.
pub proof fn law_model_of_a_dialog(dialog: Dialog, field: DialogField)
    ensures
        dialog@.message == dialog.message@,
        dialog@.informative == dialog.informative@,
        dialog@.width == dialog.width,
        dialog@.height == dialog.height,
        dialog@.host == dialog.host@,
        dialog@.password == dialog.password@,
        dialog@.app == dialog.app@,
        dialog@.confirm == dialog.confirm@,
        dialog@.cancel == dialog.cancel@,
        field@.x == field.x,
        field@.y == field.y,
        field@.width == field.width,
        field@.height == field.height,
        field@.placeholder == field.placeholder@,
        field@.secure == field.secure,
{
}

/// A label shows its title and does nothing, yet is not greyed out.
pub proof fn law_labels_do_nothing(title: Seq<char>)
    ensures
        label_view(title).title == title,
        label_view(title).action is None,
        label_view(title).key == ""@,
        !label_view(title).handled,
        label_view(title).tag == 0,
        label_view(title).state == 0,
        label_view(title).enabled,
        !label_view(title).separator,
{
}

/// An item with an action shows its title, carries its action and its shortcut,
/// and goes to the handler unless it quits the application.
pub proof fn law_actions_go_to_the_handler(title: Seq<char>, action: MenuAction, key: Seq<char>)
    ensures
        action_view(title, action, key).title == title,
        action_view(title, action, key).action == Some(action),
        action_view(title, action, key).key == key,
        action_view(title, action, key).handled <==> !(action is Terminate),
        action_view(title, action, key).tag == 0,
        action_view(title, action, key).state == 0,
        action_view(title, action, key).enabled,
        !action_view(title, action, key).separator,
{
}

/// The bar holds three menus, whatever is saved: the application's, with a way to
/// quit, "Connections", and "View", with the unchecked switch of the display mode.
pub proof fn law_bar_holds_three_menus(connections: Seq<Connection>)
    ensures
        ({
            let bar = menu_bar_view(connections);
            let quit = bar[0].items[0];
            let hidpi = bar[2].items[0];
            &&& bar.len() == 3
            &&& bar[0].entry.title == "Cocoa-Way"@ && bar[0].title == "Cocoa-Way"@
            &&& bar[1].entry.title == "Connections"@ && bar[1].title == "Connections"@
            &&& bar[2].entry.title == "View"@ && bar[2].title == "View"@
            &&& bar[0].entry.enabled && bar[1].entry.enabled && bar[2].entry.enabled
            &&& bar[0].entry.action is None && bar[1].entry.action is None
            &&& bar[2].entry.action is None
            &&& bar[1] == connections_menu_view(connections)
            &&& bar[0].items.len() == 1 && bar[2].items.len() == 1
            &&& quit.title == "Quit Cocoa-Way"@ && quit.key == "q"@
            &&& quit.action == Some(MenuAction::Terminate) && !quit.handled && quit.enabled
            &&& hidpi.title == "HiDPI Display"@ && hidpi.key == ""@
            &&& hidpi.action == Some(MenuAction::ToggleHiDpi) && hidpi.handled && hidpi.enabled
            &&& hidpi.state == 0
        }),
{
}

/// Below the way to the dialog and a separator, "Connections" holds each saved
/// connection once, in the order of the list, under its name and ready to be
/// chosen, with its index as the tag; if there is none, it holds a hint that
/// cannot be chosen.
pub proof fn law_each_connection_has_its_item(connections: Seq<Connection>, i: int)
    ensures
        ({
            let items = connections_menu_view(connections).items;
            &&& items[0].title == "Connect to Machine…"@ && items[0].key == "n"@
            &&& items[0].action == Some(MenuAction::QuickConnect)
            &&& items[0].handled && items[0].enabled && !items[0].separator
            &&& items[0].tag == 0 && items[0].state == 0
            &&& items[1].separator && items[1].action is None && !items[1].handled
            &&& items[1].title == ""@ && items[1].key == ""@ && items[1].enabled
            &&& connections.len() == 0 ==> {
                &&& items.len() == 3
                &&& items[2].title == "No saved connections — use 'Connect to Machine…'"@
                &&& !items[2].enabled && items[2].action is None && !items[2].separator
            }
            &&& connections.len() > 0 ==> items.len() == connections.len() + 2
            &&& 0 <= i < connections.len() ==> {
                &&& items[i + 2].title == connections[i].name@
                &&& items[i + 2].action == Some(MenuAction::ConnectMachine)
                &&& items[i + 2].handled && items[i + 2].enabled && !items[i + 2].separator
                &&& items[i + 2].key == ""@ && items[i + 2].state == 0
                &&& i <= isize::MAX ==> items[i + 2].tag == i
            }
        }),
{
    if 0 <= i < connections.len() {
        assert(connections_menu_view(connections).items[i + 2] == saved_views(connections)[i]);
    }
}

/// The message of an item names the index that its tag is: the two determine each
/// other.
pub proof fn law_message_names_the_tag(tag: isize)
    ensures
        connect_message(tag) matches CompositorMessage::Connect(i) && i as isize == tag,
        tag >= 0 ==> connect_message(tag) == CompositorMessage::Connect(tag as usize),
{
    assert((tag as usize) as isize == tag) by (bit_vector);
}

/// A check mark goes away when it was there and appears in any other state.
pub proof fn law_check_mark_flips(state: isize)
    ensures
        flipped(state) == 0 <==> state == 1,
        flipped(state) == 1 <==> state != 1,
{
}

} // verus!
