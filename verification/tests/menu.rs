use cocoa_way::connections::{
    launch, launch_saved, quick_connect, split_target, Connection, FIRST_BUTTON,
};
use cocoa_way::menu_bar::{
    action_item, disable_window_tabbing, label_item, quick_connect_dialog, setup_menu, MenuAction,
    MenuHandler,
};
use cocoa_way::messages::{send, Channels, CompositorMessage, ReceiveError};

fn saved(name: &str) -> Connection {
    Connection {
        name: name.to_string(),
        conn_type: "ssh".to_string(),
        host: Some(name.to_string()),
        user: None,
        port: Some(22),
        identity: None,
        socket: None,
        app: None,
        password: None,
        waypipe_path: None,
    }
}

#[test]
fn send_through_an_empty_slot_is_lost() {
    let mut channels = Channels::new();
    let (_sender, receiver) = channels.open();
    send(&mut channels, Some(&None), CompositorMessage::ToggleHiDpi);
    assert_eq!(channels.receive(&receiver), Err(ReceiveError::Empty));
}

#[test]
fn send_keeps_the_order() {
    let mut channels = Channels::new();
    let (client, receiver) = channels.open();
    let slot = channels.duplicate(&client);
    send(&mut channels, Some(&slot), CompositorMessage::Connect(3));
    assert_eq!(channels.post(&client, CompositorMessage::Maximize(true)), Ok(()));
    send(&mut channels, Some(&slot), CompositorMessage::ToggleHiDpi);
    assert_eq!(channels.receive(&receiver), Ok(CompositorMessage::Connect(3)));
    assert_eq!(channels.receive(&receiver), Ok(CompositorMessage::Maximize(true)));
    assert_eq!(channels.receive(&receiver), Ok(CompositorMessage::ToggleHiDpi));
    assert_eq!(channels.receive(&receiver), Err(ReceiveError::Empty));
}

#[test]
fn channels_disconnect_with_their_last_sender() {
    let mut channels = Channels::new();
    let (first, receiver) = channels.open();
    let second = channels.duplicate(&first).unwrap();
    assert_eq!(channels.post(&second, CompositorMessage::Fullscreen(false)), Ok(()));
    channels.close(first);
    assert_eq!(channels.receive(&receiver), Ok(CompositorMessage::Fullscreen(false)));
    assert_eq!(channels.receive(&receiver), Err(ReceiveError::Empty));
    channels.close(second);
    assert_eq!(channels.receive(&receiver), Err(ReceiveError::Disconnected));
}

#[test]
fn send_past_a_failed_lock_is_lost() {
    let mut channels = Channels::new();
    let (sender, receiver) = channels.open();
    send(&mut channels, None, CompositorMessage::ToggleHiDpi);
    MenuHandler.connect_machine(&mut channels, None, 3);
    assert_eq!(MenuHandler.toggle_hidpi(&mut channels, None, 0), 1);
    assert_eq!(channels.receive(&receiver), Err(ReceiveError::Empty));
    channels.close(sender);
}

#[test]
fn messages_to_nobody_are_handed_back() {
    let mut channels = Channels::new();
    let (sender, receiver) = channels.open();
    assert_eq!(channels.post(&sender, CompositorMessage::Connect(1)), Ok(()));
    channels.abandon(receiver);
    let msg = CompositorMessage::Connect(2);
    assert_eq!(channels.post(&sender, msg), Err(msg));
    send(&mut channels, Some(&Some(sender)), msg);
}

#[test]
fn channels_are_separate() {
    let mut channels = Channels::new();
    let (a, from_a) = channels.open();
    let (_b, from_b) = channels.open();
    assert_eq!(channels.post(&a, CompositorMessage::ToggleHiDpi), Ok(()));
    assert_eq!(channels.receive(&from_b), Err(ReceiveError::Empty));
    assert_eq!(channels.receive(&from_a), Ok(CompositorMessage::ToggleHiDpi));
}

#[test]
fn ends_of_other_channels_do_nothing() {
    let mut elsewhere = Channels::new();
    let (sender, receiver) = elsewhere.open();
    let mut channels = Channels::new();
    let lost = CompositorMessage::ToggleHiDpi;
    assert_eq!(channels.post(&sender, lost), Err(lost));
    assert_eq!(channels.receive(&receiver), Err(ReceiveError::Disconnected));
    assert_eq!(channels.duplicate(&sender), None);
    channels.close(sender);
    let (_sender, receiver) = channels.open();
    assert_eq!(channels.receive(&receiver), Err(ReceiveError::Empty));
}

#[test]
fn a_second_setup_replaces_the_first_sender() {
    let mut channels = Channels::new();
    let mut slot = None;
    let (tx1, rx1) = channels.open();
    setup_menu(&[], &mut channels, &mut slot, tx1);
    assert_eq!(channels.receive(&rx1), Err(ReceiveError::Empty));
    let (tx2, rx2) = channels.open();
    setup_menu(&[], &mut channels, &mut slot, tx2);
    assert_eq!(channels.receive(&rx1), Err(ReceiveError::Disconnected));
    assert_eq!(channels.receive(&rx2), Err(ReceiveError::Empty));
    send(&mut channels, Some(&slot), CompositorMessage::Connect(5));
    assert_eq!(channels.receive(&rx1), Err(ReceiveError::Disconnected));
    assert_eq!(channels.receive(&rx2), Ok(CompositorMessage::Connect(5)));
}

#[test]
fn menu_bar_with_saved_connections() {
    let mut channels = Channels::new();
    let (client, receiver) = channels.open();
    let sender = channels.duplicate(&client).unwrap();
    let mut slot = None;
    assert_eq!(channels.post(&client, CompositorMessage::Maximize(true)), Ok(()));
    let connections = vec![saved("mac"), saved("pi")];
    let menus = setup_menu(&connections, &mut channels, &mut slot, sender);
    assert_eq!(menus.len(), 3);

    assert_eq!(menus[0].entry.title, "Cocoa-Way");
    assert_eq!(menus[0].title, "Cocoa-Way");
    assert_eq!(menus[0].items.len(), 1);
    assert_eq!(menus[0].items[0].title, "Quit Cocoa-Way");
    assert_eq!(menus[0].items[0].key, "q");
    assert_eq!(menus[0].items[0].action, Some(MenuAction::Terminate));
    assert!(!menus[0].items[0].handled);

    assert_eq!(menus[1].entry.title, "Connections");
    assert_eq!(menus[1].title, "Connections");
    let items = &menus[1].items;
    assert_eq!(items.len(), 4);
    assert_eq!(items[0].title, "Connect to Machine…");
    assert_eq!(items[0].key, "n");
    assert_eq!(items[0].action, Some(MenuAction::QuickConnect));
    assert!(items[0].handled);
    assert!(items[1].separator);
    assert_eq!(items[2].title, "mac");
    assert_eq!(items[2].tag, 0);
    assert_eq!(items[3].title, "pi");
    assert_eq!(items[3].tag, 1);
    assert_eq!(items[3].key, "");
    assert_eq!(items[3].action, Some(MenuAction::ConnectMachine));
    assert!(items[3].handled && items[3].enabled);

    assert_eq!(menus[2].entry.title, "View");
    assert_eq!(menus[2].items.len(), 1);
    assert_eq!(menus[2].items[0].title, "HiDPI Display");
    assert_eq!(menus[2].items[0].state, 0);
    assert_eq!(menus[2].items[0].action, Some(MenuAction::ToggleHiDpi));

    send(&mut channels, Some(&slot), CompositorMessage::ToggleHiDpi);
    assert_eq!(channels.receive(&receiver), Ok(CompositorMessage::Maximize(true)));
    assert_eq!(channels.receive(&receiver), Ok(CompositorMessage::ToggleHiDpi));
}

#[test]
fn menu_bar_without_saved_connections() {
    let mut channels = Channels::new();
    let (sender, _receiver) = channels.open();
    let menus = setup_menu(&[], &mut channels, &mut None, sender);
    let items = &menus[1].items;
    assert_eq!(items.len(), 3);
    assert_eq!(items[2].title, "No saved connections — use 'Connect to Machine…'");
    assert!(!items[2].enabled);
    assert_eq!(items[2].action, None);
}

#[test]
fn labels_and_actions() {
    let label = label_item("View");
    assert_eq!(label.title, "View");
    assert_eq!(label.key, "");
    assert_eq!(label.action, None);
    assert!(label.enabled && !label.separator && !label.handled);
    assert_eq!((label.tag, label.state), (0, 0));
    let item = action_item("Quit", MenuAction::Terminate, "q");
    assert_eq!(item.key, "q");
    assert_eq!(item.action, Some(MenuAction::Terminate));
}

#[test]
fn choosing_an_item_asks_for_its_connection() {
    let connections = vec![saved("a"), saved("b"), saved("c")];
    let mut channels = Channels::new();
    let (sender, receiver) = channels.open();
    let mut slot = None;
    let menus = setup_menu(&connections, &mut channels, &mut slot, sender);
    MenuHandler.connect_machine(&mut channels, Some(&slot), menus[1].items[4].tag);
    assert_eq!(channels.receive(&receiver), Ok(CompositorMessage::Connect(2)));
    assert_eq!(launch_saved(connections, 2, None, None).unwrap().conn, saved("c"));
    MenuHandler.connect_machine(&mut channels, Some(&slot), -1);
    assert_eq!(channels.receive(&receiver), Ok(CompositorMessage::Connect(usize::MAX)));
}

#[test]
fn unset_variables_count_as_empty() {
    let text = |text: &str| Some(text.to_string());
    let prepared = launch(saved("pi"), text("/tmp/run"), text("wayland-1"));
    assert_eq!(prepared.conn, saved("pi"));
    assert_eq!(prepared.runtime_dir, "/tmp/run");
    assert_eq!(prepared.display, "wayland-1");
    let prepared = launch(saved("pi"), None, text("wayland-1"));
    assert_eq!((prepared.runtime_dir.as_str(), prepared.display.as_str()), ("", "wayland-1"));
    let prepared = launch(saved("pi"), text("/tmp/run"), None);
    assert_eq!((prepared.runtime_dir.as_str(), prepared.display.as_str()), ("/tmp/run", ""));
}

#[test]
fn only_saved_connections_are_launched() {
    let list = || vec![saved("a"), saved("b")];
    let display = Some("wayland-1".to_string());
    let prepared = launch_saved(list(), 0, None, display).unwrap();
    assert_eq!(prepared.conn, saved("a"));
    assert_eq!((prepared.runtime_dir.as_str(), prepared.display.as_str()), ("", "wayland-1"));
    assert!(launch_saved(list(), 2, None, None).is_none());
    assert!(launch_saved(vec![], 0, None, None).is_none());
}

#[test]
fn the_check_mark_alternates() {
    let mut channels = Channels::new();
    let (sender, receiver) = channels.open();
    let slot = Some(sender);
    assert_eq!(MenuHandler.toggle_hidpi(&mut channels, Some(&slot), 0), 1);
    assert_eq!(MenuHandler.toggle_hidpi(&mut channels, Some(&slot), 1), 0);
    assert_eq!(MenuHandler.toggle_hidpi(&mut channels, Some(&slot), -1), 1);
    for _ in 0..3 {
        assert_eq!(channels.receive(&receiver), Ok(CompositorMessage::ToggleHiDpi));
    }
    assert_eq!(channels.receive(&receiver), Err(ReceiveError::Empty));
}

#[test]
fn tabbing_is_disallowed_for_a_window() {
    assert_eq!(disable_window_tabbing(0), None);
    assert_eq!(disable_window_tabbing(0x1000), Some(2));
}

#[test]
fn dialog_asks_for_host_password_and_app() {
    let dialog = quick_connect_dialog();
    assert_eq!(dialog.message, "Connect to Remote Machine");
    assert_eq!(dialog.informative, "Enter the SSH host and the Wayland app to launch.");
    assert_eq!((dialog.width, dialog.height), (300, 116));
    assert_eq!((dialog.host.y, dialog.password.y, dialog.app.y), (80, 44, 8));
    assert_eq!((dialog.host.width, dialog.host.height), (300, 28));
    assert_eq!(dialog.host.placeholder, "user@hostname-or-IP");
    assert_eq!(dialog.password.placeholder, "Password (leave blank to use SSH key)");
    assert_eq!(dialog.app.placeholder, "App to launch (e.g. weston-terminal)");
    assert!(dialog.password.secure && !dialog.host.secure && !dialog.app.secure);
    assert_eq!((dialog.confirm.as_str(), dialog.cancel.as_str()), ("Connect", "Cancel"));
    assert_eq!(MenuHandler.quick_connect().message, dialog.message);
}

#[test]
fn targets_split_at_the_first_at_sign() {
    assert_eq!(split_target("me@pi"), (Some("me".to_string()), "pi".to_string()));
    assert_eq!(split_target("pi"), (None, "pi".to_string()));
    assert_eq!(split_target("a@b@c"), (Some("a".to_string()), "b@c".to_string()));
    assert_eq!(split_target("@pi"), (Some("".to_string()), "pi".to_string()));
    assert_eq!(split_target("me@"), (Some("me".to_string()), "".to_string()));
    assert_eq!(split_target("jürgen@höst"), (Some("jürgen".to_string()), "höst".to_string()));
    assert_eq!(split_target(""), (None, "".to_string()));
}

#[test]
fn a_confirmed_dialog_connects() {
    let conn = quick_connect(
        FIRST_BUTTON,
        "me@pi".to_string(),
        "word".to_string(),
        "weston-terminal".to_string(),
    )
    .unwrap();
    assert_eq!(
        conn,
        Connection {
            name: "me@pi".to_string(),
            conn_type: "ssh".to_string(),
            host: Some("pi".to_string()),
            user: Some("me".to_string()),
            port: None,
            identity: None,
            socket: None,
            app: Some("weston-terminal".to_string()),
            password: Some("word".to_string()),
            waypipe_path: None,
        }
    );
}

#[test]
fn blank_fields_ask_for_nothing() {
    let conn = quick_connect(1000, "pi".to_string(), String::new(), String::new()).unwrap();
    assert_eq!(conn.host.as_deref(), Some("pi"));
    assert_eq!((conn.user, conn.app, conn.password), (None, None, None));
}

#[test]
fn a_cancelled_or_empty_dialog_does_not_connect() {
    assert!(quick_connect(1001, "me@pi".to_string(), String::new(), String::new()).is_none());
    assert!(quick_connect(1000, String::new(), "x".to_string(), "y".to_string()).is_none());
}
