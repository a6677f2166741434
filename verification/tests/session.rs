use cocoa_way::connections::Connection;
use cocoa_way::effect::{Effect, OutputMode, ScaleChoice};
use cocoa_way::menu_bar::{setup_menu, MenuHandler};
use cocoa_way::messages::{Channels, CompositorMessage, ReceiveError};
use cocoa_way::render::{
    begin_frame, focus_border, is_starved, BufferState, DrawSize, DrawStep, FrameStep, Rect, Size,
    Surface, SurfaceRole,
};
use cocoa_way::scene::SurfaceId;
use cocoa_way::session::{on_accept, output_mode, AcceptStep, Accepted, Session, WindowEvent};

fn toggled(scale: ScaleChoice) -> Vec<Effect> {
    vec![
        Effect::SetScale(scale),
        Effect::AdvertiseScale,
        Effect::FitView { physical_width: 1600, physical_height: 1200 },
        Effect::RequestTileSizes,
        Effect::RequestRedraw,
    ]
}

#[test]
fn a_new_session_announces_its_output() {
    let session = Session::new(1600, 1200, 42);
    assert!(!session.hidpi && session.menu_pending);
    assert_eq!((session.layout_width, session.layout_height), (0, 0));
    assert_eq!(session.last_frame, 42);
    let mode = OutputMode { width: 1600, height: 1200, refresh: 60_000 };
    assert_eq!(session.start(), vec![Effect::AdvertiseMode(mode), Effect::PreferMode(mode)]);
}

#[test]
fn modes_read_sizes_as_signed() {
    let mode = output_mode(u32::MAX, 0x8000_0000);
    assert_eq!((mode.width, mode.height), (-1, i32::MIN));
    assert_eq!(output_mode(0x7fff_ffff, 0).width, i32::MAX);
}

#[test]
fn window_messages() {
    let mut session = Session::new(1600, 1200, 0);
    let before = session;
    assert_eq!(
        session.on_message(CompositorMessage::Maximize(true)),
        vec![Effect::SetMaximized(true)]
    );
    assert_eq!(
        session.on_message(CompositorMessage::Fullscreen(false)),
        vec![Effect::SetFullscreen(false)]
    );
    assert_eq!(
        session.on_message(CompositorMessage::Connect(4)),
        vec![Effect::OpenConnection(4)]
    );
    assert_eq!(session, before);
}

#[test]
fn toggling_twice_restores_the_mode() {
    let mut session = Session::new(1600, 1200, 0);
    let before = session;
    assert_eq!(session.on_message(CompositorMessage::ToggleHiDpi), toggled(ScaleChoice::System));
    assert!(session.hidpi);
    assert_eq!(session.on_message(CompositorMessage::ToggleHiDpi), toggled(ScaleChoice::Unit));
    assert_eq!(session, before);
}

#[test]
fn waiting_messages_are_handled_in_order() {
    let mut channels = Channels::new();
    let (sender, receiver) = channels.open();
    channels.post(&sender, CompositorMessage::Maximize(true)).unwrap();
    channels.post(&sender, CompositorMessage::ToggleHiDpi).unwrap();
    channels.post(&sender, CompositorMessage::Connect(0)).unwrap();
    let mut session = Session::new(1600, 1200, 0);
    let mut expected = vec![Effect::SetMaximized(true)];
    expected.extend(toggled(ScaleChoice::System));
    expected.push(Effect::OpenConnection(0));
    assert_eq!(session.on_messages(&mut channels, &receiver), expected);
    assert!(session.hidpi);
    assert_eq!(channels.receive(&receiver), Err(ReceiveError::Empty));
    assert_eq!(session.on_messages(&mut channels, &receiver), vec![]);
}

#[test]
fn the_check_mark_shows_the_mode() {
    let mut channels = Channels::new();
    let (client, receiver) = channels.open();
    let sender = channels.duplicate(&client).unwrap();
    let mut slot = None;
    let menus = setup_menu(&[], &mut channels, &mut slot, sender);
    let mut session = Session::new(1600, 1200, 0);
    let mut state = menus[2].items[0].state;
    for _ in 0..5 {
        assert_eq!(state == 1, session.hidpi);
        state = MenuHandler.toggle_hidpi(&mut channels, Some(&slot), state);
        channels.post(&client, CompositorMessage::Maximize(false)).unwrap();
        session.on_messages(&mut channels, &receiver);
    }
    assert_eq!(state, 1);
    assert!(session.hidpi);
}

#[test]
fn an_item_opens_its_connection() {
    let named = |name: &str| Connection {
        name: name.to_string(),
        conn_type: "ssh".to_string(),
        host: None,
        user: None,
        port: None,
        identity: None,
        socket: None,
        app: None,
        password: None,
        waypipe_path: None,
    };
    let mut channels = Channels::new();
    let (sender, receiver) = channels.open();
    let mut slot = None;
    let menus = setup_menu(&[named("a"), named("b")], &mut channels, &mut slot, sender);
    MenuHandler.connect_machine(&mut channels, Some(&slot), menus[1].items[3].tag);
    let mut session = Session::new(1, 1, 0);
    let effects = session.on_messages(&mut channels, &receiver);
    assert_eq!(effects, vec![Effect::OpenConnection(1)]);
}

#[test]
fn a_resize_keeps_the_mode() {
    let mut session = Session::new(1600, 1200, 0);
    session.on_message(CompositorMessage::ToggleHiDpi);
    let effects = session.on_window_event(WindowEvent::Resized { width: 800, height: u32::MAX });
    let mode = OutputMode { width: 800, height: -1, refresh: 60_000 };
    assert_eq!(
        effects,
        vec![
            Effect::ResizeRenderer { width: 800, height: u32::MAX },
            Effect::AdvertiseMode(mode),
            Effect::FitView { physical_width: 800, physical_height: -1 },
            Effect::RequestTileSizes,
        ]
    );
    assert!(session.hidpi);
    assert_eq!((session.width, session.height), (800, u32::MAX));
    assert_eq!(
        session.on_message(CompositorMessage::ToggleHiDpi)[2],
        Effect::FitView { physical_width: 800, physical_height: 4_294_967_295 }
    );
}

#[test]
fn closing_and_rescaling() {
    let mut session = Session::new(10, 10, 0);
    let before = session;
    assert_eq!(session.on_window_event(WindowEvent::CloseRequested), vec![Effect::Exit]);
    assert_eq!(
        session.on_window_event(WindowEvent::ScaleFactorChanged),
        vec![Effect::AdoptScaleFactor]
    );
    assert_eq!(session, before);
}

#[test]
fn the_layout_follows_once() {
    let mut session = Session::new(10, 10, 0);
    let follow = |width, height| {
        vec![Effect::SetViewSize { logical_width: width, logical_height: height }]
    };
    assert_eq!(session.on_layout(0, 0), vec![]);
    assert_eq!(session.on_layout(800, 600), follow(800, 600));
    assert_eq!(session.on_layout(800, 600), vec![]);
    assert_eq!(session.on_layout(800, 601), follow(800, 601));
    assert_eq!(session.on_layout(799, 601), follow(799, 601));
}

#[test]
fn clients_are_flushed_after_success() {
    let session = Session::new(10, 10, 0);
    assert_eq!(session.on_dispatched(true), vec![Effect::FlushClients, Effect::CheckTimer]);
    assert_eq!(session.on_dispatched(false), vec![Effect::CheckTimer]);
}

#[test]
fn frames_are_spaced() {
    let mut session = Session::new(10, 10, 1_000);
    assert_eq!(session.on_timer(1_000), vec![Effect::WaitUntil(16_001_000)]);
    assert_eq!(session.on_timer(16_000_999), vec![Effect::WaitUntil(16_001_000)]);
    assert_eq!(session.on_timer(0), vec![Effect::WaitUntil(16_001_000)]);
    assert_eq!(session.on_timer(16_001_000), vec![Effect::RequestRedraw]);
    assert_eq!(session.on_timer(16_001_001), vec![Effect::WaitUntil(32_001_000)]);
    assert_eq!(session.on_timer(50_000_000), vec![Effect::RequestRedraw]);
    assert_eq!(session.last_frame, 50_000_000);
}

#[test]
fn the_menu_is_installed_once() {
    let mut session = Session::new(10, 10, 0);
    assert_eq!(session.on_resumed(), vec![Effect::InstallMenu]);
    assert_eq!(session.on_resumed(), vec![]);
    assert_eq!(session.on_resumed(), vec![]);
}

#[test]
fn accepting_clients() {
    assert_eq!(on_accept(Accepted::Client), AcceptStep::InsertClient);
    assert_eq!(on_accept(Accepted::Nobody), AcceptStep::Retry);
    assert_eq!(on_accept(Accepted::Failure), AcceptStep::Sleep(10));
}

#[test]
fn frames_begin_with_the_right_size() {
    assert_eq!(begin_frame(0, 5, 1, 1), vec![]);
    assert_eq!(begin_frame(5, 0, 1, 1), vec![]);
    assert_eq!(begin_frame(5, 6, 5, 6), vec![Effect::ClearFrame]);
    assert_eq!(
        begin_frame(5, 6, 5, 7),
        vec![Effect::ResizeRenderer { width: 5, height: 6 }, Effect::ClearFrame]
    );
    assert_eq!(begin_frame(5, 6, 4, 6).len(), 2);
}

fn steps(visible: bool, windows: usize, popups: usize) -> Vec<FrameStep> {
    let mut steps = vec![];
    let mut step = FrameStep::Begin;
    while step != FrameStep::Done {
        steps.push(step);
        step = step.next(visible, windows, popups);
    }
    steps
}

#[test]
fn popups_are_drawn_over_windows() {
    assert_eq!(
        steps(true, 2, 2),
        vec![
            FrameStep::Begin,
            FrameStep::EvictDead,
            FrameStep::DropDead,
            FrameStep::LayOut,
            FrameStep::Window(0),
            FrameStep::Border(0),
            FrameStep::Window(1),
            FrameStep::Border(1),
            FrameStep::DropDeadPopups,
            FrameStep::Popup(0),
            FrameStep::Popup(1),
            FrameStep::Present,
            FrameStep::AnswerCallbacks,
        ]
    );
}

#[test]
fn an_empty_frame_is_still_shown() {
    assert_eq!(
        steps(true, 0, 0),
        vec![
            FrameStep::Begin,
            FrameStep::EvictDead,
            FrameStep::DropDead,
            FrameStep::LayOut,
            FrameStep::DropDeadPopups,
            FrameStep::Present,
            FrameStep::AnswerCallbacks,
        ]
    );
    assert_eq!(steps(false, 3, 3), vec![FrameStep::Begin]);
    let last = FrameStep::Border(usize::MAX).next(true, usize::MAX, 0);
    assert_eq!(last, FrameStep::DropDeadPopups);
}

const SIZE: Size = Size { width: 64, height: 32 };
const VIEW: Size = Size { width: 30, height: 15 };

#[test]
fn windows_are_drawn_in_their_viewport() {
    let window = Surface { role: SurfaceRole::Window, viewport: Some(VIEW), buffer_scale: 2 };
    assert_eq!(window.begin(BufferState::Attached), DrawStep::FindTexture);
    assert_eq!(
        window.after_texture(Some(SIZE)),
        DrawStep::Draw { upload: None, size: DrawSize::Logical(VIEW) }
    );
    assert_eq!(window.after_texture(None), DrawStep::ReadPixels);
    assert_eq!(
        window.after_pixels(Some(SIZE)),
        DrawStep::Draw { upload: Some(SIZE), size: DrawSize::Logical(VIEW) }
    );
    let plain = Surface { viewport: None, ..window };
    assert_eq!(
        plain.after_pixels(Some(SIZE)),
        DrawStep::Draw {
            upload: Some(SIZE),
            size: DrawSize::Buffer { size: SIZE, buffer_scale: 2 }
        }
    );
}

#[test]
fn windows_keep_their_picture() {
    let window = Surface { role: SurfaceRole::Window, viewport: None, buffer_scale: 1 };
    assert_eq!(window.begin(BufferState::Unchanged), DrawStep::Reuse);
    assert_eq!(window.begin(BufferState::Removed), DrawStep::Evict);
    assert_eq!(window.after_pixels(None), DrawStep::Reuse);
    assert!(window.is_drawn(DrawStep::Reuse, true));
    assert!(!window.is_drawn(DrawStep::Reuse, false));
    assert!(window.is_drawn(window.after_texture(Some(SIZE)), false));
    assert!(!window.is_drawn(DrawStep::Evict, true));
}

#[test]
fn popups_leave_no_trace() {
    let popup = Surface { role: SurfaceRole::Popup, viewport: Some(VIEW), buffer_scale: 3 };
    assert_eq!(popup.begin(BufferState::Attached), DrawStep::FindTexture);
    assert_eq!(popup.begin(BufferState::Unchanged), DrawStep::Skip);
    assert_eq!(popup.begin(BufferState::Removed), DrawStep::Skip);
    assert_eq!(
        popup.after_texture(Some(SIZE)),
        DrawStep::Draw { upload: None, size: DrawSize::Buffer { size: SIZE, buffer_scale: 3 } }
    );
    assert_eq!(popup.after_pixels(None), DrawStep::Skip);
    assert!(!popup.is_drawn(popup.after_texture(Some(SIZE)), true));
}

#[test]
fn empty_frames_with_windows_are_starved() {
    assert!(is_starved(0, 1));
    assert!(!is_starved(0, 0));
    assert!(!is_starved(2, 1));
}

#[test]
fn the_border_surrounds_the_focused_window() {
    let id = SurfaceId { raw: 9 };
    let window = Rect { x: 4, y: 10, width: 100, height: 50 };
    assert_eq!(
        focus_border(Some(id), id, window),
        Some(Rect { x: 0, y: 6, width: 108, height: 58 })
    );
    assert_eq!(focus_border(None, id, window), None);
    assert_eq!(focus_border(Some(SurfaceId { raw: 8 }), id, window), None);
    assert_eq!(focus_border(Some(id), id, Rect { x: 3, ..window }), None);
    assert_eq!(focus_border(Some(id), id, Rect { y: 3, ..window }), None);
}
