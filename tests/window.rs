use vent_engine::application::{FrameAction, VentApplication, VentApplicationProject};
use vent_engine::light::LightRenderer;
use vent_engine::window::{
    app_id, Globals, KeyState, PlatformWindow, ProtocolEvent, Request, WindowAttribs,
    WindowError, WindowEvent, WindowMode,
};

fn attribs() -> WindowAttribs {
    WindowAttribs {
        title: "demo".to_string(),
        width: 800,
        height: 600,
        mode: WindowMode::Default,
        max_size: None,
        min_size: None,
    }
}

fn all_globals() -> Globals {
    Globals { compositor: true, wm_base: true, seat: true, decoration_manager: true, activation: true }
}

fn basic_globals() -> Globals {
    Globals { decoration_manager: false, activation: false, ..all_globals() }
}

fn window() -> PlatformWindow {
    PlatformWindow::create_window(&attribs(), basic_globals()).unwrap().0
}

#[test]
fn configure_acks_once_then_commits_pending_buffer() {
    let mut w = window();
    assert!(w.present().is_empty());
    let reqs = w.handle_event(ProtocolEvent::Configure { serial: 7 });
    assert_eq!(reqs, vec![Request::AckConfigure { serial: 7 }, Request::Attach, Request::Commit]);
}

#[test]
fn configure_without_buffer_only_acks() {
    let mut w = window();
    let reqs = w.handle_event(ProtocolEvent::Configure { serial: 7 });
    assert_eq!(reqs, vec![Request::AckConfigure { serial: 7 }]);
    assert_eq!(w.present(), vec![Request::Attach, Request::Commit]);
}

#[test]
fn no_attach_before_ack() {
    let (mut w, mut sent) = PlatformWindow::create_window(&attribs(), all_globals()).unwrap();
    sent.extend(w.present());
    sent.extend(w.handle_event(ProtocolEvent::Ping { serial: 3 }));
    sent.extend(w.present());
    sent.extend(w.handle_event(ProtocolEvent::Configure { serial: 9 }));
    sent.extend(w.present());
    let ack = sent.iter().position(|r| matches!(r, Request::AckConfigure { .. })).unwrap();
    let first_attach = sent.iter().position(|r| *r == Request::Attach).unwrap();
    assert!(ack < first_attach);
}

#[test]
fn close_event_delivered_once_and_stops() {
    let mut w = window();
    w.handle_event(ProtocolEvent::PointerMotion { x: 256, y: 512 });
    w.handle_event(ProtocolEvent::Close);
    assert!(!w.is_running());
    let events = w.poll();
    assert_eq!(
        events,
        vec![WindowEvent::MouseMotion { x: 256, y: 512 }, WindowEvent::Close, WindowEvent::Draw]
    );
    assert_eq!(events.iter().filter(|e| **e == WindowEvent::Close).count(), 1);
    assert_eq!(w.poll(), vec![WindowEvent::Draw]);
}

#[test]
fn poll_ends_with_one_redraw() {
    let mut w = window();
    assert_eq!(w.poll(), vec![WindowEvent::Draw]);
    w.handle_event(ProtocolEvent::Key { key: 30, state: KeyState::Pressed });
    w.handle_event(ProtocolEvent::PointerButton { button: 272, state: KeyState::Released });
    assert_eq!(
        w.poll(),
        vec![
            WindowEvent::Key { key: 30, state: KeyState::Pressed },
            WindowEvent::MouseButton { button: 272, state: KeyState::Released },
            WindowEvent::Draw
        ]
    );
    assert!(w.is_running());
}

#[test]
fn escape_stops_the_loop() {
    let mut w = window();
    w.handle_event(ProtocolEvent::Key { key: 1, state: KeyState::Pressed });
    assert!(!w.is_running());
}

#[test]
fn bounds_resize_the_window() {
    let mut w = window();
    assert_eq!((w.width(), w.height()), (800, 600));
    w.handle_event(ProtocolEvent::ConfigureBounds { width: 1024, height: 768 });
    assert_eq!((w.width(), w.height()), (1024, 768));
    assert_eq!(w.poll(), vec![WindowEvent::Resize { new_width: 1024, new_height: 768 }, WindowEvent::Draw]);
}

#[test]
fn ping_gets_pong_and_keyboard_acquired_once() {
    let mut w = window();
    assert_eq!(w.handle_event(ProtocolEvent::Ping { serial: 5 }), vec![Request::Pong { serial: 5 }]);
    assert_eq!(
        w.handle_event(ProtocolEvent::SeatCapabilities { keyboard: true }),
        vec![Request::GetKeyboard]
    );
    assert!(w.handle_event(ProtocolEvent::SeatCapabilities { keyboard: true }).is_empty());
}

#[test]
fn close_is_idempotent() {
    let mut w = window();
    assert!(w.close());
    assert!(!w.is_running());
    assert!(!w.close());
}

#[test]
fn startup_sequence() {
    let mut a = attribs();
    a.mode = WindowMode::Maximized;
    a.min_size = Some((100, 50));
    let (_, reqs) = PlatformWindow::create_window(&a, all_globals()).unwrap();
    assert_eq!(
        reqs,
        vec![
            Request::CreateSurface,
            Request::GetXdgSurface,
            Request::GetToplevel,
            Request::SetTitle("demo".to_string()),
            Request::SetAppId,
            Request::SetMaximized,
            Request::SetMinSize { width: 100, height: 50 },
            Request::GetToplevelDecoration,
            Request::SetServerSideDecoration,
            Request::Commit,
            Request::GetActivationToken,
            Request::SetTokenAppId,
            Request::SetTokenSurface,
        ]
    );
    let (_, plain) = PlatformWindow::create_window(&attribs(), basic_globals()).unwrap();
    assert_eq!(plain.len(), 6);
    assert_eq!(plain[5], Request::Commit);
    assert_eq!(app_id(), "com.ventengine.VentEngine");
}

#[test]
fn missing_global_is_a_protocol_error() {
    let g = Globals { seat: false, ..all_globals() };
    assert_eq!(PlatformWindow::create_window(&attribs(), g).err().map(|e| e), Some(WindowError::Protocol));
}

#[test]
fn application_session_tracks_keys_and_actions() {
    let project = VentApplicationProject { name: "demo".to_string(), window_settings: attribs() };
    let app = VentApplication::new(project);
    let (mut session, reqs) = app.start(basic_globals()).unwrap();
    assert_eq!(reqs.len(), 6);
    assert_eq!(
        session.handle(WindowEvent::Key { key: 17, state: KeyState::Pressed }),
        FrameAction::Nothing
    );
    assert!(session.input.is_pressed(17));
    session.handle(WindowEvent::Key { key: 17, state: KeyState::Pressed });
    session.handle(WindowEvent::Key { key: 17, state: KeyState::Released });
    assert!(!session.input.is_pressed(17));
    assert_eq!(session.handle(WindowEvent::Draw), FrameAction::Render);
    assert_eq!(
        session.handle(WindowEvent::Resize { new_width: 3, new_height: 4 }),
        FrameAction::Resize { width: 3, height: 4 }
    );
}

#[test]
fn light_defaults() {
    let l = LightRenderer::new();
    assert_eq!(l.light_uniform.position, [2.0f32.to_bits(), 100.0f32.to_bits(), 2.0f32.to_bits()]);
    assert_eq!(l.light_uniform.color, [1.0f32.to_bits(); 3]);
}
