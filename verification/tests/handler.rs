use lab1::handler::{App, EventAction, Key, ResumeAction, WindowConfig, WindowEvent};

#[test]
fn new_app_has_no_state() {
    let app: App<u32> = App::new();
    assert!(!app.has_state());
}

#[test]
fn resume_opens_window_once() {
    let mut app: App<u32> = App::new();
    assert_eq!(
        app.resumed(),
        ResumeAction::CreateWindow(WindowConfig {
            title: "CMSC427 Lab 01 – GPU Pipeline",
            width: 1280,
            height: 720,
        })
    );
    app.set_state(7);
    assert!(app.has_state());
    assert_eq!(app.resumed(), ResumeAction::Keep);
}

#[test]
fn state_mut_changes_state_in_place() {
    let mut app: App<u32> = App::new();
    assert!(app.state_mut().is_none());
    app.set_state(1);
    if let Some(s) = app.state_mut() {
        *s += 41;
    }
    assert_eq!(app.state_mut().copied(), Some(42));
}

#[test]
fn close_and_escape_always_exit() {
    let mut app: App<u32> = App::new();
    for _ in 0..2 {
        assert_eq!(app.window_event(WindowEvent::CloseRequested), EventAction::Exit);
        assert_eq!(
            app.window_event(WindowEvent::KeyboardInput { key: Key::Escape, pressed: true }),
            EventAction::Exit
        );
        app.set_state(0);
    }
}

#[test]
fn other_keys_and_release_ignored() {
    let mut app: App<u32> = App::new();
    app.set_state(0);
    assert_eq!(
        app.window_event(WindowEvent::KeyboardInput { key: Key::Escape, pressed: false }),
        EventAction::Ignore
    );
    assert_eq!(
        app.window_event(WindowEvent::KeyboardInput { key: Key::Other, pressed: true }),
        EventAction::Ignore
    );
    assert_eq!(app.window_event(WindowEvent::Other), EventAction::Ignore);
}

#[test]
fn resize_and_redraw_reach_scene_only_when_set_up() {
    let mut app: App<u32> = App::new();
    let resized = WindowEvent::Resized { width: 800, height: 600 };
    assert_eq!(app.window_event(resized), EventAction::Ignore);
    assert_eq!(app.window_event(WindowEvent::RedrawRequested), EventAction::Ignore);
    app.set_state(0);
    assert_eq!(app.window_event(resized), EventAction::Resize { width: 800, height: 600 });
    assert_eq!(app.window_event(WindowEvent::RedrawRequested), EventAction::Redraw);
}
