use vstd::prelude::*;

verus! {

/// The key a keyboard event reports.
#[derive(Clone, Copy, Debug, PartialEq, Eq, Structural)]
pub enum Key {
    Escape,
    /// Any other key, identified or not.
    Other,
}

/// The window events the application reacts to.
#[derive(Clone, Copy, Debug, PartialEq, Eq, Structural)]
pub enum WindowEvent {
    CloseRequested,
    Resized { width: u32, height: u32 },
    RedrawRequested,
    KeyboardInput { key: Key, pressed: bool },
    /// Any other window event.
    Other,
}

/// What the application does in answer to a window event.
#[derive(Clone, Copy, Debug, PartialEq, Eq, Structural)]
pub enum EventAction {
    /// Leave the event loop.
    Exit,
    /// Resize the surface of the scene.
    Resize { width: u32, height: u32 },
    /// Render a frame of the scene.
    Redraw,
    /// Nothing.
    Ignore,
}

/// The window the application opens when it resumes without a scene.
#[derive(Clone, Copy, Debug, PartialEq, Eq)]
pub struct WindowConfig {
    pub title: &'static str,
    pub width: u32,
    pub height: u32,
}

/// What the application does when the event loop resumes.
#[derive(Clone, Copy, Debug, PartialEq, Eq)]
pub enum ResumeAction {
    /// Open a window with this configuration and set the scene up in it.
    CreateWindow(WindowConfig),
    /// Nothing: the scene is already set up.
    Keep,
}

/// The answer to `event` of an application that has (`has_state`) or has not
/// set its scene up yet: close requests and a pressed Escape leave the loop,
/// resizes and redraws reach the scene only once it exists, anything else is ignored.
pub open spec fn event_action_spec(has_state: bool, event: WindowEvent) -> EventAction {
    match event {
        WindowEvent::CloseRequested => EventAction::Exit,
        WindowEvent::Resized { width, height } =>
            if has_state { EventAction::Resize { width, height } } else { EventAction::Ignore },
        WindowEvent::RedrawRequested =>
            if has_state { EventAction::Redraw } else { EventAction::Ignore },
        WindowEvent::KeyboardInput { key, pressed } =>
            if key == Key::Escape && pressed { EventAction::Exit } else { EventAction::Ignore },
        WindowEvent::Other => EventAction::Ignore,
    }
}

/// The window the application opens: 1280 x 720 pixels, titled
/// "CMSC427 Lab 01 – GPU Pipeline".
pub open spec fn window_config_spec() -> WindowConfig {
    WindowConfig { title: "CMSC427 Lab 01 – GPU Pipeline", width: 1280, height: 720 }
}

/// What an application that has (`has_state`) or has not set its scene up
/// does when the event loop resumes: open the window only while there is no scene.
pub open spec fn resume_action_spec(has_state: bool) -> ResumeAction {
    if has_state {
        ResumeAction::Keep
    } else {
        ResumeAction::CreateWindow(window_config_spec())
    }
}

/// The application: the scene, once it is set up.
pub struct App<S> {
    state: Option<S>,
}

impl<S> View for App<S> {
    type V = Option<S>;

    closed spec fn view(&self) -> Option<S> {
        self.state
    }
}

impl<S> App<S> {
    /// An application that has not set its scene up yet.
    pub fn new() -> (app: Self)
        ensures
            app@ is None,
    {
        App { state: None }
    }

    /// Whether the scene is set up.
    pub fn has_state(&self) -> (b: bool)
        ensures
            b == self@ is Some,
    {
        self.state.is_some()
    }

    /// Installs the scene.
    pub fn set_state(&mut self, state: S)
        ensures
            final(self)@ == Some(state),
    {
        self.state = Some(state);
    }

    /// The scene, to be worked on in place, if it is set up.
    pub fn state_mut(&mut self) -> (r: Option<&mut S>)
        ensures
            r is Some <==> old(self)@ is Some,
            r matches Some(s) ==> *s == old(self)@->0 && final(self)@ == Some(*final(s)),
            r is None ==> final(self)@ == old(self)@,
    {
        match &mut self.state {
            Some(s) => Some(s),
            None => None,
        }
    }

    /// What to do when the event loop resumes: open the window if there is
    /// no scene yet, else nothing.
    pub fn resumed(&self) -> (act: ResumeAction)
        ensures
            act == resume_action_spec(self@ is Some),
    {
        if self.state.is_some() {
            return ResumeAction::Keep;
        }
        ResumeAction::CreateWindow(WindowConfig {
            title: "CMSC427 Lab 01 – GPU Pipeline",
            width: 1280,
            height: 720,
        })
    }

    /// What to do in answer to a window event.
    pub fn window_event(&self, event: WindowEvent) -> (act: EventAction)
        ensures
            act == event_action_spec(self@ is Some, event),
            act == EventAction::Exit <==> (event == WindowEvent::CloseRequested
                || event == (WindowEvent::KeyboardInput { key: Key::Escape, pressed: true })),
            event == WindowEvent::Other ==> act == EventAction::Ignore,
    {
        let has_state = self.state.is_some();
        match event {
            WindowEvent::CloseRequested => EventAction::Exit,
            WindowEvent::Resized { width, height } => {
                if has_state {
                    EventAction::Resize { width, height }
                } else {
                    EventAction::Ignore
                }
            },
            WindowEvent::RedrawRequested => {
                if has_state {
                    EventAction::Redraw
                } else {
                    EventAction::Ignore
                }
            },
            WindowEvent::KeyboardInput { key, pressed } => {
                match key {
                    Key::Escape => if pressed { EventAction::Exit } else { EventAction::Ignore },
                    Key::Other => EventAction::Ignore,
                }
            },
            WindowEvent::Other => EventAction::Ignore,
        }
    }
}

/// Leaving is always possible: a close request, or a press of Escape, exits
/// the event loop whether or not the scene is set up.
pub proof fn lemma_exit_always(has_state: bool)
    ensures
        event_action_spec(has_state, WindowEvent::CloseRequested) == EventAction::Exit,
        event_action_spec(has_state, WindowEvent::KeyboardInput { key: Key::Escape, pressed: true })
            == EventAction::Exit,
{
}

/// The loop is left only on a close request or a press of Escape: every other
/// event, with or without a scene, and in particular any event outside the
/// ones the application handles, never exits; those are ignored.
pub proof fn lemma_exit_only_on_close_or_escape(has_state: bool, event: WindowEvent)
    ensures
        event_action_spec(has_state, event) == EventAction::Exit <==> (
            event == WindowEvent::CloseRequested
            || event == (WindowEvent::KeyboardInput { key: Key::Escape, pressed: true })),
        event_action_spec(has_state, WindowEvent::Other) == EventAction::Ignore,
{
}

/// Before the scene is set up no event reaches it: no answer is a resize or a redraw.
pub proof fn lemma_no_scene_no_work(event: WindowEvent)
    ensures
        !(event_action_spec(false, event) is Resize),
        event_action_spec(false, event) != EventAction::Redraw,
{
}

/// Only the Escape key, and only when pressed, acts: every other keyboard event,
/// and the release of Escape, is ignored.
pub proof fn lemma_only_escape_press_acts(has_state: bool, key: Key, pressed: bool)
    ensures
        event_action_spec(has_state, WindowEvent::KeyboardInput { key, pressed }) == (
            if key == Key::Escape && pressed { EventAction::Exit } else { EventAction::Ignore }),
{
}

/// The window is opened once: after the scene is installed, resuming again
/// keeps it and opens no second window.
pub proof fn lemma_resume_once<S>(app: App<S>, state: S)
    requires
        app@ == Some(state),
    ensures
        resume_action_spec(app@ is Some) == ResumeAction::Keep,
{
}

} // verus!
