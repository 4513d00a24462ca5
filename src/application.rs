//! The application: its project settings, the keys held down, and what each
//! window event asks of the renderer and the camera.

use vstd::prelude::*;
use crate::window::{
    Globals, KeyState, PlatformWindow, Request, WindowAttribs, WindowError, WindowEvent,
    initial_state, required_globals, startup_requests,
};

verus! {

/// What a project asks of the runtime.
pub struct VentApplicationProject {
    pub name: String,
    pub window_settings: WindowAttribs,
}

pub struct VentApplication {
    pub project: VentApplicationProject,
}

/// The keys held down.
pub struct InputHandler {
    pressed: Vec<u32>,
}

/// What the renderer or the camera is to do after a window event.
#[derive(Clone, Copy, Debug, PartialEq, Eq, Structural)]
pub enum FrameAction {
    Nothing,
    Render,
    Resize { width: u32, height: u32 },
    MouseButton { button: u32, state: KeyState },
    MouseMotion { x: i32, y: i32 },
}

/// A running application: its window's state and its input.
pub struct AppSession {
    pub window: PlatformWindow,
    pub input: InputHandler,
}

impl InputHandler {
    pub closed spec fn view(&self) -> Set<u32> {
        self.pressed@.to_set()
    }

    pub closed spec fn wf(&self) -> bool {
        self.pressed@.no_duplicates()
    }

    pub fn new() -> (r: InputHandler)
        ensures
            r.wf(),
            r@ == Set::<u32>::empty(),
    {
        let r = InputHandler { pressed: Vec::new() };
        proof {
            assert(r.pressed@.to_set() =~= Set::<u32>::empty());
        }
        r
    }

    fn position(&self, key: u32) -> (r: Option<usize>)
        ensures
            r matches Some(i) ==> i < self.pressed@.len() && self.pressed@[i as int] == key,
            r is None ==> !self.pressed@.contains(key),
    {
        let mut i: usize = 0;
        while i < self.pressed.len()
            invariant
                i <= self.pressed@.len(),
                forall|j: int| 0 <= j < i ==> self.pressed@[j] != key,
            decreases self.pressed@.len() - i,
        {
            if self.pressed[i] == key {
                return Some(i);
            }
            i = i + 1;
        }
        None
    }

    pub fn is_pressed(&self, key: u32) -> (r: bool)
        requires
            self.wf(),
        ensures
            r == self@.contains(key),
    {
        self.position(key).is_some()
    }

    /// Records a key press or release.
    pub fn set_key(&mut self, key: u32, state: KeyState)
        requires
            old(self).wf(),
        ensures
            final(self).wf(),
            final(self)@ == (match state {
                KeyState::Pressed => old(self)@.insert(key),
                KeyState::Released => old(self)@.remove(key),
            }),
    {
        let ghost before = self.pressed@;
        match (self.position(key), state) {
            (None, KeyState::Pressed) => {
                self.pressed.push(key);
                proof {
                    assert(self.pressed@ == before.push(key));
                    before.lemma_push_to_set_commute(key);
                    assert forall|j: int, k: int|
                        0 <= j < self.pressed@.len() && 0 <= k < self.pressed@.len() && j != k
                            implies self.pressed@[j] != self.pressed@[k] by {
                        if j == before.len() {
                            assert(!before.contains(self.pressed@[k]) || self.pressed@[k] != key);
                        } else if k == before.len() {
                            assert(before[j] != key);
                        }
                    }
                }
            },
            (Some(i), KeyState::Released) => {
                self.pressed.remove(i);
                proof {
                    assert(self.pressed@ =~= before.remove(i as int));
                    assert forall|j: int, k: int|
                        0 <= j < self.pressed@.len() && 0 <= k < self.pressed@.len() && j != k
                            implies self.pressed@[j] != self.pressed@[k] by {
                        let jj = if j < i { j } else { j + 1 };
                        let kk = if k < i { k } else { k + 1 };
                        assert(self.pressed@[j] == before[jj]);
                        assert(self.pressed@[k] == before[kk]);
                    }
                    assert forall|x: u32| #[trigger] self.pressed@.contains(x) <==> before.to_set().remove(key).contains(x) by {
                        if self.pressed@.contains(x) {
                            let j = choose|j: int| 0 <= j < self.pressed@.len() && self.pressed@[j] == x;
                            let jj = if j < i { j } else { j + 1 };
                            assert(before[jj] == x);
                            assert(jj != i);
                        }
                        if before.contains(x) && x != key {
                            let j = choose|j: int| 0 <= j < before.len() && before[j] == x;
                            assert(j != i);
                            let jn = if j < i { j } else { j - 1 };
                            assert(self.pressed@[jn] == x);
                        }
                    }
                    assert(self.pressed@.to_set() =~= before.to_set().remove(key));
                }
            },
            (None, KeyState::Released) => {
                proof {
                    assert(before.to_set().remove(key) =~= before.to_set());
                }
            },
            (Some(i), KeyState::Pressed) => {
                proof {
                    assert(before.to_set().insert(key) =~= before.to_set());
                }
            },
        }
    }
}

/// What a window event asks of the renderer and the camera.
pub open spec fn frame_action_of(e: WindowEvent) -> FrameAction {
    match e {
        WindowEvent::Close => FrameAction::Nothing,
        WindowEvent::Key { .. } => FrameAction::Nothing,
        WindowEvent::MouseButton { button, state } => FrameAction::MouseButton { button, state },
        WindowEvent::Resize { new_width, new_height } => FrameAction::Resize {
            width: new_width,
            height: new_height,
        },
        WindowEvent::Draw => FrameAction::Render,
        WindowEvent::MouseMotion { x, y } => FrameAction::MouseMotion { x, y },
    }
}

impl VentApplication {
    pub fn new(project: VentApplicationProject) -> (r: VentApplication)
        ensures
            r.project == project,
    {
        VentApplication { project }
    }

    /// Opens the project's window on a server that advertised `globals`: the
    /// session and the requests that create the window.
    pub fn start(self, globals: Globals) -> (r: Result<(AppSession, Vec<Request>), WindowError>)
        ensures
            r is Ok <==> required_globals(globals),
            r matches Ok((s, reqs)) ==> {
                &&& s.window@ == initial_state(self.project.window_settings)
                &&& reqs@ == startup_requests(self.project.window_settings, globals)
                &&& s.input.wf()
                &&& s.input@ == Set::<u32>::empty()
            },
    {
        match PlatformWindow::create_window(&self.project.window_settings, globals) {
            Err(e) => Err(e),
            Ok((window, reqs)) => Ok((AppSession { window, input: InputHandler::new() }, reqs)),
        }
    }
}

impl AppSession {
    /// Handles one delivered window event: keys update the input state, and the
    /// returned action tells the renderer or the camera what to do.
    pub fn handle(&mut self, e: WindowEvent) -> (r: FrameAction)
        requires
            old(self).input.wf(),
        ensures
            r == frame_action_of(e),
            final(self).input.wf(),
            final(self).window@ == old(self).window@,
            final(self).input@ == (match e {
                WindowEvent::Key { key, state } => match state {
                    KeyState::Pressed => old(self).input@.insert(key),
                    KeyState::Released => old(self).input@.remove(key),
                },
                _ => old(self).input@,
            }),
    {
        match e {
            WindowEvent::Close => FrameAction::Nothing,
            WindowEvent::Key { key, state } => {
                self.input.set_key(key, state);
                FrameAction::Nothing
            },
            WindowEvent::MouseButton { button, state } => FrameAction::MouseButton { button, state },
            WindowEvent::Resize { new_width, new_height } => FrameAction::Resize {
                width: new_width,
                height: new_height,
            },
            WindowEvent::Draw => FrameAction::Render,
            WindowEvent::MouseMotion { x, y } => FrameAction::MouseMotion { x, y },
        }
    }
}

} // verus!
