//! The windowing backend as a state machine. The transport hands it protocol
//! events; it answers with the requests to send and queues normalized window
//! events, which each poll delivers followed by one redraw.

use vstd::prelude::*;

verus! {

/// The application identifier announced for the toplevel and its activation token.
pub open spec fn app_id_spec() -> Seq<char> {
    "com.ventengine.VentEngine"@
}

pub fn app_id() -> (r: String)
    ensures
        r@ == app_id_spec(),
{
    String::from_str("com.ventengine.VentEngine")
}

/// The key code that asks the window to close.
pub const ESCAPE_KEY: u32 = 1;

#[derive(Clone, Copy, Debug, PartialEq, Eq, Structural)]
pub enum WindowMode {
    Default,
    FullScreen,
    Maximized,
    Minimized,
}

/// What the application asks of its window.
pub struct WindowAttribs {
    pub title: String,
    pub width: u32,
    pub height: u32,
    pub mode: WindowMode,
    pub max_size: Option<(u32, u32)>,
    pub min_size: Option<(u32, u32)>,
}

/// The global objects the server advertised.
#[derive(Clone, Copy, Debug, PartialEq, Eq, Structural)]
pub struct Globals {
    pub compositor: bool,
    pub wm_base: bool,
    pub seat: bool,
    pub decoration_manager: bool,
    pub activation: bool,
}

#[derive(Clone, Copy, Debug, PartialEq, Eq, Structural)]
pub enum KeyState {
    Pressed,
    Released,
}

/// A normalized window event. Pointer positions are in 1/256 surface units.
#[derive(Clone, Copy, Debug, PartialEq, Eq, Structural)]
pub enum WindowEvent {
    Close,
    Key { key: u32, state: KeyState },
    MouseButton { button: u32, state: KeyState },
    MouseMotion { x: i32, y: i32 },
    Resize { new_width: u32, new_height: u32 },
    Draw,
}

/// An event that the windowing server sent.
#[derive(Clone, Copy, Debug, PartialEq, Eq, Structural)]
pub enum ProtocolEvent {
    /// The shell surface proposes a configuration.
    Configure { serial: u32 },
    /// The toplevel is asked to close.
    Close,
    /// The bounds the toplevel should fit in.
    ConfigureBounds { width: u32, height: u32 },
    /// The shell checks that the client is alive.
    Ping { serial: u32 },
    /// The seat's capabilities.
    SeatCapabilities { keyboard: bool },
    Key { key: u32, state: KeyState },
    PointerButton { button: u32, state: KeyState },
    PointerMotion { x: i32, y: i32 },
}

/// A request to send to the windowing server. Application identifiers are
/// `app_id()`.
#[derive(Clone, Debug, PartialEq, Eq)]
pub enum Request {
    CreateSurface,
    GetXdgSurface,
    GetToplevel,
    SetTitle(String),
    SetAppId,
    SetFullscreen,
    SetMaximized,
    SetMinimized,
    SetMaxSize { width: u32, height: u32 },
    SetMinSize { width: u32, height: u32 },
    GetToplevelDecoration,
    SetServerSideDecoration,
    /// Commit the surface's pending state.
    Commit,
    GetActivationToken,
    SetTokenAppId,
    SetTokenSurface,
    AckConfigure { serial: u32 },
    /// Attach the prepared pixel buffer to the surface.
    Attach,
    Pong { serial: u32 },
    GetKeyboard,
}

/// Why the window could not be set up.
#[derive(Clone, Copy, Debug, PartialEq, Eq, Structural)]
pub enum WindowError {
    /// A required global object is missing, or the transport failed.
    Protocol,
}

/// The backend's state: whether the loop runs, the window's size, whether the
/// first configure was acknowledged, whether a pixel buffer waits to be shown,
/// whether a keyboard was acquired, and the events not yet delivered.
pub struct PlatformWindow {
    pub running: bool,
    pub width: u32,
    pub height: u32,
    pub configured: bool,
    pub buffer_ready: bool,
    pub keyboard: bool,
    pub pending_events: Vec<WindowEvent>,
}

/// The backend's state as plain values.
pub struct WindowModel {
    pub running: bool,
    pub width: u32,
    pub height: u32,
    pub configured: bool,
    pub buffer_ready: bool,
    pub keyboard: bool,
    pub pending: Seq<WindowEvent>,
}

/// What drives the backend: a server event, or a pixel buffer that the
/// application has prepared.
pub enum Input {
    Event(ProtocolEvent),
    Present,
}

impl PlatformWindow {
    pub open spec fn view(&self) -> WindowModel {
        WindowModel {
            running: self.running,
            width: self.width,
            height: self.height,
            configured: self.configured,
            buffer_ready: self.buffer_ready,
            keyboard: self.keyboard,
            pending: self.pending_events@,
        }
    }
}

/// The requests that show the prepared buffer.
pub open spec fn present_requests() -> Seq<Request> {
    seq![Request::Attach, Request::Commit]
}

/// The state after a server event.
pub open spec fn event_state(m: WindowModel, e: ProtocolEvent) -> WindowModel {
    match e {
        ProtocolEvent::Configure { .. } => WindowModel { configured: true, ..m },
        ProtocolEvent::Close => WindowModel {
            running: false,
            pending: m.pending.push(WindowEvent::Close),
            ..m
        },
        ProtocolEvent::ConfigureBounds { width, height } => WindowModel {
            width,
            height,
            pending: m.pending.push(WindowEvent::Resize { new_width: width, new_height: height }),
            ..m
        },
        ProtocolEvent::Ping { .. } => m,
        ProtocolEvent::SeatCapabilities { keyboard } => WindowModel {
            keyboard: m.keyboard || keyboard,
            ..m
        },
        ProtocolEvent::Key { key, state } => WindowModel {
            running: m.running && key != ESCAPE_KEY,
            pending: m.pending.push(WindowEvent::Key { key, state }),
            ..m
        },
        ProtocolEvent::PointerButton { button, state } => WindowModel {
            pending: m.pending.push(WindowEvent::MouseButton { button, state }),
            ..m
        },
        ProtocolEvent::PointerMotion { x, y } => WindowModel {
            pending: m.pending.push(WindowEvent::MouseMotion { x, y }),
            ..m
        },
    }
}

/// The requests that answer a server event.
pub open spec fn event_requests(m: WindowModel, e: ProtocolEvent) -> Seq<Request> {
    match e {
        ProtocolEvent::Configure { serial } => if m.buffer_ready {
            seq![Request::AckConfigure { serial }] + present_requests()
        } else {
            seq![Request::AckConfigure { serial }]
        },
        ProtocolEvent::Ping { serial } => seq![Request::Pong { serial }],
        ProtocolEvent::SeatCapabilities { keyboard } => if keyboard && !m.keyboard {
            seq![Request::GetKeyboard]
        } else {
            Seq::empty()
        },
        _ => Seq::empty(),
    }
}

/// The state after the application prepared a buffer.
pub open spec fn present_state(m: WindowModel) -> WindowModel {
    WindowModel { buffer_ready: true, ..m }
}

/// The requests that follow a prepared buffer: it is shown at once only once the
/// surface is configured.
pub open spec fn present_reply(m: WindowModel) -> Seq<Request> {
    if m.configured {
        present_requests()
    } else {
        Seq::empty()
    }
}

pub open spec fn input_state(m: WindowModel, i: Input) -> WindowModel {
    match i {
        Input::Event(e) => event_state(m, e),
        Input::Present => present_state(m),
    }
}

pub open spec fn input_requests(m: WindowModel, i: Input) -> Seq<Request> {
    match i {
        Input::Event(e) => event_requests(m, e),
        Input::Present => present_reply(m),
    }
}

/// The state after a sequence of inputs.
pub open spec fn run_state(m: WindowModel, inputs: Seq<Input>) -> WindowModel
    decreases inputs.len(),
{
    if inputs.len() == 0 {
        m
    } else {
        run_state(input_state(m, inputs[0]), inputs.drop_first())
    }
}

/// The requests sent, in order, over a sequence of inputs.
pub open spec fn run_requests(m: WindowModel, inputs: Seq<Input>) -> Seq<Request>
    decreases inputs.len(),
{
    if inputs.len() == 0 {
        Seq::empty()
    } else {
        input_requests(m, inputs[0]) + run_requests(input_state(m, inputs[0]), inputs.drop_first())
    }
}

/// Every buffer attach comes after some configure acknowledgement.
pub open spec fn attach_after_ack(reqs: Seq<Request>) -> bool {
    forall|i: int|
        0 <= i < reqs.len() && #[trigger] reqs[i] is Attach ==> exists|j: int|
            0 <= j < i && #[trigger] reqs[j] is AckConfigure
}

pub open spec fn has_ack(reqs: Seq<Request>) -> bool {
    exists|j: int| 0 <= j < reqs.len() && #[trigger] reqs[j] is AckConfigure
}

/// The mode hint requests of a window mode.
pub open spec fn mode_requests(mode: WindowMode) -> Seq<Request> {
    match mode {
        WindowMode::FullScreen => seq![Request::SetFullscreen],
        WindowMode::Maximized => seq![Request::SetMaximized],
        WindowMode::Minimized => seq![Request::SetMinimized],
        WindowMode::Default => Seq::empty(),
    }
}

pub open spec fn size_requests(attribs: WindowAttribs) -> Seq<Request> {
    (match attribs.max_size {
        Some(s) => seq![Request::SetMaxSize { width: s.0, height: s.1 }],
        None => Seq::empty(),
    }) + (match attribs.min_size {
        Some(s) => seq![Request::SetMinSize { width: s.0, height: s.1 }],
        None => Seq::empty(),
    })
}

/// The requests that set a window up: surface, shell surface and toplevel, title,
/// application identifier, mode and size hints, server-side decoration where the
/// server offers it, a commit with no buffer, then an activation token where the
/// server offers activation.
pub open spec fn startup_requests(attribs: WindowAttribs, globals: Globals) -> Seq<Request> {
    seq![
        Request::CreateSurface,
        Request::GetXdgSurface,
        Request::GetToplevel,
        Request::SetTitle(attribs.title),
        Request::SetAppId,
    ] + mode_requests(attribs.mode) + size_requests(attribs) + (if globals.decoration_manager {
        seq![Request::GetToplevelDecoration, Request::SetServerSideDecoration]
    } else {
        Seq::empty()
    }) + seq![Request::Commit] + (if globals.activation {
        seq![
            Request::GetActivationToken,
            Request::SetTokenAppId,
            Request::SetTokenSurface,
        ]
    } else {
        Seq::empty()
    })
}

/// The state of a window that was just set up.
pub open spec fn initial_state(attribs: WindowAttribs) -> WindowModel {
    WindowModel {
        running: true,
        width: attribs.width,
        height: attribs.height,
        configured: false,
        buffer_ready: false,
        keyboard: false,
        pending: Seq::empty(),
    }
}

pub open spec fn required_globals(g: Globals) -> bool {
    g.compositor && g.wm_base && g.seat
}

/// The events a poll delivers: those queued, in arrival order, then one redraw.
pub open spec fn poll_events(m: WindowModel) -> Seq<WindowEvent> {
    m.pending.push(WindowEvent::Draw)
}

pub open spec fn poll_state(m: WindowModel) -> WindowModel {
    WindowModel { pending: Seq::empty(), ..m }
}

fn push_mode_requests(reqs: &mut Vec<Request>, mode: WindowMode)
    ensures
        final(reqs)@ == old(reqs)@ + mode_requests(mode),
{
    match mode {
        WindowMode::FullScreen => reqs.push(Request::SetFullscreen),
        WindowMode::Maximized => reqs.push(Request::SetMaximized),
        WindowMode::Minimized => reqs.push(Request::SetMinimized),
        WindowMode::Default => {},
    }
    assert(reqs@ =~= old(reqs)@ + mode_requests(mode));
}

fn push_size_requests(reqs: &mut Vec<Request>, attribs: &WindowAttribs)
    ensures
        final(reqs)@ == old(reqs)@ + size_requests(*attribs),
{
    match attribs.max_size {
        Some(size) => reqs.push(Request::SetMaxSize { width: size.0, height: size.1 }),
        None => {},
    }
    match attribs.min_size {
        Some(size) => reqs.push(Request::SetMinSize { width: size.0, height: size.1 }),
        None => {},
    }
    assert(reqs@ =~= old(reqs)@ + size_requests(*attribs));
}

fn push_decoration_requests(reqs: &mut Vec<Request>, globals: Globals)
    ensures
        final(reqs)@ == old(reqs)@ + (if globals.decoration_manager {
            seq![Request::GetToplevelDecoration, Request::SetServerSideDecoration]
        } else {
            Seq::empty()
        }),
{
    if globals.decoration_manager {
        reqs.push(Request::GetToplevelDecoration);
        reqs.push(Request::SetServerSideDecoration);
    }
    assert(reqs@ =~= old(reqs)@ + (if globals.decoration_manager {
        seq![Request::GetToplevelDecoration, Request::SetServerSideDecoration]
    } else {
        Seq::empty()
    }));
}

fn push_activation_requests(reqs: &mut Vec<Request>, globals: Globals)
    ensures
        final(reqs)@ == old(reqs)@ + (if globals.activation {
            seq![Request::GetActivationToken, Request::SetTokenAppId, Request::SetTokenSurface]
        } else {
            Seq::empty()
        }),
{
    if globals.activation {
        reqs.push(Request::GetActivationToken);
        reqs.push(Request::SetTokenAppId);
        reqs.push(Request::SetTokenSurface);
    }
    assert(reqs@ =~= old(reqs)@ + (if globals.activation {
        seq![Request::GetActivationToken, Request::SetTokenAppId, Request::SetTokenSurface]
    } else {
        Seq::empty()
    }));
}

impl PlatformWindow {
    /// Sets a window up on a server that advertised `globals`: the state of a
    /// fresh window and the requests that create it. Fails where the compositor,
    /// the shell or the seat is missing; decoration and activation are optional.
    pub fn create_window(attribs: &WindowAttribs, globals: Globals) -> (r: Result<
        (PlatformWindow, Vec<Request>),
        WindowError,
    >)
        ensures
            r is Ok <==> required_globals(globals),
            r matches Err(e) ==> e == WindowError::Protocol,
            r matches Ok((w, reqs)) ==> w@ == initial_state(*attribs) && reqs@ == startup_requests(
                *attribs,
                globals,
            ),
    {
        if !(globals.compositor && globals.wm_base && globals.seat) {
            return Err(WindowError::Protocol);
        }
        let mut reqs: Vec<Request> = Vec::new();
        reqs.push(Request::CreateSurface);
        reqs.push(Request::GetXdgSurface);
        reqs.push(Request::GetToplevel);
        reqs.push(Request::SetTitle(attribs.title.clone()));
        reqs.push(Request::SetAppId);
        let ghost s0 = reqs@;
        push_mode_requests(&mut reqs, attribs.mode);
        push_size_requests(&mut reqs, attribs);
        let ghost s1 = reqs@;
        push_decoration_requests(&mut reqs, globals);
        reqs.push(Request::Commit);
        let ghost s2 = reqs@;
        push_activation_requests(&mut reqs, globals);
        proof {
            let deco = if globals.decoration_manager {
                seq![Request::GetToplevelDecoration, Request::SetServerSideDecoration]
            } else {
                Seq::empty()
            };
            let act = if globals.activation {
                seq![Request::GetActivationToken, Request::SetTokenAppId, Request::SetTokenSurface]
            } else {
                Seq::empty()
            };
            assert(s2 =~= s1 + deco + seq![Request::Commit]);
            assert(reqs@ =~= s2 + act);
            assert(s1 =~= s0 + mode_requests(attribs.mode) + size_requests(*attribs));
            assert(reqs@ =~= startup_requests(*attribs, globals));
        }
        let w = PlatformWindow {
            running: true,
            width: attribs.width,
            height: attribs.height,
            configured: false,
            buffer_ready: false,
            keyboard: false,
            pending_events: Vec::new(),
        };
        assert(w@.pending =~= Seq::<WindowEvent>::empty());
        Ok((w, reqs))
    }

    /// Reacts to one server event: the state changes as `event_state` says and the
    /// returned requests are to be sent in order. A configure is acknowledged with
    /// its serial before a prepared buffer is attached and committed.
    pub fn handle_event(&mut self, e: ProtocolEvent) -> (r: Vec<Request>)
        ensures
            final(self)@ == event_state(old(self)@, e),
            r@ == event_requests(old(self)@, e),
    {
        let mut r: Vec<Request> = Vec::new();
        match e {
            ProtocolEvent::Configure { serial } => {
                r.push(Request::AckConfigure { serial });
                self.configured = true;
                if self.buffer_ready {
                    r.push(Request::Attach);
                    r.push(Request::Commit);
                }
            },
            ProtocolEvent::Close => {
                self.pending_events.push(WindowEvent::Close);
                self.running = false;
            },
            ProtocolEvent::ConfigureBounds { width, height } => {
                self.width = width;
                self.height = height;
                self.pending_events.push(WindowEvent::Resize { new_width: width, new_height: height });
            },
            ProtocolEvent::Ping { serial } => {
                r.push(Request::Pong { serial });
            },
            ProtocolEvent::SeatCapabilities { keyboard } => {
                if keyboard && !self.keyboard {
                    r.push(Request::GetKeyboard);
                    self.keyboard = true;
                }
            },
            ProtocolEvent::Key { key, state } => {
                if key == ESCAPE_KEY {
                    self.running = false;
                }
                self.pending_events.push(WindowEvent::Key { key, state });
            },
            ProtocolEvent::PointerButton { button, state } => {
                self.pending_events.push(WindowEvent::MouseButton { button, state });
            },
            ProtocolEvent::PointerMotion { x, y } => {
                self.pending_events.push(WindowEvent::MouseMotion { x, y });
            },
        }
        assert(r@ =~= event_requests(old(self)@, e));
        r
    }

    /// The application has a pixel buffer ready: it is attached and committed now
    /// if the surface is configured, else at the next configure.
    pub fn present(&mut self) -> (r: Vec<Request>)
        ensures
            final(self)@ == present_state(old(self)@),
            r@ == present_reply(old(self)@),
    {
        self.buffer_ready = true;
        let mut r: Vec<Request> = Vec::new();
        if self.configured {
            r.push(Request::Attach);
            r.push(Request::Commit);
        }
        assert(r@ =~= present_reply(old(self)@));
        r
    }

    /// One turn of the event loop after the server's events were handled: the
    /// queued events in arrival order, then one redraw. The queue is left empty.
    pub fn poll(&mut self) -> (r: Vec<WindowEvent>)
        ensures
            r@ == poll_events(old(self)@),
            final(self)@ == poll_state(old(self)@),
    {
        let mut r: Vec<WindowEvent> = Vec::new();
        std::mem::swap(&mut r, &mut self.pending_events);
        r.push(WindowEvent::Draw);
        assert(self.pending_events@ =~= Seq::<WindowEvent>::empty());
        r
    }

    pub fn width(&self) -> (r: u32)
        ensures
            r == self.width,
    {
        self.width
    }

    pub fn height(&self) -> (r: u32)
        ensures
            r == self.height,
    {
        self.height
    }

    pub fn is_running(&self) -> (r: bool)
        ensures
            r == self.running,
    {
        self.running
    }

    /// Stops the loop. Returns whether the window was running, that is whether
    /// outgoing requests are to be flushed now; closing a closed window does
    /// nothing.
    pub fn close(&mut self) -> (r: bool)
        ensures
            r == old(self).running,
            final(self)@ == (WindowModel { running: false, ..old(self)@ }),
    {
        let was_running = self.running;
        self.running = false;
        was_running
    }
}

proof fn lemma_run_attach_after_ack(m: WindowModel, log: Seq<Request>, inputs: Seq<Input>)
    requires
        attach_after_ack(log),
        m.configured ==> has_ack(log),
    ensures
        attach_after_ack(log + run_requests(m, inputs)),
    decreases inputs.len(),
{
    if inputs.len() > 0 {
        let i0 = inputs[0];
        let step = input_requests(m, i0);
        let m1 = input_state(m, i0);
        let log1 = log + step;
        assert forall|i: int| 0 <= i < log1.len() && #[trigger] log1[i] is Attach implies exists|j: int|
            0 <= j < i && #[trigger] log1[j] is AckConfigure by {
            if i < log.len() {
                assert(log1[i] == log[i]);
                let j = choose|j: int| 0 <= j < i && #[trigger] log[j] is AckConfigure;
                assert(log1[j] == log[j]);
            } else {
                match i0 {
                    Input::Event(ProtocolEvent::Configure { serial }) => {
                        assert(log1[log.len() as int] is AckConfigure);
                    },
                    Input::Present => {
                        let j = choose|j: int| 0 <= j < log.len() && #[trigger] log[j] is AckConfigure;
                        assert(log1[j] == log[j]);
                    },
                    Input::Event(ProtocolEvent::SeatCapabilities { keyboard }) => {
                        assert(step.len() == 0 || step[0] is GetKeyboard);
                    },
                    _ => {
                        assert(step.len() == 0 || step[0] is Pong);
                    },
                }
            }
        }
        if m1.configured {
            if m.configured {
                let j = choose|j: int| 0 <= j < log.len() && #[trigger] log[j] is AckConfigure;
                assert(log1[j] == log[j]);
            } else {
                assert(log1[log.len() as int] is AckConfigure);
            }
        }
        lemma_run_attach_after_ack(m1, log1, inputs.drop_first());
        assert(log1 + run_requests(m1, inputs.drop_first()) =~= log + run_requests(m, inputs));
    }
}

/// Whatever the server sends and whenever the application presents a buffer, no
/// buffer is attached to the surface before a configure has been acknowledged:
/// over the requests that set the window up and all that follow.
pub proof fn lemma_attach_after_ack(attribs: WindowAttribs, globals: Globals, inputs: Seq<Input>)
    ensures
        attach_after_ack(
            startup_requests(attribs, globals) + run_requests(initial_state(attribs), inputs),
        ),
{
    let s = startup_requests(attribs, globals);
    assert forall|i: int| 0 <= i < s.len() implies !(#[trigger] s[i] is Attach) by {}
    lemma_run_attach_after_ack(initial_state(attribs), s, inputs);
}

/// `events` holds exactly one `Close`, at index `k`.
pub open spec fn only_close_at(events: Seq<WindowEvent>, k: int) -> bool {
    &&& 0 <= k < events.len()
    &&& events[k] is Close
    &&& forall|i: int| 0 <= i < events.len() && i != k ==> !(#[trigger] events[i] is Close)
}

proof fn lemma_no_new_close(m: WindowModel, k: int, inputs: Seq<Input>)
    requires
        !m.running,
        only_close_at(m.pending, k),
        forall|i: int| 0 <= i < inputs.len() ==> #[trigger] inputs[i] != Input::Event(ProtocolEvent::Close),
    ensures
        !run_state(m, inputs).running,
        only_close_at(run_state(m, inputs).pending, k),
    decreases inputs.len(),
{
    if inputs.len() > 0 {
        let m1 = input_state(m, inputs[0]);
        assert(inputs[0] != Input::Event(ProtocolEvent::Close));
        assert forall|i: int| 0 <= i < m1.pending.len() && i != k implies !(
        #[trigger] m1.pending[i] is Close) by {
            if i < m.pending.len() {
                assert(m1.pending[i] == m.pending[i]);
            }
        }
        assert forall|i: int| 0 <= i < inputs.drop_first().len() implies #[trigger] inputs.drop_first()[i]
            != Input::Event(ProtocolEvent::Close) by {
            assert(inputs.drop_first()[i] == inputs[i + 1]);
        }
        lemma_no_new_close(m1, k, inputs.drop_first());
    }
}

/// A close request from the server ends the loop and is delivered as exactly one
/// `Close` event at the next poll, after the events queued before it, whatever
/// other events and buffers arrive after it in the same turn.
pub proof fn lemma_close_delivered_once(m: WindowModel, later: Seq<Input>)
    requires
        forall|i: int| 0 <= i < m.pending.len() ==> !(#[trigger] m.pending[i] is Close),
        forall|i: int| 0 <= i < later.len() ==> #[trigger] later[i] != Input::Event(ProtocolEvent::Close),
    ensures
        !run_state(event_state(m, ProtocolEvent::Close), later).running,
        only_close_at(
            poll_events(run_state(event_state(m, ProtocolEvent::Close), later)),
            m.pending.len() as int,
        ),
{
    let m1 = event_state(m, ProtocolEvent::Close);
    let k = m.pending.len() as int;
    assert forall|i: int| 0 <= i < m1.pending.len() && i != k implies !(
    #[trigger] m1.pending[i] is Close) by {
        assert(m1.pending[i] == m.pending[i]);
    }
    lemma_no_new_close(m1, k, later);
    let d = poll_events(run_state(m1, later));
    let p = run_state(m1, later).pending;
    assert forall|i: int| 0 <= i < d.len() && i != k implies !(#[trigger] d[i] is Close) by {
        if i < p.len() {
            assert(d[i] == p[i]);
        }
    }
}

} // verus!
