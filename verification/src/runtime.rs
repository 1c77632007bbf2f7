//! The application-level lifecycle runtime: a two-state machine that starts,
//! stops and re-starts the realtime audio stream in response to UI messages,
//! holding at most one live stream handle at any time, and forwarding every
//! other message to the main control.
//!
//! Acquiring and releasing the stream is the host's work: a runtime step says
//! what to do ([`AudioCommand`]), the host does it against its audio backend
//! and hands the outcome back. The machine itself never touches the stream.

use vstd::prelude::*;

use crate::builder::Graph;
use crate::widgets::{Visual, Widget};

verus! {

/// A message routed through the runtime: a lifecycle command for the realtime
/// stream, or an interaction event for the main control.
#[derive(Clone, Copy, Debug)]
pub enum IcedRuntimeMessage<M> {
    /// Start the realtime stream if none is live.
    StartAudio,
    /// Stop the realtime stream if one is live.
    StopAudio,
    /// An interaction event for the main control.
    Message(M),
}

/// What went wrong around the realtime stream or the surrounding UI host.
#[derive(Clone, Debug, PartialEq, Eq)]
pub enum IcedRuntimeError {
    /// The backend could not produce a running stream. The lifecycle stays
    /// idle; a later start may retry.
    StreamAcquisition(String),
    /// Releasing a running stream failed. The failure is surfaced, but the
    /// lifecycle still counts the stream as gone.
    StreamStop(String),
    /// The UI host failed; fatal to the surrounding event loop.
    UiFramework(String),
}

/// The handle to the one live realtime stream, as issued by the audio backend
/// when acquisition succeeds.
#[derive(Clone, Copy, Debug, PartialEq, Eq, Structural)]
pub struct StreamHandle {
    pub id: u64,
}

/// The stream's lifecycle: either no stream exists, or exactly one does and
/// its handle is held here. Holding the handle only inside `Running` makes a
/// second live handle — or a handle without a running stream —
/// unrepresentable.
#[derive(Clone, Copy, Debug, PartialEq, Eq, Structural)]
pub enum Lifecycle {
    /// No stream exists.
    Idle,
    /// Exactly one stream is live, with its handle.
    Running(StreamHandle),
}

/// What the host must do to the realtime stream after a runtime step.
#[derive(Clone, Copy, Debug, PartialEq, Eq, Structural)]
pub enum AudioCommand {
    /// Nothing to do.
    Nothing,
    /// Acquire a stream from the backend and hand the outcome to
    /// [`IcedRuntimeApp::finish_start`].
    Acquire,
    /// Stop the stream behind this handle and surface any failure.
    Release(StreamHandle),
}

/// The command a start request issues: acquire only when idle, so a live
/// stream is never doubled.
pub open spec fn start_command(s: Lifecycle) -> AudioCommand {
    match s {
        Lifecycle::Idle => AudioCommand::Acquire,
        Lifecycle::Running(_) => AudioCommand::Nothing,
    }
}

/// The command a stop request issues: release the held handle only when one
/// is held.
pub open spec fn stop_command(s: Lifecycle) -> AudioCommand {
    match s {
        Lifecycle::Idle => AudioCommand::Nothing,
        Lifecycle::Running(h) => AudioCommand::Release(h),
    }
}

/// The lifecycle after a stop request: idle, whatever it was. A failed
/// release is surfaced by the host but the stream still counts as gone,
/// so the UI is never stranded retrying stop forever.
pub open spec fn lifecycle_after_stop(s: Lifecycle) -> Lifecycle {
    Lifecycle::Idle
}

/// The lifecycle once a start request's acquisition outcome is in: running
/// with the issued handle on success, unchanged on failure.
pub open spec fn lifecycle_after_start(
    s: Lifecycle,
    outcome: Result<StreamHandle, IcedRuntimeError>,
) -> Lifecycle {
    match outcome {
        Ok(h) => Lifecycle::Running(h),
        Err(_) => s,
    }
}

/// The application runtime: it owns the graph, the main control and the
/// stream lifecycle, and routes every UI message either to a lifecycle
/// transition or to the control.
pub struct IcedRuntimeApp<W: Widget> {
    state: Lifecycle,
    graph: Graph,
    main_widget: W,
}

impl<W: Widget> IcedRuntimeApp<W> {
    /// The stream lifecycle as held right now.
    pub closed spec fn lifecycle(&self) -> Lifecycle {
        self.state
    }

    /// The graph the stream evaluates.
    pub closed spec fn spec_graph(&self) -> Graph {
        self.graph
    }

    /// The main control.
    pub closed spec fn widget(&self) -> W {
        self.main_widget
    }

    pub open spec fn wf(&self) -> bool {
        self.widget().wf()
    }

    /// A fresh runtime: no stream exists yet.
    pub fn new(graph: Graph, main_widget: W) -> (app: IcedRuntimeApp<W>)
        requires
            main_widget.wf(),
        ensures
            app.lifecycle() == Lifecycle::Idle,
            app.spec_graph() == graph,
            app.widget() == main_widget,
            app.wf(),
    {
        IcedRuntimeApp { state: Lifecycle::Idle, graph, main_widget }
    }

    /// The main control, for rendering or inspection by the host.
    pub fn main_widget(&self) -> (r: &W)
        ensures
            *r == self.widget(),
    {
        &self.main_widget
    }

    /// Whether a stream is live right now.
    pub fn is_running(&self) -> (r: bool)
        ensures
            r == (self.lifecycle() is Running),
    {
        match self.state {
            Lifecycle::Idle => false,
            Lifecycle::Running(_) => true,
        }
    }

    /// The window title.
    pub fn title(&self) -> (r: String)
        ensures
            r@ == "raug"@,
    {
        "raug".to_owned()
    }

    /// Routes one UI message. A start or stop request moves the lifecycle and
    /// tells the host what to do to the stream; starting while running and
    /// stopping while idle are no-ops, not errors. Any other message goes to
    /// the main control and leaves the lifecycle alone.
    pub fn update(&mut self, message: IcedRuntimeMessage<W::Message>) -> (cmd: AudioCommand)
        requires
            old(self).wf(),
        ensures
            final(self).wf(),
            final(self).spec_graph() == old(self).spec_graph(),
            message is StartAudio ==> {
                &&& final(self).lifecycle() == old(self).lifecycle()
                &&& cmd == start_command(old(self).lifecycle())
                &&& final(self).widget() == old(self).widget()
            },
            message is StopAudio ==> {
                &&& final(self).lifecycle() == lifecycle_after_stop(old(self).lifecycle())
                &&& cmd == stop_command(old(self).lifecycle())
                &&& final(self).widget() == old(self).widget()
            },
            message is Message ==> {
                &&& final(self).lifecycle() == old(self).lifecycle()
                &&& cmd == AudioCommand::Nothing
                &&& final(self).widget().slot_descs() == old(self).widget().slot_descs()
            },
            message matches IcedRuntimeMessage::Message(m) ==> final(self).widget() == old(
                self,
            ).widget().spec_updated(m),
    {
        match message {
            IcedRuntimeMessage::StartAudio => {
                match self.state {
                    Lifecycle::Idle => AudioCommand::Acquire,
                    Lifecycle::Running(_) => AudioCommand::Nothing,
                }
            }
            IcedRuntimeMessage::StopAudio => {
                let cmd = match self.state {
                    Lifecycle::Idle => AudioCommand::Nothing,
                    Lifecycle::Running(h) => AudioCommand::Release(h),
                };
                self.state = Lifecycle::Idle;
                cmd
            }
            IcedRuntimeMessage::Message(m) => {
                self.main_widget.update(m);
                AudioCommand::Nothing
            }
        }
    }

    /// Delivers the acquisition outcome after an [`AudioCommand::Acquire`]:
    /// on success the runtime holds the one live handle; on failure it stays
    /// idle, the error is surfaced — not panicked on — and a later start may
    /// retry.
    pub fn finish_start(&mut self, outcome: Result<StreamHandle, IcedRuntimeError>) -> (r: Result<
        (),
        IcedRuntimeError,
    >)
        requires
            old(self).wf(),
            old(self).lifecycle() is Idle,
        ensures
            final(self).wf(),
            final(self).spec_graph() == old(self).spec_graph(),
            final(self).widget() == old(self).widget(),
            final(self).lifecycle() == lifecycle_after_start(old(self).lifecycle(), outcome),
            outcome matches Ok(h) ==> final(self).lifecycle() == Lifecycle::Running(h) && r is Ok,
            outcome matches Err(e) ==> final(self).lifecycle() is Idle && r == Err::<
                (),
                IcedRuntimeError,
            >(e),
    {
        match outcome {
            Ok(h) => {
                self.state = Lifecycle::Running(h);
                Ok(())
            }
            Err(e) => Err(e),
        }
    }

    /// What the window shows: a start button, a stop button, then the main
    /// control's own visual description. Rendering is pure: the runtime is
    /// left exactly as it was.
    pub fn view(&self) -> (v: Vec<Visual>)
        requires
            self.wf(),
        ensures
            v@.len() == 3,
            (v@[0] matches Visual::Button { label } && label@ == "Start Audio"@),
            (v@[1] matches Visual::Button { label } && label@ == "Stop Audio"@),
            v@[2] == self.widget().spec_view(),
    {
        let mut v: Vec<Visual> = Vec::new();
        v.push(Visual::Button { label: "Start Audio".to_owned() });
        v.push(Visual::Button { label: "Stop Audio".to_owned() });
        v.push(self.main_widget.view());
        v
    }
}

/// The entry bundle: a graph and the main control, ready to be driven by the
/// host event loop.
pub struct IcedRuntime<W: Widget> {
    graph: Graph,
    main_widget: W,
}

impl<W: Widget> IcedRuntime<W> {
    /// The graph to run.
    pub closed spec fn spec_graph(&self) -> Graph {
        self.graph
    }

    /// The main control.
    pub closed spec fn widget(&self) -> W {
        self.main_widget
    }

    pub fn new(graph: Graph, main_widget: W) -> (rt: IcedRuntime<W>)
        ensures
            rt.spec_graph() == graph,
            rt.widget() == main_widget,
    {
        IcedRuntime { graph, main_widget }
    }

    /// Turns the bundle into the runtime the host event loop drives, with no
    /// stream live yet. The host owns the loop: it renders `view`, feeds
    /// every UI message to `update`, performs the returned commands against
    /// its audio backend, and hands acquisition outcomes to `finish_start`.
    pub fn into_app(self) -> (app: IcedRuntimeApp<W>)
        requires
            self.widget().wf(),
        ensures
            app.lifecycle() == Lifecycle::Idle,
            app.spec_graph() == self.spec_graph(),
            app.widget() == self.widget(),
            app.wf(),
    {
        let IcedRuntime { graph, main_widget } = self;
        IcedRuntimeApp::new(graph, main_widget)
    }
}

/// Lifecycle idempotence, start side: from idle, the first start request
/// acquires a stream; once acquisition has succeeded, a further start request
/// acquires nothing and the same handle stays held. Two starts in a row thus
/// perform exactly one acquisition.
pub proof fn lemma_start_idempotent(h: StreamHandle)
    ensures
        start_command(Lifecycle::Idle) == AudioCommand::Acquire,
        lifecycle_after_start(Lifecycle::Idle, Ok(h)) == Lifecycle::Running(h),
        start_command(Lifecycle::Running(h)) == AudioCommand::Nothing,
{
}

/// Lifecycle idempotence, stop side: from running, the first stop request
/// releases exactly the held handle and idles the runtime; a further stop
/// request, and any stop while idle, releases nothing and stays idle. Two
/// stops in a row thus perform exactly one release.
pub proof fn lemma_stop_idempotent(h: StreamHandle)
    ensures
        stop_command(Lifecycle::Running(h)) == AudioCommand::Release(h),
        lifecycle_after_stop(Lifecycle::Running(h)) == Lifecycle::Idle,
        stop_command(Lifecycle::Idle) == AudioCommand::Nothing,
        lifecycle_after_stop(Lifecycle::Idle) == Lifecycle::Idle,
{
}

/// Start-failure recovery: a failed acquisition leaves the runtime idle, and
/// an idle runtime issues an acquisition for the next start request — a
/// failure never locks starting out.
pub proof fn lemma_start_failure_recovery(e: IcedRuntimeError)
    ensures
        lifecycle_after_start(Lifecycle::Idle, Err(e)) == Lifecycle::Idle,
        start_command(lifecycle_after_start(Lifecycle::Idle, Err(e))) == AudioCommand::Acquire,
{
}

} // verus!
