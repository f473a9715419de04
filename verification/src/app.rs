//! The application object: the owner of a created instance, and the rules of
//! its event loop.

use vstd::prelude::*;
use crate::error::BootstrapError;
use crate::request::{InstanceRequest, RequestView};

verus! {

/// Where the owner of an instance stands between creation and release.
#[derive(Clone, Copy, Debug, PartialEq, Eq, Structural)]
pub enum Lifecycle {
    /// The instance exists and frames are drawn.
    Running,
    /// A close request was seen: no frame is drawn any more, and the instance
    /// is about to be released.
    ShuttingDown,
    /// The instance was released. Nothing may refer to it again.
    Destroyed,
}

/// What the window system reports to the event loop, as far as the loop tells
/// the reports apart.
#[derive(Clone, Copy, Debug, PartialEq, Eq, Structural)]
pub enum LoopEvent {
    /// All pending events were handled: a frame is due.
    MainEventsCleared,
    /// The user asked to close the window.
    CloseRequested,
    /// Raw input from a device.
    DeviceEvent,
    /// All redraws were handled.
    RedrawEventsCleared,
    /// A new batch of events begins.
    NewEvents,
    /// Anything else.
    Other,
}

/// What the event loop does about a report.
#[derive(Clone, Copy, Debug, PartialEq, Eq, Structural)]
pub enum LoopAction {
    /// Draw a frame.
    Render,
    /// Release the instance, then leave the loop.
    Teardown,
    /// Leave the loop; there is nothing left to release.
    Exit,
    /// Nothing.
    Ignore,
    /// Print the report.
    Report,
}

/// The mathematical content of an `App`.
pub struct AppView {
    pub request: RequestView,
    pub state: Lifecycle,
}

impl AppView {
    /// The owner of an instance that was just created from `request`.
    pub open spec fn created(request: RequestView) -> AppView {
        AppView { request, state: Lifecycle::Running }
    }

    /// Whether the instance still exists.
    pub open spec fn live(self) -> bool {
        self.state != Lifecycle::Destroyed
    }

    /// The owner after the release of its instance.
    pub open spec fn destroyed(self) -> AppView {
        AppView { state: Lifecycle::Destroyed, ..self }
    }

    /// The owner after a report, and what the loop does about the report.
    /// While running, a due frame is drawn and a close request starts the
    /// shutdown. Afterwards no frame is drawn and nothing is released again.
    pub open spec fn on_event(self, event: LoopEvent) -> (AppView, LoopAction) {
        match event {
            LoopEvent::MainEventsCleared => if self.state == Lifecycle::Running {
                (self, LoopAction::Render)
            } else {
                (self, LoopAction::Report)
            },
            LoopEvent::CloseRequested => if self.state == Lifecycle::Running {
                (AppView { state: Lifecycle::ShuttingDown, ..self }, LoopAction::Teardown)
            } else {
                (self, LoopAction::Exit)
            },
            LoopEvent::DeviceEvent | LoopEvent::RedrawEventsCleared | LoopEvent::NewEvents => (
                self,
                LoopAction::Ignore,
            ),
            LoopEvent::Other => (self, LoopAction::Report),
        }
    }
}

/// The owner of a created instance.
#[derive(Debug)]
pub struct App {
    request: InstanceRequest,
    state: Lifecycle,
}

impl View for App {
    type V = AppView;

    closed spec fn view(&self) -> AppView {
        AppView { request: self.request@, state: self.state }
    }
}

impl App {
    /// The owner of an instance that was just created from `request`.
    pub fn new(request: InstanceRequest) -> (app: App)
        ensures
            app@ == AppView::created(request@),
    {
        App { request, state: Lifecycle::Running }
    }

    /// Draws a frame. There is nothing to draw yet.
    pub fn render(&mut self) -> (outcome: Result<(), BootstrapError>)
        ensures
            outcome == Ok::<(), BootstrapError>(()),
            final(self)@ == old(self)@,
    {
        Ok(())
    }

    /// Records the release of the instance. The instance must still exist:
    /// it is released once.
    pub fn destroy(&mut self)
        requires
            old(self)@.live(),
        ensures
            final(self)@ == old(self)@.destroyed(),
    {
        self.state = Lifecycle::Destroyed;
    }

    /// Takes a report of the window system and says what the loop does
    /// about it.
    pub fn on_event(&mut self, event: LoopEvent) -> (action: LoopAction)
        ensures
            (final(self)@, action) == old(self)@.on_event(event),
    {
        match event {
            LoopEvent::MainEventsCleared => {
                if self.state == Lifecycle::Running {
                    LoopAction::Render
                } else {
                    LoopAction::Report
                }
            },
            LoopEvent::CloseRequested => {
                if self.state == Lifecycle::Running {
                    self.state = Lifecycle::ShuttingDown;
                    LoopAction::Teardown
                } else {
                    LoopAction::Exit
                }
            },
            LoopEvent::DeviceEvent | LoopEvent::RedrawEventsCleared | LoopEvent::NewEvents => {
                LoopAction::Ignore
            },
            LoopEvent::Other => LoopAction::Report,
        }
    }

    /// Where the owner stands.
    pub fn state(&self) -> (state: Lifecycle)
        ensures
            state == self@.state,
    {
        self.state
    }

    /// Whether the instance still exists.
    pub fn is_live(&self) -> (live: bool)
        ensures
            live == self@.live(),
    {
        self.state != Lifecycle::Destroyed
    }

    /// What the instance was created with.
    pub fn request(&self) -> (request: &InstanceRequest)
        ensures
            request@ == self@.request,
    {
        &self.request
    }
}

/// Data of the application beside its instance. There is none yet.
#[derive(Debug, Default)]
pub struct AppData {}

impl Clone for AppData {
    fn clone(&self) -> (copy: AppData)
        ensures
            copy == *self,
    {
        AppData {  }
    }
}

/// An instance is released once: after its release the owner is not live, so
/// nothing can ask for the release again.
pub proof fn lemma_destroy_once(app: AppView)
    requires
        app.live(),
    ensures
        !app.destroyed().live(),
        app.destroyed().request == app.request,
{
}

/// The event loop asks for the release at most once and never after it: only
/// a running owner draws or is told to release, it is told so by leaving the
/// running state, and no report brings a released instance back.
pub proof fn lemma_loop_releases_once(app: AppView, event: LoopEvent)
    ensures
        ({
            let (next, action) = app.on_event(event);
            &&& next.request == app.request
            &&& action == LoopAction::Render ==> app.state == Lifecycle::Running && next == app
            &&& action == LoopAction::Teardown ==> app.state == Lifecycle::Running && next.state
                == Lifecycle::ShuttingDown
            &&& app.state != Lifecycle::Running ==> next == app
            &&& next.live() == app.live()
        }),
{
}

} // verus!
