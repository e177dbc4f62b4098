use vstd::prelude::*;

use crate::draw::{Color, DrawState, DrawStateView};
use crate::geometry::GeometryView;
use crate::surface::{drawable, resized, SurfaceSize};

verus! {

/// The bit pattern of `1.0_f64`: the channels of the initial white background.
pub const ONE_BITS: u64 = 0x3ff0_0000_0000_0000;

/// Whether the render loop still runs.
#[derive(Clone, Copy, Debug, PartialEq, Eq, Structural)]
pub enum LoopState {
    Running,
    Exited,
}

/// The keys the loop tells apart.
#[derive(Clone, Copy, Debug, PartialEq, Eq, Structural)]
pub enum Key {
    Escape,
    Other,
}

/// A window-system event addressed to the host's window, or an idle tick.
#[derive(Clone, Copy, Debug, PartialEq, Eq, Structural)]
pub enum Event {
    CloseRequested,
    Keyboard { key: Key, pressed: bool },
    Resized(SurfaceSize),
    RedrawRequested,
    /// The event queue has drained: time to ask for the next redraw.
    AboutToWait,
    Other,
}

/// Why a frame could not be rendered.
#[derive(Clone, Copy, Debug, PartialEq, Eq, Structural)]
pub enum SurfaceError {
    Lost,
    Outdated,
    OutOfMemory,
    Timeout,
}

/// What the host asks of the window and GPU side after an event.
#[derive(Clone, Copy, Debug, PartialEq, Eq, Structural)]
pub enum Action {
    Nothing,
    /// Stop the loop: nothing more is updated, viewed or rendered.
    Exit,
    /// Reconfigure the surface at this size.
    Reconfigure(SurfaceSize),
    /// Run the model update, then the view, then render the resulting frame.
    Frame,
    /// Ask the window for a redraw.
    RequestRedraw,
    /// Tell the user about a surface error that the next frame should mend.
    Report(SurfaceError),
}

/// A close request, or the Escape key going down.
pub open spec fn is_exit_event(e: Event) -> bool {
    e is CloseRequested || e == (Event::Keyboard { key: Key::Escape, pressed: true })
}

pub open spec fn next_state(s: LoopState, e: Event) -> LoopState {
    if s == LoopState::Exited || is_exit_event(e) {
        LoopState::Exited
    } else {
        LoopState::Running
    }
}

/// Whether event `e` in state `s` starts an update, view and render.
pub open spec fn requests_frame(s: LoopState, e: Event) -> bool {
    s == LoopState::Running && e is RedrawRequested
}

pub open spec fn action_for(s: LoopState, e: Event) -> Action {
    if s == LoopState::Exited {
        Action::Nothing
    } else if is_exit_event(e) {
        Action::Exit
    } else {
        match e {
            Event::Resized(n) => if drawable(n) {
                Action::Reconfigure(n)
            } else {
                Action::Nothing
            },
            Event::RedrawRequested => Action::Frame,
            Event::AboutToWait => Action::RequestRedraw,
            _ => Action::Nothing,
        }
    }
}

pub open spec fn size_after(s: LoopState, size: SurfaceSize, e: Event) -> SurfaceSize {
    match e {
        Event::Resized(n) => if s == LoopState::Running {
            resized(size, n)
        } else {
            size
        },
        _ => size,
    }
}

/// The state after the events `es`, one after another, from state `s`.
pub open spec fn state_after(s: LoopState, es: Seq<Event>) -> LoopState
    decreases es.len(),
{
    if es.len() == 0 {
        s
    } else {
        state_after(next_state(s, es[0]), es.drop_first())
    }
}

/// Whether any of the events `es`, from state `s`, starts a frame.
pub open spec fn any_frame(s: LoopState, es: Seq<Event>) -> bool
    decreases es.len(),
{
    if es.len() == 0 {
        false
    } else {
        requests_frame(s, es[0]) || any_frame(next_state(s, es[0]), es.drop_first())
    }
}

/// Once the loop has exited, no event starts a frame or brings it back.
pub proof fn lemma_exited_stays(es: Seq<Event>)
    ensures
        state_after(LoopState::Exited, es) == LoopState::Exited,
        !any_frame(LoopState::Exited, es),
    decreases es.len(),
{
    if es.len() > 0 {
        lemma_exited_stays(es.drop_first());
    }
}

/// A close request or an Escape press, in any state, ends the loop, and no
/// later event starts an update, view or render.
pub proof fn lemma_exit_is_final(s: LoopState, e: Event, later: Seq<Event>)
    requires
        is_exit_event(e),
    ensures
        next_state(s, e) == LoopState::Exited,
        action_for(s, e) is Exit || action_for(s, e) is Nothing,
        state_after(s, seq![e] + later) == LoopState::Exited,
        !any_frame(s, seq![e] + later),
{
    let es = seq![e] + later;
    assert(es.drop_first() =~= later);
    lemma_exited_stays(later);
}

/// The loop's state after a render outcome.
pub open spec fn state_after_render(s: LoopState, result: Result<(), SurfaceError>) -> LoopState {
    if result == Err::<(), SurfaceError>(SurfaceError::OutOfMemory) {
        LoopState::Exited
    } else {
        s
    }
}

/// What the host asks for after a render outcome: a lost surface is
/// reconfigured at its current size, running out of memory ends the loop, and
/// an outdated surface or a timeout is reported and left to the next frame.
pub open spec fn action_after_render(
    s: LoopState,
    size: SurfaceSize,
    result: Result<(), SurfaceError>,
) -> Action {
    if s == LoopState::Exited {
        Action::Nothing
    } else {
        match result {
            Ok(()) => Action::Nothing,
            Err(SurfaceError::Lost) => if drawable(size) {
                Action::Reconfigure(size)
            } else {
                Action::Nothing
            },
            Err(SurfaceError::OutOfMemory) => Action::Exit,
            Err(e) => Action::Report(e),
        }
    }
}

/// The decisions of the render loop: its state, the surface size, and the
/// frame that the last view handed over for rendering.
pub struct Host {
    state: LoopState,
    size: SurfaceSize,
    draw_state: DrawState,
}

/// The state, the surface size and the current frame.
pub type HostView = (LoopState, SurfaceSize, DrawStateView);

impl View for Host {
    type V = HostView;

    closed spec fn view(&self) -> HostView {
        (self.state, self.size, self.draw_state@)
    }
}

impl Host {
    /// A running host for a surface of `size`, with an empty white frame.
    pub fn new(size: SurfaceSize) -> (r: Host)
        ensures
            r@ == (
                LoopState::Running,
                size,
                (Color { r: ONE_BITS, g: ONE_BITS, b: ONE_BITS }, Seq::<GeometryView>::empty()),
            ),
    {
        let white = Color::new(ONE_BITS, ONE_BITS, ONE_BITS);
        Host { state: LoopState::Running, size, draw_state: DrawState::new(white) }
    }

    pub fn state(&self) -> (r: LoopState)
        ensures
            r == self@.0,
    {
        self.state
    }

    pub fn size(&self) -> (r: SurfaceSize)
        ensures
            r == self@.1,
    {
        self.size
    }

    /// Applies a resize request to the surface size and says whether the
    /// surface must be reconfigured.
    pub fn resize(&mut self, requested: SurfaceSize) -> (reconfigure: bool)
        ensures
            reconfigure == drawable(requested),
            final(self)@ == (old(self)@.0, resized(old(self)@.1, requested), old(self)@.2),
    {
        if requested.is_drawable() {
            self.size = requested;
            true
        } else {
            false
        }
    }

    /// Decides what an event asks for, and moves the loop on.
    pub fn handle(&mut self, event: Event) -> (r: Action)
        ensures
            r == action_for(old(self)@.0, event),
            final(self)@ == (
                next_state(old(self)@.0, event),
                size_after(old(self)@.0, old(self)@.1, event),
                old(self)@.2,
            ),
    {
        if self.state == LoopState::Exited {
            return Action::Nothing;
        }
        match event {
            Event::CloseRequested => {
                self.state = LoopState::Exited;
                Action::Exit
            },
            Event::Keyboard { key: Key::Escape, pressed: true } => {
                self.state = LoopState::Exited;
                Action::Exit
            },
            Event::Resized(requested) => {
                if self.resize(requested) {
                    Action::Reconfigure(requested)
                } else {
                    Action::Nothing
                }
            },
            Event::RedrawRequested => Action::Frame,
            Event::AboutToWait => Action::RequestRedraw,
            _ => Action::Nothing,
        }
    }

    /// Decides what a render outcome asks for, and moves the loop on.
    pub fn after_render(&mut self, result: Result<(), SurfaceError>) -> (r: Action)
        ensures
            r == action_after_render(old(self)@.0, old(self)@.1, result),
            final(self)@ == (
                if old(self)@.0 == LoopState::Exited {
                    LoopState::Exited
                } else {
                    state_after_render(old(self)@.0, result)
                },
                old(self)@.1,
                old(self)@.2,
            ),
    {
        if self.state == LoopState::Exited {
            return Action::Nothing;
        }
        match result {
            Ok(()) => Action::Nothing,
            Err(SurfaceError::Lost) => {
                let size = self.size;
                if self.resize(size) {
                    Action::Reconfigure(size)
                } else {
                    Action::Nothing
                }
            },
            Err(SurfaceError::OutOfMemory) => {
                self.state = LoopState::Exited;
                Action::Exit
            },
            Err(e) => Action::Report(e),
        }
    }

    /// A fresh, empty frame that carries the current clear colour forward.
    pub fn draw(&self) -> (r: DrawState)
        ensures
            r@ == (self@.2.0, Seq::<GeometryView>::empty()),
    {
        DrawState::new(self.draw_state.background_color())
    }

    /// Makes `draw` the frame to render.
    pub fn draw_to_frame(&mut self, draw: DrawState)
        ensures
            final(self)@ == (old(self)@.0, old(self)@.1, draw@),
    {
        self.draw_state = draw;
    }

    /// The frame to render.
    pub fn draw_state(&self) -> (r: &DrawState)
        ensures
            r@ == self@.2,
    {
        &self.draw_state
    }
}

} // verus!
