//! The decisions of the event loop.
//!
//! The caller waits for the window's next event, names it as an `Event` and
//! hands it to `Viewer::handle`, which updates the viewer and answers with the
//! `Action` to perform. The loop ends with the action `Shutdown`.

use vstd::prelude::*;

use crate::compositor::{lemma_split_tiles, render, Frame};
use crate::dimensions::Dimensions;
use crate::split::{clamped, stored_offset, SplitState};

verus! {

/// Whether the event loop still runs.
#[derive(Clone, Copy, Debug, PartialEq, Eq, Structural)]
pub enum LoopState {
    /// Events are handled.
    Running,
    /// The window was closed; nothing is handled any more.
    Terminated,
}

/// What the window reports.
#[derive(Clone, Copy, Debug, PartialEq, Eq, Structural)]
pub enum Event {
    /// The pointer moved; its horizontal position, in whole pixels.
    PointerMoved(i64),
    /// The frame is to be drawn again.
    RenderTick,
    /// The user asked to close the window.
    CloseRequested,
    /// The exit key was pressed.
    ExitKey,
    /// Any other input.
    Other,
}

/// What the caller is to do after an event.
#[derive(Clone, Copy, Debug, PartialEq, Eq, Structural)]
pub enum Action {
    /// Nothing; wait for the next event.
    Idle,
    /// Draw this frame.
    Draw(Frame),
    /// Leave the loop and release the textures, then the window.
    Shutdown,
}

/// The viewer as the contracts see it.
pub struct ViewerModel {
    /// The dimensions that both images share.
    pub dims: Dimensions,
    /// The stored cut offset, not clamped.
    pub cut: nat,
    /// Whether the loop runs.
    pub state: LoopState,
}

impl ViewerModel {
    /// The viewer at its start on images of dimensions `dims`: running, with
    /// the cut in the middle.
    pub open spec fn initial(dims: Dimensions) -> ViewerModel {
        ViewerModel { dims, cut: (dims.width / 2) as nat, state: LoopState::Running }
    }

    /// The frame that the viewer draws: the one for its cut, clamped to the
    /// images' width.
    pub open spec fn frame(self) -> Frame {
        Frame::split(clamped(self.cut, self.dims.width as nat) as u32, self.dims)
    }

    /// The viewer after `event`, and the action that the event calls for.
    ///
    /// While the loop runs: a pointer move stores the new cut, a render tick
    /// draws the frame, a close request or the exit key ends the loop, and any
    /// other input changes nothing. Once the loop has ended, no event changes
    /// anything.
    pub open spec fn step(self, event: Event) -> (ViewerModel, Action) {
        match self.state {
            LoopState::Terminated => (self, Action::Idle),
            LoopState::Running => match event {
                Event::PointerMoved(x) => (
                    ViewerModel { cut: stored_offset(x as int), ..self },
                    Action::Idle,
                ),
                Event::RenderTick => (self, Action::Draw(self.frame())),
                Event::CloseRequested | Event::ExitKey => (
                    ViewerModel { state: LoopState::Terminated, ..self },
                    Action::Shutdown,
                ),
                Event::Other => (self, Action::Idle),
            },
        }
    }
}

/// The state of a running viewer: the images' dimensions, the cut, and whether
/// the loop still runs.
#[derive(Clone, Copy, Debug, PartialEq, Eq, Structural)]
pub struct Viewer {
    dims: Dimensions,
    split: SplitState,
    state: LoopState,
}

impl View for Viewer {
    type V = ViewerModel;

    closed spec fn view(&self) -> ViewerModel {
        ViewerModel { dims: self.dims, cut: self.split@, state: self.state }
    }
}

impl Viewer {
    /// A viewer for two images of dimensions `dims`, running, with the cut in
    /// the middle.
    pub fn new(dims: Dimensions) -> (viewer: Viewer)
        ensures
            viewer@ == ViewerModel::initial(dims),
    {
        Viewer { dims, split: SplitState::centered(dims.width), state: LoopState::Running }
    }

    /// The dimensions that both images share.
    pub fn dimensions(&self) -> (dims: Dimensions)
        ensures
            dims == self@.dims,
    {
        self.dims
    }

    /// The cut as it is stored.
    pub fn split(&self) -> (split: SplitState)
        ensures
            split@ == self@.cut,
    {
        self.split
    }

    /// Whether the loop still runs.
    pub fn state(&self) -> (state: LoopState)
        ensures
            state == self@.state,
    {
        self.state
    }

    /// Takes one event, updates the viewer and says what to do.
    pub fn handle(&mut self, event: Event) -> (action: Action)
        ensures
            (final(self)@, action) == old(self)@.step(event),
    {
        match self.state {
            LoopState::Terminated => Action::Idle,
            LoopState::Running => match event {
                Event::PointerMoved(x) => {
                    self.split.update(x);
                    Action::Idle
                },
                Event::RenderTick => {
                    let cut_at: u32 = self.split.clamped_cut(self.dims.width);
                    Action::Draw(render(cut_at, self.dims))
                },
                Event::CloseRequested | Event::ExitKey => {
                    self.state = LoopState::Terminated;
                    Action::Shutdown
                },
                Event::Other => Action::Idle,
            },
        }
    }
}

/// Every frame that the viewer draws tiles the image area, wherever the
/// pointer has been.
pub proof fn lemma_drawn_frame_tiles(viewer: ViewerModel)
    ensures
        viewer.frame().tiles(viewer.dims.bounds()),
{
    let cut = clamped(viewer.cut, viewer.dims.width as nat);
    lemma_split_tiles(cut as u32, viewer.dims);
}

/// No event changes the dimensions with which the viewer started.
pub proof fn lemma_dimensions_are_fixed(viewer: ViewerModel, event: Event)
    ensures
        viewer.step(event).0.dims == viewer.dims,
{
}

/// No event brings an ended loop back: once terminated, the viewer stays as it
/// is and asks for nothing.
pub proof fn lemma_terminated_is_final(viewer: ViewerModel, event: Event)
    requires
        viewer.state == LoopState::Terminated,
    ensures
        viewer.step(event) == (viewer, Action::Idle),
{
}

/// The viewer asks for the shutdown exactly on the step that ends the loop, so
/// it asks for it once.
pub proof fn lemma_shutdown_ends_the_loop(viewer: ViewerModel, event: Event)
    ensures
        viewer.step(event).1 == Action::Shutdown <==> viewer.state == LoopState::Running
            && viewer.step(event).0.state == LoopState::Terminated,
{
}

} // verus!
