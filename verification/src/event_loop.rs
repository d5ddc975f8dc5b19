//! The decisions of the window's event loop, as a state machine: the loop
//! hands each window event, and the outcome of each step of drawing a frame,
//! to these functions, performs the command they return, and keeps the state.

use vstd::prelude::*;

verus! {

/// A pointer position, in whole pixels of the window.
#[derive(Clone, Copy, Debug, PartialEq, Eq, Structural)]
pub struct Point {
    pub x: i32,
    pub y: i32,
}

/// What the event loop remembers between events.
#[derive(Clone, Copy, Debug, PartialEq, Eq, Structural)]
pub struct LoopState {
    /// The swapchain no longer matches the window and is rebuilt before the
    /// next frame is drawn.
    pub recreate_swapchain: bool,
    /// Where the pointer was last seen over the window.
    pub pointer_position: Point,
}

/// A key, as far as the event loop tells keys apart.
#[derive(Clone, Copy, Debug, PartialEq, Eq, Structural)]
pub enum Key {
    Escape,
    /// A key that produces text: the text's first character, `None` where the
    /// text is empty.
    Character(Option<char>),
    Other,
}

/// An event of the window, as far as the event loop tells events apart.
#[derive(Clone, Copy, Debug, PartialEq, Eq, Structural)]
pub enum WindowInput {
    Resized,
    RedrawRequested,
    CloseRequested,
    Keyboard { key: Key, pressed: bool },
    CursorMoved { x: i32, y: i32 },
    CursorEntered,
    /// Any other event, of the window or of the event loop itself.
    Other,
}

/// What the event loop does for one window event.
#[derive(Clone, Copy, Debug, PartialEq, Eq, Structural)]
pub enum Command {
    Nothing,
    /// Draw and present a frame.
    DrawFrame,
    /// Leave the event loop.
    Exit,
    /// Give the window the keyboard focus.
    FocusWindow,
    /// A pressed key produced no character: the event cannot be handled.
    Fail,
}

/// How acquiring the next swapchain image went.
#[derive(Clone, Copy, Debug, PartialEq, Eq, Structural)]
pub enum AcquireOutcome {
    Acquired { index: u32, suboptimal: bool },
    /// The swapchain no longer matches the surface.
    OutOfDate,
    /// Any other error of the device.
    Failed,
}

/// What follows the acquisition of a swapchain image.
#[derive(Clone, Copy, Debug, PartialEq, Eq, Structural)]
pub enum FrameStep {
    /// Render into the swapchain image of this index and present it.
    Render(u32),
    /// Give up this frame and the rest of the event.
    Abandon,
    /// The error cannot be handled.
    Fail,
}

/// How submitting and presenting a frame went.
#[derive(Clone, Copy, Debug, PartialEq, Eq, Structural)]
pub enum PresentOutcome {
    Presented,
    /// The swapchain no longer matches the surface.
    OutOfDate,
    /// Any other error of the device.
    Failed,
}

/// The state before any event.
pub open spec fn initial_state() -> LoopState {
    LoopState { recreate_swapchain: false, pointer_position: Point { x: 0, y: 0 } }
}

/// The state and command that follow a window event.
pub open spec fn input_step(s: LoopState, input: WindowInput) -> (LoopState, Command) {
    match input {
        WindowInput::Resized => (LoopState { recreate_swapchain: true, ..s }, Command::Nothing),
        WindowInput::RedrawRequested => (s, Command::DrawFrame),
        WindowInput::CloseRequested => (s, Command::Exit),
        WindowInput::Keyboard { key, pressed } => {
            if !pressed {
                (s, Command::Nothing)
            } else {
                match key {
                    Key::Escape => (s, Command::Exit),
                    Key::Character(None) => (s, Command::Fail),
                    Key::Character(Some(c)) => (s, if c == 'q' { Command::Exit } else { Command::Nothing }),
                    Key::Other => (s, Command::Nothing),
                }
            }
        },
        WindowInput::CursorMoved { x, y } => (
            LoopState { pointer_position: Point { x, y }, ..s },
            Command::Nothing,
        ),
        WindowInput::CursorEntered => (s, Command::FocusWindow),
        WindowInput::Other => (s, Command::Nothing),
    }
}

/// The state when a frame begins, and whether the swapchain is rebuilt first.
pub open spec fn frame_begin(s: LoopState) -> (LoopState, bool) {
    (LoopState { recreate_swapchain: false, ..s }, s.recreate_swapchain)
}

/// The state and step that follow the acquisition of a swapchain image.
pub open spec fn acquire_step(s: LoopState, outcome: AcquireOutcome) -> (LoopState, FrameStep) {
    match outcome {
        AcquireOutcome::Acquired { index, suboptimal } => (
            LoopState { recreate_swapchain: s.recreate_swapchain || suboptimal, ..s },
            FrameStep::Render(index),
        ),
        AcquireOutcome::OutOfDate => (LoopState { recreate_swapchain: true, ..s }, FrameStep::Abandon),
        AcquireOutcome::Failed => (s, FrameStep::Fail),
    }
}

/// The state after a frame was presented, and whether the frame is still in
/// flight (so that the next frame waits for it).
pub open spec fn present_step(s: LoopState, outcome: PresentOutcome) -> (LoopState, bool) {
    match outcome {
        PresentOutcome::Presented => (s, true),
        PresentOutcome::OutOfDate => (LoopState { recreate_swapchain: true, ..s }, false),
        PresentOutcome::Failed => (s, false),
    }
}

/// Whether the window is asked for another frame once an event is handled.
pub open spec fn redraw_wanted(s: LoopState, app_asks: bool) -> bool {
    app_asks || s.recreate_swapchain
}

impl LoopState {
    /// The state before any event: the swapchain is fresh and the pointer
    /// stands at the origin.
    pub fn new() -> (s: LoopState)
        ensures
            s == initial_state(),
    {
        LoopState { recreate_swapchain: false, pointer_position: Point { x: 0, y: 0 } }
    }

    /// Handles a window event: a resize marks the swapchain for rebuilding, a
    /// pointer move records the position, a redraw request draws a frame, a
    /// close request, Escape or a pressed `q` leaves the loop, and the
    /// pointer entering the window focuses it.
    pub fn handle_input(&mut self, input: WindowInput) -> (c: Command)
        ensures
            (*final(self), c) == input_step(*old(self), input),
    {
        match input {
            WindowInput::Resized => {
                self.recreate_swapchain = true;
                Command::Nothing
            },
            WindowInput::RedrawRequested => Command::DrawFrame,
            WindowInput::CloseRequested => Command::Exit,
            WindowInput::Keyboard { key, pressed } => {
                if !pressed {
                    Command::Nothing
                } else {
                    match key {
                        Key::Escape => Command::Exit,
                        Key::Character(None) => Command::Fail,
                        Key::Character(Some(c)) => {
                            if c == 'q' {
                                Command::Exit
                            } else {
                                Command::Nothing
                            }
                        },
                        Key::Other => Command::Nothing,
                    }
                }
            },
            WindowInput::CursorMoved { x, y } => {
                self.pointer_position = Point { x, y };
                Command::Nothing
            },
            WindowInput::CursorEntered => Command::FocusWindow,
            WindowInput::Other => Command::Nothing,
        }
    }

    /// Begins a frame: returns whether the swapchain has to be rebuilt before
    /// drawing, and clears that mark.
    pub fn begin_frame(&mut self) -> (recreate_now: bool)
        ensures
            (*final(self), recreate_now) == frame_begin(*old(self)),
    {
        let recreate_now = self.recreate_swapchain;
        self.recreate_swapchain = false;
        recreate_now
    }

    /// Decides what follows the acquisition of a swapchain image: render into
    /// an acquired image (marking the swapchain for rebuilding where the image
    /// is suboptimal), abandon the frame when the swapchain is out of date
    /// (marking it), fail on any other error.
    pub fn after_acquire(&mut self, outcome: AcquireOutcome) -> (step: FrameStep)
        ensures
            (*final(self), step) == acquire_step(*old(self), outcome),
    {
        match outcome {
            AcquireOutcome::Acquired { index, suboptimal } => {
                if suboptimal {
                    self.recreate_swapchain = true;
                }
                FrameStep::Render(index)
            },
            AcquireOutcome::OutOfDate => {
                self.recreate_swapchain = true;
                FrameStep::Abandon
            },
            AcquireOutcome::Failed => FrameStep::Fail,
        }
    }

    /// Records how presenting went: an out-of-date swapchain is marked for
    /// rebuilding; returns whether the frame stays in flight, which it does
    /// only when it was presented.
    pub fn after_present(&mut self, outcome: PresentOutcome) -> (in_flight: bool)
        ensures
            (*final(self), in_flight) == present_step(*old(self), outcome),
    {
        match outcome {
            PresentOutcome::Presented => true,
            PresentOutcome::OutOfDate => {
                self.recreate_swapchain = true;
                false
            },
            PresentOutcome::Failed => false,
        }
    }

    /// Whether to ask the window for another frame once an event is handled:
    /// when the application asks for one, or when the swapchain is marked for
    /// rebuilding.
    pub fn wants_redraw(&self, app_asks: bool) -> (r: bool)
        ensures
            r == redraw_wanted(*self, app_asks),
    {
        app_asks || self.recreate_swapchain
    }
}

} // verus!

verus! {

/// A swapchain found out of date while acquiring an image is rebuilt when the
/// next frame begins.
pub proof fn out_of_date_image_rebuilds_next_frame(s: LoopState)
    ensures
        frame_begin(acquire_step(s, AcquireOutcome::OutOfDate).0).1,
        acquire_step(s, AcquireOutcome::OutOfDate).1 == FrameStep::Abandon,
{
}

/// A suboptimal image is still rendered into, and the swapchain is rebuilt
/// when the next frame begins.
pub proof fn suboptimal_image_rebuilds_next_frame(s: LoopState, index: u32)
    ensures
        acquire_step(s, AcquireOutcome::Acquired { index, suboptimal: true }).1 == FrameStep::Render(index),
        frame_begin(acquire_step(s, AcquireOutcome::Acquired { index, suboptimal: true }).0).1,
{
}

/// A swapchain found out of date while presenting is rebuilt when the next
/// frame begins, and the frame is not kept in flight.
pub proof fn out_of_date_present_rebuilds_next_frame(s: LoopState)
    ensures
        frame_begin(present_step(s, PresentOutcome::OutOfDate).0).1,
        !present_step(s, PresentOutcome::OutOfDate).1,
{
}

/// After a resize the window is asked for a frame, whatever the application
/// answers, and that frame rebuilds the swapchain.
pub proof fn resize_asks_for_a_rebuilt_frame(s: LoopState, app_asks: bool)
    ensures
        redraw_wanted(input_step(s, WindowInput::Resized).0, app_asks),
        frame_begin(input_step(s, WindowInput::Resized).0).1,
{
}

/// A frame rebuilds the swapchain at most once: the frame after it does not,
/// unless something marks the swapchain again.
pub proof fn rebuild_happens_once(s: LoopState)
    ensures
        !frame_begin(frame_begin(s).0).1,
{
}

/// The swapchain is marked for rebuilding only by a resize, a suboptimal
/// image, or an out-of-date swapchain; nothing else sets the mark.
pub proof fn rebuild_only_on_cause(
    s: LoopState,
    input: WindowInput,
    acquired: AcquireOutcome,
    presented: PresentOutcome,
)
    requires
        !s.recreate_swapchain,
    ensures
        input_step(s, input).0.recreate_swapchain ==> input == WindowInput::Resized,
        acquire_step(s, acquired).0.recreate_swapchain ==> (acquired == AcquireOutcome::OutOfDate
            || exists|index: u32| acquired == AcquireOutcome::Acquired { index, suboptimal: true }),
        present_step(s, presented).0.recreate_swapchain ==> presented == PresentOutcome::OutOfDate,
{
    match acquired {
        AcquireOutcome::Acquired { index, suboptimal } => {
            if suboptimal {
                assert(acquired == AcquireOutcome::Acquired { index, suboptimal: true });
            }
        },
        _ => {},
    }
}

/// Only a pointer move changes the recorded pointer position; the steps of a
/// frame never do.
pub proof fn pointer_changes_only_on_move(
    s: LoopState,
    input: WindowInput,
    acquired: AcquireOutcome,
    presented: PresentOutcome,
)
    ensures
        input_step(s, input).0.pointer_position == (match input {
            WindowInput::CursorMoved { x, y } => Point { x, y },
            _ => s.pointer_position,
        }),
        frame_begin(s).0.pointer_position == s.pointer_position,
        acquire_step(s, acquired).0.pointer_position == s.pointer_position,
        present_step(s, presented).0.pointer_position == s.pointer_position,
{
}

} // verus!

verus! {

/// Presenting a frame successfully changes nothing in the loop's state and
/// keeps the frame in flight; no presentation outcome clears the rebuild mark
/// or moves the pointer, and only an out-of-date swapchain sets the mark.
pub proof fn presenting_never_clears_the_mark(s: LoopState, presented: PresentOutcome)
    ensures
        present_step(s, PresentOutcome::Presented).0 == s,
        present_step(s, PresentOutcome::Presented).1,
        present_step(s, presented).0.recreate_swapchain == (s.recreate_swapchain || presented
            == PresentOutcome::OutOfDate),
        present_step(s, presented).0.pointer_position == s.pointer_position,
        present_step(s, presented).1 <==> presented == PresentOutcome::Presented,
{
}

/// After a suboptimal image, the next frame rebuilds the swapchain whatever
/// the presentation of the current frame gives.
pub proof fn suboptimal_image_rebuilds_whatever_the_present(
    s: LoopState,
    index: u32,
    presented: PresentOutcome,
)
    ensures
        frame_begin(
            present_step(
                acquire_step(s, AcquireOutcome::Acquired { index, suboptimal: true }).0,
                presented,
            ).0,
        ).1,
{
}

/// No window event clears the rebuild mark: after an event the mark is set
/// exactly when it was set before or the event is a resize.
pub proof fn window_events_never_clear_the_mark(s: LoopState, input: WindowInput)
    ensures
        input_step(s, input).0.recreate_swapchain == (s.recreate_swapchain || input
            == WindowInput::Resized),
{
}

/// A resize followed by any other event still rebuilds the next frame and
/// still asks for a redraw.
pub proof fn resize_survives_later_events(s: LoopState, later: WindowInput, app_asks: bool)
    ensures
        frame_begin(input_step(input_step(s, WindowInput::Resized).0, later).0).1,
        redraw_wanted(input_step(input_step(s, WindowInput::Resized).0, later).0, app_asks),
{
}

/// Every acquired image is rendered into, suboptimal or not; the mark is then
/// set exactly when it was set before or the image is suboptimal.
pub proof fn acquired_images_are_rendered(s: LoopState, index: u32, suboptimal: bool)
    ensures
        acquire_step(s, AcquireOutcome::Acquired { index, suboptimal }).1 == FrameStep::Render(
            index,
        ),
        acquire_step(s, AcquireOutcome::Acquired { index, suboptimal }).0.recreate_swapchain == (
        s.recreate_swapchain || suboptimal),
        acquire_step(s, AcquireOutcome::Acquired { index, suboptimal }).0.pointer_position
            == s.pointer_position,
{
}

/// A frame is abandoned exactly when the swapchain is out of date, and the
/// event cannot be handled exactly when acquisition failed otherwise.
pub proof fn acquisition_steps(s: LoopState, outcome: AcquireOutcome)
    ensures
        acquire_step(s, outcome).1 == FrameStep::Abandon <==> outcome == AcquireOutcome::OutOfDate,
        acquire_step(s, outcome).1 == FrameStep::Fail <==> outcome == AcquireOutcome::Failed,
        outcome == AcquireOutcome::Failed ==> acquire_step(s, outcome).0 == s,
        acquire_step(s, outcome).0.recreate_swapchain ==> (s.recreate_swapchain || outcome
            != AcquireOutcome::Failed),
{
}

/// The application's request for a frame is always honoured; without it a
/// frame is asked for exactly when the swapchain is marked for rebuilding.
pub proof fn redraw_follows_the_request_or_the_mark(s: LoopState)
    ensures
        redraw_wanted(s, true),
        redraw_wanted(s, false) == s.recreate_swapchain,
{
}

/// A pressed character key leaves the loop exactly when it is `q`; a released
/// key never does anything.
pub proof fn only_q_quits(s: LoopState, c: char, key: Key)
    ensures
        input_step(s, WindowInput::Keyboard { key: Key::Character(Some(c)), pressed: true }).1 == (
        if c == 'q' {
            Command::Exit
        } else {
            Command::Nothing
        }),
        input_step(s, WindowInput::Keyboard { key, pressed: false }).1 == Command::Nothing,
        input_step(s, WindowInput::Keyboard { key, pressed: false }).0 == s,
{
}

/// The loop is left exactly on a close request, a pressed Escape, or a pressed
/// `q`; a frame is drawn exactly on a redraw request; the window is focused
/// exactly when the pointer enters it.
pub proof fn commands_follow_their_events(s: LoopState, input: WindowInput)
    ensures
        input_step(s, input).1 == Command::Exit <==> (input == WindowInput::CloseRequested
            || input == (WindowInput::Keyboard { key: Key::Escape, pressed: true })
            || input == (WindowInput::Keyboard { key: Key::Character(Some('q')), pressed: true })),
        input_step(s, input).1 == Command::DrawFrame <==> input == WindowInput::RedrawRequested,
        input_step(s, input).1 == Command::FocusWindow <==> input == WindowInput::CursorEntered,
        input_step(s, input).1 == Command::Fail <==> input == (WindowInput::Keyboard {
            key: Key::Character(None),
            pressed: true,
        }),
{
}

/// Beginning a frame rebuilds exactly when the swapchain was marked, always
/// clears the mark, and keeps the pointer.
pub proof fn beginning_a_frame(s: LoopState)
    ensures
        frame_begin(s).1 == s.recreate_swapchain,
        !frame_begin(s).0.recreate_swapchain,
        frame_begin(s).0.pointer_position == s.pointer_position,
{
}

} // verus!
