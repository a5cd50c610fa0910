//! The decisions of the interactive drivers.
//!
//! A driver waits for events of its window, hands each to the controller
//! and carries out the action that comes back. The controller keeps what
//! the decisions depend on: whether the session has ended, whether the
//! picture is out of date, and the size of the window.

use vstd::prelude::*;
use crate::sampler::quotient_toward_zero;

verus! {

/// Iterations that the explorer adds on request.
pub const EXPLORER_DEPTH_STEP: u32 = 25;

/// Iterations that the plain application adds on request.
pub const APPLICATION_DEPTH_STEP: u32 = 5;

/// Width of a snapshot taken on request.
pub const SNAPSHOT_WIDTH: i32 = 1920;

/// Height of a snapshot taken on request.
pub const SNAPSHOT_HEIGHT: i32 = 1080;

/// Number of frames of a zoom sequence taken on request.
pub const SEQUENCE_FRAMES: usize = 1000;

/// Width of the frames of a zoom sequence.
pub const SEQUENCE_WIDTH: i32 = 800;

/// Height of the frames of a zoom sequence.
pub const SEQUENCE_HEIGHT: i32 = 600;

/// The mouse button that recentres the view.
pub const RECENTER_BUTTON: u32 = 1;

/// The keys that the drivers tell apart.
#[derive(Clone, Copy, Debug, PartialEq, Eq, Structural)]
pub enum Key {
    W,
    A,
    S,
    D,
    E,
    R,
    F1,
    F2,
    F3,
    F4,
    Escape,
    Other,
}

/// What a window reports.
#[derive(Clone, Copy, Debug, PartialEq, Eq, Structural)]
pub enum Event {
    KeyDown { key: Key },
    MouseButtonDown { x: i32, y: i32, button: u32 },
    TimerTick,
    DisplayResize { width: i32, height: i32 },
    DisplayClose,
    Other,
}

/// What the driver is to do after an event.
#[derive(Clone, Copy, Debug, PartialEq, Eq, Structural)]
pub enum Action {
    /// Nothing.
    Nothing,
    /// Zoom in by the driver's factor.
    ZoomIn,
    /// Raise the iteration cap.
    Deepen { by: u32 },
    /// Write a snapshot of the given size.
    Snapshot { width: i32, height: i32 },
    /// Write a zoom sequence of frames of the given size.
    Sequence { frames: usize, width: i32, height: i32 },
    /// Regenerate the palette from a random colour.
    RandomizeColor,
    /// Set the step size back to its default.
    ResetStep,
    /// Move the centre by a number of pixels.
    MoveCenter { dx: i64, dy: i64 },
    /// Move the centre by the driver's share of the window, in the
    /// direction given by the signs.
    Pan { x_sign: i32, y_sign: i32 },
    /// Draw the picture anew at the given size.
    Render { width: i32, height: i32 },
}

/// What the decisions of a driver depend on.
#[derive(Clone, Copy, Debug, PartialEq, Eq, Structural)]
pub struct Controller {
    pub stop: bool,
    pub needs_update: bool,
    pub width: i32,
    pub height: i32,
}

/// A controller after an event, and the action that the event calls for.
pub struct Step {
    pub next: Controller,
    pub action: Action,
}

/// The controller with the picture marked as out of date.
pub open spec fn outdated(state: Controller) -> Controller {
    Controller { needs_update: true, ..state }
}

/// The controller with the session marked as ended.
pub open spec fn stopped(state: Controller) -> Controller {
    Controller { stop: true, ..state }
}

/// What a tick of the timer, a resize or a close of the window does: the
/// same in both drivers. A tick draws the picture where it is out of date,
/// and the picture is then up to date; a resize keeps the new size and
/// leaves the picture out of date; a close ends the session.
pub open spec fn window_step(state: Controller, event: Event) -> Step {
    match event {
        Event::TimerTick => if state.needs_update {
            Step {
                next: Controller { needs_update: false, ..state },
                action: Action::Render { width: state.width, height: state.height },
            }
        } else {
            Step { next: state, action: Action::Nothing }
        },
        Event::DisplayResize { width, height } => Step {
            next: Controller { needs_update: true, width, height, ..state },
            action: Action::Nothing,
        },
        Event::DisplayClose => Step { next: stopped(state), action: Action::Nothing },
        _ => Step { next: state, action: Action::Nothing },
    }
}

/// What a key does in the explorer.
pub open spec fn explorer_key_step(state: Controller, key: Key) -> Step {
    match key {
        Key::E => Step { next: outdated(state), action: Action::ZoomIn },
        Key::R => Step {
            next: outdated(state),
            action: Action::Deepen { by: EXPLORER_DEPTH_STEP },
        },
        Key::F1 => Step {
            next: state,
            action: Action::Snapshot { width: SNAPSHOT_WIDTH, height: SNAPSHOT_HEIGHT },
        },
        Key::F2 => Step {
            next: state,
            action: Action::Sequence {
                frames: SEQUENCE_FRAMES,
                width: SEQUENCE_WIDTH,
                height: SEQUENCE_HEIGHT,
            },
        },
        Key::F3 => Step { next: outdated(state), action: Action::RandomizeColor },
        Key::F4 => Step { next: outdated(state), action: Action::ResetStep },
        Key::Escape => Step { next: stopped(state), action: Action::Nothing },
        _ => Step { next: state, action: Action::Nothing },
    }
}

/// What an event does in the explorer. A press of the recentring button
/// moves the centre to the pixel under the pointer, counted from the
/// middle of the window.
pub open spec fn explorer_step(state: Controller, event: Event) -> Step {
    match event {
        Event::KeyDown { key } => explorer_key_step(state, key),
        Event::MouseButtonDown { x, y, button } => if button == RECENTER_BUTTON {
            Step {
                next: outdated(state),
                action: Action::MoveCenter {
                    dx: (x - quotient_toward_zero(state.width as int, 2)) as i64,
                    dy: (y - quotient_toward_zero(state.height as int, 2)) as i64,
                },
            }
        } else {
            Step { next: state, action: Action::Nothing }
        },
        _ => window_step(state, event),
    }
}

/// What an event does in the plain application, which has no mouse.
pub open spec fn application_step(state: Controller, event: Event) -> Step {
    match event {
        Event::KeyDown { key } => match key {
            Key::W => Step { next: outdated(state), action: Action::Pan { x_sign: 0i32, y_sign: -1i32 } },
            Key::A => Step { next: outdated(state), action: Action::Pan { x_sign: -1i32, y_sign: 0i32 } },
            Key::S => Step { next: outdated(state), action: Action::Pan { x_sign: 0i32, y_sign: 1i32 } },
            Key::D => Step { next: outdated(state), action: Action::Pan { x_sign: 1i32, y_sign: 0i32 } },
            Key::E => Step { next: outdated(state), action: Action::ZoomIn },
            Key::R => Step {
                next: outdated(state),
                action: Action::Deepen { by: APPLICATION_DEPTH_STEP },
            },
            _ => Step { next: state, action: Action::Nothing },
        },
        Event::MouseButtonDown { .. } => Step { next: state, action: Action::Nothing },
        _ => window_step(state, event),
    }
}

/// Half of an extent, rounded toward zero.
fn half(extent: i32) -> (h: i64)
    ensures
        h == quotient_toward_zero(extent as int, 2),
{
    let wide: i64 = extent as i64;
    if wide >= 0 {
        wide / 2
    } else {
        -((-wide) / 2)
    }
}

impl Controller {
    /// Starts a session in a window of the given size: running, with the
    /// picture still to be drawn.
    pub fn new(screen_size: [i32; 2]) -> (state: Controller)
        ensures
            state == (Controller {
                stop: false,
                needs_update: true,
                width: screen_size[0],
                height: screen_size[1],
            }),
    {
        Controller {
            stop: false,
            needs_update: true,
            width: screen_size[0],
            height: screen_size[1],
        }
    }

    /// Tells whether the session has ended.
    pub fn is_stopped(&self) -> (stop: bool)
        ensures
            stop == self.stop,
    {
        self.stop
    }

    /// Returns the size of the window, width first.
    pub fn shape(&self) -> (shape: [i32; 2])
        ensures
            shape[0] == self.width,
            shape[1] == self.height,
    {
        [self.width, self.height]
    }

    fn window_event(&mut self, event: Event) -> (action: Action)
        ensures
            *final(self) == window_step(*old(self), event).next,
            action == window_step(*old(self), event).action,
    {
        match event {
            Event::TimerTick => {
                if self.needs_update {
                    self.needs_update = false;
                    Action::Render { width: self.width, height: self.height }
                } else {
                    Action::Nothing
                }
            },
            Event::DisplayResize { width, height } => {
                self.width = width;
                self.height = height;
                self.needs_update = true;
                Action::Nothing
            },
            Event::DisplayClose => {
                self.stop = true;
                Action::Nothing
            },
            _ => Action::Nothing,
        }
    }

    fn explorer_key(&mut self, key: Key) -> (action: Action)
        ensures
            *final(self) == explorer_key_step(*old(self), key).next,
            action == explorer_key_step(*old(self), key).action,
    {
        match key {
            Key::E => {
                self.needs_update = true;
                Action::ZoomIn
            },
            Key::R => {
                self.needs_update = true;
                Action::Deepen { by: EXPLORER_DEPTH_STEP }
            },
            Key::F1 => Action::Snapshot { width: SNAPSHOT_WIDTH, height: SNAPSHOT_HEIGHT },
            Key::F2 => Action::Sequence {
                frames: SEQUENCE_FRAMES,
                width: SEQUENCE_WIDTH,
                height: SEQUENCE_HEIGHT,
            },
            Key::F3 => {
                self.needs_update = true;
                Action::RandomizeColor
            },
            Key::F4 => {
                self.needs_update = true;
                Action::ResetStep
            },
            Key::Escape => {
                self.stop = true;
                Action::Nothing
            },
            _ => Action::Nothing,
        }
    }

    /// Takes an event of the explorer's window and returns what the driver
    /// is to do.
    pub fn handle_explorer(&mut self, event: Event) -> (action: Action)
        ensures
            *final(self) == explorer_step(*old(self), event).next,
            action == explorer_step(*old(self), event).action,
    {
        match event {
            Event::KeyDown { key } => self.explorer_key(key),
            Event::MouseButtonDown { x, y, button } => {
                if button == RECENTER_BUTTON {
                    let dx: i64 = x as i64 - half(self.width);
                    let dy: i64 = y as i64 - half(self.height);
                    self.needs_update = true;
                    Action::MoveCenter { dx, dy }
                } else {
                    Action::Nothing
                }
            },
            _ => self.window_event(event),
        }
    }

    /// Takes an event of the plain application's window and returns what
    /// the driver is to do.
    pub fn handle_application(&mut self, event: Event) -> (action: Action)
        ensures
            *final(self) == application_step(*old(self), event).next,
            action == application_step(*old(self), event).action,
    {
        match event {
            Event::KeyDown { key } => {
                let action = match key {
                    Key::W => Action::Pan { x_sign: 0i32, y_sign: -1i32 },
                    Key::A => Action::Pan { x_sign: -1i32, y_sign: 0i32 },
                    Key::S => Action::Pan { x_sign: 0i32, y_sign: 1i32 },
                    Key::D => Action::Pan { x_sign: 1i32, y_sign: 0i32 },
                    Key::E => Action::ZoomIn,
                    Key::R => Action::Deepen { by: APPLICATION_DEPTH_STEP },
                    _ => Action::Nothing,
                };
                match action {
                    Action::Nothing => {},
                    _ => {
                        self.needs_update = true;
                    },
                }
                action
            },
            Event::MouseButtonDown { .. } => Action::Nothing,
            _ => self.window_event(event),
        }
    }
}

/// A session that has ended stays ended, whatever the window reports.
pub proof fn lemma_stop_is_final(state: Controller, event: Event)
    requires
        state.stop,
    ensures
        explorer_step(state, event).next.stop,
        application_step(state, event).next.stop,
{
}

/// The picture is drawn on a tick of the timer and on nothing else, only
/// where it is out of date, at the size of the window, and is up to date
/// afterwards.
pub proof fn lemma_render_only_when_outdated(state: Controller, event: Event)
    ensures
        explorer_step(state, event).action is Render <==> event is TimerTick && state.needs_update,
        explorer_step(state, event).action is Render ==> {
            &&& !explorer_step(state, event).next.needs_update
            &&& explorer_step(state, event).action == (Action::Render {
                width: state.width,
                height: state.height,
            })
        },
        application_step(state, event).action is Render <==> event is TimerTick
            && state.needs_update,
{
}

/// Whatever changes the view leaves the picture out of date: after a zoom,
/// a deeper cap, a new palette, a reset, a move or a resize the next tick
/// draws.
pub proof fn lemma_changes_are_drawn(state: Controller, event: Event)
    requires
        match explorer_step(state, event).action {
            Action::ZoomIn => true,
            Action::Deepen { .. } => true,
            Action::RandomizeColor => true,
            Action::ResetStep => true,
            Action::MoveCenter { .. } => true,
            _ => event is DisplayResize,
        },
    ensures
        explorer_step(explorer_step(state, event).next, Event::TimerTick).action is Render,
{
}

} // verus!
