//! The client: what the keyboard does to the running program.

use vstd::prelude::*;
use crate::command::GlCall;
use crate::constants::{FILL, FRONT_AND_BACK, LINE};
use crate::renderer::GameRenderer;

verus! {

/// A key that the client reacts to, or any other.
#[derive(Clone, Copy, PartialEq, Eq, Structural, Debug)]
pub enum Key {
    Enter,
    Escape,
    T,
    Other,
}

/// What happened to a key.
#[derive(Clone, Copy, PartialEq, Eq, Structural, Debug)]
pub enum KeyAction {
    Release,
    Press,
    Repeat,
}

/// How the window treats the cursor.
#[derive(Clone, Copy, PartialEq, Eq, Structural, Debug)]
pub enum CursorMode {
    Normal,
    Disabled,
}

/// A call into the window system.
#[derive(Clone, Copy, PartialEq, Eq, Structural, Debug)]
pub enum WindowCall {
    SetCursorMode(CursorMode),
    /// Puts the cursor in the middle of the window.
    CenterCursor,
}

/// A step of the camera along one of its own axes.
#[derive(Clone, Copy, PartialEq, Eq, Structural, Debug)]
pub enum Movement {
    Forward,
    Backward,
    Left,
    Right,
}

/// The state of the running program.
#[derive(Clone, Copy, PartialEq, Eq, Debug)]
pub struct Client {
    pub renderer: GameRenderer,
    pub running: bool,
    pub cursor_locked: bool,
    pub wireframe: bool,
}

/// The call that draws polygons as outlines if `wireframe` is set, and
/// filled if not.
pub open spec fn polygon_mode(wireframe: bool) -> GlCall {
    GlCall::PolygonMode {
        face: FRONT_AND_BACK,
        mode: if wireframe {
            LINE
        } else {
            FILL
        },
    }
}

impl Client {
    /// A running client with a free cursor that draws filled polygons.
    pub fn new(renderer: GameRenderer) -> (client: Client)
        ensures
            client == (Client { renderer, running: true, cursor_locked: false, wireframe: false }),
    {
        Client { renderer, running: true, cursor_locked: false, wireframe: false }
    }

    /// Locks the cursor: the window hides it, and it starts from the middle
    /// of the window.
    pub fn lock_cursor(&mut self) -> (calls: Vec<WindowCall>)
        ensures
            *final(self) == (Client { cursor_locked: true, ..*old(self) }),
            calls@ == seq![
                WindowCall::SetCursorMode(CursorMode::Disabled),
                WindowCall::CenterCursor,
            ],
    {
        self.cursor_locked = true;
        vec![WindowCall::SetCursorMode(CursorMode::Disabled), WindowCall::CenterCursor]
    }

    /// Frees the cursor.
    pub fn unlock_cursor(&mut self) -> (calls: Vec<WindowCall>)
        ensures
            *final(self) == (Client { cursor_locked: false, ..*old(self) }),
            calls@ == seq![WindowCall::SetCursorMode(CursorMode::Normal)],
    {
        self.cursor_locked = false;
        vec![WindowCall::SetCursorMode(CursorMode::Normal)]
    }

    /// The step that the direction with the number `direction` stands for,
    /// if it stands for one: 1 is forward, 2 backward, 3 left, 4 right.
    pub fn process_movement(direction: i32) -> (movement: Option<Movement>)
        ensures
            movement == (if direction == 1 {
                Some(Movement::Forward)
            } else if direction == 2 {
                Some(Movement::Backward)
            } else if direction == 3 {
                Some(Movement::Left)
            } else if direction == 4 {
                Some(Movement::Right)
            } else {
                None
            }),
    {
        if direction == 1 {
            Some(Movement::Forward)
        } else if direction == 2 {
            Some(Movement::Backward)
        } else if direction == 3 {
            Some(Movement::Left)
        } else if direction == 4 {
            Some(Movement::Right)
        } else {
            None
        }
    }

    /// Reacts to a key. `lock` is whether the events of this frame want the
    /// cursor locked; it starts the frame as `cursor_locked` and is settled
    /// by [`Client::settle_cursor`] at the frame's end.
    ///
    /// Releasing Enter switches between outlines and filled polygons.
    /// Escape, whatever happens to it, ends the program. Releasing T turns
    /// `lock` over. Nothing else has an effect.
    pub fn key(&mut self, lock: &mut bool, key: Key, action: KeyAction) -> (call: Option<GlCall>)
        ensures
            final(self).renderer == old(self).renderer,
            final(self).cursor_locked == old(self).cursor_locked,
            final(self).running == (old(self).running && key != Key::Escape),
            final(self).wireframe == (old(self).wireframe != (key == Key::Enter && action
                == KeyAction::Release)),
            *final(lock) == (*old(lock) != (key == Key::T && action == KeyAction::Release)),
            call == (if key == Key::Enter && action == KeyAction::Release {
                Some(polygon_mode(!old(self).wireframe))
            } else {
                None
            }),
    {
        match key {
            Key::Enter => {
                if action == KeyAction::Release {
                    self.wireframe = !self.wireframe;
                    return Some(
                        GlCall::PolygonMode {
                            face: FRONT_AND_BACK,
                            mode: if self.wireframe {
                                LINE
                            } else {
                                FILL
                            },
                        },
                    );
                }
            },
            Key::Escape => {
                self.running = false;
            },
            Key::T => {
                if action == KeyAction::Release {
                    *lock = !*lock;
                }
            },
            Key::Other => {},
        }
        None
    }

    /// Ends a frame's events: locks or frees the cursor if the events wanted
    /// it otherwise than it is, and stops the program if the window is to
    /// close.
    pub fn settle_cursor(&mut self, lock: bool, should_close: bool) -> (calls: Vec<WindowCall>)
        ensures
            final(self).renderer == old(self).renderer,
            final(self).wireframe == old(self).wireframe,
            final(self).cursor_locked == lock,
            final(self).running == (old(self).running && !should_close),
            calls@ == (if lock == old(self).cursor_locked {
                seq![]
            } else if lock {
                seq![WindowCall::SetCursorMode(CursorMode::Disabled), WindowCall::CenterCursor]
            } else {
                seq![WindowCall::SetCursorMode(CursorMode::Normal)]
            }),
    {
        let calls = if lock != self.cursor_locked {
            if lock {
                self.lock_cursor()
            } else {
                self.unlock_cursor()
            }
        } else {
            Vec::new()
        };
        if should_close {
            self.running = false;
        }
        calls
    }
}

} // verus!
