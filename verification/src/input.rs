//! Window and keyboard events, and the signals the render loop takes from
//! them. Only closing, the exit key, resizing and redrawing mean anything;
//! everything else is ignored.

use vstd::prelude::*;

verus! {

/// Exit status of a process that the user asked to stop.
pub const NORMAL_EXIT_CODE: i32 = 0;

/// Identifies a window of the platform.
#[derive(Clone, Copy, Debug, PartialEq, Eq, Structural)]
pub struct WindowId(pub u64);

/// Whether a key went down or came up.
#[derive(Clone, Copy, Debug, PartialEq, Eq, Structural)]
pub enum ElementState {
    Pressed,
    Released,
}

/// The meaning of a key, as far as the render loop tells keys apart.
#[derive(Clone, Copy, Debug, PartialEq, Eq, Structural)]
pub enum VirtualKeyCode {
    /// The key that ends the program.
    Escape,
    /// Any other key.
    Other,
}

/// One keyboard event.
#[derive(Clone, Copy, Debug, PartialEq, Eq, Structural)]
pub struct KeyboardInput {
    /// The physical key.
    pub scancode: u32,
    /// Whether it went down or came up. A key held down repeats `Pressed`.
    pub state: ElementState,
    /// The meaning of the key, where the platform knows one.
    pub virtual_keycode: Option<VirtualKeyCode>,
}

impl KeyboardInput {
    /// The event is about the exit key.
    pub open spec fn is_exit_key(self) -> bool {
        self.virtual_keycode == Some(VirtualKeyCode::Escape)
    }

    /// The exit key is reported as down.
    pub open spec fn is_exit_press(self) -> bool {
        self.is_exit_key() && self.state == ElementState::Pressed
    }

    /// The exit key is reported as up.
    pub open spec fn is_exit_release(self) -> bool {
        self.is_exit_key() && self.state == ElementState::Released
    }
}

/// What the event loop does once the current event is handled.
#[derive(Clone, Copy, Debug, PartialEq, Eq, Structural)]
pub enum ControlFlow {
    /// Go on at once.
    Poll,
    /// Go on when the next event arrives.
    Wait,
    /// Stop, and leave the process with this status.
    ExitWithCode(i32),
}

/// Stops the event loop when `input` reports the exit key as down, and leaves
/// `control_flow` alone on every other input: a key coming up, another key, a
/// key without a meaning.
pub fn handle_keyboard_input(input: KeyboardInput, control_flow: &mut ControlFlow)
    ensures
        input.is_exit_press() ==> *final(control_flow) == ControlFlow::ExitWithCode(
            NORMAL_EXIT_CODE,
        ),
        !input.is_exit_press() ==> *final(control_flow) == *old(control_flow),
{
    match input.virtual_keycode {
        Some(VirtualKeyCode::Escape) => {
            if input.state == ElementState::Pressed {
                *control_flow = ControlFlow::ExitWithCode(NORMAL_EXIT_CODE);
            }
        },
        _ => {},
    }
}

/// Remembers whether the exit key is down, so that a key that is held and
/// repeats its press asks for the exit once.
#[derive(Clone, Copy, Debug, PartialEq, Eq, Structural)]
pub struct ExitKey {
    pub down: bool,
}

impl ExitKey {
    /// Whether the exit key is down after `input`.
    pub open spec fn spec_after(self, input: KeyboardInput) -> ExitKey {
        if input.is_exit_press() {
            ExitKey { down: true }
        } else if input.is_exit_release() {
            ExitKey { down: false }
        } else {
            self
        }
    }

    /// Whether `input` asks for the exit: it does when it reports the exit
    /// key as down and the key was up before.
    pub open spec fn spec_signals(self, input: KeyboardInput) -> bool {
        input.is_exit_press() && !self.down
    }

    /// A tracker for a key that is up.
    pub fn new() -> (key: ExitKey)
        ensures
            key == (ExitKey { down: false }),
    {
        ExitKey { down: false }
    }

    /// Takes one keyboard event and says whether it asks for the exit.
    pub fn observe(&mut self, input: KeyboardInput) -> (exit: bool)
        ensures
            *final(self) == old(self).spec_after(input),
            exit == old(self).spec_signals(input),
    {
        let mut flow = ControlFlow::Poll;
        handle_keyboard_input(input, &mut flow);
        let pressed = match flow {
            ControlFlow::ExitWithCode(_) => true,
            _ => false,
        };
        if pressed {
            let exit = !self.down;
            self.down = true;
            exit
        } else {
            match input.virtual_keycode {
                Some(VirtualKeyCode::Escape) => {
                    self.down = false;
                },
                _ => {},
            }
            false
        }
    }
}

/// An event of the platform's event loop, reduced to what the render loop
/// reads of it.
#[derive(Clone, Copy, Debug, PartialEq, Eq, Structural)]
pub enum Event {
    /// All pending events were delivered.
    MainEventsCleared,
    /// A window has to be drawn again.
    RedrawRequested(WindowId),
    /// The user asked to close a window.
    CloseRequested(WindowId),
    /// A window has a new size, in pixels.
    Resized(WindowId, u32, u32),
    /// A key went down or came up while a window had the focus.
    KeyboardInput(WindowId, KeyboardInput),
    /// Anything else.
    Other,
}

/// What an event means to the render loop.
#[derive(Clone, Copy, Debug, PartialEq, Eq, Structural)]
pub enum Signal {
    /// Nothing.
    Ignore,
    /// Ask the platform for a redraw of the own window.
    RequestRedraw,
    /// Draw a frame.
    Redraw,
    /// The own window has this new size.
    Resize(u32, u32),
    /// A key event for the own window.
    Key(KeyboardInput),
    /// The user closed the own window.
    Close,
}

impl Event {
    /// The window an event is about, where it is about one.
    pub open spec fn window(self) -> Option<WindowId> {
        match self {
            Event::RedrawRequested(id) => Some(id),
            Event::CloseRequested(id) => Some(id),
            Event::Resized(id, _, _) => Some(id),
            Event::KeyboardInput(id, _) => Some(id),
            _ => None,
        }
    }

    /// What the event means to the loop that owns the window `own`: events
    /// about another window mean nothing.
    pub open spec fn spec_signal(self, own: WindowId) -> Signal {
        match self {
            Event::MainEventsCleared => Signal::RequestRedraw,
            Event::RedrawRequested(id) => if id == own {
                Signal::Redraw
            } else {
                Signal::Ignore
            },
            Event::CloseRequested(id) => if id == own {
                Signal::Close
            } else {
                Signal::Ignore
            },
            Event::Resized(id, width, height) => if id == own {
                Signal::Resize(width, height)
            } else {
                Signal::Ignore
            },
            Event::KeyboardInput(id, input) => if id == own {
                Signal::Key(input)
            } else {
                Signal::Ignore
            },
            Event::Other => Signal::Ignore,
        }
    }

    /// Sorts the event for the loop that owns the window `own`.
    pub fn signal(self, own: WindowId) -> (signal: Signal)
        ensures
            signal == self.spec_signal(own),
            self.window() is Some && self.window() != Some(own) ==> signal == Signal::Ignore,
    {
        match self {
            Event::MainEventsCleared => Signal::RequestRedraw,
            Event::RedrawRequested(id) => if id.0 == own.0 {
                Signal::Redraw
            } else {
                Signal::Ignore
            },
            Event::CloseRequested(id) => if id.0 == own.0 {
                Signal::Close
            } else {
                Signal::Ignore
            },
            Event::Resized(id, width, height) => if id.0 == own.0 {
                Signal::Resize(width, height)
            } else {
                Signal::Ignore
            },
            Event::KeyboardInput(id, input) => if id.0 == own.0 {
                Signal::Key(input)
            } else {
                Signal::Ignore
            },
            Event::Other => Signal::Ignore,
        }
    }
}

} // verus!
