//! The decision core of a small windowed renderer.
//!
//! The program around it owns the window, the surface and the GPU. This
//! library decides what that program does: which surface configuration it
//! asks for, what its one pipeline reads, what a redraw leads to once the
//! surface has or has not handed out an image, and what each event of the
//! platform's loop means. It never touches the GPU itself: every function
//! takes plain values and returns what is to be done.
//!
//! - `context`: how the adapter is asked for, and when the negotiation holds.
//! - `surface`: capabilities, the choice of a configuration, resizing.
//! - `pipeline`: vertex layouts, buffer sizes and the render pass of a frame.
//! - `frame`: frame timing and the frame driver's decisions.
//! - `input`: events, the exit key and the signals taken from them.
//! - `state`: the state of the render loop and its transitions.
//! - `error`: fatal and transient errors.
//! - `laws`: what holds over every input and every run of calls.

pub mod context;
pub mod error;
pub mod frame;
pub mod input;
pub mod laws;
pub mod pipeline;
pub mod state;
pub mod surface;

pub use crate::input::handle_keyboard_input;
pub use crate::state::State;
