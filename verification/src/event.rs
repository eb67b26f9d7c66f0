//! Events that the platform delivers and the commands that the host carries out.

use vstd::prelude::*;

verus! {

/// A keyboard key, as far as the harness tells keys apart.
#[derive(Clone, Copy, Debug, PartialEq, Eq, Structural)]
pub enum Key {
    Escape,
    /// Any other key, with the platform's key code.
    Other(i32),
}

/// What happened to a key.
#[derive(Clone, Copy, Debug, PartialEq, Eq, Structural)]
pub enum Action {
    Release,
    Press,
    Repeat,
}

/// One event delivered by the platform's event source.
#[derive(Clone, Copy, Debug, PartialEq, Eq, Structural)]
pub enum Event {
    /// The drawable surface now has this size in pixels.
    FramebufferResize { width: i32, height: i32 },
    KeyAction { key: Key, action: Action },
    /// Any event the harness does not act on.
    Other,
}

/// One call that the host makes on the platform or the device.
#[derive(Clone, Copy, Debug, PartialEq, Eq, Structural)]
pub enum Command {
    /// Map the device's output rectangle to this pixel rectangle.
    SetViewport { x: i32, y: i32, width: i32, height: i32 },
    /// Set the platform window's close flag.
    RequestClose,
    /// Run the per-frame callback once.
    InvokeCallback,
    /// Present the frame.
    SwapBuffers,
    /// Let the platform collect input for the next iteration.
    PollEvents,
}

/// Whether `event` is the one that asks the window to close.
pub open spec fn is_close_request(event: Event) -> bool {
    event == (Event::KeyAction { key: Key::Escape, action: Action::Press })
}

/// The command that the built-in policies answer `event` with, if any.
pub open spec fn policy(event: Event) -> Option<Command> {
    match event {
        Event::FramebufferResize { width, height } => Some(
            Command::SetViewport { x: 0, y: 0, width, height },
        ),
        Event::KeyAction { key: Key::Escape, action: Action::Press } => Some(Command::RequestClose),
        _ => None,
    }
}

/// The commands that a batch of events gives rise to, in the order of the events.
pub open spec fn policy_commands(events: Seq<Event>) -> Seq<Command>
    decreases events.len(),
{
    if events.len() == 0 {
        Seq::empty()
    } else {
        let head = policy_commands(events.drop_last());
        match policy(events.last()) {
            Some(c) => head.push(c),
            None => head,
        }
    }
}

/// The three commands that end every iteration, after the events were handled.
pub open spec fn frame_tail() -> Seq<Command> {
    seq![Command::InvokeCallback, Command::SwapBuffers, Command::PollEvents]
}

} // verus!
