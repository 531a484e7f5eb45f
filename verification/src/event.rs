//! Window events and the commands that answer them.

use vstd::prelude::*;

verus! {

/// The code under which the windowing system reports the Escape key.
pub const KEY_ESCAPE: i32 = 256;

/// Width of the window when it opens, in pixels.
pub const WINDOW_WIDTH: i32 = 800;

/// Height of the window when it opens, in pixels.
pub const WINDOW_HEIGHT: i32 = 600;

/// What happened to a key.
#[derive(Clone, Copy, Debug, PartialEq, Eq, Structural)]
pub enum Action {
    Release,
    Press,
    Repeat,
}

/// The rectangle of the framebuffer that is drawn to, in pixels.
#[derive(Clone, Copy, Debug, PartialEq, Eq, Structural)]
pub struct Viewport {
    pub x: i32,
    pub y: i32,
    pub width: i32,
    pub height: i32,
}

/// An event of the window, reduced to what the viewer reads of it.
#[derive(Clone, Copy, Debug, PartialEq, Eq, Structural)]
pub enum WindowEvent {
    /// A key changed state. `key` is the key's code, `modifiers` the bit set
    /// of modifier keys held down.
    Key { key: i32, scancode: i32, action: Action, modifiers: i32 },
    /// The framebuffer got a new size.
    FramebufferSize { width: i32, height: i32 },
    /// Any other event.
    Other,
}

/// What the program has to do in answer to an event.
#[derive(Clone, Copy, Debug, PartialEq, Eq, Structural)]
pub enum Command {
    /// Mark the window as closing.
    Close,
    /// Draw to this rectangle from now on.
    SetViewport(Viewport),
    /// Nothing to do.
    Ignore,
}

impl Viewport {
    /// The viewport that starts at the origin and covers `width` by `height`
    /// pixels.
    pub open spec fn spec_covering(width: i32, height: i32) -> Viewport {
        Viewport { x: 0, y: 0, width, height }
    }

    /// The viewport that starts at the origin and covers `width` by `height`
    /// pixels.
    #[verifier::when_used_as_spec(spec_covering)]
    pub fn covering(width: i32, height: i32) -> (viewport: Viewport)
        ensures
            viewport == Viewport::spec_covering(width, height),
    {
        Viewport { x: 0, y: 0, width, height }
    }

    /// The viewport before any resize: it covers the window as it opens.
    pub fn initial() -> (viewport: Viewport)
        ensures
            viewport == Viewport::spec_covering(WINDOW_WIDTH, WINDOW_HEIGHT),
    {
        Viewport::covering(WINDOW_WIDTH, WINDOW_HEIGHT)
    }
}

impl WindowEvent {
    /// Whether the event is a press of the Escape key, whatever the scancode
    /// and the modifiers. A release or a repeat of the key is none.
    pub open spec fn is_escape_press(self) -> bool {
        self matches WindowEvent::Key { key, action, .. } && key == KEY_ESCAPE && action
            == Action::Press
    }
}

/// The command that answers `event`: a press of Escape closes the window, a
/// new framebuffer size moves the viewport to cover it, and every other event
/// is ignored.
pub open spec fn answer(event: WindowEvent) -> Command {
    if event.is_escape_press() {
        Command::Close
    } else if let WindowEvent::FramebufferSize { width, height } = event {
        Command::SetViewport(Viewport::spec_covering(width, height))
    } else {
        Command::Ignore
    }
}

/// The answer to a key event depends on the key and on what happened to it,
/// not on the scancode nor on the modifiers.
pub proof fn answer_ignores_scancode_and_modifiers(
    key: i32,
    action: Action,
    scancode: i32,
    modifiers: i32,
    other_scancode: i32,
    other_modifiers: i32,
)
    ensures
        answer(WindowEvent::Key { key, scancode, action, modifiers }) == answer(
            WindowEvent::Key {
                key,
                scancode: other_scancode,
                action,
                modifiers: other_modifiers,
            },
        ),
{
}

/// A viewport that an event sets starts at the origin and has the size that
/// the event reports.
pub proof fn answer_viewport_covers_framebuffer(event: WindowEvent, viewport: Viewport)
    requires
        answer(event) == Command::SetViewport(viewport),
    ensures
        event == (WindowEvent::FramebufferSize { width: viewport.width, height: viewport.height }),
        viewport.x == 0,
        viewport.y == 0,
{
}

/// Decides what to do about one window event.
pub fn handle_window_event(event: &WindowEvent) -> (command: Command)
    ensures
        command == answer(*event),
        command is Close <==> event.is_escape_press(),
        command is SetViewport <==> *event is FramebufferSize,
{
    match event {
        WindowEvent::Key { key, action: Action::Press, .. } => {
            if *key == KEY_ESCAPE {
                Command::Close
            } else {
                Command::Ignore
            }
        },
        WindowEvent::FramebufferSize { width, height } => {
            Command::SetViewport(Viewport::covering(*width, *height))
        },
        _ => Command::Ignore,
    }
}

} // verus!
