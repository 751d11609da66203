//! What the windowed programs do with a window event.

use vstd::prelude::*;
use crate::surface::Extent2D;

verus! {

/// A window event, reduced to what the programs look at.
#[derive(Clone, Copy, Debug, PartialEq, Eq)]
pub enum WindowEvent {
    CloseRequested,
    /// A key event: whether the key is Escape and whether it was pressed.
    Keyboard { escape: bool, pressed: bool },
    Resized(Extent2D),
    RedrawRequested,
    Other,
}

/// The response of a program to a window event.
#[derive(Clone, Copy, Debug, PartialEq, Eq)]
pub enum EventAction {
    Ignore,
    /// Leave the event loop.
    Exit,
    /// Release the Vulkan objects, then leave the event loop.
    DestroyAndExit,
    /// Render a frame.
    Render,
    /// Render a frame, then ask for the next redraw.
    RenderAndRequestRedraw,
    /// Remember that the swapchain must be recreated.
    MarkResized,
    /// Reconfigure the surface for the new size.
    Resize(Extent2D),
}

/// The texture example: close or a pressed Escape exits; a redraw renders
/// and asks for the next redraw once the example exists.
pub fn texture_window_event(event: WindowEvent, has_example: bool) -> (action: EventAction)
    ensures
        action == (match event {
            WindowEvent::CloseRequested => EventAction::Exit,
            WindowEvent::Keyboard { escape, pressed } => if escape && pressed {
                EventAction::Exit
            } else {
                EventAction::Ignore
            },
            WindowEvent::RedrawRequested => if has_example {
                EventAction::RenderAndRequestRedraw
            } else {
                EventAction::Ignore
            },
            _ => EventAction::Ignore,
        }),
{
    match event {
        WindowEvent::CloseRequested => EventAction::Exit,
        WindowEvent::Keyboard { escape, pressed } => {
            if escape && pressed {
                EventAction::Exit
            } else {
                EventAction::Ignore
            }
        },
        WindowEvent::RedrawRequested => {
            if has_example {
                EventAction::RenderAndRequestRedraw
            } else {
                EventAction::Ignore
            }
        },
        _ => EventAction::Ignore,
    }
}

/// The triangle viewer: close releases the Vulkan objects (when they
/// exist) and exits; a redraw draws a frame once Vulkan is set up.
pub fn triangle_window_event(event: WindowEvent, has_vulkan: bool) -> (action: EventAction)
    ensures
        action == (match event {
            WindowEvent::CloseRequested => if has_vulkan {
                EventAction::DestroyAndExit
            } else {
                EventAction::Exit
            },
            WindowEvent::RedrawRequested => if has_vulkan {
                EventAction::Render
            } else {
                EventAction::Ignore
            },
            _ => EventAction::Ignore,
        }),
{
    match event {
        WindowEvent::CloseRequested => {
            if has_vulkan {
                EventAction::DestroyAndExit
            } else {
                EventAction::Exit
            }
        },
        WindowEvent::RedrawRequested => {
            if has_vulkan {
                EventAction::Render
            } else {
                EventAction::Ignore
            }
        },
        _ => EventAction::Ignore,
    }
}

/// The circle example: nothing happens before its render context exists;
/// then close or Escape (pressed or released) exits, a resize marks the
/// swapchain for recreation, a redraw renders.
pub fn circle_window_event(event: WindowEvent, has_context: bool) -> (action: EventAction)
    ensures
        !has_context ==> action == EventAction::Ignore,
        has_context ==> action == (match event {
            WindowEvent::CloseRequested => EventAction::Exit,
            WindowEvent::Keyboard { escape, pressed: _ } => if escape {
                EventAction::Exit
            } else {
                EventAction::Ignore
            },
            WindowEvent::Resized(_) => EventAction::MarkResized,
            WindowEvent::RedrawRequested => EventAction::Render,
            WindowEvent::Other => EventAction::Ignore,
        }),
{
    if !has_context {
        return EventAction::Ignore;
    }
    match event {
        WindowEvent::CloseRequested => EventAction::Exit,
        WindowEvent::Keyboard { escape, pressed: _ } => {
            if escape {
                EventAction::Exit
            } else {
                EventAction::Ignore
            }
        },
        WindowEvent::Resized(_) => EventAction::MarkResized,
        WindowEvent::RedrawRequested => EventAction::Render,
        WindowEvent::Other => EventAction::Ignore,
    }
}

/// The wgpu window: events of other windows, or before the state exists,
/// are ignored; close exits, a resize reconfigures, a redraw renders and
/// asks for the next redraw.
pub fn wgpu_window_event(event: WindowEvent, has_state: bool, same_window: bool) -> (action:
    EventAction)
    ensures
        !(has_state && same_window) ==> action == EventAction::Ignore,
        has_state && same_window ==> action == (match event {
            WindowEvent::CloseRequested => EventAction::Exit,
            WindowEvent::Resized(size) => EventAction::Resize(size),
            WindowEvent::RedrawRequested => EventAction::RenderAndRequestRedraw,
            _ => EventAction::Ignore,
        }),
{
    if !(has_state && same_window) {
        return EventAction::Ignore;
    }
    match event {
        WindowEvent::CloseRequested => EventAction::Exit,
        WindowEvent::Resized(size) => EventAction::Resize(size),
        WindowEvent::RedrawRequested => EventAction::RenderAndRequestRedraw,
        _ => EventAction::Ignore,
    }
}

/// The bare winit window: close exits (for the program's own window);
/// everything else is ignored for now.
pub fn plain_window_event(event: WindowEvent, has_window: bool, same_window: bool) -> (action:
    EventAction)
    ensures
        action == (if has_window && same_window && event == WindowEvent::CloseRequested {
            EventAction::Exit
        } else {
            EventAction::Ignore
        }),
{
    if has_window && same_window {
        match event {
            WindowEvent::CloseRequested => EventAction::Exit,
            _ => EventAction::Ignore,
        }
    } else {
        EventAction::Ignore
    }
}

/// A GLFW key, reduced to what the GLFW programs look at.
#[derive(Clone, Copy, Debug, PartialEq, Eq)]
pub enum GlfwKey {
    Escape,
    R,
    Other,
}

/// The response of the GLFW event program to a key event.
#[derive(Clone, Copy, Debug, PartialEq, Eq)]
pub enum GlfwKeyAction {
    Nothing,
    /// Ask the window to close.
    Close,
    /// Resize the window to each of these sizes in turn, which makes it
    /// refresh while ending at its old size.
    Refresh { first: (i32, i32), then: (i32, i32) },
}

/// The GLFW event program: a pressed Escape closes the window; a pressed R
/// grows it by one pixel and restores its size.
pub fn glfw_key_action(key: GlfwKey, pressed: bool, size: (i32, i32)) -> (action: GlfwKeyAction)
    requires
        key == GlfwKey::R && pressed ==> size.0 < i32::MAX,
    ensures
        action == (if pressed && key == GlfwKey::Escape {
            GlfwKeyAction::Close
        } else if pressed && key == GlfwKey::R {
            GlfwKeyAction::Refresh { first: ((size.0 + 1) as i32, size.1), then: size }
        } else {
            GlfwKeyAction::Nothing
        }),
{
    if !pressed {
        return GlfwKeyAction::Nothing;
    }
    match key {
        GlfwKey::Escape => GlfwKeyAction::Close,
        GlfwKey::R => GlfwKeyAction::Refresh { first: (size.0 + 1, size.1), then: size },
        GlfwKey::Other => GlfwKeyAction::Nothing,
    }
}

/// The GLFW base program: only a pressed Escape does something (closes the
/// window).
pub fn glfw_base_key_closes(key: GlfwKey, pressed: bool) -> (close: bool)
    ensures
        close == (pressed && key == GlfwKey::Escape),
{
    pressed && match key {
        GlfwKey::Escape => true,
        _ => false,
    }
}

} // verus!
