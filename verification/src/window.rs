use vstd::prelude::*;

verus! {

/// Logical width of the window the application opens.
pub const WINDOW_WIDTH: u32 = 800;

/// Logical height of the window the application opens.
pub const WINDOW_HEIGHT: u32 = 600;

/// The window's title, also used as the application and engine name at
/// instance creation.
pub fn window_title() -> (r: &'static str)
    ensures
        r@ == "Ash Tutorial"@,
{
    "Ash Tutorial"
}

/// What a window event means for the window's lifecycle, once the windowing
/// library's own event types have been read off.
pub enum WindowEventKind {
    /// The window's close button was pressed.
    CloseRequested,
    /// The escape key was pressed.
    EscapePressed,
    /// Any other key was pressed.
    OtherKeyPressed,
    /// Any other window event.
    Other,
}

/// The event loop stops, and the window is dropped, exactly on a close
/// request or on the escape key; every other event leaves the window alone.
pub fn should_exit(event: &WindowEventKind) -> (r: bool)
    ensures
        r == (event is CloseRequested || event is EscapePressed),
{
    match event {
        WindowEventKind::CloseRequested => true,
        WindowEventKind::EscapePressed => true,
        WindowEventKind::OtherKeyPressed => false,
        WindowEventKind::Other => false,
    }
}

} // verus!
