use vstd::prelude::*;

verus! {

/// How the program's one window is opened.
#[derive(Debug, Clone, Copy, PartialEq, Eq)]
pub struct WindowSetup {
    pub width: u32,
    pub height: u32,
    pub title: &'static str,
    pub resizable: bool,
    pub cursor_visible: bool,
}

/// The window of the program: 498 by 498 pixels, the size of one frame of
/// the background animation, titled "aeiou", of fixed size, with the cursor
/// hidden.
pub fn window() -> (setup: WindowSetup)
    ensures
        setup.width == 498,
        setup.height == 498,
        setup.title@ == "aeiou"@,
        !setup.resizable,
        !setup.cursor_visible,
{
    WindowSetup { width: 498, height: 498, title: "aeiou", resizable: false, cursor_visible: false }
}

} // verus!
