use vstd::prelude::*;

verus! {

/// The main window's saved geometry.
#[derive(Clone, Copy, Debug, PartialEq, Eq, Structural)]
pub struct WindowState {
    pub x: i32,
    pub y: i32,
    pub width: u32,
    pub height: u32,
    pub fullscreen: bool,
}

/// How to bring the main window back to a saved state.
#[derive(Clone, Copy, Debug, PartialEq, Eq, Structural)]
pub enum WindowRestore {
    /// Make it full screen; the saved size and position are not used.
    Fullscreen,
    /// Give it this physical size, then move it to this position.
    Geometry { width: u32, height: u32, x: i32, y: i32 },
}

impl WindowState {
    /// What restoring this state does to the window.
    pub fn restore(&self) -> (r: WindowRestore)
        ensures
            self.fullscreen ==> r == WindowRestore::Fullscreen,
            !self.fullscreen ==> r == (WindowRestore::Geometry {
                width: self.width,
                height: self.height,
                x: self.x,
                y: self.y,
            }),
    {
        if self.fullscreen {
            WindowRestore::Fullscreen
        } else {
            WindowRestore::Geometry { width: self.width, height: self.height, x: self.x, y: self.y }
        }
    }
}

} // verus!
