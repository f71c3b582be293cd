//! Terminal geometry shared between the authentication shim and the
//! pseudo-terminal wrapper.

use vstd::prelude::*;

verus! {

/// Size of a pseudo-terminal: character cells and pixel dimensions.
#[derive(Clone, Copy, PartialEq, Eq, Structural, Debug)]
pub struct PtySize {
    pub rows: u16,
    pub cols: u16,
    pub pixel_width: u16,
    pub pixel_height: u16,
}

/// Screen size as reported to the line editor, in cells and pixels.
#[derive(Clone, Copy, PartialEq, Eq, Structural, Debug)]
pub struct ScreenSize {
    pub cols: usize,
    pub rows: usize,
    pub xpixel: usize,
    pub ypixel: usize,
}

impl PtySize {
    /// The screen size the shim reports for this geometry.
    pub fn to_screen_size(&self) -> (r: ScreenSize)
        ensures
            r.cols == self.cols as usize,
            r.rows == self.rows as usize,
            r.xpixel == self.pixel_width as usize,
            r.ypixel == self.pixel_height as usize,
    {
        ScreenSize {
            cols: self.cols as usize,
            rows: self.rows as usize,
            xpixel: self.pixel_width as usize,
            ypixel: self.pixel_height as usize,
        }
    }
}

} // verus!
