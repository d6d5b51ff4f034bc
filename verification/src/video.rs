//! The size projectM renders at.
use vstd::prelude::*;

verus! {

/// What the application keeps of projectM's rendering size.
pub struct App {
    /// The size, in pixels, that projectM was last told to render at.
    pub projectm_window_size: (usize, usize),
}

impl App {
    /// Hands the window's size in pixels on to projectM: returns the size
    /// projectM is told, which is the window's, and records it.
    pub fn update_projectm_window_size(&mut self, window_size_in_pixels: (u32, u32)) -> (size: (
        usize,
        usize,
    ))
        ensures
            size.0 == window_size_in_pixels.0,
            size.1 == window_size_in_pixels.1,
            final(self).projectm_window_size == size,
    {
        let (width, height) = window_size_in_pixels;
        let size: (usize, usize) = (width as usize, height as usize);
        self.projectm_window_size = size;
        size
    }
}

} // verus!
