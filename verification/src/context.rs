//! Context passed from the library to a render function.

use vstd::prelude::*;

verus! {

/// Information available to a render implementation about the terminal it
/// is being rendered to.
pub struct RenderContext {
    /// The width of the terminal, in columns.
    pub width: usize,
}

impl RenderContext {
    /// A context for rendering to a terminal of the given width.
    pub fn new(width: usize) -> (r: RenderContext)
        ensures
            r.width == width,
    {
        RenderContext { width }
    }

    /// The width of the terminal to which the text is being rendered.
    ///
    /// If the size cannot be determined this is a default size. A render
    /// implementation may use it to draw a full-width bar or to truncate
    /// sections within a line, or may ignore it.
    pub fn width(&self) -> (w: usize)
        ensures
            w == self.width,
    {
        self.width
    }
}

} // verus!
