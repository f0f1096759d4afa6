use vstd::prelude::*;
use crate::viewport::{self, viewport_of, PixelCoord, ViewportCoord, ViewportSize};

verus! {

/// A pointer's pixel position together with the size of the viewport it moves in.
pub trait PointerController: Sized {
    spec fn spec_screen_resolution(&self) -> ViewportSize;

    spec fn spec_pointer_pixel_position(&self) -> PixelCoord;

    fn set_screen_resolution(&mut self, resolution: ViewportSize)
        ensures
            final(self).spec_screen_resolution() == resolution,
            final(self).spec_pointer_pixel_position() == old(self).spec_pointer_pixel_position(),
    ;

    fn set_pointer_position(&mut self, position: PixelCoord)
        ensures
            final(self).spec_pointer_pixel_position() == position,
            final(self).spec_screen_resolution() == old(self).spec_screen_resolution(),
    ;

    fn screen_resolution(&self) -> (r: ViewportSize)
        ensures
            r == self.spec_screen_resolution(),
    ;

    fn pointer_pixel_position(&self) -> (r: PixelCoord)
        ensures
            r == self.spec_pointer_pixel_position(),
    ;

    /// The pointer's position in viewport space, derived on each call.
    fn pointer_viewport_position(&self) -> (r: ViewportCoord)
        ensures
            (r.x_num as int, r.x_den as int, r.y_num as int, r.y_den as int) == viewport_of(
                self.spec_pointer_pixel_position(),
                self.spec_screen_resolution(),
            ),
    {
        viewport::pixel_to_viewport(self.pointer_pixel_position(), self.screen_resolution())
    }
}

/// The latest pixel position of a pointer and the latest viewport size.
pub struct PointerState {
    pixel_position: (i32, i32),
    screen_resolution: (u32, u32),
}

impl PointerState {
    pub fn new(screen_resolution: (u32, u32), pixel_position: (i32, i32)) -> (r: Self)
        ensures
            r.spec_screen_resolution() == screen_resolution,
            r.spec_pointer_pixel_position() == pixel_position,
    {
        PointerState { pixel_position: pixel_position, screen_resolution: screen_resolution }
    }
}

impl PointerController for PointerState {
    closed spec fn spec_screen_resolution(&self) -> ViewportSize {
        self.screen_resolution
    }

    closed spec fn spec_pointer_pixel_position(&self) -> PixelCoord {
        self.pixel_position
    }

    fn set_screen_resolution(&mut self, resolution: (u32, u32)) {
        self.screen_resolution = resolution;
    }

    fn set_pointer_position(&mut self, position: (i32, i32)) {
        self.pixel_position = position;
    }

    fn screen_resolution(&self) -> (r: (u32, u32)) {
        self.screen_resolution
    }

    fn pointer_pixel_position(&self) -> (r: (i32, i32)) {
        self.pixel_position
    }
}

} // verus!
