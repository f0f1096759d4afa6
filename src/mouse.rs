use vstd::prelude::*;
use crate::keyboard::{
    key_state_set, AnyKeyController, AnyKeyKeyboardState, GenericKeyboardState,
    KeyboardController,
};
use crate::pointer::{PointerController, PointerState};
use crate::viewport::{PixelCoord, ViewportSize};

verus! {

/// A mouse button: one of the three named ones, or one given by its number.
#[derive(Clone, Copy, Debug, PartialEq, Eq, Structural)]
pub enum MouseButton {
    Left,
    Middle,
    Right,
    Button(u8),
}

/// The table slot of a button: Left is 0, Middle 1, Right 2, and `Button(n)` is
/// `n`. A numbered button 0, 1 or 2 shares its slot with the named one.
pub open spec fn button_index(button: MouseButton) -> u8 {
    match button {
        MouseButton::Left => 0,
        MouseButton::Middle => 1,
        MouseButton::Right => 2,
        MouseButton::Button(n) => n,
    }
}

impl MouseButton {
    /// The table slot of this button.
    pub fn index(&self) -> (r: u8)
        ensures
            r == button_index(*self),
    {
        match self {
            MouseButton::Left => 0,
            MouseButton::Middle => 1,
            MouseButton::Right => 2,
            MouseButton::Button(n) => *n,
        }
    }
}

/// A mouse: a button table with any-key flags, and a pointer.
pub struct GenericMouseState {
    buttons: AnyKeyKeyboardState<GenericKeyboardState>,
    pointer: PointerState,
}

impl GenericMouseState {
    /// The button table with its any-button flags.
    pub closed spec fn buttons(&self) -> AnyKeyKeyboardState<GenericKeyboardState> {
        self.buttons
    }

    /// The pointer.
    pub closed spec fn pointer(&self) -> PointerState {
        self.pointer
    }

    /// Whether the button in slot `i` is down.
    pub open spec fn button_down(&self, i: int) -> bool {
        self.buttons().down_at(i)
    }

    /// Whether slot `i` has seen an event since the last clear.
    pub open spec fn button_changed(&self, i: int) -> bool {
        self.buttons().changed_at(i)
    }
    /// A mouse with every button up, no events, and the pointer at
    /// `mouse_position` in a viewport of `screen_resolution`.
    pub fn new(screen_resolution: ViewportSize, mouse_position: PixelCoord) -> (r:
        GenericMouseState)
        ensures
            forall|i: int| !(#[trigger] r.down_at(i)),
            forall|i: int| !(#[trigger] r.changed_at(i)),
            !r.spec_any_key_pressed(),
            !r.spec_any_key_released(),
            r.spec_screen_resolution() == screen_resolution,
            r.spec_pointer_pixel_position() == mouse_position,
    {
        GenericMouseState {
            buttons: AnyKeyKeyboardState::new(GenericKeyboardState::new()),
            pointer: PointerState::new(screen_resolution, mouse_position),
        }
    }
}

impl KeyboardController for GenericMouseState {
    type Key = MouseButton;

    open spec fn key_index(key: MouseButton) -> int {
        button_index(key) as int
    }

    open spec fn down_at(&self, i: int) -> bool {
        self.button_down(i)
    }

    open spec fn changed_at(&self, i: int) -> bool {
        self.button_changed(i)
    }

    /// The buttons follow their table's rule, and the pointer stays as it was.
    open spec fn on_set_down(pre: Self, post: Self, i: int) -> bool {
        &&& AnyKeyKeyboardState::<GenericKeyboardState>::on_set_down(
            pre.buttons(),
            post.buttons(),
            i,
        )
        &&& post.pointer() == pre.pointer()
    }

    /// The buttons follow their table's rule, and the pointer stays as it was.
    open spec fn on_mark(pre: Self, post: Self, i: int) -> bool {
        &&& AnyKeyKeyboardState::<GenericKeyboardState>::on_mark(pre.buttons(), post.buttons(), i)
        &&& post.pointer() == pre.pointer()
    }

    fn clear_changes(&mut self)
        ensures
            !final(self).spec_any_key_pressed(),
            !final(self).spec_any_key_released(),
            final(self).spec_screen_resolution() == old(self).spec_screen_resolution(),
            final(self).spec_pointer_pixel_position() == old(self).spec_pointer_pixel_position(),
    {
        self.buttons.clear_changes();
    }

    fn _set_key_down(&mut self, key: &MouseButton, key_down: bool)
        ensures
            final(self).spec_any_key_pressed() == old(self).spec_any_key_pressed(),
            final(self).spec_any_key_released() == old(self).spec_any_key_released(),
    {
        self.buttons._set_key_down(&key.index(), key_down);
    }

    fn _set_key_state_changed(&mut self, key: &MouseButton)
        ensures
            final(self).spec_any_key_pressed() == (old(self).spec_any_key_pressed()
                || old(self).down_at(Self::key_index(*key))),
            final(self).spec_any_key_released() == (old(self).spec_any_key_released()
                || !old(self).down_at(Self::key_index(*key))),
    {
        self.buttons._set_key_state_changed(&key.index());
    }

    fn key_down(&self, key: &MouseButton) -> (r: bool) {
        self.buttons.key_down(&key.index())
    }

    fn key_state_changed(&self, key: &MouseButton) -> (r: bool) {
        self.buttons.key_state_changed(&key.index())
    }
}

impl AnyKeyController for GenericMouseState {
    open spec fn spec_any_key_pressed(&self) -> bool {
        self.buttons().spec_any_key_pressed()
    }

    open spec fn spec_any_key_released(&self) -> bool {
        self.buttons().spec_any_key_released()
    }

    fn any_key_pressed(&self) -> (r: bool) {
        self.buttons.any_key_pressed()
    }

    fn any_key_released(&self) -> (r: bool) {
        self.buttons.any_key_released()
    }
}

impl PointerController for GenericMouseState {
    open spec fn spec_screen_resolution(&self) -> ViewportSize {
        self.pointer().spec_screen_resolution()
    }

    open spec fn spec_pointer_pixel_position(&self) -> PixelCoord {
        self.pointer().spec_pointer_pixel_position()
    }

    fn set_screen_resolution(&mut self, resolution: ViewportSize)
        ensures
            forall|i: int| #[trigger] final(self).button_down(i) == old(self).button_down(i),
            forall|i: int| #[trigger] final(self).button_changed(i) == old(self).button_changed(i),
            final(self).spec_any_key_pressed() == old(self).spec_any_key_pressed(),
            final(self).spec_any_key_released() == old(self).spec_any_key_released(),
    {
        self.pointer.set_screen_resolution(resolution);
    }

    fn set_pointer_position(&mut self, position: PixelCoord)
        ensures
            forall|i: int| #[trigger] final(self).button_down(i) == old(self).button_down(i),
            forall|i: int| #[trigger] final(self).button_changed(i) == old(self).button_changed(i),
            final(self).spec_any_key_pressed() == old(self).spec_any_key_pressed(),
            final(self).spec_any_key_released() == old(self).spec_any_key_released(),
    {
        self.pointer.set_pointer_position(position);
    }

    fn screen_resolution(&self) -> (r: ViewportSize) {
        self.pointer.screen_resolution()
    }

    fn pointer_pixel_position(&self) -> (r: PixelCoord) {
        self.pointer.pointer_pixel_position()
    }
}

/// Setting a button's state raises the mouse's any-button flag that matches the
/// new state, leaves the other flag as it was, and leaves the pointer alone.
pub proof fn lemma_mouse_any_button_follows_set_key_state(
    pre: GenericMouseState,
    post: GenericMouseState,
    button: MouseButton,
    key_down: bool,
)
    requires
        key_state_set(pre, post, button_index(button) as int, key_down),
    ensures
        post.spec_any_key_pressed() == (pre.spec_any_key_pressed() || key_down),
        post.spec_any_key_released() == (pre.spec_any_key_released() || !key_down),
        post.spec_screen_resolution() == pre.spec_screen_resolution(),
        post.spec_pointer_pixel_position() == pre.spec_pointer_pixel_position(),
{
}

} // verus!
