use vstd::prelude::*;

verus! {

/// Number of slots in the fixed-size key table.
pub const KEY_SLOTS: usize = 256;

/// A table of keys: for each slot, whether the key is down and whether an
/// event for it has been seen since the last `clear_changes`.
///
/// The table is described slot by slot: `key_index` maps a key to its slot,
/// `down_at` and `changed_at` give a slot's state. An implementation may keep
/// state beyond the table; `on_set_down` and `on_mark` relate that state before
/// and after each of the two primitive mutators, which every convenience method
/// is built from.
pub trait KeyboardController: Sized {
    type Key;

    /// The slot of the table that a key occupies.
    spec fn key_index(key: Self::Key) -> int;

    /// Whether the key in slot `i` is down.
    spec fn down_at(&self, i: int) -> bool;

    /// Whether slot `i` has seen an event since the last clear.
    spec fn changed_at(&self, i: int) -> bool;

    /// How the state beyond the table follows `_set_key_down` on slot `i`.
    spec fn on_set_down(pre: Self, post: Self, i: int) -> bool;

    /// How the state beyond the table follows `_set_key_state_changed` on slot `i`.
    spec fn on_mark(pre: Self, post: Self, i: int) -> bool;

    /// Forgets every event; the down states stay as they are.
    fn clear_changes(&mut self)
        ensures
            forall|i: int| #[trigger] final(self).down_at(i) == old(self).down_at(i),
            forall|i: int| !(#[trigger] final(self).changed_at(i)),
    ;

    /// Primitive: records the key's down state, and nothing else of the table.
    fn _set_key_down(&mut self, key: &Self::Key, key_down: bool)
        ensures
            final(self).down_at(Self::key_index(*key)) == key_down,
            forall|i: int|
                i != Self::key_index(*key) ==> #[trigger] final(self).down_at(i) == old(
                    self,
                ).down_at(i),
            forall|i: int| #[trigger] final(self).changed_at(i) == old(self).changed_at(i),
            Self::on_set_down(*old(self), *final(self), Self::key_index(*key)),
    ;

    /// Primitive: records that an event for the key was seen.
    fn _set_key_state_changed(&mut self, key: &Self::Key)
        ensures
            final(self).changed_at(Self::key_index(*key)),
            forall|i: int|
                i != Self::key_index(*key) ==> #[trigger] final(self).changed_at(i) == old(
                    self,
                ).changed_at(i),
            forall|i: int| #[trigger] final(self).down_at(i) == old(self).down_at(i),
            Self::on_mark(*old(self), *final(self), Self::key_index(*key)),
    ;

    fn key_down(&self, key: &Self::Key) -> (r: bool)
        ensures
            r == self.down_at(Self::key_index(*key)),
    ;

    fn key_state_changed(&self, key: &Self::Key) -> (r: bool)
        ensures
            r == self.changed_at(Self::key_index(*key)),
    ;

    /// Records an event for the key with the given down state, whether or not
    /// the state differs from the one before.
    fn set_key_state(&mut self, key: &Self::Key, key_down: bool)
        ensures
            final(self).down_at(Self::key_index(*key)) == key_down,
            final(self).changed_at(Self::key_index(*key)),
            forall|j: int|
                j != Self::key_index(*key) ==> #[trigger] final(self).down_at(j) == old(
                    self,
                ).down_at(j),
            forall|j: int|
                j != Self::key_index(*key) ==> #[trigger] final(self).changed_at(j) == old(
                    self,
                ).changed_at(j),
            exists|mid: Self|
                #[trigger] Self::on_set_down(*old(self), mid, Self::key_index(*key))
                    && mid.down_at(Self::key_index(*key)) == key_down && Self::on_mark(
                    mid,
                    *final(self),
                    Self::key_index(*key),
                ),
    {
        let ghost pre = *self;
        self._set_key_down(key, key_down);
        let ghost mid = *self;
        self._set_key_state_changed(key);
        assert(Self::on_set_down(pre, mid, Self::key_index(*key)));
    }

    fn set_key_down(&mut self, key: &Self::Key)
        ensures
            final(self).down_at(Self::key_index(*key)) == true,
            final(self).changed_at(Self::key_index(*key)),
            forall|j: int|
                j != Self::key_index(*key) ==> #[trigger] final(self).down_at(j) == old(
                    self,
                ).down_at(j),
            forall|j: int|
                j != Self::key_index(*key) ==> #[trigger] final(self).changed_at(j) == old(
                    self,
                ).changed_at(j),
            exists|mid: Self|
                #[trigger] Self::on_set_down(*old(self), mid, Self::key_index(*key))
                    && mid.down_at(Self::key_index(*key)) == true && Self::on_mark(
                    mid,
                    *final(self),
                    Self::key_index(*key),
                ),
    {
        self.set_key_state(key, true);
    }

    fn set_key_up(&mut self, key: &Self::Key)
        ensures
            final(self).down_at(Self::key_index(*key)) == false,
            final(self).changed_at(Self::key_index(*key)),
            forall|j: int|
                j != Self::key_index(*key) ==> #[trigger] final(self).down_at(j) == old(
                    self,
                ).down_at(j),
            forall|j: int|
                j != Self::key_index(*key) ==> #[trigger] final(self).changed_at(j) == old(
                    self,
                ).changed_at(j),
            exists|mid: Self|
                #[trigger] Self::on_set_down(*old(self), mid, Self::key_index(*key))
                    && mid.down_at(Self::key_index(*key)) == false && Self::on_mark(
                    mid,
                    *final(self),
                    Self::key_index(*key),
                ),
    {
        self.set_key_state(key, false);
    }

    fn key_pressed(&self, key: &Self::Key) -> (r: bool)
        ensures
            r == (self.down_at(Self::key_index(*key)) && self.changed_at(Self::key_index(*key))),
    {
        self.key_down(key) && self.key_state_changed(key)
    }

    fn key_released(&self, key: &Self::Key) -> (r: bool)
        ensures
            r == (!self.down_at(Self::key_index(*key)) && self.changed_at(
                Self::key_index(*key),
            )),
    {
        !self.key_down(key) && self.key_state_changed(key)
    }
}

/// Slot `i` went down since the last clear: it is down and has seen an event.
pub open spec fn pressed_at<C: KeyboardController>(c: C, i: int) -> bool {
    c.down_at(i) && c.changed_at(i)
}

/// Slot `i` went up since the last clear: it is up and has seen an event.
pub open spec fn released_at<C: KeyboardController>(c: C, i: int) -> bool {
    !c.down_at(i) && c.changed_at(i)
}

/// `post` is `pre` after `set_key_state` on slot `i` with down state `key_down`:
/// the slot holds the new state and is marked, every other slot is as it was,
/// and the state beyond the table went through both primitives in turn.
pub open spec fn key_state_set<C: KeyboardController>(
    pre: C,
    post: C,
    i: int,
    key_down: bool,
) -> bool {
    &&& post.down_at(i) == key_down
    &&& post.changed_at(i)
    &&& forall|j: int| j != i ==> #[trigger] post.down_at(j) == pre.down_at(j)
    &&& forall|j: int| j != i ==> #[trigger] post.changed_at(j) == pre.changed_at(j)
    &&& exists|mid: C|
        #[trigger] C::on_set_down(pre, mid, i) && mid.down_at(i) == key_down && C::on_mark(
            mid,
            post,
            i,
        )
}

/// `post` is `pre` after `clear_changes`: every slot keeps its down state and
/// no slot has an event.
pub open spec fn changes_cleared<C: KeyboardController>(pre: C, post: C) -> bool {
    &&& forall|i: int| #[trigger] post.down_at(i) == pre.down_at(i)
    &&& forall|i: int| !(#[trigger] post.changed_at(i))
}

/// After `set_key_down(k)`, `k` is down and pressed, and not released.
pub proof fn lemma_set_key_down_presses<C: KeyboardController>(pre: C, post: C, key: C::Key)
    requires
        key_state_set(pre, post, C::key_index(key), true),
    ensures
        post.down_at(C::key_index(key)),
        pressed_at(post, C::key_index(key)),
        !released_at(post, C::key_index(key)),
{
}

/// After `set_key_up(k)`, `k` is up and released, and not pressed.
pub proof fn lemma_set_key_up_releases<C: KeyboardController>(pre: C, post: C, key: C::Key)
    requires
        key_state_set(pre, post, C::key_index(key), false),
    ensures
        !post.down_at(C::key_index(key)),
        released_at(post, C::key_index(key)),
        !pressed_at(post, C::key_index(key)),
{
}

/// Setting one key's state leaves the down state of every key in another slot
/// as it was.
pub proof fn lemma_set_key_state_keeps_other_keys<C: KeyboardController>(
    pre: C,
    post: C,
    key: C::Key,
    key_down: bool,
    other: C::Key,
)
    requires
        key_state_set(pre, post, C::key_index(key), key_down),
        C::key_index(other) != C::key_index(key),
    ensures
        post.down_at(C::key_index(other)) == pre.down_at(C::key_index(other)),
{
}

/// After `clear_changes`, no key is pressed or released, and every key is down
/// exactly when it was before.
pub proof fn lemma_clear_changes_ends_presses<C: KeyboardController>(pre: C, post: C)
    requires
        changes_cleared(pre, post),
    ensures
        forall|i: int|
            !(#[trigger] pressed_at(post, i)) && !released_at(post, i) && post.down_at(i)
                == pre.down_at(i),
{
}

/// Whether any key went down, or up, since the last clear.
pub trait AnyKeyController {
    spec fn spec_any_key_pressed(&self) -> bool;

    spec fn spec_any_key_released(&self) -> bool;

    fn any_key_pressed(&self) -> (r: bool)
        ensures
            r == self.spec_any_key_pressed(),
    ;

    fn any_key_released(&self) -> (r: bool)
        ensures
            r == self.spec_any_key_released(),
    ;
}

/// Wraps a key table and keeps two flags beside it: whether some event since
/// the last clear left its key down, and whether some event left its key up.
/// The flags are raised as each event is marked, so no query scans the table.
pub struct AnyKeyKeyboardState<T> {
    keyboard_state: T,
    any_key_pressed: bool,
    any_key_released: bool,
}

impl<T> AnyKeyKeyboardState<T> where T: KeyboardController {
    /// The wrapped table.
    pub closed spec fn wrapped(&self) -> T {
        self.keyboard_state
    }

    /// Wraps a table as it is, with both flags lowered.
    pub fn new(keyboard_state: T) -> (r: Self)
        ensures
            forall|i: int| #[trigger] r.down_at(i) == keyboard_state.down_at(i),
            forall|i: int| #[trigger] r.changed_at(i) == keyboard_state.changed_at(i),
            !r.spec_any_key_pressed(),
            !r.spec_any_key_released(),
    {
        AnyKeyKeyboardState {
            keyboard_state: keyboard_state,
            any_key_pressed: false,
            any_key_released: false,
        }
    }
}

impl<T> KeyboardController for AnyKeyKeyboardState<T> where T: KeyboardController {
    type Key = T::Key;

    open spec fn key_index(key: T::Key) -> int {
        T::key_index(key)
    }

    open spec fn down_at(&self, i: int) -> bool {
        self.wrapped().down_at(i)
    }

    open spec fn changed_at(&self, i: int) -> bool {
        self.wrapped().changed_at(i)
    }

    /// The wrapped table follows its own rule, and both flags stay as they were.
    open spec fn on_set_down(pre: Self, post: Self, i: int) -> bool {
        &&& T::on_set_down(pre.wrapped(), post.wrapped(), i)
        &&& post.spec_any_key_pressed() == pre.spec_any_key_pressed()
        &&& post.spec_any_key_released() == pre.spec_any_key_released()
    }

    /// The wrapped table follows its own rule, and the flag that matches the
    /// key's down state is raised.
    open spec fn on_mark(pre: Self, post: Self, i: int) -> bool {
        &&& T::on_mark(pre.wrapped(), post.wrapped(), i)
        &&& post.spec_any_key_pressed() == (pre.spec_any_key_pressed() || pre.down_at(i))
        &&& post.spec_any_key_released() == (pre.spec_any_key_released() || !pre.down_at(i))
    }

    fn clear_changes(&mut self)
        ensures
            !final(self).spec_any_key_pressed(),
            !final(self).spec_any_key_released(),
    {
        self.keyboard_state.clear_changes();
        self.any_key_pressed = false;
        self.any_key_released = false;
    }

    fn _set_key_down(&mut self, key: &T::Key, key_down: bool)
        ensures
            final(self).spec_any_key_pressed() == old(self).spec_any_key_pressed(),
            final(self).spec_any_key_released() == old(self).spec_any_key_released(),
    {
        self.keyboard_state._set_key_down(key, key_down);
    }

    fn _set_key_state_changed(&mut self, key: &T::Key)
        ensures
            final(self).spec_any_key_pressed() == (old(self).spec_any_key_pressed()
                || old(self).down_at(Self::key_index(*key))),
            final(self).spec_any_key_released() == (old(self).spec_any_key_released()
                || !old(self).down_at(Self::key_index(*key))),
    {
        self.keyboard_state._set_key_state_changed(key);
        match self.key_down(key) {
            true => self.any_key_pressed = true,
            false => self.any_key_released = true,
        }
    }

    fn key_down(&self, key: &T::Key) -> (r: bool) {
        self.keyboard_state.key_down(key)
    }

    fn key_state_changed(&self, key: &T::Key) -> (r: bool) {
        self.keyboard_state.key_state_changed(key)
    }
}

impl<T> AnyKeyController for AnyKeyKeyboardState<T> where T: KeyboardController {
    closed spec fn spec_any_key_pressed(&self) -> bool {
        self.any_key_pressed
    }

    closed spec fn spec_any_key_released(&self) -> bool {
        self.any_key_released
    }

    fn any_key_pressed(&self) -> (r: bool) {
        self.any_key_pressed
    }

    fn any_key_released(&self) -> (r: bool) {
        self.any_key_released
    }
}

/// Setting a key's state on an any-key table raises the flag that matches the
/// new state and leaves the other flag as it was.
pub proof fn lemma_any_key_follows_set_key_state<T: KeyboardController>(
    pre: AnyKeyKeyboardState<T>,
    post: AnyKeyKeyboardState<T>,
    key: T::Key,
    key_down: bool,
)
    requires
        key_state_set(pre, post, T::key_index(key), key_down),
    ensures
        post.spec_any_key_pressed() == (pre.spec_any_key_pressed() || key_down),
        post.spec_any_key_released() == (pre.spec_any_key_released() || !key_down),
{
}

/// A table of 256 slots, one per 8-bit key code. Keys are `u8`, so every key
/// has a slot and no index can fall outside the table.
pub struct GenericKeyboardState {
    key_down: [bool; 256],
    key_state_changed: [bool; 256],
}

impl GenericKeyboardState {
    /// A table with every key up and no events.
    pub fn new() -> (r: Self)
        ensures
            forall|i: int| !(#[trigger] r.down_at(i)),
            forall|i: int| !(#[trigger] r.changed_at(i)),
    {
        GenericKeyboardState { key_down: [false; 256], key_state_changed: [false; 256] }
    }
}

impl KeyboardController for GenericKeyboardState {
    type Key = u8;

    open spec fn key_index(key: u8) -> int {
        key as int
    }

    closed spec fn down_at(&self, i: int) -> bool {
        0 <= i < KEY_SLOTS && self.key_down[i]
    }

    closed spec fn changed_at(&self, i: int) -> bool {
        0 <= i < KEY_SLOTS && self.key_state_changed[i]
    }

    open spec fn on_set_down(pre: Self, post: Self, i: int) -> bool {
        true
    }

    open spec fn on_mark(pre: Self, post: Self, i: int) -> bool {
        true
    }

    fn clear_changes(&mut self) {
        let mut i: usize = 0;
        while i < KEY_SLOTS
            invariant
                i <= KEY_SLOTS,
                self.key_down == old(self).key_down,
                forall|j: int| 0 <= j < i ==> !(#[trigger] self.key_state_changed[j]),
            decreases KEY_SLOTS - i,
        {
            self.key_state_changed[i] = false;
            i = i + 1;
        }
    }

    fn _set_key_down(&mut self, key: &u8, key_down: bool) {
        self.key_down[*key as usize] = key_down;
    }

    fn _set_key_state_changed(&mut self, key: &u8) {
        self.key_state_changed[*key as usize] = true;
    }

    fn key_down(&self, key: &u8) -> (r: bool) {
        self.key_down[*key as usize]
    }

    fn key_state_changed(&self, key: &u8) -> (r: bool) {
        self.key_state_changed[*key as usize]
    }
}

} // verus!
