mod keyboard;
mod pointer;

pub mod mouse;
pub mod viewport;

pub use self::keyboard::{
    changes_cleared, key_state_set, lemma_any_key_follows_set_key_state,
    lemma_clear_changes_ends_presses, lemma_set_key_down_presses,
    lemma_set_key_state_keeps_other_keys, lemma_set_key_up_releases, pressed_at, released_at,
    AnyKeyController, AnyKeyKeyboardState, GenericKeyboardState, KeyboardController, KEY_SLOTS,
};
pub use self::pointer::{PointerController, PointerState};
