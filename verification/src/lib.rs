//! Verified core of a small windowing and framebuffer toolkit: key mapping,
//! the set of held keys, frame pacing, pixel writes and the decisions that the
//! event loop takes on each window event.

mod fbx;
mod frame;
mod handler;
mod key;
mod key_set;
mod laws;
mod timing;

pub use fbx::{
    kbd_exits, kbd_toggles_pause, pressed_after, redraw_draws, released_after, resize_accepted, DoneStatus,
    EventAction, FbxState, WindowInput, MAX_CANVAS_SIDE,
};
pub use frame::{pixel_count, put_pixel, with_pixel, Rgba8};
pub use handler::{elapsed_since, wait_action, HandlerState, WaitAction};
pub use key::{key_of, key_of_char, key_of_text, lemma_key_index_roundtrip, ElementState, Key, LogicalKey, KEY_COUNT};
pub use key_set::KeySet;
pub use laws::{
    lemma_kbd_effects, lemma_period_is_rounded_quotient, lemma_pixel_write_bytes,
    lemma_redraw_draws_pending_unless_remain, lemma_resume_effects,
    lemma_letters_name_their_keys, lemma_logical_keys_name_their_keys, lemma_only_escape_exits,
    lemma_tick_keeps_pending_draw, lemma_wait_pacing, lemma_web_resize_bounds,
    lemma_idle_tick_asks_no_draw, lemma_no_polling_without_always_tick, lemma_no_tick_keeps_timing,
    lemma_release_keeps_key_held, lemma_ticks_a_period_apart,
    lemma_remain_is_never_drawn, lemma_repress_stays_held, lemma_set_up_once, lemma_short_press_seen_then_dropped,
    lemma_space_twice_restores_pause, lemma_tick_forgets_releases,
};
pub use timing::{hz_to_nanosec_period, nanosec_period, NANOS_PER_SECOND};
