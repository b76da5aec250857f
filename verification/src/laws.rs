use vstd::prelude::*;

use crate::fbx::{kbd_exits, redraw_draws, resize_accepted, DoneStatus, FbxState};
use crate::handler::{wait_action, HandlerState, WaitAction};
use crate::frame::{pixel_count, with_pixel, Rgba8};
use crate::key::{key_of, key_of_char, ElementState, Key, LogicalKey};
use crate::timing::nanosec_period;

verus! {

/// Releasing a key never removes it from the held keys: a key released
/// during a tick is still held when the app is handed the keys.
pub proof fn lemma_release_keeps_key_held(s: FbxState, next: FbxState, key: LogicalKey)
    requires
        s.kbd_next(next, key, ElementState::Released),
    ensures
        next.pressed_keys@ == s.pressed_keys@,
{
}

/// A key pressed and released between two ticks is among the keys that the
/// next tick hands to the app, and is no longer held after that tick.
pub proof fn lemma_short_press_seen_then_dropped(
    s0: FbxState,
    s1: FbxState,
    s2: FbxState,
    s3: FbxState,
    key: LogicalKey,
    k: Key,
    app_answer: Option<bool>,
)
    requires
        key_of(key) == Some(k),
        s0.kbd_next(s1, key, ElementState::Pressed),
        s1.kbd_next(s2, key, ElementState::Released),
        s2.tick_next(s3, app_answer),
    ensures
        s2.pressed_keys@.contains(k),
        !s3.pressed_keys@.contains(k),
{
}

/// After every tick no key counts as released, and a key is held exactly
/// when it was held and not released before the tick.
pub proof fn lemma_tick_forgets_releases(s: FbxState, next: FbxState, app_answer: Option<bool>)
    requires
        s.tick_next(next, app_answer),
    ensures
        next.released_keys@.is_empty(),
        forall|k: Key|
            next.pressed_keys@.contains(k) <==> (s.pressed_keys@.contains(k)
                && !s.released_keys@.contains(k)),
{
}

/// A tick in which the app is not asked (it is done) asks for no draw: a
/// draw is then pending only if it already was.
pub proof fn lemma_idle_tick_asks_no_draw(s: FbxState, next: FbxState)
    requires
        s.tick_next(next, None),
    ensures
        next.needs_render == s.needs_render,
{
}

/// Pressing Space twice restores the pause flag, and each press flips it.
pub proof fn lemma_space_twice_restores_pause(s0: FbxState, s1: FbxState, s2: FbxState)
    requires
        s0.kbd_next(s1, LogicalKey::Space, ElementState::Pressed),
        s1.kbd_next(s2, LogicalKey::Space, ElementState::Pressed),
    ensures
        s1.pause != s0.pause,
        s2.pause == s0.pause,
{
}

/// The window is set up on the first resume only, and only when an app waits
/// for it: a second resume never sets it up again.
pub proof fn lemma_set_up_once(
    h0: HandlerState,
    h1: HandlerState,
    h2: HandlerState,
    first_pending: bool,
    second_pending: bool,
    first: bool,
    second: bool,
)
    requires
        h0.resumed_next(h1, first_pending, first),
        h1.resumed_next(h2, second_pending, second),
    ensures
        !second,
        first == (!h0.init_done && first_pending),
{
}

/// A key pressed, released and pressed again between two ticks is still held
/// after the next tick.
pub proof fn lemma_repress_stays_held(
    s0: FbxState,
    s1: FbxState,
    s2: FbxState,
    s3: FbxState,
    s4: FbxState,
    key: LogicalKey,
    k: Key,
    app_answer: Option<bool>,
)
    requires
        key_of(key) == Some(k),
        s0.kbd_next(s1, key, ElementState::Pressed),
        s1.kbd_next(s2, key, ElementState::Released),
        s2.kbd_next(s3, key, ElementState::Pressed),
        s3.tick_next(s4, app_answer),
    ensures
        s3.pressed_keys@.contains(k),
        s4.pressed_keys@.contains(k),
{
}

/// An app that reports `Remain` is never asked to draw, whatever is pending.
pub proof fn lemma_remain_is_never_drawn(needs_render: bool)
    ensures
        !redraw_draws(needs_render, DoneStatus::Remain),
{
}

/// Two ticks are at least one tick period apart: after a tick at `t1`,
/// calls that do not tick keep the period's start, so a later tick at
/// `t2` comes no earlier than `t1` plus the period.
pub proof fn lemma_ticks_a_period_apart(
    h0: HandlerState,
    h1: HandlerState,
    h2: HandlerState,
    h3: HandlerState,
    done1: bool,
    done2: bool,
    t1: u128,
    t2: u128,
)
    requires
        h0.wait_next(h1, done1, t1, WaitAction::Tick),
        h1.same_timing(h2),
        h2.wait_next(h3, done2, t2, WaitAction::Tick),
        t1 <= t2,
    ensures
        t2 - t1 >= h1.tick_nanos,
        h3.last_frame_nanos == t2,
{
}

/// A call that does not tick keeps the start of the period and the period.
pub proof fn lemma_no_tick_keeps_timing(
    h: HandlerState,
    next: HandlerState,
    app_done: bool,
    now: u128,
    action: WaitAction,
)
    requires
        h.wait_next(next, app_done, now, action),
        action != WaitAction::Tick,
    ensures
        h.same_timing(next),
{
}

/// Without `always_tick` the event loop never polls: between ticks it waits
/// for user events.
pub proof fn lemma_no_polling_without_always_tick(
    app_done: bool,
    elapsed_nanos: u128,
    tick_nanos: u64,
)
    ensures
        wait_action(app_done, elapsed_nanos, tick_nanos, false) != WaitAction::Poll,
{
}

/// A tick never cancels a pending draw, whatever the app answers; it adds
/// one exactly when the app answers `true`.
pub proof fn lemma_tick_keeps_pending_draw(s: FbxState, next: FbxState, app_answer: Option<bool>)
    requires
        s.tick_next(next, app_answer),
    ensures
        s.needs_render ==> next.needs_render,
        app_answer == Some(true) ==> next.needs_render,
        !s.needs_render && app_answer != Some(true) ==> !next.needs_render,
{
}

/// How the event loop is paced, in terms of the clock: it leaves exactly
/// when the app is done; otherwise it ticks exactly when a full period has
/// passed since the last tick (at once for an empty period), and between ticks it polls when the app ticks
/// without user events and sleeps until the next event when not.
pub proof fn lemma_wait_pacing(
    h: HandlerState,
    next: HandlerState,
    app_done: bool,
    now: u128,
    action: WaitAction,
)
    requires
        h.wait_next(next, app_done, now, action),
    ensures
        action == WaitAction::Exit <==> app_done,
        action == WaitAction::Tick <==> (!app_done && (now >= h.last_frame_nanos + h.tick_nanos
            || h.tick_nanos == 0)),
        !app_done && now < h.last_frame_nanos + h.tick_nanos && h.tick_nanos != 0
            && h.always_tick ==> action == WaitAction::Poll,
        !app_done && now < h.last_frame_nanos + h.tick_nanos && h.tick_nanos != 0
            && !h.always_tick ==> action == WaitAction::Wait,
{
}

/// Only Escape pressed asks to leave: no recognized game key, no release and
/// no other key does.
pub proof fn lemma_only_escape_exits(key: LogicalKey, state: ElementState)
    ensures
        kbd_exits(key, state) <==> (key == LogicalKey::Escape && state == ElementState::Pressed),
        key_of(key) is Some ==> !kbd_exits(key, state),
{
}

/// On a web canvas a resize is carried out exactly when both sides lie in
/// 1..=4096; elsewhere every resize is.
pub proof fn lemma_web_resize_bounds(width: u32, height: u32, web_canvas: bool)
    ensures
        web_canvas ==> (resize_accepted(width, height, web_canvas) <==> (1 <= width <= 4096 && 1
            <= height <= 4096)),
        !web_canvas ==> resize_accepted(width, height, web_canvas),
{
}

/// A character names a game key only when it is that key's own letter, and
/// only the letters a z e q s d w x c name one.
pub proof fn lemma_letters_name_their_keys(c: char)
    ensures
        key_of_char(c) == Some(Key::KeyA) <==> c == 'a',
        key_of_char(c) == Some(Key::KeyZ) <==> c == 'z',
        key_of_char(c) == Some(Key::KeyE) <==> c == 'e',
        key_of_char(c) == Some(Key::KeyQ) <==> c == 'q',
        key_of_char(c) == Some(Key::KeyS) <==> c == 's',
        key_of_char(c) == Some(Key::KeyD) <==> c == 'd',
        key_of_char(c) == Some(Key::KeyW) <==> c == 'w',
        key_of_char(c) == Some(Key::KeyX) <==> c == 'x',
        key_of_char(c) == Some(Key::KeyC) <==> c == 'c',
        key_of_char(c) is Some <==> (c == 'a' || c == 'z' || c == 'e' || c == 'q' || c == 's' || c
            == 'd' || c == 'w' || c == 'x' || c == 'c'),
        key_of_char(c) != Some(Key::Up) && key_of_char(c) != Some(Key::Down) && key_of_char(c)
            != Some(Key::Left) && key_of_char(c) != Some(Key::Right),
{
}

/// A logical key names a game key exactly when it is the matching arrow, or
/// the text made of that key's one letter.
pub proof fn lemma_logical_keys_name_their_keys(k: LogicalKey)
    ensures
        key_of(k) == Some(Key::Up) <==> k == LogicalKey::ArrowUp,
        key_of(k) == Some(Key::Down) <==> k == LogicalKey::ArrowDown,
        key_of(k) == Some(Key::Left) <==> k == LogicalKey::ArrowLeft,
        key_of(k) == Some(Key::Right) <==> k == LogicalKey::ArrowRight,
        key_of(k) is Some && !(k is ArrowUp || k is ArrowDown || k is ArrowLeft
            || k is ArrowRight) ==> (k matches LogicalKey::Character(name) && name@.len() == 1
            && key_of(k) == key_of_char(name@[0])),
        k is Escape || k is Space || k is Unrecognized ==> key_of(k) is None,
{
    if let LogicalKey::Character(name) = k {
        lemma_letters_name_their_keys(name@[0]);
    }
}

/// What a keyboard event does to the window state: a recognized key pressed
/// becomes held and is no longer counted as released; released, it is
/// counted as released and stays held; other keys change no key set. Only
/// Space pressed flips the pause, and no keyboard event asks for a draw.
pub proof fn lemma_kbd_effects(s: FbxState, next: FbxState, key: LogicalKey, state: ElementState)
    requires
        s.kbd_next(next, key, state),
    ensures
        key_of(key) is Some && state == ElementState::Pressed ==> next.pressed_keys@
            == s.pressed_keys@.insert(key_of(key).unwrap()) && next.released_keys@
            == s.released_keys@.remove(key_of(key).unwrap()),
        key_of(key) is Some && state == ElementState::Released ==> next.pressed_keys@
            == s.pressed_keys@ && next.released_keys@ == s.released_keys@.insert(
            key_of(key).unwrap(),
        ),
        key_of(key) is None ==> next.pressed_keys@ == s.pressed_keys@ && next.released_keys@
            == s.released_keys@,
        next.pause != s.pause <==> (key == LogicalKey::Space && state == ElementState::Pressed),
        next.needs_render == s.needs_render,
        next.width == s.width && next.height == s.height,
{
}

/// A redraw asks the app to draw exactly when a draw is pending and the app
/// has not reported `Remain`.
pub proof fn lemma_redraw_draws_pending_unless_remain(needs_render: bool, status: DoneStatus)
    ensures
        redraw_draws(needs_render, status) <==> (needs_render && status != DoneStatus::Remain),
{
}

/// Writing a pixel sets its four bytes to red, green, blue and alpha in that
/// order and leaves every other byte and the length alone.
pub proof fn lemma_pixel_write_bytes(frame: Seq<u8>, idx: int, color: Rgba8)
    requires
        0 <= idx < pixel_count(frame),
    ensures
        with_pixel(frame, idx, color).len() == frame.len(),
        with_pixel(frame, idx, color)[4 * idx] == color.r,
        with_pixel(frame, idx, color)[4 * idx + 1] == color.g,
        with_pixel(frame, idx, color)[4 * idx + 2] == color.b,
        with_pixel(frame, idx, color)[4 * idx + 3] == color.a,
        forall|j: int|
            0 <= j < frame.len() && !(4 * idx <= j < 4 * idx + 4) ==> #[trigger] with_pixel(
                frame,
                idx,
                color,
            )[j] == frame[j],
{
}

/// A resume sets the window up exactly when it is the first one and an app
/// waits for its window, and every resume marks the set-up as done.
pub proof fn lemma_resume_effects(
    h: HandlerState,
    next: HandlerState,
    app_pending: bool,
    set_up: bool,
)
    requires
        h.resumed_next(next, app_pending, set_up),
    ensures
        set_up <==> (!h.init_done && app_pending),
        next.init_done,
        next.tick_nanos == h.tick_nanos && next.last_frame_nanos == h.last_frame_nanos,
{
}

/// The tick period is the second divided by the rate, rounded down, and
/// unbounded for a zero rate.
pub proof fn lemma_period_is_rounded_quotient(hz: u16)
    ensures
        hz > 0 ==> nanosec_period(hz) * hz <= 1_000_000_000 < (nanosec_period(hz) + 1) * hz,
        hz == 0 ==> nanosec_period(hz) == u64::MAX,
{
    if hz > 0 {
        let q: int = nanosec_period(hz) as int;
        assert(q * hz <= 1_000_000_000 < (q + 1) * hz) by (nonlinear_arith)
            requires
                q == 1_000_000_000int / (hz as int),
                hz > 0,
        ;
    }
}

} // verus!
