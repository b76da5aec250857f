use vstd::prelude::*;

use crate::key::{key_of, ElementState, Key, LogicalKey};
use crate::key_set::KeySet;

verus! {

/// What an application reports about its own progress.
#[derive(PartialEq, Eq, Structural, Clone, Copy, Debug)]
pub enum DoneStatus {
    /// The program should quit, the app has nothing left to do.
    Exit,
    /// The program should remain open, but the app is done. Useful when you
    /// want the result of the app to stay on the screen. On `Remain` the
    /// `draw` and `on_tick` methods will not be called anymore.
    Remain,
    /// The program should continue, the app is not done.
    NotDone,
}

/// A window event, reduced to what the framebuffer's decisions read.
#[derive(PartialEq, Eq, Debug)]
pub enum WindowInput {
    CloseRequested,
    Resized { width: u32, height: u32 },
    KeyboardInput { key: LogicalKey, state: ElementState, repeat: bool },
    RedrawRequested,
    CursorMoved,
    MouseInput { pressed: bool },
    Other,
}

/// What the event loop has to do after a window event.
#[derive(PartialEq, Eq, Structural, Clone, Copy, Debug)]
pub enum EventAction {
    /// Leave the event loop.
    Exit,
    /// Resize the drawing surface, then report the outcome to `end_resize`.
    ResizeSurface { width: u32, height: u32 },
    /// Let the app draw when `draw` holds, render, then report the outcome to
    /// `end_redraw`.
    Redraw { draw: bool },
    /// Record the new cursor position.
    MoveCursor,
    /// Nothing to do.
    Nothing,
}

/// Largest canvas side that a web page accepts on resize.
pub const MAX_CANVAS_SIDE: u32 = 4096;

/// The state of the framebuffer window that its decisions read and change:
/// the pause flag, the size it was made with, the keys held down, the keys
/// released since the last tick, and whether the app must draw again.
pub struct FbxState {
    pub pause: bool,
    pub height: usize,
    pub width: usize,
    pub pressed_keys: KeySet,
    pub released_keys: KeySet,
    pub needs_render: bool,
}

/// The keys held after a keyboard event: a recognized key pressed joins them.
pub open spec fn pressed_after(pressed: Set<Key>, key: LogicalKey, state: ElementState) -> Set<Key> {
    match key_of(key) {
        Some(k) if state == ElementState::Pressed => pressed.insert(k),
        _ => pressed,
    }
}

/// The keys released since the last tick after a keyboard event: a
/// recognized key released joins them, and pressed again leaves them, since
/// it is held once more.
pub open spec fn released_after(released: Set<Key>, key: LogicalKey, state: ElementState) -> Set<Key> {
    match key_of(key) {
        Some(k) => if state == ElementState::Released {
            released.insert(k)
        } else {
            released.remove(k)
        },
        None => released,
    }
}

/// Whether a redraw asks the app to draw: a draw is pending and the app has
/// not reported `Remain`.
pub open spec fn redraw_draws(needs_render: bool, status: DoneStatus) -> bool {
    needs_render && status != DoneStatus::Remain
}

/// Whether a keyboard event asks to leave: Escape pressed.
pub open spec fn kbd_exits(key: LogicalKey, state: ElementState) -> bool {
    state == ElementState::Pressed && key == LogicalKey::Escape
}

/// Whether a keyboard event toggles the pause: Space pressed.
pub open spec fn kbd_toggles_pause(key: LogicalKey, state: ElementState) -> bool {
    state == ElementState::Pressed && key == LogicalKey::Space
}

/// Whether a resize to `width` by `height` is carried out; on a web canvas
/// only sides from 1 to `MAX_CANVAS_SIDE` are.
pub open spec fn resize_accepted(width: u32, height: u32, web_canvas: bool) -> bool {
    !web_canvas || (0 < width <= MAX_CANVAS_SIDE && 0 < height <= MAX_CANVAS_SIDE)
}

impl FbxState {
    /// `next` keeps the pause flag, the size and both key sets of `self`.
    pub open spec fn same_keys_and_pause(self, next: FbxState) -> bool {
        &&& next.pause == self.pause
        &&& next.width == self.width
        &&& next.height == self.height
        &&& next.pressed_keys@ == self.pressed_keys@
        &&& next.released_keys@ == self.released_keys@
    }

    /// `next` is `self` after a keyboard event.
    pub open spec fn kbd_next(self, next: FbxState, key: LogicalKey, state: ElementState) -> bool {
        &&& next.pressed_keys@ == pressed_after(self.pressed_keys@, key, state)
        &&& next.released_keys@ == released_after(self.released_keys@, key, state)
        &&& next.pause == (self.pause != kbd_toggles_pause(key, state))
        &&& next.needs_render == self.needs_render
        &&& next.width == self.width
        &&& next.height == self.height
    }

    /// `next` is `self` after a tick, where `app_answer` is what the app's
    /// tick returned, or `None` when the app was not asked.
    pub open spec fn tick_next(self, next: FbxState, app_answer: Option<bool>) -> bool {
        &&& next.pressed_keys@ == self.pressed_keys@.difference(self.released_keys@)
        &&& next.released_keys@ == Set::<Key>::empty()
        &&& next.needs_render == (self.needs_render || app_answer == Some(true))
        &&& next.pause == self.pause
        &&& next.width == self.width
        &&& next.height == self.height
    }

    /// A new window state of the given size: nothing held, not paused, and a
    /// first draw pending.
    pub fn new(width: usize, height: usize) -> (s: FbxState)
        ensures
            s.width == width,
            s.height == height,
            !s.pause,
            s.needs_render,
            s.pressed_keys@ == Set::<Key>::empty(),
            s.released_keys@ == Set::<Key>::empty(),
    {
        FbxState {
            pause: false,
            height,
            width,
            pressed_keys: KeySet::new(),
            released_keys: KeySet::new(),
            needs_render: true,
        }
    }

    /// Whether the program should leave, given the app's status.
    pub fn done(status: &DoneStatus) -> (r: bool)
        ensures
            r == (*status == DoneStatus::Exit),
    {
        match status {
            DoneStatus::Exit => true,
            _ => false,
        }
    }

    /// One tick: when the app is not done, hands it the held keys (keys
    /// released during the tick among them) and the window size; a `true`
    /// answer asks for a new render. Then the released keys leave the held
    /// ones. Returns the app's answer, `None` when it was not asked.
    pub fn on_tick<F: FnOnce(&KeySet, (usize, usize)) -> bool>(
        &mut self,
        status: &DoneStatus,
        app_tick: F,
    ) -> (answer: Option<bool>)
        requires
            *status == DoneStatus::NotDone ==> call_requires(
                app_tick,
                (&old(self).pressed_keys, (old(self).width, old(self).height)),
            ),
        ensures
            old(self).tick_next(*final(self), answer),
            old(self).needs_render ==> final(self).needs_render,
            answer == Some(true) ==> final(self).needs_render,
            final(self).needs_render ==> (old(self).needs_render || answer == Some(true)),
            answer is Some <==> *status == DoneStatus::NotDone,
            answer matches Some(r) ==> call_ensures(
                app_tick,
                (&old(self).pressed_keys, (old(self).width, old(self).height)),
                r,
            ),
    {
        let answer = match status {
            DoneStatus::NotDone => {
                let app_requests_render = app_tick(&self.pressed_keys, (self.width, self.height));
                if app_requests_render {
                    self.needs_render = true;
                }
                Some(app_requests_render)
            },
            _ => None,
        };
        self.pressed_keys.remove_all(&self.released_keys);
        self.released_keys.clear();
        answer
    }

    /// Records a keyboard event: a recognized key pressed joins the held keys
    /// and leaves the released ones; released, it joins the released keys.
    /// Space pressed toggles the pause. Returns whether the event asks to leave (Escape pressed).
    pub fn process_kbd_input(&mut self, key: &LogicalKey, state: ElementState) -> (exit: bool)
        ensures
            old(self).kbd_next(*final(self), *key, state),
            exit == kbd_exits(*key, state),
            exit <==> (*key == LogicalKey::Escape && state == ElementState::Pressed),
    {
        if let Ok(my_key) = Key::try_from(key) {
            match state {
                ElementState::Pressed => {
                    self.pressed_keys.insert(my_key);
                    self.released_keys.remove(&my_key);
                },
                ElementState::Released => self.released_keys.insert(my_key),
            }
        }
        match state {
            ElementState::Pressed => match key {
                LogicalKey::Escape => true,
                LogicalKey::Space => {
                    self.pause = !self.pause;
                    false
                },
                _ => false,
            },
            ElementState::Released => false,
        }
    }

    /// Whether the app must draw before the next render: a draw is pending
    /// and the app, whose status is `status`, has not reported `Remain`.
    pub fn begin_redraw(&self, status: &DoneStatus) -> (draw: bool)
        ensures
            draw == redraw_draws(self.needs_render, *status),
            draw <==> (self.needs_render && *status != DoneStatus::Remain),
    {
        match status {
            DoneStatus::Remain => false,
            _ => self.needs_render,
        }
    }

    /// Records the outcome of a render: a successful one leaves nothing to
    /// draw; a failed one changes nothing.
    pub fn end_redraw(&mut self, render_ok: bool)
        ensures
            old(self).same_keys_and_pause(*final(self)),
            final(self).needs_render == (old(self).needs_render && !render_ok),
    {
        if render_ok {
            self.needs_render = false;
        }
    }

    /// Records the outcome of a surface resize. A successful one asks for a
    /// new draw, and the window must be asked to redraw (the result); a
    /// failed one changes nothing.
    pub fn end_resize(&mut self, resize_ok: bool) -> (request_redraw: bool)
        ensures
            old(self).same_keys_and_pause(*final(self)),
            final(self).needs_render == (old(self).needs_render || resize_ok),
            request_redraw == resize_ok,
    {
        if resize_ok {
            self.needs_render = true;
        }
        resize_ok
    }

    /// Decides what a window event means, given the app's status. Keyboard
    /// events that are not repeats update the keys and the pause flag; a
    /// redraw asks the app to draw when `begin_redraw` says so; a resize goes to the surface when
    /// accepted (see `resize_accepted`); closing the window or pressing
    /// Escape leaves.
    pub fn window_event(
        &mut self,
        event: &WindowInput,
        status: &DoneStatus,
        web_canvas: bool,
    ) -> (action: EventAction)
        ensures
            action == EventAction::Exit ==> (*event == WindowInput::CloseRequested || *event
                == WindowInput::KeyboardInput {
                key: LogicalKey::Escape,
                state: ElementState::Pressed,
                repeat: false,
            }),
            action matches EventAction::Redraw { draw } ==> (*event == WindowInput::RedrawRequested
                && (draw <==> (old(self).needs_render && *status != DoneStatus::Remain))),
            action == EventAction::MoveCursor ==> *event == WindowInput::CursorMoved,
            final(self).needs_render == old(self).needs_render,
            action matches EventAction::ResizeSurface { width, height } ==> (*event
                == WindowInput::Resized { width, height } && (web_canvas ==> (1 <= width <= 4096
                && 1 <= height <= 4096))),
            match *event {
                WindowInput::KeyboardInput { key, state, repeat } => if repeat {
                    old(self).same_keys_and_pause(*final(self))
                        && final(self).needs_render == old(self).needs_render
                        && action == EventAction::Nothing
                } else {
                    old(self).kbd_next(*final(self), key, state) && action == (if kbd_exits(
                        key,
                        state,
                    ) {
                        EventAction::Exit
                    } else {
                        EventAction::Nothing
                    })
                },
                _ => old(self).same_keys_and_pause(*final(self)) && final(self).needs_render
                    == old(self).needs_render && action == match *event {
                    WindowInput::CloseRequested => EventAction::Exit,
                    WindowInput::Resized { width, height } => if resize_accepted(
                        width,
                        height,
                        web_canvas,
                    ) {
                        EventAction::ResizeSurface { width, height }
                    } else {
                        EventAction::Nothing
                    },
                    WindowInput::RedrawRequested => EventAction::Redraw {
                        draw: redraw_draws(old(self).needs_render, *status),
                    },
                    WindowInput::CursorMoved => EventAction::MoveCursor,
                    _ => EventAction::Nothing,
                },
            },
    {
        match event {
            WindowInput::CloseRequested => EventAction::Exit,
            WindowInput::Resized { width, height } => {
                if !web_canvas || (0 < *width && *width <= MAX_CANVAS_SIDE && 0 < *height
                    && *height <= MAX_CANVAS_SIDE) {
                    EventAction::ResizeSurface { width: *width, height: *height }
                } else {
                    EventAction::Nothing
                }
            },
            WindowInput::KeyboardInput { key, state, repeat } => {
                if *repeat {
                    EventAction::Nothing
                } else if self.process_kbd_input(key, *state) {
                    EventAction::Exit
                } else {
                    EventAction::Nothing
                }
            },
            WindowInput::RedrawRequested => EventAction::Redraw { draw: self.begin_redraw(status) },
            WindowInput::CursorMoved => EventAction::MoveCursor,
            WindowInput::MouseInput { .. } => EventAction::Nothing,
            WindowInput::Other => EventAction::Nothing,
        }
    }
}

} // verus!
