use vstd::prelude::*;

use crate::timing::{hz_to_nanosec_period, nanosec_period};

verus! {

/// What the event loop does once every pending event is handled.
#[derive(PartialEq, Eq, Structural, Clone, Copy, Debug)]
pub enum WaitAction {
    /// The app is done and asks to quit: leave the event loop.
    Exit,
    /// A tick period has passed: the period restarts now; tick the app and
    /// ask for a redraw.
    Tick,
    /// The period is not over yet and the app ticks even without user
    /// events: keep polling.
    Poll,
    /// The period is not over yet and the app ticks only on user events:
    /// sleep until the next event.
    Wait,
}

/// The state of the event handler that its decisions read: whether the
/// window was set up, the requested size, the tick period, when the last
/// tick happened, and whether the app asked to tick on every period even
/// without user events. Times are nanoseconds on a clock that starts when
/// the handler is made.
pub struct HandlerState {
    pub init_done: bool,
    pub width: usize,
    pub height: usize,
    /// Length of a tick in nanoseconds.
    pub tick_nanos: u64,
    /// When the current tick period started.
    pub last_frame_nanos: u128,
    /// Set to true if your app has something special to do at every tick
    /// even if there are no user events. This can be used if you have
    /// physics or an animation to run. Defaults to false to preserve
    /// performance.
    pub always_tick: bool,
}

/// Time from `since` to `now`; zero when `now` is earlier.
pub open spec fn elapsed_since(since: u128, now: u128) -> u128 {
    if now >= since {
        (now - since) as u128
    } else {
        0
    }
}

/// The action once events are handled: leave when the app is done, tick when
/// at least a period has passed since the last tick; otherwise poll when the
/// app ticks even without user events, and wait for the next event when not.
pub open spec fn wait_action(
    app_done: bool,
    elapsed_nanos: u128,
    tick_nanos: u64,
    always_tick: bool,
) -> WaitAction {
    if app_done {
        WaitAction::Exit
    } else if elapsed_nanos >= tick_nanos {
        WaitAction::Tick
    } else if always_tick {
        WaitAction::Poll
    } else {
        WaitAction::Wait
    }
}

impl HandlerState {
    /// `next` keeps the size, the tick period and the start of the current
    /// period of `self`.
    pub open spec fn same_timing(self, next: HandlerState) -> bool {
        &&& next.width == self.width
        &&& next.height == self.height
        &&& next.tick_nanos == self.tick_nanos
        &&& next.last_frame_nanos == self.last_frame_nanos
    }

    /// `next` is `self` after the window system resumed while an app was
    /// (`app_pending`) or was not waiting for its window, and `set_up` tells
    /// whether the window is to be set up by that call.
    pub open spec fn resumed_next(
        self,
        next: HandlerState,
        app_pending: bool,
        set_up: bool,
    ) -> bool {
        &&& set_up == (!self.init_done && app_pending)
        &&& next.init_done
        &&& next.always_tick == self.always_tick
        &&& self.same_timing(next)
    }

    /// `next` is `self` after all events were handled at time `now`, the
    /// app being done (`app_done`) or not, and `action` is what was decided.
    /// A tick restarts the period at `now`.
    pub open spec fn wait_next(
        self,
        next: HandlerState,
        app_done: bool,
        now: u128,
        action: WaitAction,
    ) -> bool {
        &&& action == wait_action(
            app_done,
            elapsed_since(self.last_frame_nanos, now),
            self.tick_nanos,
            self.always_tick,
        )
        &&& next.last_frame_nanos == (if action == WaitAction::Tick {
            now
        } else {
            self.last_frame_nanos
        })
        &&& next.init_done == self.init_done
        &&& next.always_tick == self.always_tick
        &&& next.width == self.width
        &&& next.height == self.height
        &&& next.tick_nanos == self.tick_nanos
    }

    /// A handler for a window of `size` (width, height) that ticks
    /// `tick_per_second` times per second; its first period starts at time 0.
    pub fn new(size: (usize, usize), tick_per_second: u16) -> (h: HandlerState)
        ensures
            h.width == size.0,
            h.height == size.1,
            h.tick_nanos == nanosec_period(tick_per_second),
            h.last_frame_nanos == 0,
            !h.init_done,
            !h.always_tick,
    {
        let nsec_period: u64 = hz_to_nanosec_period(tick_per_second);
        HandlerState {
            init_done: false,
            width: size.0,
            height: size.1,
            tick_nanos: nsec_period,
            last_frame_nanos: 0,
            always_tick: false,
        }
    }

    /// Set to true if your app has something special to do at every tick
    /// even if there are no user events.
    pub fn set_always_tick(&mut self, val: bool)
        ensures
            final(self).always_tick == val,
            final(self).init_done == old(self).init_done,
            old(self).same_timing(*final(self)),
    {
        self.always_tick = val;
    }

    /// Called when the window system resumes, with whether an app still
    /// waits for its window (none does when the framebuffer was handed in
    /// ready made); returns whether the window must be set up now, which is
    /// only on the first resume.
    pub fn resumed(&mut self, app_pending: bool) -> (set_up: bool)
        ensures
            old(self).resumed_next(*final(self), app_pending, set_up),
    {
        if self.init_done {
            return false;
        }
        self.init_done = true;
        app_pending
    }

    /// Decides what to do once every pending event is handled at time
    /// `now`, given whether the app is done and asks to quit; a tick restarts
    /// the period at `now`.
    pub fn about_to_wait(&mut self, app_done: bool, now: u128) -> (action: WaitAction)
        ensures
            old(self).wait_next(*final(self), app_done, now, action),
            action == WaitAction::Exit <==> app_done,
            action == WaitAction::Tick <==> (!app_done && (now >= old(self).last_frame_nanos
                + old(self).tick_nanos || old(self).tick_nanos == 0)),
            action == WaitAction::Poll <==> (!app_done && old(self).always_tick && now
                < old(self).last_frame_nanos + old(self).tick_nanos && old(self).tick_nanos != 0),
            action == WaitAction::Wait <==> (!app_done && !old(self).always_tick && now
                < old(self).last_frame_nanos + old(self).tick_nanos && old(self).tick_nanos != 0),
    {
        let elapsed: u128 = if now >= self.last_frame_nanos {
            now - self.last_frame_nanos
        } else {
            0
        };
        if app_done {
            WaitAction::Exit
        } else if elapsed >= self.tick_nanos as u128 {
            self.last_frame_nanos = now;
            WaitAction::Tick
        } else if self.always_tick {
            WaitAction::Poll
        } else {
            WaitAction::Wait
        }
    }
}

} // verus!
