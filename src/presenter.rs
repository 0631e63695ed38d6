//! The presentation state machine: surface (re)creation, steady-state frames
//! and the shortcuts that leave them.
use vstd::prelude::*;
use crate::display::{DisplayMode, needs_realloc};
use crate::input::{HostEvent, InputAction, action_of, translate_event};
use crate::pacing::{FrameClock, FrameTick, tick_of, last_after};

verus! {

/// Where the presentation loop stands.
#[derive(Clone, Copy, Debug, PartialEq, Eq, Structural)]
pub enum PresentState {
    /// The window and render target are to be (re)built.
    SurfaceInit,
    /// Frames are paced and presented.
    SteadyState,
    /// The loop is over; the process ends.
    Quit,
}

/// The presentation thread's own state.
#[derive(Clone, Copy, Debug)]
pub struct Presenter {
    pub state: PresentState,
    pub fullscreen: bool,
    pub mode: DisplayMode,
    pub clock: FrameClock,
}

/// The presenter after a host event in state `p`: quitting is terminal, a
/// fullscreen toggle flips the flag and sends the loop back to rebuild the
/// surface, and nothing else changes the state.
pub open spec fn after_event(p: Presenter, ev: HostEvent) -> Presenter {
    if p.state == PresentState::Quit {
        p
    } else {
        match action_of(ev) {
            InputAction::Quit => Presenter { state: PresentState::Quit, ..p },
            InputAction::ToggleFullscreen => Presenter {
                state: PresentState::SurfaceInit,
                fullscreen: !p.fullscreen,
                ..p
            },
            _ => p,
        }
    }
}

impl Presenter {
    /// Starts windowed, before any surface exists, with the initial mode.
    pub fn new() -> (r: Presenter)
        ensures
            r.state == PresentState::SurfaceInit,
            !r.fullscreen,
            r.mode.width == crate::display::INITIAL_WIDTH,
            r.mode.height == crate::display::INITIAL_HEIGHT,
    {
        Presenter {
            state: PresentState::SurfaceInit,
            fullscreen: false,
            mode: DisplayMode::new(),
            clock: FrameClock::new(0),
        }
    }

    /// The surface has been (re)built at `now_us`: frames start being paced
    /// from then. Outside `SurfaceInit` nothing changes.
    pub fn surface_ready(&mut self, now_us: u64)
        ensures
            old(self).state == PresentState::SurfaceInit ==> *final(self) == (Presenter {
                state: PresentState::SteadyState,
                clock: FrameClock { last_frame_us: now_us },
                ..*old(self)
            }),
            old(self).state != PresentState::SurfaceInit ==> *final(self) == *old(self),
    {
        if self.state == PresentState::SurfaceInit {
            self.state = PresentState::SteadyState;
            self.clock = FrameClock::new(now_us);
        }
    }

    /// Looks at the frame clock at `now_us`. Only in `SteadyState` can a
    /// frame fall due; elsewhere the answer is `Wait` and nothing changes.
    pub fn tick(&mut self, now_us: u64) -> (r: FrameTick)
        ensures
            old(self).state == PresentState::SteadyState ==> r == tick_of(
                old(self).clock.last_frame_us,
                now_us,
            ) && final(self).clock.last_frame_us == last_after(
                old(self).clock.last_frame_us,
                now_us,
            ) && *final(self) == (Presenter { clock: final(self).clock, ..*old(self) }),
            old(self).state != PresentState::SteadyState ==> r == FrameTick::Wait && *final(self)
                == *old(self),
    {
        if self.state == PresentState::SteadyState {
            self.clock.tick(now_us)
        } else {
            FrameTick::Wait
        }
    }

    /// Handles one host event and says what the caller must forward, if
    /// anything.
    pub fn handle_event(&mut self, ev: HostEvent) -> (r: InputAction)
        ensures
            r == action_of(ev),
            *final(self) == after_event(*old(self), ev),
    {
        let action = translate_event(ev);
        if self.state != PresentState::Quit {
            match action {
                InputAction::Quit => {
                    self.state = PresentState::Quit;
                },
                InputAction::ToggleFullscreen => {
                    self.state = PresentState::SurfaceInit;
                    self.fullscreen = !self.fullscreen;
                },
                _ => {},
            }
        }
        action
    }

    /// Takes the size the module reported with the current frame; returns
    /// whether the render target must be reallocated before the blit.
    pub fn frame_reported(&mut self, width: u32, height: u32) -> (realloc: bool)
        ensures
            realloc == needs_realloc(old(self).mode, width, height),
            *final(self) == (Presenter { mode: DisplayMode { width, height }, ..*old(self) }),
    {
        self.mode.apply_reported(width, height)
    }
}

/// Pressing the reserved fullscreen combination during steady-state frames
/// leaves `SteadyState` for `SurfaceInit`, flips fullscreen, and sends no key
/// to the module.
pub proof fn lemma_toggle_rebuilds_surface(p: Presenter, code: u16)
    requires
        p.state == PresentState::SteadyState,
    ensures
        ({
            let ev = HostEvent::Key {
                key: crate::input::HostKey::Fullscreen,
                modifier: true,
                code,
                is_down: true,
            };
            &&& action_of(ev) == InputAction::ToggleFullscreen
            &&& after_event(p, ev).state == PresentState::SurfaceInit
            &&& after_event(p, ev).fullscreen == !p.fullscreen
            &&& after_event(p, ev).mode == p.mode
        }),
{
}

/// Once the loop has quit, no event brings it back.
pub proof fn lemma_quit_is_terminal(p: Presenter, ev: HostEvent)
    requires
        p.state == PresentState::Quit,
    ensures
        after_event(p, ev) == p,
{
}

} // verus!
