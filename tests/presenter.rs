use fab_agon_emulator::display::DisplayMode;
use fab_agon_emulator::input::{HostEvent, HostKey, InputAction};
use fab_agon_emulator::pacing::FrameTick;
use fab_agon_emulator::presenter::{PresentState, Presenter};

fn steady() -> Presenter {
    let mut p = Presenter::new();
    p.surface_ready(1_000);
    p
}

#[test]
fn starts_in_surface_init() {
    let p = Presenter::new();
    assert_eq!(p.state, PresentState::SurfaceInit);
    assert!(!p.fullscreen);
    assert_eq!(p.mode, DisplayMode { width: 640, height: 480 });
}

#[test]
fn surface_ready_starts_pacing() {
    let mut p = steady();
    assert_eq!(p.state, PresentState::SteadyState);
    assert_eq!(p.clock.last_frame_us, 1_000);
    assert_eq!(p.tick(10_000), FrameTick::Wait);
    assert_eq!(p.tick(17_666), FrameTick::Advance);
    p.surface_ready(99);
    assert_eq!(p.clock.last_frame_us, 17_666);
}

#[test]
fn no_frames_outside_steady_state() {
    let mut p = Presenter::new();
    assert_eq!(p.tick(1_000_000), FrameTick::Wait);
    assert_eq!(p.clock.last_frame_us, 0);
}

#[test]
fn fullscreen_toggle_rebuilds_surface_without_key_event() {
    let mut p = steady();
    let ev = HostEvent::Key { key: HostKey::Fullscreen, modifier: true, code: 0x2b, is_down: true };
    let action = p.handle_event(ev);
    assert_eq!(action, InputAction::ToggleFullscreen);
    assert!(!matches!(action, InputAction::SendKey { .. }));
    assert_eq!(p.state, PresentState::SurfaceInit);
    assert!(p.fullscreen);
    p.surface_ready(5_000);
    assert_eq!(p.handle_event(ev), InputAction::ToggleFullscreen);
    assert!(!p.fullscreen);
}

#[test]
fn quit_is_terminal() {
    let mut p = steady();
    let q = HostEvent::Key { key: HostKey::Quit, modifier: true, code: 0x15, is_down: true };
    assert_eq!(p.handle_event(q), InputAction::Quit);
    assert_eq!(p.state, PresentState::Quit);
    let f = HostEvent::Key { key: HostKey::Fullscreen, modifier: true, code: 0x2b, is_down: true };
    p.handle_event(f);
    assert_eq!(p.state, PresentState::Quit);
    assert!(!p.fullscreen);
    let mut p2 = steady();
    assert_eq!(p2.handle_event(HostEvent::Close), InputAction::Quit);
    assert_eq!(p2.state, PresentState::Quit);
}

#[test]
fn ordinary_key_keeps_state() {
    let mut p = steady();
    let ev = HostEvent::Key { key: HostKey::Other, modifier: false, code: 0x1c, is_down: true };
    assert_eq!(p.handle_event(ev), InputAction::SendKey { code: 0x1c, is_down: true });
    assert_eq!(p.state, PresentState::SteadyState);
}

#[test]
fn mode_change_from_640x480_to_800x600() {
    let mut p = steady();
    assert!(p.frame_reported(800, 600));
    assert_eq!(p.mode, DisplayMode { width: 800, height: 600 });
    assert!(!p.frame_reported(800, 600));
    assert_eq!(p.state, PresentState::SteadyState);
}
