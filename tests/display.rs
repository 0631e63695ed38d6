use fab_agon_emulator::display::{blit, frame_bytes, DisplayMode, STAGING_CAPACITY};

#[test]
fn starts_at_640_by_480() {
    let m = DisplayMode::new();
    assert_eq!(m, DisplayMode { width: 640, height: 480 });
}

#[test]
fn mode_change_reallocates_once() {
    let mut m = DisplayMode::new();
    assert!(m.apply_reported(800, 600));
    assert_eq!(m, DisplayMode { width: 800, height: 600 });
    assert!(!m.apply_reported(800, 600));
    assert!(!m.apply_reported(800, 600));
}

#[test]
fn unchanged_mode_does_not_reallocate() {
    let mut m = DisplayMode::new();
    assert!(!m.apply_reported(640, 480));
    assert!(m.apply_reported(640, 400));
    assert!(m.apply_reported(320, 400));
}

#[test]
fn frame_sizes() {
    assert_eq!(frame_bytes(640, 480), Some(921_600));
    assert_eq!(frame_bytes(1024, 1024), Some(STAGING_CAPACITY));
    assert_eq!(frame_bytes(0, 0), Some(0));
    assert_eq!(frame_bytes(1025, 1024), None);
    assert_eq!(frame_bytes(u32::MAX, u32::MAX), None);
    assert_eq!(frame_bytes(u32::MAX, 0), Some(0));
}

#[test]
fn blit_copies_prefix_only() {
    let staging = vec![1u8, 2, 3, 4, 5, 6];
    let mut target = vec![9u8; 8];
    blit(&mut target, &staging, 6);
    assert_eq!(target, vec![1, 2, 3, 4, 5, 6, 9, 9]);
    blit(&mut target, &[7u8, 7], 0);
    assert_eq!(target, vec![1, 2, 3, 4, 5, 6, 9, 9]);
}
