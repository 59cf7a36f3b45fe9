use ruzzle::entity::EntityToken;
use ruzzle::frame::FrameCounter;
use ruzzle::input::{command_for_key, Command, Key};

#[test]
fn key_bindings() {
    assert_eq!(command_for_key(Key::Escape), Command::Quit);
    assert_eq!(command_for_key(Key::PageDown), Command::ZoomOut);
    assert_eq!(command_for_key(Key::PageUp), Command::ZoomIn);
    assert_eq!(command_for_key(Key::Minus), Command::SlowDown);
    assert_eq!(command_for_key(Key::O), Command::SlowDown);
    assert_eq!(command_for_key(Key::Plus), Command::SpeedUp);
    assert_eq!(command_for_key(Key::P), Command::SpeedUp);
    assert_eq!(command_for_key(Key::Left), Command::MoveLeft);
    assert_eq!(command_for_key(Key::Right), Command::MoveRight);
    assert_eq!(command_for_key(Key::Up), Command::MoveUp);
    assert_eq!(command_for_key(Key::Down), Command::MoveDown);
    assert_eq!(command_for_key(Key::Return), Command::NewPiece);
    assert_eq!(command_for_key(Key::Space), Command::RotateClockwise);
    assert_eq!(command_for_key(Key::X), Command::RotateClockwise);
    assert_eq!(command_for_key(Key::Back), Command::RotateCounterClockwise);
    assert_eq!(command_for_key(Key::Z), Command::RotateCounterClockwise);
    assert_eq!(command_for_key(Key::B), Command::ToggleBackground);
    assert_eq!(command_for_key(Key::A), Command::WidenStroke);
    assert_eq!(command_for_key(Key::Other), Command::Nothing);
}

#[test]
fn frame_counter_reports_once_a_second() {
    let mut f = FrameCounter::new(0);
    assert_eq!(f.next_report_ms, 1000);
    assert_eq!(f.frame(100), None);
    assert_eq!(f.frame(500), None);
    assert_eq!(f.frame(1000), Some(3));
    assert_eq!(f.frame_count, 0);
    assert_eq!(f.next_report_ms, 2000);
    assert_eq!(f.frame(1500), None);
    assert_eq!(f.frame(2600), Some(2));
    assert_eq!(f.next_report_ms, 3600);
}

#[test]
fn frame_counter_saturates_near_end_of_clock() {
    let mut f = FrameCounter::new(u64::MAX - 10);
    assert_eq!(f.next_report_ms, u64::MAX);
    assert_eq!(f.frame(u64::MAX), Some(1));
    assert_eq!(f.next_report_ms, u64::MAX);
}

#[test]
fn entity_token_keeps_ranges() {
    let t = EntityToken::new(2, 0..12, 12..40);
    assert_eq!(t.index, 2);
    assert_eq!(t.stroke_range, 0..12);
    assert_eq!(t.fill_range, 12..40);
    assert!(t.label.is_none());
}
