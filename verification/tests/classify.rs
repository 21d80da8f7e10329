use flysky_drive::flysky::{FlySky, FlySkyManager, Position, Stick, StickConverter, StickMovement};
use flysky_drive::ppm::{ChannelFrame, Ppm};

fn movement(stick: &Stick) -> StickMovement {
    match stick {
        Stick::Right(m) => *m,
        Stick::Left(m) => *m,
        Stick::Vra(m) => *m,
        Stick::Vrb(m) => *m,
    }
}

fn centered_frame() -> ChannelFrame {
    ChannelFrame::new(1500, 1500, 1500, 1500, 1500, 1500)
}

#[test]
fn default_is_all_centered() {
    let status = FlySky::default();
    assert_eq!(
        movement(&status.right),
        StickMovement {
            up_down: Position::Center(1500),
            right_left: Position::Center(1500),
            center: Position::Center(1500),
        }
    );
    assert_eq!(
        movement(&status.left),
        StickMovement {
            up_down: Position::Center(1500),
            right_left: Position::Center(1500),
            center: Position::Center(1500),
        }
    );
    assert!(matches!(status.right, Stick::Right(_)));
    assert!(matches!(status.left, Stick::Left(_)));
    assert!(matches!(status.vra, Stick::Vra(_)));
    assert!(matches!(status.vrb, Stick::Vrb(_)));
}

#[test]
fn channel0_boundary_above() {
    let status = ChannelFrame::new(1551, 1500, 1500, 1500, 1500, 1500).to_flysky();
    assert_eq!(movement(&status.right).right_left, Position::Right(1551));
    assert_eq!(movement(&status.right).center, Position::Center(1500));
}

#[test]
fn channel0_boundary_below() {
    let status = ChannelFrame::new(1449, 1500, 1500, 1500, 1500, 1500).to_flysky();
    assert_eq!(movement(&status.right).right_left, Position::Left(1449));
}

#[test]
fn channel0_center_stays_centered() {
    let status = ChannelFrame::new(1500, 1700, 1500, 1500, 1500, 1500).to_flysky();
    // The centered reading lands in the center slot; the axis keeps its
    // default.
    assert_eq!(movement(&status.right).right_left, Position::Center(1500));
    assert_eq!(movement(&status.right).center, Position::Center(1500));
}

#[test]
fn channel0_inclusive_boundaries_are_centered() {
    let high = ChannelFrame::new(1550, 1700, 1500, 1500, 1500, 1500).to_flysky();
    assert_eq!(movement(&high.right).right_left, Position::Center(1500));
    assert_eq!(movement(&high.right).center, Position::Center(1550));
    let low = ChannelFrame::new(1450, 1700, 1500, 1500, 1500, 1500).to_flysky();
    assert_eq!(movement(&low.right).right_left, Position::Center(1500));
    assert_eq!(movement(&low.right).center, Position::Center(1450));
}

#[test]
fn channel0_out_of_range_is_centered() {
    // Below the physical range the lower-bucket guard fails, so the reading
    // lands in the center slot.
    let status = ChannelFrame::new(900, 1700, 1500, 1500, 1500, 1500).to_flysky();
    assert_eq!(movement(&status.right).right_left, Position::Center(1500));
    assert_eq!(movement(&status.right).center, Position::Center(900));
}

#[test]
fn channel1_drives_vertical_axis() {
    let up = ChannelFrame::new(1500, 1800, 1500, 1500, 1500, 1500).to_flysky();
    assert_eq!(movement(&up.right).up_down, Position::Up(1800));
    let down = ChannelFrame::new(1500, 1200, 1500, 1500, 1500, 1500).to_flysky();
    assert_eq!(movement(&down.right).up_down, Position::Down(1200));
}

#[test]
fn channel1_center_wins_center_slot() {
    // Both right-stick channels are centered: the later channel's reading is
    // the one kept.
    let status = ChannelFrame::new(1460, 1540, 1500, 1500, 1500, 1500).to_flysky();
    assert_eq!(movement(&status.right).center, Position::Center(1540));
}

#[test]
fn channel2_splits_at_exact_center() {
    let up = ChannelFrame::new(1500, 1500, 1501, 1500, 1500, 1500).to_flysky();
    assert_eq!(movement(&up.left).up_down, Position::Up(1501));
    let down = ChannelFrame::new(1500, 1500, 1499, 1500, 1500, 1500).to_flysky();
    assert_eq!(movement(&down.left).up_down, Position::Down(1499));
    // Exactly the center is neither bucket: the axis keeps its default.
    let center = ChannelFrame::new(1500, 1500, 1500, 1700, 1500, 1500).to_flysky();
    assert_eq!(movement(&center.left).up_down, Position::Center(1500));
    assert_eq!(movement(&center.left).center, Position::Center(1500));
}

#[test]
fn channel3_drives_left_horizontal_axis() {
    let status = ChannelFrame::new(1500, 1500, 1500, 1650, 1500, 1500).to_flysky();
    assert_eq!(movement(&status.left).right_left, Position::Right(1650));
    let status = ChannelFrame::new(1500, 1500, 1500, 1350, 1500, 1500).to_flysky();
    assert_eq!(movement(&status.left).right_left, Position::Left(1350));
}

#[test]
fn channels4_and_5_drive_potentiometers() {
    let status = ChannelFrame::new(1500, 1500, 1500, 1500, 1900, 1100).to_flysky();
    assert_eq!(movement(&status.vra).right_left, Position::Right(1900));
    assert_eq!(movement(&status.vrb).right_left, Position::Left(1100));
    assert_eq!(movement(&status.vra).up_down, Position::Center(1500));
    assert_eq!(movement(&status.vrb).up_down, Position::Center(1500));
}

#[test]
fn setters_keep_stick_identity() {
    let mut stick = match centered_frame().to_flysky().vra {
        s @ Stick::Vra(_) => s,
        _ => unreachable!(),
    };
    stick.set_right_value(1800);
    assert!(matches!(stick, Stick::Vra(_)));
    assert_eq!(movement(&stick).right_left, Position::Right(1800));
    stick.set_left_value(1200);
    assert_eq!(movement(&stick).right_left, Position::Left(1200));
    stick.set_up_value(1900);
    assert_eq!(movement(&stick).up_down, Position::Up(1900));
    stick.set_down_value(1100);
    assert_eq!(movement(&stick).up_down, Position::Down(1100));
    stick.set_center_value(1490);
    assert_eq!(movement(&stick).center, Position::Center(1490));
}

#[test]
fn manager_classifies_decoded_frames() {
    let mut manager = FlySkyManager::new(Ppm::new());
    // Gap, then a frame with channel 0 pushed right (1600 us) and the rest
    // centered.
    manager.on_edge(1251);
    for t in [1651u16, 2026, 2401, 2776, 3151, 3526] {
        manager.on_edge(t);
    }
    let status = manager.get_status();
    assert_eq!(movement(&status.right).right_left, Position::Right(1600));
    assert_eq!(movement(&status.right).up_down, Position::Center(1500));
}

#[test]
fn frame_len_and_get() {
    let frame = ChannelFrame::new(1000, 1100, 1200, 1300, 1400, 1500);
    assert_eq!(frame.len(), 6);
    assert_eq!(frame.get(0), 1000);
    assert_eq!(frame.get(5), 1500);
}
