use bots_firmware::can_frame::{CanFrame, MAX_DLC, MAX_STANDARD_ID};

#[test]
fn data_frame_keeps_id_and_bytes() {
    let f = CanFrame::new(0x123, &[1, 2, 3]).unwrap();
    assert_eq!(f.id(), 0x123);
    assert!(!f.is_remote_frame());
    assert_eq!(f.dlc(), 3);
    assert_eq!(f.data(), &[1u8, 2, 3][..]);
}

#[test]
fn data_frame_limits() {
    assert!(CanFrame::new(MAX_STANDARD_ID, &[0; 8]).is_some());
    assert!(CanFrame::new(0x800, &[]).is_none());
    assert!(CanFrame::new(0xFFFF, &[1]).is_none());
    assert!(CanFrame::new(1, &[0; 9]).is_none());
    assert_eq!(MAX_DLC, 8);
}

#[test]
fn remote_frame_has_no_data() {
    let f = CanFrame::new_remote(0x7FF, 8).unwrap();
    assert!(f.is_remote_frame());
    assert_eq!(f.dlc(), 8);
    assert!(f.data().is_empty());
    assert!(CanFrame::new_remote(0x800, 0).is_none());
    assert!(CanFrame::new_remote(0x10, 9).is_none());
}
