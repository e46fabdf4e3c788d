use bots_firmware::tinymovr::{
    Tinymovr, GET_DEVICE_INFO_EP_ID, GET_LIMITS_EP_ID, SET_IQ_SETPOINT_EP_ID,
    SET_POS_SETPOINT_EP_ID, SET_STATE_EP_ID, SET_VEL_INTEGRATOR_PARAMS_EP_ID,
    SET_VEL_SETPOINT_EP_ID,
};

fn node(id: u16) -> Tinymovr {
    Tinymovr::new(id, &[id as u8, 0, 0, 0, 1, 2, 3, 40])
}

#[test]
fn info_request_is_remote_frame_to_node() {
    let f = Tinymovr::info_request(1).unwrap();
    assert_eq!(f.id(), (1 << 6) | GET_DEVICE_INFO_EP_ID);
    assert_eq!(f.id(), 0x5A);
    assert!(f.is_remote_frame());
    assert_eq!(f.dlc(), 0);
    assert!(f.data().is_empty());
}

#[test]
fn info_request_node_limits() {
    assert!(Tinymovr::info_request(0).is_some());
    assert_eq!(Tinymovr::info_request(31).unwrap().id(), 31 * 64 + 0x1A);
    assert!(Tinymovr::info_request(32).is_none());
    assert!(Tinymovr::info_request(1023).is_none());
    // the shift drops bits above the tenth: node 1025 talks as node 1
    assert_eq!(Tinymovr::info_request(1025).unwrap().id(), 0x5A);
}

#[test]
fn device_info_from_reply() {
    let t = Tinymovr::new(3, &[0x11, 0x22, 0x33, 0x44, 1, 2, 3, 40, 99]);
    let info = t.device_info();
    assert_eq!(info.device_id, 0x11);
    assert_eq!(info.fw_major, 1);
    assert_eq!(info.fw_minor, 2);
    assert_eq!(info.fw_patch, 3);
    assert_eq!(info.temperature, 40);
    assert_eq!(t.device_info.fw_minor, 2);
}

#[test]
fn state_commands() {
    let mut t = node(2);
    let id = 2 * 64 + SET_STATE_EP_ID;
    for (f, expected) in [
        (t.idle(), [0u8, 0]),
        (t.calibrate(), [1, 0]),
        (t.position_control(), [2, 2]),
        (t.velocity_control(), [2, 1]),
        (t.current_control(), [2, 0]),
    ] {
        assert_eq!(f.id(), id);
        assert!(!f.is_remote_frame());
        assert_eq!(f.dlc(), 2);
        assert_eq!(f.data(), &expected[..]);
    }
}

#[test]
fn velocity_setpoint_frame() {
    let mut t = node(3);
    let f = t.set_vel_setpoint(500000.0f32.to_bits());
    assert_eq!(f.id(), 3 * 64 + SET_VEL_SETPOINT_EP_ID);
    assert_eq!(f.id(), 0xCD);
    let mut expected = 500000.0f32.to_le_bytes().to_vec();
    expected.extend_from_slice(&[0, 0, 0, 0]);
    assert_eq!(f.data(), &expected[..]);
    assert_eq!(f.dlc(), 8);
    let zero = t.set_vel_setpoint(0.0f32.to_bits());
    assert_eq!(zero.data(), &[0u8; 8][..]);
}

#[test]
fn integrator_params_frame() {
    let mut t = node(1);
    let f = t.set_vel_integrator_params(0.02f32.to_bits(), 300.0f32.to_bits());
    assert_eq!(f.id(), 64 + SET_VEL_INTEGRATOR_PARAMS_EP_ID);
    let mut expected = 0.02f32.to_le_bytes().to_vec();
    expected.extend_from_slice(&300.0f32.to_le_bytes());
    assert_eq!(f.data(), &expected[..]);
}

#[test]
fn position_and_current_setpoint_frames() {
    let mut t = node(1);
    let p = t.set_pos_setpoint(1.5f32.to_bits());
    assert_eq!(p.id(), 64 + SET_POS_SETPOINT_EP_ID);
    assert_eq!(p.data(), &1.5f32.to_le_bytes()[..]);
    let i = t.set_iq_setpoint((-2.0f32).to_bits());
    assert_eq!(i.id(), 64 + SET_IQ_SETPOINT_EP_ID);
    assert_eq!(i.data(), &(-2.0f32).to_le_bytes()[..]);
    assert_eq!(i.dlc(), 4);
}

#[test]
fn limits_request_frame() {
    let mut t = node(31);
    let f = t.get_limits();
    assert_eq!(f.id(), 31 * 64 + GET_LIMITS_EP_ID);
    assert!(f.is_remote_frame());
    assert_eq!(f.dlc(), 0);
}
