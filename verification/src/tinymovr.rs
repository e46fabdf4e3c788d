use vstd::prelude::*;

use crate::can_frame::{
    data_frame, remote_frame, standard_id, CanFrame, MAX_DLC, MAX_STANDARD_ID,
};
use crate::le_bytes::{le_bytes, push_le_u32};

verus! {

/// Number of low identifier bits that select the endpoint of a node.
pub const CAN_EP_SIZE: u16 = 6;

pub const GET_DEVICE_INFO_EP_ID: u16 = 0x1A;
pub const GET_STATE_EP_ID: u16 = 0x03;
pub const GET_ENCODER_ESTIMATES_EP_ID: u16 = 0x09;
pub const GET_IQ_SET_EST_EP_ID: u16 = 0x14;
pub const GET_SETPOINTS_EP_ID: u16 = 0x0A;
pub const SET_STATE_EP_ID: u16 = 0x07;
pub const SET_POS_SETPOINT_EP_ID: u16 = 0x0C;
pub const SET_VEL_SETPOINT_EP_ID: u16 = 0x0D;
pub const SET_IQ_SETPOINT_EP_ID: u16 = 0x0E;
pub const SET_LIMITS_EP_ID: u16 = 0x0F;
pub const SET_VEL_INTEGRATOR_PARAMS_EP_ID: u16 = 0x13;
pub const GET_VEL_INTEGRATOR_PARAMS_EP_ID: u16 = 0x14;
pub const GET_LIMITS_EP_ID: u16 = 0x15;
pub const RESET_EP_ID: u16 = 0x16;
pub const MOVE_TO_POS_WITH_VEL_LIMIT_EP_ID: u16 = 0x21;
pub const SET_MAX_PLAN_ACCEL_DECEL_EP_ID: u16 = 0x22;
pub const GET_MAX_PLAN_ACCEL_DECEL_EP_ID: u16 = 0x23;

/// The identifier of endpoint `ep` (below 64) on node `device_id`.
///
/// The node number is shifted left by six bits in a 16-bit word, so only its
/// low ten bits survive; the endpoint fills the six bits below.
pub open spec fn can_id(device_id: u16, ep: u16) -> int {
    (device_id % 1024) * 64 + ep
}

/// The identifiers of all endpoints of `device_id` fit in 11 bits.
pub open spec fn node_fits(device_id: u16) -> bool {
    device_id % 1024 < 32
}

/// Every identifier of a node that fits is an 11-bit identifier from which
/// the endpoint (its low six bits) and the node number (the rest) read back.
pub proof fn lemma_can_id_fields(device_id: u16, ep: u16)
    requires
        node_fits(device_id),
        ep < 64,
    ensures
        0 <= can_id(device_id, ep) <= MAX_STANDARD_ID,
        can_id(device_id, ep) % 64 == ep,
        can_id(device_id, ep) / 64 == device_id % 1024,
{
}

/// Two endpoint identifiers are equal only for the same endpoint on the same
/// node (the same node up to the ten bits that the shift keeps).
pub proof fn lemma_can_id_distinct(d1: u16, e1: u16, d2: u16, e2: u16)
    requires
        e1 < 64,
        e2 < 64,
        can_id(d1, e1) == can_id(d2, e2),
    ensures
        e1 == e2,
        d1 % 1024 == d2 % 1024,
{
}

/// What the controller reports about itself in reply to a device-info request.
#[derive(Default, Debug, Copy, Clone)]
pub struct TinymovrDeviceInfo {
    pub device_id: u32,
    pub fw_major: u8,
    pub fw_minor: u8,
    pub fw_patch: u8,
    pub temperature: u8,
}

/// The device information read from the eight reply bytes `b`.
pub open spec fn info_from_reply(b: Seq<u8>) -> TinymovrDeviceInfo {
    TinymovrDeviceInfo {
        device_id: b[0] as u32,
        fw_major: b[4],
        fw_minor: b[5],
        fw_patch: b[6],
        temperature: b[7],
    }
}

/// The device information keeps each reply byte whole: byte 0 is the device
/// id, bytes 4 to 7 are the firmware major, minor and patch numbers and the
/// temperature.
pub proof fn lemma_info_from_reply_fields(b: Seq<u8>)
    requires
        b.len() >= 8,
    ensures
        info_from_reply(b).device_id as int == b[0] as int,
        info_from_reply(b).fw_major == b[4],
        info_from_reply(b).fw_minor == b[5],
        info_from_reply(b).fw_patch == b[6],
        info_from_reply(b).temperature == b[7],
{
}

/// The frame that sets the controller's state and control mode.
pub open spec fn state_frame(device_id: u16, state: u8, mode: u8) -> crate::can_frame::FrameView {
    data_frame(can_id(device_id, SET_STATE_EP_ID) as u16, seq![state, mode])
}

/// On every node, the state frame goes to the node's state endpoint and
/// carries two bytes: the state first, then the control mode.
pub proof fn lemma_state_frame_payload(device_id: u16, state: u8, mode: u8)
    requires
        node_fits(device_id),
    ensures
        state_frame(device_id, state, mode).id as int == (device_id % 1024) * 64 + SET_STATE_EP_ID,
        !state_frame(device_id, state, mode).remote,
        state_frame(device_id, state, mode).dlc == 2,
        state_frame(device_id, state, mode).data.len() == 2,
        state_frame(device_id, state, mode).data[0] == state,
        state_frame(device_id, state, mode).data[1] == mode,
{
}

/// A node number whose endpoint identifiers all fit in 11 bits.
struct NodeId {
    raw: u16,
}

impl NodeId {
    #[verifier::type_invariant]
    spec fn inv(self) -> bool {
        node_fits(self.raw)
    }
}

/// One Tinymovr motor controller on the CAN bus.
pub struct Tinymovr {
    node: NodeId,
    pub device_info: TinymovrDeviceInfo,
}

/// The identifier of endpoint `ep_id` on node `device_id`, checked as a
/// standard identifier.
fn endpoint_id(device_id: u16, ep_id: u16) -> (r: u16)
    requires
        node_fits(device_id),
        ep_id < 64,
    ensures
        r == can_id(device_id, ep_id),
        r <= MAX_STANDARD_ID,
{
    let raw: u16 = (device_id << CAN_EP_SIZE) | ep_id;
    assert(ep_id < 64 && device_id % 1024 < 32 ==> ((device_id << 6u16) | ep_id) == (
    device_id % 1024) * 64 + ep_id) by (bit_vector);
    standard_id(raw).unwrap()
}

/// The data frame with identifier `id` and payload `data`.
fn make_data_frame(id: u16, data: &Vec<u8>) -> (r: CanFrame)
    requires
        id <= MAX_STANDARD_ID,
        data@.len() <= MAX_DLC,
    ensures
        r@ == data_frame(id, data@),
{
    CanFrame::new(id, data.as_slice()).unwrap()
}

impl Tinymovr {
    /// The node number this controller answers to.
    pub closed spec fn node_id(&self) -> u16 {
        self.node.raw
    }

    /// The device information this controller holds.
    pub closed spec fn info(&self) -> TinymovrDeviceInfo {
        self.device_info
    }

    /// The remote frame that asks node `device_id` for its device
    /// information; `None` when that node's identifiers do not fit in 11 bits.
    pub fn info_request(device_id: u16) -> (r: Option<CanFrame>)
        ensures
            r is Some <==> node_fits(device_id),
            r matches Some(f) ==> f@ == remote_frame(
                can_id(device_id, GET_DEVICE_INFO_EP_ID) as u16,
                0,
            ),
    {
        if device_id % 1024 >= 32 {
            return None;
        }
        let id = endpoint_id(device_id, GET_DEVICE_INFO_EP_ID);
        CanFrame::new_remote(id, 0)
    }

    /// The controller on node `device_id`, from the data of its reply to the
    /// device-info request.
    pub fn new(device_id: u16, reply: &[u8]) -> (r: Tinymovr)
        requires
            node_fits(device_id),
            reply@.len() >= 8,
        ensures
            r.node_id() == device_id,
            r.info() == info_from_reply(reply@),
            r.info().device_id as int == reply@[0] as int,
            r.info().fw_major == reply@[4],
            r.info().fw_minor == reply@[5],
            r.info().fw_patch == reply@[6],
            r.info().temperature == reply@[7],
    {
        Tinymovr {
            node: NodeId { raw: device_id },
            device_info: TinymovrDeviceInfo {
                device_id: reply[0] as u32,
                fw_major: reply[4],
                fw_minor: reply[5],
                fw_patch: reply[6],
                temperature: reply[7],
            },
        }
    }

    fn get_can_id(&self, ep_id: u16) -> (r: u16)
        requires
            ep_id < 64,
        ensures
            r == can_id(self.node_id(), ep_id),
            r <= MAX_STANDARD_ID,
    {
        proof {
            use_type_invariant(&self.node);
        }
        endpoint_id(self.node.raw, ep_id)
    }

    /// The device information read when the controller was set up.
    pub fn device_info(&self) -> (r: TinymovrDeviceInfo)
        ensures
            r == self.info(),
    {
        self.device_info
    }

    fn set_state(&mut self, state: u8, mode: u8) -> (r: CanFrame)
        ensures
            *final(self) == *old(self),
            r@ == state_frame(old(self).node_id(), state, mode),
            r@.id == can_id(old(self).node_id(), SET_STATE_EP_ID),
            !r@.remote,
            r@.data == seq![state, mode],
    {
        proof {
            use_type_invariant(&self.node);
        }
        let id = self.get_can_id(SET_STATE_EP_ID);
        let mut data: Vec<u8> = Vec::new();
        data.push(state);
        data.push(mode);
        assert(data@ =~= seq![state, mode]);
        make_data_frame(id, &data)
    }

    /// The frame that puts the controller in the idle state.
    pub fn idle(&mut self) -> (r: CanFrame)
        ensures
            *final(self) == *old(self),
            r@ == state_frame(old(self).node_id(), 0, 0),
            r@.id == can_id(old(self).node_id(), SET_STATE_EP_ID),
            r@.data == seq![0u8, 0u8],
    {
        self.set_state(0, 0)
    }

    /// The frame that starts calibration.
    pub fn calibrate(&mut self) -> (r: CanFrame)
        ensures
            *final(self) == *old(self),
            r@ == state_frame(old(self).node_id(), 1, 0),
            r@.id == can_id(old(self).node_id(), SET_STATE_EP_ID),
            r@.data == seq![1u8, 0u8],
    {
        self.set_state(1, 0)
    }

    /// The frame that enters closed loop position control.
    pub fn position_control(&mut self) -> (r: CanFrame)
        ensures
            *final(self) == *old(self),
            r@ == state_frame(old(self).node_id(), 2, 2),
            r@.id == can_id(old(self).node_id(), SET_STATE_EP_ID),
            r@.data == seq![2u8, 2u8],
    {
        self.set_state(2, 2)
    }

    /// The frame that enters closed loop velocity control.
    pub fn velocity_control(&mut self) -> (r: CanFrame)
        ensures
            *final(self) == *old(self),
            r@ == state_frame(old(self).node_id(), 2, 1),
            r@.id == can_id(old(self).node_id(), SET_STATE_EP_ID),
            r@.data == seq![2u8, 1u8],
    {
        self.set_state(2, 1)
    }

    /// The frame that enters closed loop current control.
    pub fn current_control(&mut self) -> (r: CanFrame)
        ensures
            *final(self) == *old(self),
            r@ == state_frame(old(self).node_id(), 2, 0),
            r@.id == can_id(old(self).node_id(), SET_STATE_EP_ID),
            r@.data == seq![2u8, 0u8],
    {
        self.set_state(2, 0)
    }

    /// The frame that sets the position setpoint; `pos_bits` is the bit
    /// pattern of the `f32` setpoint, sent little-endian.
    pub fn set_pos_setpoint(&mut self, pos_bits: u32) -> (r: CanFrame)
        ensures
            *final(self) == *old(self),
            r@ == data_frame(
                can_id(old(self).node_id(), SET_POS_SETPOINT_EP_ID) as u16,
                le_bytes(pos_bits),
            ),
    {
        let id = self.get_can_id(SET_POS_SETPOINT_EP_ID);
        let mut data: Vec<u8> = Vec::new();
        push_le_u32(&mut data, pos_bits);
        assert(data@ =~= le_bytes(pos_bits));
        make_data_frame(id, &data)
    }

    /// The frame that sets the velocity integrator gain and deadband, each the
    /// bit pattern of an `f32`, gain first.
    pub fn set_vel_integrator_params(&mut self, gain_bits: u32, deadband_bits: u32) -> (r:
        CanFrame)
        ensures
            *final(self) == *old(self),
            r@ == data_frame(
                can_id(old(self).node_id(), SET_VEL_INTEGRATOR_PARAMS_EP_ID) as u16,
                le_bytes(gain_bits) + le_bytes(deadband_bits),
            ),
    {
        let id = self.get_can_id(SET_VEL_INTEGRATOR_PARAMS_EP_ID);
        let mut data: Vec<u8> = Vec::new();
        push_le_u32(&mut data, gain_bits);
        push_le_u32(&mut data, deadband_bits);
        assert(data@ =~= le_bytes(gain_bits) + le_bytes(deadband_bits));
        make_data_frame(id, &data)
    }

    /// The frame that sets the velocity setpoint (the bit pattern of an
    /// `f32`), followed by four zero bytes.
    pub fn set_vel_setpoint(&mut self, vel_bits: u32) -> (r: CanFrame)
        ensures
            *final(self) == *old(self),
            r@ == data_frame(
                can_id(old(self).node_id(), SET_VEL_SETPOINT_EP_ID) as u16,
                le_bytes(vel_bits) + le_bytes(0),
            ),
    {
        let id = self.get_can_id(SET_VEL_SETPOINT_EP_ID);
        let mut data: Vec<u8> = Vec::new();
        push_le_u32(&mut data, vel_bits);
        push_le_u32(&mut data, 0);
        assert(data@ =~= le_bytes(vel_bits) + le_bytes(0));
        make_data_frame(id, &data)
    }

    /// The frame that sets the current (Iq) setpoint, the bit pattern of an
    /// `f32`.
    pub fn set_iq_setpoint(&mut self, iq_bits: u32) -> (r: CanFrame)
        ensures
            *final(self) == *old(self),
            r@ == data_frame(
                can_id(old(self).node_id(), SET_IQ_SETPOINT_EP_ID) as u16,
                le_bytes(iq_bits),
            ),
    {
        let id = self.get_can_id(SET_IQ_SETPOINT_EP_ID);
        let mut data: Vec<u8> = Vec::new();
        push_le_u32(&mut data, iq_bits);
        assert(data@ =~= le_bytes(iq_bits));
        make_data_frame(id, &data)
    }

    /// The remote frame that asks the controller for its limits.
    pub fn get_limits(&mut self) -> (r: CanFrame)
        ensures
            *final(self) == *old(self),
            r@ == remote_frame(can_id(old(self).node_id(), GET_LIMITS_EP_ID) as u16, 0),
    {
        let id = self.get_can_id(GET_LIMITS_EP_ID);
        CanFrame::new_remote(id, 0).unwrap()
    }
}

} // verus!
