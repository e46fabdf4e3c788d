use vstd::prelude::*;

verus! {

/// Largest identifier a standard (11-bit) CAN frame can carry.
pub const MAX_STANDARD_ID: u16 = 0x7FF;

/// Largest data length code of a CAN 2.0 frame.
pub const MAX_DLC: usize = 8;

/// Checks `raw` as a standard CAN identifier with
/// `embedded_hal::can::StandardId::new` and reads the identifier back with
/// `StandardId::as_raw`. Claimed, as the crate's source shows: an identifier
/// comes back exactly when `raw <= 0x7FF`, and it holds `raw` unchanged.
#[verifier::external_body]
pub(crate) fn standard_id(raw: u16) -> (r: Option<u16>)
    ensures
        r == (if raw <= MAX_STANDARD_ID { Some(raw) } else { None::<u16> }),
{
    match embedded_hal::can::StandardId::new(raw) {
        Some(id) => Some(id.as_raw()),
        None => None,
    }
}

/// What a frame is, mathematically.
pub struct FrameView {
    pub id: u16,
    pub remote: bool,
    pub dlc: nat,
    pub data: Seq<u8>,
}

/// A CAN 2.0 frame with a standard identifier: a data frame carrying up to
/// eight bytes, or a remote frame asking for `dlc` bytes.
pub struct CanFrame {
    id: u16,
    remote: bool,
    dlc: usize,
    data: Vec<u8>,
}

impl View for CanFrame {
    type V = FrameView;

    closed spec fn view(&self) -> FrameView {
        FrameView { id: self.id, remote: self.remote, dlc: self.dlc as nat, data: self.data@ }
    }
}

/// The frame `Frame::new(id, data)` builds: a data frame whose length code is
/// the length of its data.
pub open spec fn data_frame(id: u16, data: Seq<u8>) -> FrameView {
    FrameView { id, remote: false, dlc: data.len(), data }
}

/// The frame `Frame::new_remote(id, dlc)` builds: no data, only a length code.
pub open spec fn remote_frame(id: u16, dlc: nat) -> FrameView {
    FrameView { id, remote: true, dlc, data: Seq::empty() }
}

/// A data frame carries exactly the bytes it was built from, under the
/// identifier it was built with, and its length code is their number; a
/// remote frame carries no bytes and the length code it was asked with.
pub proof fn lemma_frame_contents(id: u16, data: Seq<u8>, dlc: nat)
    ensures
        data_frame(id, data).id == id,
        !data_frame(id, data).remote,
        data_frame(id, data).data == data,
        data_frame(id, data).dlc == data.len(),
        forall|i: int| 0 <= i < data.len() ==> #[trigger] data_frame(id, data).data[i] == data[i],
        remote_frame(id, dlc).id == id,
        remote_frame(id, dlc).remote,
        remote_frame(id, dlc).data.len() == 0,
        remote_frame(id, dlc).dlc == dlc,
{
}

/// A frame the bus can carry.
pub open spec fn frame_wf(f: FrameView) -> bool {
    &&& f.id <= MAX_STANDARD_ID
    &&& f.dlc <= MAX_DLC
    &&& f.remote ==> f.data.len() == 0
    &&& !f.remote ==> f.data.len() == f.dlc
}

impl CanFrame {
    #[verifier::type_invariant]
    spec fn inv(self) -> bool {
        frame_wf(self@)
    }

    /// A data frame with identifier `id` carrying `data`; `None` when `id` is
    /// not an 11-bit identifier or `data` holds more than eight bytes.
    pub fn new(id: u16, data: &[u8]) -> (r: Option<CanFrame>)
        ensures
            r is Some <==> (id <= MAX_STANDARD_ID && data@.len() <= MAX_DLC),
            r matches Some(f) ==> f@ == data_frame(id, data@),
            r matches Some(f) ==> {
                &&& f@.id == id
                &&& !f@.remote
                &&& f@.data == data@
                &&& f@.dlc == data@.len()
            },
    {
        let raw = match standard_id(id) {
            Some(raw) => raw,
            None => return None,
        };
        if data.len() > MAX_DLC {
            return None;
        }
        let mut bytes: Vec<u8> = Vec::new();
        bytes.extend_from_slice(data);
        assert(bytes@ =~= data@);
        Some(CanFrame { id: raw, remote: false, dlc: data.len(), data: bytes })
    }

    /// A remote frame with identifier `id` asking for `dlc` bytes; `None` when
    /// `id` is not an 11-bit identifier or `dlc` is above eight.
    pub fn new_remote(id: u16, dlc: usize) -> (r: Option<CanFrame>)
        ensures
            r is Some <==> (id <= MAX_STANDARD_ID && dlc <= MAX_DLC),
            r matches Some(f) ==> f@ == remote_frame(id, dlc as nat),
            r matches Some(f) ==> {
                &&& f@.id == id
                &&& f@.remote
                &&& f@.data.len() == 0
                &&& f@.dlc == dlc
            },
    {
        let raw = match standard_id(id) {
            Some(raw) => raw,
            None => return None,
        };
        if dlc > MAX_DLC {
            return None;
        }
        Some(CanFrame { id: raw, remote: true, dlc, data: Vec::new() })
    }

    /// The 11-bit identifier.
    pub fn id(&self) -> (r: u16)
        ensures
            r == self@.id,
            r <= MAX_STANDARD_ID,
    {
        proof { use_type_invariant(self); }
        self.id
    }

    /// Whether this is a remote frame.
    pub fn is_remote_frame(&self) -> (r: bool)
        ensures
            r == self@.remote,
    {
        self.remote
    }

    /// The data length code.
    pub fn dlc(&self) -> (r: usize)
        ensures
            r == self@.dlc,
            r <= MAX_DLC,
    {
        proof { use_type_invariant(self); }
        self.dlc
    }

    /// The data bytes; empty for a remote frame.
    pub fn data(&self) -> (r: &[u8])
        ensures
            r@ == self@.data,
            r@.len() <= MAX_DLC,
            self@.remote ==> r@.len() == 0,
    {
        proof { use_type_invariant(self); }
        self.data.as_slice()
    }
}

} // verus!
