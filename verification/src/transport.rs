//! CAN identifiers, frames and transport errors.
//!
//! Motor protocol code builds [`CanFrame`]s and classifies the frames it
//! receives; a backend (SocketCAN, a loopback for tests, ...) moves them.
use vstd::prelude::*;

verus! {

/// `std::io::Error`, carried opaquely by [`CanError::Backend`].
#[verifier::external_type_specification]
#[verifier::external_body]
pub struct ExIoError(std::io::Error);

/// Largest raw value of an 11-bit standard identifier.
pub const STANDARD_ID_MAX: u32 = 0x7FF;

/// Largest raw value of a 29-bit extended identifier.
pub const EXTENDED_ID_MAX: u32 = 0x1FFF_FFFF;

/// Linux `CAN_EFF_FLAG`: marks an extended identifier in filter words.
pub const EFF_FLAG: u32 = 0x8000_0000;

/// Largest payload of a classic CAN frame.
pub const CLASSIC_MAX_LEN: usize = 8;

/// Largest payload of a CAN-FD frame.
pub const FD_MAX_LEN: usize = 64;

/// Either an 11-bit standard or 29-bit extended CAN identifier.
#[derive(Debug, Clone, Copy, PartialEq, Eq, Hash, Structural)]
pub enum CanId {
    Standard(u16),
    Extended(u32),
}

impl CanId {
    /// The raw number the identifier carries, whatever its kind.
    pub open spec fn spec_raw(self) -> u32 {
        match self {
            CanId::Standard(v) => v as u32,
            CanId::Extended(v) => v,
        }
    }

    /// True when the raw number fits the width of its kind.
    pub open spec fn is_valid(self) -> bool {
        match self {
            CanId::Standard(v) => v <= STANDARD_ID_MAX,
            CanId::Extended(v) => v <= EXTENDED_ID_MAX,
        }
    }

    /// Standard identifier from the low 11 bits of `raw`.
    pub fn standard(raw: u16) -> (id: Self)
        ensures
            id == CanId::Standard(raw & 0x7FF),
            id.spec_raw() == raw % 2048,
            id.is_valid(),
    {
        assert(raw & 0x7FF == raw % 2048 && raw & 0x7FF <= 0x7FF) by (bit_vector);
        CanId::Standard(raw & 0x7FF)
    }

    /// Extended identifier from the low 29 bits of `raw`.
    pub fn extended(raw: u32) -> (id: Self)
        ensures
            id == CanId::Extended(raw & 0x1FFF_FFFF),
            id.spec_raw() == raw % 0x2000_0000,
            id.is_valid(),
    {
        assert(raw & 0x1FFF_FFFF == raw % 0x2000_0000 && raw & 0x1FFF_FFFF <= 0x1FFF_FFFF)
            by (bit_vector);
        CanId::Extended(raw & 0x1FFF_FFFF)
    }

    /// The raw number the identifier carries.
    pub fn raw(&self) -> (r: u32)
        ensures
            r == self.spec_raw(),
    {
        match *self {
            CanId::Standard(v) => v as u32,
            CanId::Extended(v) => v,
        }
    }
}

/// One CAN or CAN-FD frame. Up to 8 bytes for classic, 64 for FD.
#[derive(Debug, Clone)]
pub struct CanFrame {
    pub id: CanId,
    pub data: Vec<u8>,
    /// True for CAN-FD frames.
    pub fd: bool,
    /// FD bit-rate switch (data-phase rate). Ignored when `fd == false`.
    pub brs: bool,
}

impl CanFrame {
    /// A classic (non-FD) frame.
    pub fn classic(id: CanId, data: Vec<u8>) -> (f: Self)
        ensures
            f.id == id,
            f.data@ == data@,
            !f.fd,
            !f.brs,
    {
        CanFrame { id, data, fd: false, brs: false }
    }

    /// A CAN-FD frame, with or without bit-rate switch.
    pub fn fd(id: CanId, data: Vec<u8>, brs: bool) -> (f: Self)
        ensures
            f.id == id,
            f.data@ == data@,
            f.fd,
            f.brs == brs,
    {
        CanFrame { id, data, fd: true, brs }
    }

    /// The largest payload the frame's mode allows.
    pub open spec fn max_len(self) -> nat {
        if self.fd { FD_MAX_LEN as nat } else { CLASSIC_MAX_LEN as nat }
    }
}

/// Transport errors.
#[derive(Debug)]
pub enum CanError {
    /// No (matching) frame arrived in time.
    Timeout,
    /// The payload is longer than the frame's mode allows: the length.
    OversizedFrame(usize),
    /// The identifier does not fit its 11 or 29 bits.
    InvalidId,
    /// The backend reported an I/O error.
    Backend(std::io::Error),
}

/// The error a frame is refused with before it goes on the wire, if any:
/// first the identifier is checked, then the payload length.
pub open spec fn spec_send_check(frame: CanFrame) -> Option<CanError> {
    if !frame.id.is_valid() {
        Some(CanError::InvalidId)
    } else if frame.data.len() > frame.max_len() {
        Some(CanError::OversizedFrame(frame.data.len()))
    } else {
        None
    }
}

/// Check that `frame` can be put on the wire as it stands: its identifier
/// fits its kind, and its payload fits its mode (8 bytes classic, 64 FD).
pub fn check_sendable(frame: &CanFrame) -> (r: Result<(), CanError>)
    ensures
        r is Ok <==> spec_send_check(*frame) is None,
        r is Err ==> Some(r->Err_0) == spec_send_check(*frame),
{
    let valid = match frame.id {
        CanId::Standard(v) => (v as u32) <= STANDARD_ID_MAX,
        CanId::Extended(v) => v <= EXTENDED_ID_MAX,
    };
    if !valid {
        return Err(CanError::InvalidId);
    }
    let max = if frame.fd { FD_MAX_LEN } else { CLASSIC_MAX_LEN };
    if frame.data.len() > max {
        return Err(CanError::OversizedFrame(frame.data.len()));
    }
    Ok(())
}

/// The identifier word a Linux SocketCAN socket matches a received frame by:
/// the raw id, with `CAN_EFF_FLAG` set for an extended id.
pub open spec fn spec_wire_word(id: CanId) -> u32 {
    match id {
        CanId::Standard(v) => v as u32,
        CanId::Extended(v) => v | EFF_FLAG,
    }
}

/// SocketCAN's match rule: a frame passes a filter `(id, mask)` when
/// `received_id & mask == id & mask`.
pub open spec fn spec_passes(word: u32, filter: (u32, u32)) -> bool {
    word & filter.1 == filter.0 & filter.1
}

/// The filter words for `id`: the wire word of `id`, and a mask that
/// compares the `CAN_EFF_FLAG` bit and every bit of the id's width.
pub open spec fn spec_filter(id: CanId) -> (u32, u32) {
    match id {
        CanId::Standard(v) => (v as u32, STANDARD_ID_MAX | EFF_FLAG),
        CanId::Extended(v) => (v | EFF_FLAG, EXTENDED_ID_MAX | EFF_FLAG),
    }
}

/// Acceptance filter `(id, mask)` that lets exactly the frames with identifier
/// `id` through a Linux SocketCAN socket (see
/// [`lemma_filter_exact`]). Both words compare the `CAN_EFF_FLAG` bit
/// (`0x8000_0000`), so a standard id does not let an extended frame with the
/// same low bits through, nor the other way round.
pub fn filter_for(id: CanId) -> (r: (u32, u32))
    ensures
        r == spec_filter(id),
{
    match id {
        CanId::Standard(v) => (v as u32, STANDARD_ID_MAX | EFF_FLAG),
        CanId::Extended(v) => (v | EFF_FLAG, EXTENDED_ID_MAX | EFF_FLAG),
    }
}

/// A filter for a valid id lets a frame with a valid id through exactly when
/// the two ids are equal, kind and value.
pub proof fn lemma_filter_exact(id: CanId, rx: CanId)
    requires
        id.is_valid(),
        rx.is_valid(),
    ensures
        spec_passes(spec_wire_word(rx), spec_filter(id)) <==> rx == id,
{
    assert(0x7FFu32 | 0x8000_0000u32 == 0x8000_07FFu32) by (bit_vector);
    assert(0x1FFF_FFFFu32 | 0x8000_0000u32 == 0x9FFF_FFFFu32) by (bit_vector);
    match (id, rx) {
        (CanId::Standard(v), CanId::Standard(w)) => {
            let a = w as u32;
            let b = v as u32;
            assert(a <= 0x7FFu32 && b <= 0x7FFu32 ==> ((a & 0x8000_07FFu32 == b & 0x8000_07FFu32) <==> a == b)) by (bit_vector);
        },
        (CanId::Standard(v), CanId::Extended(w)) => {
            let b = v as u32;
            assert(b <= 0x7FFu32 ==> (w | 0x8000_0000u32) & 0x8000_07FFu32 != b & 0x8000_07FFu32) by (bit_vector);
        },
        (CanId::Extended(v), CanId::Standard(w)) => {
            let a = w as u32;
            assert(a <= 0x7FFu32 ==> a & 0x9FFF_FFFFu32 != (v | 0x8000_0000u32) & 0x9FFF_FFFFu32) by (bit_vector);
        },
        (CanId::Extended(v), CanId::Extended(w)) => {
            assert(v <= 0x1FFF_FFFFu32 && w <= 0x1FFF_FFFFu32 ==> (((w | 0x8000_0000u32) & 0x9FFF_FFFFu32
                == (v | 0x8000_0000u32) & 0x9FFF_FFFFu32) <==> w == v)) by (bit_vector);
        },
    }
}

/// The filter that accepts every frame: mask 0 compares no bit.
pub open spec fn accept_all() -> (u32, u32) {
    (0u32, 0u32)
}

/// The filter list a socket is given for `ids`: one exact filter per id, or,
/// for no ids at all, the single accept-everything filter (the kernel's
/// default). An empty filter list would instead deliver nothing.
pub fn filters_for(ids: &Vec<CanId>) -> (r: Vec<(u32, u32)>)
    ensures
        ids@.len() == 0 ==> r@ == seq![accept_all()],
        ids@.len() > 0 ==> r@.len() == ids@.len(),
        ids@.len() > 0 ==> forall|i: int| 0 <= i < ids@.len() ==> #[trigger] r@[i] == spec_filter(ids@[i]),
{
    let mut r: Vec<(u32, u32)> = Vec::new();
    if ids.len() == 0 {
        r.push((0, 0));
        return r;
    }
    let mut i: usize = 0;
    while i < ids.len()
        invariant
            0 <= i <= ids@.len(),
            r@.len() == i,
            forall|j: int| 0 <= j < i ==> #[trigger] r@[j] == spec_filter(ids@[j]),
        decreases ids@.len() - i,
    {
        r.push(filter_for(ids[i]));
        i = i + 1;
    }
    r
}

/// The accept-everything filter passes every frame.
pub proof fn lemma_accept_all(word: u32)
    ensures
        spec_passes(word, accept_all()),
{
    assert(word & 0u32 == 0u32 & 0u32) by (bit_vector);
}

} // verus!
