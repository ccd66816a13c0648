//! 29-bit extended-id pack/unpack and `communication_type` constants.
//!
//! ```text
//!  bits 28..24: communication_type (5 bits, 0..31)
//!  bits 23..8:  extra_data         (16 bits)
//!  bits  7..0:  device_id (out)  /  host_id (in)
//! ```
//!
//! Every Robstride frame uses this layout. The bottom byte echoes the
//! source: outgoing frames put the *target* device_id there; replies put
//! the *requesting* host_id there.
pub mod comm_type;

use vstd::prelude::*;

verus! {

/// The extended id carrying `(communication_type, extra_data, device_id)`;
/// only the low 5 bits of the communication type are kept.
pub open spec fn spec_encode(comm_type: u8, extra_data: u16, device_id: u8) -> u32 {
    ((comm_type % 32) * 0x100_0000 + extra_data * 0x100 + device_id) as u32
}

/// The `(communication_type, extra_data, low_byte)` an extended id carries.
pub open spec fn spec_decode(ext_id: u32) -> (u8, u16, u8) {
    ((ext_id / 0x100_0000 % 32) as u8, (ext_id / 0x100 % 0x1_0000) as u16, (ext_id % 0x100) as u8)
}

/// Pack `(communication_type, extra_data, device_id)` into a 29-bit id.
pub fn encode(comm_type: u8, extra_data: u16, device_id: u8) -> (id: u32)
    ensures
        id == spec_encode(comm_type, extra_data, device_id),
        id < 0x2000_0000,
{
    (comm_type % 32) as u32 * 0x100_0000 + extra_data as u32 * 0x100 + device_id as u32
}

/// Unpack a 29-bit id into `(communication_type, extra_data, low_byte)`.
/// `low_byte` is the device_id on outgoing frames or host_id on replies.
pub fn decode(ext_id: u32) -> (r: (u8, u16, u8))
    ensures
        r == spec_decode(ext_id),
{
    ((ext_id / 0x100_0000 % 32) as u8, (ext_id / 0x100 % 0x1_0000) as u16, (ext_id % 0x100) as u8)
}

proof fn lemma_split(lo: int, hi: int, base: int)
    by (nonlinear_arith)
    requires
        0 <= lo < base,
        0 <= hi,
        0 < base,
    ensures
        (lo + hi * base) % base == lo,
        (lo + hi * base) / base == hi,
{
}

proof fn lemma_div_div(x: int, a: int, b: int)
    by (nonlinear_arith)
    requires
        0 <= x,
        0 < a,
        0 < b,
    ensures
        x / a / b == x / (a * b),
{
}

/// Unpacking a packed id gives back its three fields (the communication
/// type cut to 5 bits).
pub proof fn lemma_decode_encode(comm_type: u8, extra_data: u16, device_id: u8)
    ensures
        spec_decode(spec_encode(comm_type, extra_data, device_id))
            == ((comm_type % 32) as u8, extra_data, device_id),
{
    let c: int = (comm_type % 32) as int;
    let x: int = c * 0x100_0000 + extra_data * 0x100 + device_id;
    let upper: int = c * 0x1_0000 + extra_data;
    assert(x == device_id + upper * 0x100);
    lemma_split(device_id as int, upper, 0x100);
    lemma_split(extra_data as int, c, 0x1_0000);
    lemma_div_div(x, 0x100, 0x1_0000);
    assert(x / 0x100_0000 == c);
}

/// Packing the fields of a 29-bit id gives the id back.
pub proof fn lemma_encode_decode(ext_id: u32)
    requires
        ext_id < 0x2000_0000,
    ensures
        ({
            let (c, e, d) = spec_decode(ext_id);
            spec_encode(c, e, d) == ext_id
        }),
{
    let x: int = ext_id as int;
    let upper: int = x / 0x100;
    lemma_div_div(x, 0x100, 0x1_0000);
    assert(x == x % 0x100 + upper * 0x100);
    assert(upper == upper % 0x1_0000 + (upper / 0x1_0000) * 0x1_0000);
    assert(x / 0x100_0000 < 32);
}

} // verus!
