//! The numbers that the detail panel derives from a message identifier,
//! read as a J1939 identifier.
use vstd::prelude::*;

verus! {

/// The parts of a 29-bit identifier shown in the message header.
#[derive(Debug, Clone, Copy, PartialEq, Eq, Structural)]
pub struct HeaderFields {
    /// Parameter group number: bits 8 to 23.
    pub pgn: u32,
    /// Source address: bits 0 to 7.
    pub sa: u32,
    /// Destination address: bits 8 to 15.
    pub da: u32,
    /// Priority: bits 26 to 28.
    pub priority: u32,
}

/// Splits a message identifier into the fields of its header.
pub fn header_fields(id: u32) -> (r: HeaderFields)
    ensures
        r.pgn == (id / 256) % 65536,
        r.sa == id % 256,
        r.da == (id / 256) % 256,
        r.priority == (id / 67108864) % 8,
{
    let pgn = (id >> 8) & 0xFFFF;
    let sa = id & 0xFF;
    let da = (id >> 8) & 0xFF;
    let priority = (id >> 26) & 0x7;
    assert(pgn == (id / 256) % 65536) by (bit_vector)
        requires
            pgn == (id >> 8) & 0xFFFF,
    ;
    assert(sa == id % 256) by (bit_vector)
        requires
            sa == id & 0xFF,
    ;
    assert(da == (id / 256) % 256) by (bit_vector)
        requires
            da == (id >> 8) & 0xFF,
    ;
    assert(priority == (id / 67108864) % 8) by (bit_vector)
        requires
            priority == (id >> 26) & 0x7,
    ;
    HeaderFields { pgn, sa, da, priority }
}

} // verus!
