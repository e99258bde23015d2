//! The 128-bit IPv6 address value and its construction from raw bytes.

use vstd::prelude::*;

verus! {

/// An IPv6 address: eight 16-bit segments in network (big-endian) order.
///
/// The view of an `Address` is the sequence of its eight segments.
#[derive(Clone, Copy, Debug, PartialEq, Eq)]
pub struct Address {
    pub segments: [u16; 8],
}

impl View for Address {
    type V = Seq<u16>;

    open spec fn view(&self) -> Seq<u16> {
        self.segments@
    }
}

/// The segment at index `i` of a big-endian byte buffer: byte `2*i` is the
/// high half, byte `2*i + 1` the low half.
pub open spec fn segment_of_bytes(bytes: Seq<u8>, i: int) -> u16
    recommends
        0 <= i,
        2 * i + 1 < bytes.len(),
{
    (bytes[2 * i] * 256 + bytes[2 * i + 1]) as u16
}

/// The eight segments read from the first 16 bytes of a buffer,
/// interpreted as a big-endian 128-bit value.
pub open spec fn segments_of_bytes(bytes: Seq<u8>) -> Seq<u16>
    recommends
        bytes.len() >= 16,
{
    Seq::new(8, |i: int| segment_of_bytes(bytes, i))
}

impl Address {
    /// Build an address directly from its eight segments.
    pub fn from_segments(segments: [u16; 8]) -> (r: Address)
        ensures
            r@ == segments@,
    {
        Address { segments }
    }

    /// The eight 16-bit segments, in network order.
    pub fn segments(&self) -> (r: [u16; 8])
        ensures
            r@ == self@,
    {
        self.segments
    }
}

/// Read the first 16 bytes of `bytes` as a big-endian 128-bit address.
///
/// The caller must guarantee that the buffer holds at least 16 bytes;
/// the checked entry point is [`construct_v6addr`].
pub fn construct_v6addr_unchecked(bytes: &[u8]) -> (r: Address)
    requires
        bytes@.len() >= 16,
    ensures
        r@ == segments_of_bytes(bytes@),
{
    let mut segments: [u16; 8] = [0u16; 8];
    let mut i: usize = 0;
    while i < 8
        invariant
            i <= 8,
            bytes@.len() >= 16,
            forall|j: int| 0 <= j < i ==> segments@[j] == segment_of_bytes(bytes@, j),
        decreases 8 - i,
    {
        let high = bytes[2 * i];
        let low = bytes[2 * i + 1];
        segments[i] = (high as u16) * 256 + (low as u16);
        i = i + 1;
    }
    let r = Address { segments };
    proof {
        assert(r@ =~= segments_of_bytes(bytes@));
    }
    r
}

/// Build an address from a byte buffer, checking the length first.
///
/// Returns the address read from the first 16 bytes, or `None` when the
/// buffer holds fewer than 16 bytes.
pub fn construct_v6addr(bytes: &[u8]) -> (r: Option<Address>)
    ensures
        r is Some <==> bytes@.len() >= 16,
        r matches Some(a) ==> a@ == segments_of_bytes(bytes@),
{
    if bytes.len() < 16 {
        None
    } else {
        Some(construct_v6addr_unchecked(bytes))
    }
}

} // verus!
