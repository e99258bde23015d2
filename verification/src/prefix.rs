//! IPv6 prefixes: a base address plus a prefix length, with the derived
//! netmask, hostmask and network address.

use crate::address::Address;
use vstd::prelude::*;

verus! {

/// How many of the 16 bits of segment `i` lie inside a prefix of
/// length `len`: 16 for segments wholly inside, 0 for segments wholly
/// outside, and the remainder for the segment the boundary crosses.
pub open spec fn mask_bits(len: int, i: int) -> int {
    if len >= 16 * (i + 1) {
        16
    } else if len <= 16 * i {
        0
    } else {
        len - 16 * i
    }
}

/// A 16-bit mask with the topmost `bits` bits set.
pub open spec fn high_mask(bits: int) -> u16
    recommends
        0 <= bits <= 16,
{
    if bits <= 0 {
        0u16
    } else if bits >= 16 {
        0xffffu16
    } else {
        0xffffu16 << ((16 - bits) as u16)
    }
}

/// Segment `i` of the netmask of a prefix of length `len`.
pub open spec fn netmask_seg(len: int, i: int) -> u16 {
    high_mask(mask_bits(len, i))
}

/// Segment `i` of the hostmask of a prefix of length `len`: the
/// complement of the netmask segment.
pub open spec fn hostmask_seg(len: int, i: int) -> u16 {
    !netmask_seg(len, i)
}

/// The network segments of a prefix: the base address with all host
/// bits zeroed.
pub open spec fn network_seq(addr: Seq<u16>, len: int) -> Seq<u16>
    recommends
        addr.len() == 8,
{
    Seq::new(8, |i: int| addr[i] & netmask_seg(len, i))
}

/// An IPv6 prefix: a base address (possibly with host bits set) and a
/// prefix length in bits.
#[derive(Clone, Copy, Debug)]
pub struct Prefix {
    /// The base address, as expressed by the caller; host bits need not
    /// be zero.
    pub addr: Address,
    /// The prefix length in bits.
    pub len: u8,
}

impl Prefix {
    /// A prefix is well formed when its length does not exceed the
    /// 128 bits of an address.
    pub open spec fn wf(&self) -> bool {
        self.len <= 128
    }

    /// Build a prefix from a base address and a length in bits.
    ///
    /// Returns `None` exactly when the length exceeds 128.
    pub fn new(addr: Address, len: u8) -> (r: Option<Prefix>)
        ensures
            r is Some <==> len <= 128,
            r matches Some(p) ==> p.addr@ == addr@ && p.len == len && p.wf(),
    {
        if len <= 128 {
            Some(Prefix { addr, len })
        } else {
            None
        }
    }

    /// The prefix length in bits.
    pub fn prefix_len(&self) -> (r: u8)
        ensures
            r == self.len,
    {
        self.len
    }

    /// The base address, as given at construction.
    pub fn addr(&self) -> (r: Address)
        ensures
            r@ == self.addr@,
    {
        self.addr
    }

    /// The netmask: ones over the network bits, zeroes over the host
    /// bits.
    pub fn netmask(&self) -> (r: Address)
        ensures
            forall|i: int| 0 <= i < 8 ==> r@[i] == netmask_seg(self.len as int, i),
    {
        let mut segments: [u16; 8] = [0u16; 8];
        let mut i: usize = 0;
        while i < 8
            invariant
                i <= 8,
                forall|j: int| 0 <= j < i ==> segments@[j] == netmask_seg(self.len as int, j),
            decreases 8 - i,
        {
            segments[i] = netmask_segment(self.len, i);
            i = i + 1;
        }
        Address::from_segments(segments)
    }

    /// The hostmask: the bitwise complement of the netmask.
    pub fn hostmask(&self) -> (r: Address)
        ensures
            forall|i: int| 0 <= i < 8 ==> r@[i] == hostmask_seg(self.len as int, i),
    {
        let mut segments: [u16; 8] = [0u16; 8];
        let mut i: usize = 0;
        while i < 8
            invariant
                i <= 8,
                forall|j: int| 0 <= j < i ==> segments@[j] == hostmask_seg(self.len as int, j),
            decreases 8 - i,
        {
            segments[i] = !netmask_segment(self.len, i);
            i = i + 1;
        }
        Address::from_segments(segments)
    }

    /// The network address: the base address with all host bits zeroed.
    pub fn network(&self) -> (r: Address)
        ensures
            r@ == network_seq(self.addr@, self.len as int),
    {
        let addr_segments = self.addr.segments();
        let mut segments: [u16; 8] = [0u16; 8];
        let mut i: usize = 0;
        while i < 8
            invariant
                i <= 8,
                addr_segments@ == self.addr@,
                forall|j: int|
                    0 <= j < i ==> segments@[j] == (self.addr@[j] & netmask_seg(
                        self.len as int,
                        j,
                    )),
            decreases 8 - i,
        {
            segments[i] = addr_segments[i] & netmask_segment(self.len, i);
            i = i + 1;
        }
        let r = Address::from_segments(segments);
        proof {
            assert(r@ =~= network_seq(self.addr@, self.len as int));
        }
        r
    }
}

/// Segment `i` of the netmask of a prefix of length `len`.
fn netmask_segment(len: u8, i: usize) -> (r: u16)
    requires
        i < 8,
    ensures
        r == netmask_seg(len as int, i as int),
{
    let lo: u16 = 16 * (i as u16);
    let hi: u16 = lo + 16;
    if len as u16 >= hi {
        0xffffu16
    } else if len as u16 <= lo {
        0u16
    } else {
        let bits: u16 = len as u16 - lo;
        0xffffu16 << (16u16 - bits)
    }
}

} // verus!
