//! The translation core: the RFC 6296 prefix checksum, the NPTv6
//! translator, and the netmap-style prefix rewriter, together with
//! their reversibility laws.

use crate::address::Address;
use crate::prefix::netmask_seg;
use crate::prefix::network_seq;
use crate::prefix::Prefix;
use vstd::arithmetic::div_mod::lemma_mod_add_multiples_vanish;
use vstd::arithmetic::div_mod::lemma_mod_bound;
use vstd::prelude::*;

verus! {

/// The sum of the eight 16-bit segments of an address.
pub open spec fn seg_sum(s: Seq<u16>) -> int
    recommends
        s.len() == 8,
{
    s[0] + s[1] + s[2] + s[3] + s[4] + s[5] + s[6] + s[7]
}

/// The RFC 6296 prefix checksum of eight network segments: the segment
/// sum reduced modulo 0xffff (Euclidean, so the reduction lies in
/// [0, 0xfffe]), then complemented in the low 16 bits.  The complement
/// of a value in [0, 0xfffe] is its distance from 0xffff.
pub open spec fn checksum_of(s: Seq<u16>) -> int
    recommends
        s.len() == 8,
{
    0xffff - (seg_sum(s) % 0xffff)
}

/// The index of the first host segment of a segment-aligned prefix of
/// length `len`.
pub open spec fn seg_index(len: int) -> int {
    len / 16
}

/// The corrected value of the first host segment in an NPTv6
/// translation: the checksum difference plus the original segment,
/// reduced modulo 0xffff with Euclidean semantics, so the result lies
/// in [0, 0xfffe] whatever the sign of the difference.
pub open spec fn nptv6_adjusted(up_csum: u16, down_csum: u16, orig: u16) -> int {
    (down_csum - up_csum + orig) % 0xffff
}

/// The segments produced by an NPTv6 translation: segments below `k`
/// come from the destination network, segment `k` is the corrected
/// segment, segments above `k` pass through from the original address.
pub open spec fn nptv6_seq(
    up_csum: u16,
    down_csum: u16,
    addr: Seq<u16>,
    net: Seq<u16>,
    k: int,
) -> Seq<u16>
    recommends
        addr.len() == 8,
        net.len() == 8,
        0 <= k < 8,
{
    Seq::new(
        8,
        |i: int|
            if i < k {
                net[i]
            } else if i == k {
                nptv6_adjusted(up_csum, down_csum, addr[k]) as u16
            } else {
                addr[i]
            },
    )
}

/// One segment of a netmap translation: network bits from the prefix's
/// base address, host bits from the incoming address.
pub open spec fn netmap_seg(addr_seg: u16, pfx_seg: u16, mask: u16) -> u16 {
    (pfx_seg & mask) | (addr_seg & !mask)
}

/// The segments produced by a netmap translation towards a prefix with
/// base address `pfx_addr` and length `len`.
pub open spec fn netmap_seq(addr: Seq<u16>, pfx_addr: Seq<u16>, len: int) -> Seq<u16>
    recommends
        addr.len() == 8,
        pfx_addr.len() == 8,
{
    Seq::new(8, |i: int| netmap_seg(addr[i], pfx_addr[i], netmask_seg(len, i)))
}

/// Compute the RFC 6296 checksum of a prefix.
///
/// The checksum is a pure function of the prefix's network segments:
/// host bits of the base address never enter it.
pub fn pfx_csum(prefix: &Prefix) -> (r: u16)
    ensures
        r == checksum_of(network_seq(prefix.addr@, prefix.len as int)),
        1 <= r,
{
    let net = prefix.network().segments();
    let sum: u32 = net[0] as u32 + net[1] as u32 + net[2] as u32 + net[3] as u32 + net[4] as u32
        + net[5] as u32 + net[6] as u32 + net[7] as u32;
    let reduced: u32 = sum % 0xffff;
    proof {
        lemma_mod_bound(sum as int, 0xffff);
        assert(reduced <= 0xfffe ==> (reduced ^ 0xffffu32) == 0xffff - reduced) by (bit_vector);
    }
    (reduced ^ 0xffff) as u16
}

/// Perform IPv6-to-IPv6 network prefix translation (NPTv6, RFC 6296).
///
/// The leading `len / 16` segments of the address are replaced by the
/// downstream prefix's network segments, the first host segment is
/// corrected by the checksum difference so that the address's overall
/// checksum is preserved, and all later segments pass through
/// unchanged.  The prefix length must be a multiple of 16 and must
/// leave a host segment to correct, so it lies in {0, 16, ..., 112}.
pub fn nptv6(
    upstream_pfx_csum: u16,
    downstream_pfx_csum: u16,
    upstream_addr: Address,
    downstream_pfx: &Prefix,
) -> (r: Address)
    requires
        downstream_pfx.wf(),
        downstream_pfx.len % 16 == 0,
        downstream_pfx.len < 128,
    ensures
        r@ == nptv6_seq(
            upstream_pfx_csum,
            downstream_pfx_csum,
            upstream_addr@,
            network_seq(downstream_pfx.addr@, downstream_pfx.len as int),
            seg_index(downstream_pfx.len as int),
        ),
        forall|i: int|
            seg_index(downstream_pfx.len as int) < i < 8 ==> r@[i] == upstream_addr@[i],
{
    let k: usize = (downstream_pfx.prefix_len() / 16) as usize;
    let mut segments: [u16; 8] = upstream_addr.segments();
    let downstream_segs: [u16; 8] = downstream_pfx.network().segments();
    let original_seg: u16 = segments[k];

    let correction: u32 = downstream_pfx_csum as u32 + 0xffff - upstream_pfx_csum as u32
        + original_seg as u32;

    let mut i: usize = 0;
    while i < k
        invariant
            i <= k,
            k < 8,
            forall|j: int| 0 <= j < i ==> segments@[j] == downstream_segs@[j],
            forall|j: int| i <= j < 8 ==> segments@[j] == upstream_addr@[j],
        decreases k - i,
    {
        segments[i] = downstream_segs[i];
        i = i + 1;
    }

    proof {
        lemma_mod_bound(correction as int, 0xffff);
        lemma_mod_add_multiples_vanish(
            downstream_pfx_csum - upstream_pfx_csum + original_seg,
            0xffff,
        );
    }
    segments[k] = (correction % 0xffff) as u16;

    let r = Address::from_segments(segments);
    proof {
        assert(r@ =~= nptv6_seq(
            upstream_pfx_csum,
            downstream_pfx_csum,
            upstream_addr@,
            network_seq(downstream_pfx.addr@, downstream_pfx.len as int),
            seg_index(downstream_pfx.len as int),
        ));
    }
    r
}

/// Rewrite the prefix of an address without checksum adjustment.
///
/// Network bits (selected by the destination prefix's netmask) are
/// replaced by the destination prefix's own bits; host bits (selected
/// by its hostmask) are preserved.  The two parts occupy disjoint bits,
/// so their sum equals their bitwise or.
pub fn netmapv6(upstream_addr: Address, downstream_prefix: &Prefix) -> (r: Address)
    ensures
        r@ == netmap_seq(upstream_addr@, downstream_prefix.addr@, downstream_prefix.len as int),
{
    let addr_segs = upstream_addr.segments();
    let pfx_segs = downstream_prefix.addr().segments();
    let netmask = downstream_prefix.netmask().segments();
    let hostmask = downstream_prefix.hostmask().segments();

    let mut segments: [u16; 8] = [0u16; 8];
    let mut i: usize = 0;
    while i < 8
        invariant
            i <= 8,
            addr_segs@ == upstream_addr@,
            pfx_segs@ == downstream_prefix.addr@,
            forall|j: int|
                0 <= j < 8 ==> netmask@[j] == netmask_seg(downstream_prefix.len as int, j),
            forall|j: int| 0 <= j < 8 ==> hostmask@[j] == !netmask_seg(
                downstream_prefix.len as int,
                j,
            ),
            forall|j: int|
                0 <= j < i ==> segments@[j] == netmap_seg(
                    upstream_addr@[j],
                    downstream_prefix.addr@[j],
                    netmask_seg(downstream_prefix.len as int, j),
                ),
        decreases 8 - i,
    {
        let network_part: u16 = pfx_segs[i] & netmask[i];
        let host_part: u16 = addr_segs[i] & hostmask[i];
        proof {
            let p: u16 = pfx_segs@[i as int];
            let a: u16 = addr_segs@[i as int];
            let m: u16 = netmask@[i as int];
            assert((p & m) + (a & !m) == ((p & m) | (a & !m)) && (p & m) + (a & !m)
                <= 0xffff) by (bit_vector);
        }
        segments[i] = network_part + host_part;
        i = i + 1;
    }
    let r = Address::from_segments(segments);
    proof {
        assert(r@ =~= netmap_seq(
            upstream_addr@,
            downstream_prefix.addr@,
            downstream_prefix.len as int,
        ));
    }
    r
}

} // verus!
