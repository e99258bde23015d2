//! The laws of the translation core: reversibility of both transforms,
//! determinism and range of the prefix checksum.

use crate::prefix::netmask_seg;
use crate::prefix::network_seq;
use crate::prefix::Prefix;
use crate::translate::checksum_of;
use crate::translate::netmap_seq;
use crate::translate::nptv6_seq;
use crate::translate::seg_index;
use crate::translate::seg_sum;
use vstd::arithmetic::div_mod::lemma_add_mod_noop_right;
use vstd::arithmetic::div_mod::lemma_fundamental_div_mod;
use vstd::arithmetic::div_mod::lemma_mod_bound;
use vstd::arithmetic::div_mod::lemma_small_mod;
use vstd::prelude::*;

verus! {

/// A mask of all sixteen ones selects a whole segment.
proof fn lemma_full_mask()
    ensures
        forall|x: u16| #[trigger] (x & 0xffffu16) == x,
{
    assert(forall|x: u16| #[trigger] (x & 0xffffu16) == x) by (bit_vector);
}

/// Below the first host segment of a segment-aligned prefix, every
/// netmask segment is all ones.
proof fn lemma_aligned_netmask(len: int, i: int)
    requires
        0 <= len,
        len % 16 == 0,
        0 <= i < seg_index(len),
    ensures
        netmask_seg(len, i) == 0xffffu16,
{
    lemma_fundamental_div_mod(len, 16);
}

/// NPTv6 round trip: translating an address of the upstream network to
/// the downstream prefix and then translating the result back, with
/// the two checksum arguments swapped and the upstream prefix as the
/// destination, recovers the original address exactly.
///
/// Both prefixes must share one segment-aligned length, the address
/// must lie in the upstream network, and the corrected segment must
/// not hold 0xffff, whose reduction modulo 0xffff is not reversible.
pub proof fn lemma_nptv6_roundtrip(
    up_csum: u16,
    down_csum: u16,
    addr: Seq<u16>,
    upstream_pfx: Prefix,
    downstream_pfx: Prefix,
)
    requires
        upstream_pfx.wf(),
        downstream_pfx.wf(),
        upstream_pfx.len == downstream_pfx.len,
        upstream_pfx.len % 16 == 0,
        upstream_pfx.len < 128,
        addr.len() == 8,
        network_seq(addr, upstream_pfx.len as int) == network_seq(
            upstream_pfx.addr@,
            upstream_pfx.len as int,
        ),
        addr[seg_index(upstream_pfx.len as int)] != 0xffff,
    ensures
        nptv6_seq(
            down_csum,
            up_csum,
            nptv6_seq(
                up_csum,
                down_csum,
                addr,
                network_seq(downstream_pfx.addr@, downstream_pfx.len as int),
                seg_index(downstream_pfx.len as int),
            ),
            network_seq(upstream_pfx.addr@, upstream_pfx.len as int),
            seg_index(upstream_pfx.len as int),
        ) == addr,
{
    let len = upstream_pfx.len as int;
    let k = seg_index(len);
    let down_net = network_seq(downstream_pfx.addr@, len);
    let up_net = network_seq(upstream_pfx.addr@, len);
    let fwd = nptv6_seq(up_csum, down_csum, addr, down_net, k);
    let back = nptv6_seq(down_csum, up_csum, fwd, up_net, k);

    lemma_fundamental_div_mod(len, 16);
    lemma_full_mask();

    assert forall|i: int| 0 <= i < k implies back[i] == addr[i] by {
        lemma_aligned_netmask(len, i);
        assert(network_seq(addr, len)[i] == network_seq(upstream_pfx.addr@, len)[i]);
    };

    let orig: u16 = addr[k];
    let t: int = (down_csum - up_csum + orig) % 0xffff;
    lemma_mod_bound(down_csum - up_csum + orig, 0xffff);
    assert(fwd[k] == t as u16);
    lemma_add_mod_noop_right(up_csum - down_csum, down_csum - up_csum + orig, 0xffff);
    lemma_small_mod(orig as nat, 0xffff);
    assert(back[k] == ((up_csum - down_csum + t) % 0xffff) as u16);
    assert((up_csum - down_csum + t) % 0xffff == orig);

    assert(back =~= addr);
}

/// Translating with equal checksums towards the network the address
/// already lies in leaves the address unchanged.
///
/// As in the round trip, the corrected segment must not hold 0xffff.
pub proof fn lemma_nptv6_identity(csum: u16, addr: Seq<u16>, pfx: Prefix)
    requires
        pfx.wf(),
        pfx.len % 16 == 0,
        pfx.len < 128,
        addr.len() == 8,
        network_seq(addr, pfx.len as int) == network_seq(pfx.addr@, pfx.len as int),
        addr[seg_index(pfx.len as int)] != 0xffff,
    ensures
        nptv6_seq(
            csum,
            csum,
            addr,
            network_seq(pfx.addr@, pfx.len as int),
            seg_index(pfx.len as int),
        ) == addr,
{
    let len = pfx.len as int;
    let k = seg_index(len);
    let out = nptv6_seq(csum, csum, addr, network_seq(pfx.addr@, len), k);

    lemma_fundamental_div_mod(len, 16);
    lemma_full_mask();

    assert forall|i: int| 0 <= i < k implies out[i] == addr[i] by {
        lemma_aligned_netmask(len, i);
        assert(network_seq(addr, len)[i] == network_seq(pfx.addr@, len)[i]);
    };

    lemma_small_mod(addr[k] as nat, 0xffff);
    assert(out[k] == addr[k]);

    assert(out =~= addr);
}

/// Netmap round trip: rewriting an address of the upstream network to
/// the downstream prefix and rewriting the result back to the upstream
/// prefix recovers the original address, for any two prefixes of equal
/// length.
pub proof fn lemma_netmapv6_roundtrip(addr: Seq<u16>, upstream_pfx: Prefix, downstream_pfx: Prefix)
    requires
        upstream_pfx.wf(),
        downstream_pfx.wf(),
        upstream_pfx.len == downstream_pfx.len,
        addr.len() == 8,
        network_seq(addr, upstream_pfx.len as int) == network_seq(
            upstream_pfx.addr@,
            upstream_pfx.len as int,
        ),
    ensures
        netmap_seq(
            netmap_seq(addr, downstream_pfx.addr@, downstream_pfx.len as int),
            upstream_pfx.addr@,
            upstream_pfx.len as int,
        ) == addr,
{
    let len = upstream_pfx.len as int;
    let fwd = netmap_seq(addr, downstream_pfx.addr@, len);
    let back = netmap_seq(fwd, upstream_pfx.addr@, len);

    assert forall|i: int| 0 <= i < 8 implies back[i] == addr[i] by {
        let m: u16 = netmask_seg(len, i);
        let a: u16 = addr[i];
        let d: u16 = downstream_pfx.addr@[i];
        let u: u16 = upstream_pfx.addr@[i];
        assert(network_seq(addr, len)[i] == network_seq(upstream_pfx.addr@, len)[i]);
        assert(a & m == u & m);
        assert(((u & m) | (((d & m) | (a & !m)) & !m)) == a) by (bit_vector)
            requires
                a & m == u & m,
        ;
    };

    assert(back =~= addr);
}

/// The prefix checksum depends on the network segments alone: prefixes
/// with equal networks have equal checksums.
pub proof fn lemma_pfx_csum_deterministic(p: Prefix, q: Prefix)
    requires
        network_seq(p.addr@, p.len as int) == network_seq(q.addr@, q.len as int),
    ensures
        checksum_of(network_seq(p.addr@, p.len as int)) == checksum_of(
            network_seq(q.addr@, q.len as int),
        ),
{
}

/// Whenever the segment sum of the network is no multiple of 0xffff,
/// the checksum lies in [0, 0xfffe].  (A network whose segment sum is
/// a multiple of 0xffff, such as the all-zero prefix, has checksum
/// 0xffff instead.)
pub proof fn lemma_pfx_csum_range(net: Seq<u16>)
    requires
        net.len() == 8,
        seg_sum(net) % 0xffff != 0,
    ensures
        0 <= checksum_of(net) <= 0xfffe,
{
    lemma_mod_bound(seg_sum(net), 0xffff);
}

} // verus!

