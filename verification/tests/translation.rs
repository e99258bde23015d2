use address_translation::construct_v6addr;
use address_translation::netmapv6;
use address_translation::nptv6;
use address_translation::pfx_csum;
use address_translation::Address;
use address_translation::Prefix;

fn prefix(segments: [u16; 8], len: u8) -> Prefix {
    Prefix::new(Address::from_segments(segments), len).expect("prefix length out of range")
}

#[test]
fn nptv6_translates_and_reverts() {
    // 2001:db9::/64 -> 2001:db9:beef::/64, address 2001:db9::feed.
    let upstream_pfx = prefix([0x2001, 0x0db9, 0, 0, 0, 0, 0, 0], 64);
    let downstream_pfx = prefix([0x2001, 0x0db9, 0xbeef, 0, 0, 0, 0, 0], 64);
    let upstream_pfx_csum = pfx_csum(&upstream_pfx);
    let downstream_pfx_csum = pfx_csum(&downstream_pfx);

    let incoming = Address::from_segments([0x2001, 0x0db9, 0, 0, 0, 0, 0, 0xfeed]);

    let outgoing = nptv6(upstream_pfx_csum, downstream_pfx_csum, incoming, &downstream_pfx);
    // Predicted: 2001:db9:beef:0:4110::feed.
    assert_eq!(outgoing.segments(), [0x2001, 0x0db9, 0xbeef, 0, 0x4110, 0, 0, 0xfeed]);

    let reverted = nptv6(downstream_pfx_csum, upstream_pfx_csum, outgoing, &upstream_pfx);
    assert_eq!(reverted.segments(), incoming.segments());
}

#[test]
fn nptv6_preserves_tail_segments() {
    let upstream_pfx = prefix([0x2001, 0x0db9, 0, 0, 0, 0, 0, 0], 64);
    let downstream_pfx = prefix([0x2001, 0x0db9, 0xbeef, 0, 0, 0, 0, 0], 64);
    let upstream_pfx_csum = pfx_csum(&upstream_pfx);
    let downstream_pfx_csum = pfx_csum(&downstream_pfx);

    let incoming = Address::from_segments([0x2001, 0x0db9, 0, 0, 0x1111, 0x2222, 0x3333, 0x4444]);
    let outgoing = nptv6(upstream_pfx_csum, downstream_pfx_csum, incoming, &downstream_pfx);

    // Segments after the corrected one (index 4) pass through untouched.
    assert_eq!(outgoing.segments()[5], 0x2222);
    assert_eq!(outgoing.segments()[6], 0x3333);
    assert_eq!(outgoing.segments()[7], 0x4444);
}

#[test]
fn nptv6_identical_prefixes_leave_address_unchanged() {
    let pfx = prefix([0x2001, 0x0db9, 0, 0, 0, 0, 0, 0], 64);
    let csum = pfx_csum(&pfx);

    let incoming = Address::from_segments([0x2001, 0x0db9, 0, 0, 0x0abc, 0, 0, 0xfeed]);
    let outgoing = nptv6(csum, csum, incoming, &pfx);
    assert_eq!(outgoing.segments(), incoming.segments());
}

#[test]
fn nptv6_shorter_prefix() {
    // /32 prefixes: two leading segments replaced, segment 2 corrected.
    let upstream_pfx = prefix([0x2001, 0x0db9, 0, 0, 0, 0, 0, 0], 32);
    let downstream_pfx = prefix([0x2001, 0x0dba, 0, 0, 0, 0, 0, 0], 32);
    let upstream_pfx_csum = pfx_csum(&upstream_pfx);
    let downstream_pfx_csum = pfx_csum(&downstream_pfx);

    let incoming = Address::from_segments([0x2001, 0x0db9, 0x1234, 0, 0, 0, 0, 1]);
    let outgoing = nptv6(upstream_pfx_csum, downstream_pfx_csum, incoming, &downstream_pfx);
    let reverted = nptv6(downstream_pfx_csum, upstream_pfx_csum, outgoing, &upstream_pfx);

    assert_eq!(outgoing.segments()[0], 0x2001);
    assert_eq!(outgoing.segments()[1], 0x0dba);
    assert_eq!(reverted.segments(), incoming.segments());
}

#[test]
fn pfx_csum_exact_values() {
    // Sum of 0x2001 + 0x0db9 = 0x2dba; complement is 0xd245.
    let upstream_pfx = prefix([0x2001, 0x0db9, 0, 0, 0, 0, 0, 0], 64);
    assert_eq!(pfx_csum(&upstream_pfx), 0xd245);

    // Sum of 0x2001 + 0x0db9 + 0xbeef = 0xeca9; complement is 0x1356.
    let downstream_pfx = prefix([0x2001, 0x0db9, 0xbeef, 0, 0, 0, 0, 0], 64);
    assert_eq!(pfx_csum(&downstream_pfx), 0x1356);
}

#[test]
fn pfx_csum_ignores_host_bits() {
    // The checksum is computed over the network segments alone, so
    // host bits in the base address do not change it.
    let bare = prefix([0x2001, 0x0db9, 0, 0, 0, 0, 0, 0], 64);
    let with_host_bits = prefix([0x2001, 0x0db9, 0, 0, 0x1234, 0x5678, 0x9abc, 0xfeed], 64);
    assert_eq!(pfx_csum(&bare), pfx_csum(&with_host_bits));
}

#[test]
fn pfx_csum_zero_prefix() {
    // The all-zero prefix sums to zero, whose complement is 0xffff.
    let zero = prefix([0, 0, 0, 0, 0, 0, 0, 0], 0);
    assert_eq!(pfx_csum(&zero), 0xffff);
}

#[test]
fn netmapv6_rewrites_and_reverts() {
    // 2001:db9::/64 -> 2001:db9:beef::/64, address 2001:db9::feed.
    let upstream_pfx = prefix([0x2001, 0x0db9, 0, 0, 0, 0, 0, 0], 64);
    let downstream_pfx = prefix([0x2001, 0x0db9, 0xbeef, 0, 0, 0, 0, 0], 64);

    let incoming = Address::from_segments([0x2001, 0x0db9, 0, 0, 0, 0, 0, 0xfeed]);

    let outgoing = netmapv6(incoming, &downstream_pfx);
    assert_eq!(outgoing.segments(), [0x2001, 0x0db9, 0xbeef, 0, 0, 0, 0, 0xfeed]);

    let reverted = netmapv6(outgoing, &upstream_pfx);
    assert_eq!(reverted.segments(), incoming.segments());
}

#[test]
fn netmapv6_sub_segment_length() {
    // A /60 prefix splits segment 3: its top 12 bits are network bits.
    let upstream_pfx = prefix([0x2001, 0x0db9, 0, 0x0120, 0, 0, 0, 0], 60);
    let downstream_pfx = prefix([0x2001, 0x0db9, 0xbeef, 0x0450, 0, 0, 0, 0], 60);

    let incoming = Address::from_segments([0x2001, 0x0db9, 0, 0x0123, 0, 0, 0, 0xfeed]);

    let outgoing = netmapv6(incoming, &downstream_pfx);
    // Network bits from the destination, the low 4 bits of segment 3
    // and everything after preserved.
    assert_eq!(outgoing.segments(), [0x2001, 0x0db9, 0xbeef, 0x0453, 0, 0, 0, 0xfeed]);

    let reverted = netmapv6(outgoing, &upstream_pfx);
    assert_eq!(reverted.segments(), incoming.segments());
}

#[test]
fn netmapv6_masks_host_bits_of_prefix() {
    // Host bits in the destination's base address never reach the result.
    let downstream_pfx = prefix([0x2001, 0x0db9, 0xbeef, 0, 0, 0, 0, 0x00ff], 64);
    let incoming = Address::from_segments([0x2001, 0x0db9, 0, 0, 0, 0, 0, 0xfeed]);
    let outgoing = netmapv6(incoming, &downstream_pfx);
    assert_eq!(outgoing.segments(), [0x2001, 0x0db9, 0xbeef, 0, 0, 0, 0, 0xfeed]);
}
