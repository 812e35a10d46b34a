use vstd::prelude::*;

verus! {

/// An IP address, by its octets or its 16-bit segments.
#[derive(Debug, Clone, Copy)]
pub enum IpAddress {
    V4([u8; 4]),
    V6([u16; 8]),
}

/// A private, local or otherwise non-public IPv4 address: loopback
/// (127/8), private (10/8, 172.16/12, 192.168/16), link-local (169.254/16,
/// cloud metadata among them), broadcast, unspecified, documentation
/// (192.0.2/24, 198.51.100/24, 203.0.113/24) or shared address space
/// (100.64/10).
pub open spec fn spec_is_private_ipv4(o: Seq<u8>) -> bool {
    let (a, b, c, d) = (o[0], o[1], o[2], o[3]);
    ||| a == 127
    ||| a == 10
    ||| a == 172 && 16 <= b <= 31
    ||| a == 192 && b == 168
    ||| a == 169 && b == 254
    ||| a == 255 && b == 255 && c == 255 && d == 255
    ||| a == 0 && b == 0 && c == 0 && d == 0
    ||| a == 192 && b == 0 && c == 2
    ||| a == 198 && b == 51 && c == 100
    ||| a == 203 && b == 0 && c == 113
    ||| a == 100 && 64 <= b <= 127
}

/// An IPv4 address as a 32-bit number, its first octet highest.
pub open spec fn ipv4_number(a: u8, b: u8, c: u8, d: u8) -> u32 {
    ((a as u32) << 24u32) | ((b as u32) << 16u32) | ((c as u32) << 8u32) | (d as u32)
}

/// Whether the address numbered `n` is in the block of `len` leading bits
/// that starts at `base` (CIDR notation `base/len`).
pub open spec fn in_ipv4_block(n: u32, base: u32, len: u32) -> bool {
    (n >> (32u32 - len)) == (base >> (32u32 - len))
}

/// The non-public IPv4 addresses are exactly those of the blocks 127.0.0.0/8,
/// 10.0.0.0/8, 172.16.0.0/12, 192.168.0.0/16, 169.254.0.0/16,
/// 192.0.2.0/24, 198.51.100.0/24, 203.0.113.0/24 and 100.64.0.0/10, and the
/// single addresses 255.255.255.255 and 0.0.0.0.
pub proof fn lemma_private_ipv4_blocks(o: Seq<u8>)
    requires
        o.len() == 4,
    ensures
        spec_is_private_ipv4(o) <==> {
            let n = ipv4_number(o[0], o[1], o[2], o[3]);
            ||| in_ipv4_block(n, 0x7f00_0000, 8)
            ||| in_ipv4_block(n, 0x0a00_0000, 8)
            ||| in_ipv4_block(n, 0xac10_0000, 12)
            ||| in_ipv4_block(n, 0xc0a8_0000, 16)
            ||| in_ipv4_block(n, 0xa9fe_0000, 16)
            ||| n == 0xffff_ffff
            ||| n == 0
            ||| in_ipv4_block(n, 0xc000_0200, 24)
            ||| in_ipv4_block(n, 0xc633_6400, 24)
            ||| in_ipv4_block(n, 0xcb00_7100, 24)
            ||| in_ipv4_block(n, 0x6440_0000, 10)
        },
{
    let a = o[0];
    let b = o[1];
    let c = o[2];
    let d = o[3];
    assert({
        let n = ((a as u32) << 24u32) | ((b as u32) << 16u32) | ((c as u32) << 8u32) | (d as u32);
        &&& ((n >> 24u32) == (0x7f00_0000u32 >> 24u32) <==> a == 127)
        &&& ((n >> 24u32) == (0x0a00_0000u32 >> 24u32) <==> a == 10)
        &&& ((n >> 20u32) == (0xac10_0000u32 >> 20u32) <==> (a == 172 && 16 <= b && b <= 31))
        &&& ((n >> 16u32) == (0xc0a8_0000u32 >> 16u32) <==> (a == 192 && b == 168))
        &&& ((n >> 16u32) == (0xa9fe_0000u32 >> 16u32) <==> (a == 169 && b == 254))
        &&& (n == 0xffff_ffffu32 <==> (a == 255 && b == 255 && c == 255 && d == 255))
        &&& (n == 0u32 <==> (a == 0 && b == 0 && c == 0 && d == 0))
        &&& ((n >> 8u32) == (0xc000_0200u32 >> 8u32) <==> (a == 192 && b == 0 && c == 2))
        &&& ((n >> 8u32) == (0xc633_6400u32 >> 8u32) <==> (a == 198 && b == 51 && c == 100))
        &&& ((n >> 8u32) == (0xcb00_7100u32 >> 8u32) <==> (a == 203 && b == 0 && c == 113))
        &&& ((n >> 22u32) == (0x6440_0000u32 >> 22u32) <==> (a == 100 && 64 <= b && b <= 127))
    }) by (bit_vector);
}

/// The IPv4 address that an IPv4-mapped IPv6 address (::ffff:a.b.c.d) maps.
pub open spec fn spec_ipv4_mapped(s: Seq<u16>) -> Option<Seq<u8>> {
    if s[0] == 0 && s[1] == 0 && s[2] == 0 && s[3] == 0 && s[4] == 0 && s[5] == 0xffff {
        Some(seq![(s[6] / 256) as u8, (s[6] % 256) as u8, (s[7] / 256) as u8, (s[7] % 256) as u8])
    } else {
        None
    }
}

/// A private, local or otherwise non-public IPv6 address: loopback (::1),
/// unspecified (::), an IPv4-mapped address of a non-public IPv4 address,
/// unique local (fc00::/7) or link-local (fe80::/10).
pub open spec fn spec_is_private_ipv6(s: Seq<u16>) -> bool {
    ||| s =~= seq![0u16, 0, 0, 0, 0, 0, 0, 1]
    ||| s =~= seq![0u16, 0, 0, 0, 0, 0, 0, 0]
    ||| match spec_ipv4_mapped(s) {
        Some(v4) => spec_is_private_ipv4(v4),
        None => (0xfc00 <= s[0] <= 0xfdff) || (0xfe80 <= s[0] <= 0xfebf),
    }
}

/// The non-public IPv6 addresses are exactly the loopback address ::1, the
/// unspecified address ::, the IPv4-mapped addresses ::ffff:0:0/96 whose
/// IPv4 address is not public, and, outside that block, the unique local
/// block fc00::/7 and the link-local block fe80::/10.
pub proof fn lemma_private_ipv6_blocks(s: Seq<u16>)
    requires
        s.len() == 8,
    ensures
        spec_is_private_ipv6(s) <==> {
            let mapped = s[0] == 0 && s[1] == 0 && s[2] == 0 && s[3] == 0 && s[4] == 0 && s[5]
                == 0xffff;
            ||| s == seq![0u16, 0, 0, 0, 0, 0, 0, 1]
            ||| s == seq![0u16, 0, 0, 0, 0, 0, 0, 0]
            ||| mapped && spec_is_private_ipv4(
                seq![
                    (s[6] >> 8u16) as u8,
                    (s[6] & 0xffu16) as u8,
                    (s[7] >> 8u16) as u8,
                    (s[7] & 0xffu16) as u8,
                ],
            )
            ||| !mapped && ((s[0] >> 9u16) == (0xfc00u16 >> 9u16) || (s[0] >> 6u16) == (0xfe80u16
                >> 6u16))
        },
{
    let s0 = s[0];
    let s6 = s[6];
    let s7 = s[7];
    assert({
        &&& ((s0 >> 9u16) == (0xfc00u16 >> 9u16) <==> (0xfc00 <= s0 && s0 <= 0xfdff))
        &&& ((s0 >> 6u16) == (0xfe80u16 >> 6u16) <==> (0xfe80 <= s0 && s0 <= 0xfebf))
        &&& (s6 >> 8u16) == s6 / 256
        &&& (s6 & 0xffu16) == s6 % 256
        &&& (s7 >> 8u16) == s7 / 256
        &&& (s7 & 0xffu16) == s7 % 256
    }) by (bit_vector);
    let m = seq![(s6 / 256) as u8, (s6 % 256) as u8, (s7 / 256) as u8, (s7 % 256) as u8];
    let m2 = seq![
        (s6 >> 8u16) as u8,
        (s6 & 0xffu16) as u8,
        (s7 >> 8u16) as u8,
        (s7 & 0xffu16) as u8,
    ];
    assert(m =~= m2);
}

/// Whether an IPv4 address is not public.
pub fn is_private_ipv4(ip: [u8; 4]) -> (r: bool)
    ensures
        r == spec_is_private_ipv4(ip@),
{
    let a = ip[0];
    let b = ip[1];
    let c = ip[2];
    let d = ip[3];
    a == 127 || a == 10 || (a == 172 && 16 <= b && b <= 31) || (a == 192 && b == 168) || (a == 169
        && b == 254) || (a == 255 && b == 255 && c == 255 && d == 255) || (a == 0 && b == 0 && c
        == 0 && d == 0) || (a == 192 && b == 0 && c == 2) || (a == 198 && b == 51 && c == 100) || (
    a == 203 && b == 0 && c == 113) || (a == 100 && 64 <= b && b <= 127)
}

/// The IPv4 address that an IPv4-mapped IPv6 address maps, if it is one.
pub fn to_ipv4_mapped(ip: [u16; 8]) -> (r: Option<[u8; 4]>)
    ensures
        match r {
            Some(v4) => spec_ipv4_mapped(ip@) == Some(v4@),
            None => spec_ipv4_mapped(ip@).is_none(),
        },
{
    if ip[0] == 0 && ip[1] == 0 && ip[2] == 0 && ip[3] == 0 && ip[4] == 0 && ip[5] == 0xffff {
        let r = [(ip[6] / 256) as u8, (ip[6] % 256) as u8, (ip[7] / 256) as u8, (ip[7] % 256) as u8];
        proof {
            assert(r@ =~= spec_ipv4_mapped(ip@).unwrap());
        }
        Some(r)
    } else {
        None
    }
}

/// Whether an IPv6 address is not public.
pub fn is_private_ipv6(ip: [u16; 8]) -> (r: bool)
    ensures
        r == spec_is_private_ipv6(ip@),
{
    let loopback = ip[0] == 0 && ip[1] == 0 && ip[2] == 0 && ip[3] == 0 && ip[4] == 0 && ip[5] == 0
        && ip[6] == 0 && ip[7] == 1;
    let unspecified = ip[0] == 0 && ip[1] == 0 && ip[2] == 0 && ip[3] == 0 && ip[4] == 0 && ip[5]
        == 0 && ip[6] == 0 && ip[7] == 0;
    proof {
        assert(loopback == (ip@ =~= seq![0u16, 0, 0, 0, 0, 0, 0, 1]));
        assert(unspecified == (ip@ =~= seq![0u16, 0, 0, 0, 0, 0, 0, 0]));
    }
    if loopback || unspecified {
        return true;
    }
    match to_ipv4_mapped(ip) {
        Some(v4) => is_private_ipv4(v4),
        None => {
            let s0 = ip[0];
            (0xfc00 <= s0 && s0 <= 0xfdff) || (0xfe80 <= s0 && s0 <= 0xfebf)
        },
    }
}

/// Whether an address is not public.
pub open spec fn spec_is_private_ip(ip: IpAddress) -> bool {
    match ip {
        IpAddress::V4(o) => spec_is_private_ipv4(o@),
        IpAddress::V6(s) => spec_is_private_ipv6(s@),
    }
}

/// Whether an address is not public.
pub fn is_private_ip(ip: IpAddress) -> (r: bool)
    ensures
        r == spec_is_private_ip(ip),
{
    match ip {
        IpAddress::V4(o) => is_private_ipv4(o),
        IpAddress::V6(s) => is_private_ipv6(s),
    }
}

} // verus!
