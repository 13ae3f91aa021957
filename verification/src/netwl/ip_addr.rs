//! IPv4 addresses, subnet masks and the network part of an address.
use vstd::prelude::*;

verus! {

/// A 32-bit IPv4 address.
#[derive(Debug, Clone, Copy, PartialEq, Eq, Hash, Structural)]
pub struct IpAddr {
    pub value: u32,
}

impl IpAddr {
    pub fn new(value: u32) -> (a: IpAddr)
        ensures
            a.value == value,
    {
        IpAddr { value }
    }

    /// The network that this address lies in under `subnet_mask`.
    pub fn nw(&self, subnet_mask: SubnetMask) -> (n: NetworkPart)
        ensures
            n == network_part(*self, subnet_mask),
    {
        NetworkPart::new(*self, subnet_mask)
    }
}

/// A prefix length together with the bit mask that it stands for.
#[derive(Debug, Clone, Copy, PartialEq, Eq, Hash, Structural)]
pub struct SubnetMask {
    pub prefix: u8,
    pub value: u32,
}

/// The mask whose `prefix` most significant bits are set.
pub open spec fn mask_of(prefix: u8) -> u32 {
    if prefix == 0 {
        0u32
    } else {
        0xFFFF_FFFFu32 << ((32 - prefix) as u32)
    }
}

impl SubnetMask {
    pub fn new(prefix: u8) -> (m: SubnetMask)
        requires
            prefix <= 32,
        ensures
            m.prefix == prefix,
            m.value == mask_of(prefix),
    {
        let value: u32 = if prefix == 0 {
            0
        } else {
            0xFFFF_FFFFu32 << ((32 - prefix) as u32)
        };
        SubnetMask { prefix, value }
    }
}

/// The subnet that an address belongs to: the masked address and the prefix
/// length. Two network parts are equal when both agree.
#[derive(Debug, Clone, Copy, PartialEq, Eq, Hash, Structural)]
pub struct NetworkPart {
    pub value: u32,
    pub prefix: u8,
}

/// The network part of `ip_addr` under `subnet_mask`.
pub open spec fn network_part(ip_addr: IpAddr, subnet_mask: SubnetMask) -> NetworkPart {
    NetworkPart { value: ip_addr.value & subnet_mask.value, prefix: subnet_mask.prefix }
}

impl NetworkPart {
    pub fn new(ip_addr: IpAddr, subnet_mask: SubnetMask) -> (n: NetworkPart)
        ensures
            n == network_part(ip_addr, subnet_mask),
    {
        NetworkPart { value: ip_addr.value & subnet_mask.value, prefix: subnet_mask.prefix }
    }
}

/// The network part depends on the address and the mask only through the
/// masked address and the prefix length.
pub proof fn lemma_network_part_by_masked_value(
    ip0: IpAddr,
    mask0: SubnetMask,
    ip1: IpAddr,
    mask1: SubnetMask,
)
    requires
        ip0.value & mask0.value == ip1.value & mask1.value,
        mask0.prefix == mask1.prefix,
    ensures
        network_part(ip0, mask0) == network_part(ip1, mask1),
{
}

/// A mask made from a prefix length has exactly the `prefix` most significant
/// bits set: added to the value of the lowest of them it wraps to zero.
pub proof fn lemma_mask_of_prefix(prefix: u8)
    requires
        0 < prefix <= 32,
    ensures
        mask_of(prefix) as int + pow2_32(32 - prefix as int) == 0x1_0000_0000,
{
    let k: u32 = (32 - prefix) as u32;
    assert(k < 32 ==> (0xFFFF_FFFFu32 << k) as u64 + (1u64 << (k as u64)) == 0x1_0000_0000u64)
        by (bit_vector);
    lemma_pow2_32_is_shift(k);
}

/// Two to the power `e`, for `e` up to 32.
pub open spec fn pow2_32(e: int) -> int
    decreases e,
{
    if e <= 0 {
        1
    } else {
        2 * pow2_32(e - 1)
    }
}

proof fn lemma_pow2_32_is_shift(k: u32)
    requires
        k < 32,
    ensures
        pow2_32(k as int) == (1u64 << (k as u64)),
    decreases k,
{
    if k == 0 {
        assert(1u64 << 0u64 == 1) by (bit_vector);
    } else {
        lemma_pow2_32_is_shift((k - 1) as u32);
        let j: u64 = (k - 1) as u64;
        assert(j < 31 ==> (1u64 << ((j + 1) as u64)) == 2 * (1u64 << j)) by (bit_vector);
    }
}

} // verus!
