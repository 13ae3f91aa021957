//! The ARP packet and its wire format of 24 bytes. Hardware addresses take
//! four bytes on the wire, so only their low 32 bits travel.
use vstd::prelude::*;
use crate::types::{Error, ErrorView, Mac, Res};
use crate::utils::{
    append_u16, append_u32, be16, be32, bytes_of_u16, bytes_of_u32, lemma_be16_of_bytes,
    lemma_be32_of_bytes, read_2bytes, read_4bytes,
};
use super::ip_addr::IpAddr;

verus! {

/// The length of an ARP packet on the wire.
pub const ARP_LEN: usize = 24;

/// The opcode of a request.
pub const ARP_REQUEST: u16 = 1;

/// The opcode of a reply.
pub const ARP_REPLY: u16 = 2;

#[derive(Debug, Clone, Copy, PartialEq, Eq, Structural)]
pub struct ARP {
    pub hardware_type: u16,
    pub protocol_type: u16,
    pub hardware_size: u8,
    pub protocol_size: u8,
    pub opcode: u16,
    pub sender_mac: Mac,
    pub sender_ipaddr: IpAddr,
    pub target_mac: Mac,
    pub target_ipaddr: IpAddr,
}

/// A request of `sender` for the hardware address of `target_ipaddr`.
pub open spec fn spec_new_request(sender_mac: Mac, sender_ipaddr: IpAddr, target_ipaddr: IpAddr) -> ARP {
    ARP {
        hardware_type: 1,
        protocol_type: 0x0800,
        hardware_size: 6,
        protocol_size: 4,
        opcode: ARP_REQUEST,
        sender_mac,
        sender_ipaddr,
        target_mac: Mac { value: 0 },
        target_ipaddr,
    }
}

/// The reply to `request` of the device whose hardware address is `mac`:
/// sender and target change places, and `mac` is the new sender address.
pub open spec fn spec_reply(request: ARP, mac: Mac) -> ARP {
    ARP {
        hardware_type: request.hardware_type,
        protocol_type: request.protocol_type,
        hardware_size: request.hardware_size,
        protocol_size: request.protocol_size,
        opcode: ARP_REPLY,
        sender_mac: mac,
        sender_ipaddr: request.target_ipaddr,
        target_mac: request.sender_mac,
        target_ipaddr: request.sender_ipaddr,
    }
}

/// The wire form of a packet.
pub open spec fn spec_encode(arp: ARP) -> Seq<u8> {
    bytes_of_u16(arp.hardware_type) + bytes_of_u16(arp.protocol_type) + seq![
        arp.hardware_size,
        arp.protocol_size,
    ] + bytes_of_u16(arp.opcode) + bytes_of_u32((arp.sender_mac.value % 0x1_0000_0000) as u32)
        + bytes_of_u32(arp.sender_ipaddr.value) + bytes_of_u32(
        (arp.target_mac.value % 0x1_0000_0000) as u32,
    ) + bytes_of_u32(arp.target_ipaddr.value)
}

/// The packet at the start of `xs`, if `xs` holds the 24 bytes of one.
pub open spec fn spec_decode(xs: Seq<u8>) -> Result<ARP, ErrorView> {
    if xs.len() < ARP_LEN {
        Err(ErrorView::NotEnoughBytes)
    } else {
        Ok(
            ARP {
                hardware_type: be16(xs, 0),
                protocol_type: be16(xs, 2),
                hardware_size: xs[4],
                protocol_size: xs[5],
                opcode: be16(xs, 6),
                sender_mac: Mac { value: be32(xs, 8) as u64 },
                sender_ipaddr: IpAddr { value: be32(xs, 12) },
                target_mac: Mac { value: be32(xs, 16) as u64 },
                target_ipaddr: IpAddr { value: be32(xs, 20) },
            },
        )
    }
}

/// The packets whose wire form reads back as the same packet: both hardware
/// addresses fit in the four bytes that the format gives them.
pub open spec fn packet_round_trips(arp: ARP) -> bool {
    arp.sender_mac.value < 0x1_0000_0000 && arp.target_mac.value < 0x1_0000_0000
}

impl ARP {
    pub fn new_request(sender_mac: Mac, sender_ipaddr: IpAddr, target_ipaddr: IpAddr) -> (arp: ARP)
        ensures
            arp == spec_new_request(sender_mac, sender_ipaddr, target_ipaddr),
    {
        ARP {
            hardware_type: 1,
            protocol_type: 0x0800,
            hardware_size: 6,
            protocol_size: 4,
            opcode: ARP_REQUEST,
            sender_mac,
            sender_ipaddr,
            target_mac: Mac::new(0),
            target_ipaddr,
        }
    }

    /// The reply to this request of the device whose hardware address is
    /// `target_mac`.
    pub fn reply(&self, target_mac: Mac) -> (arp: ARP)
        ensures
            arp == spec_reply(*self, target_mac),
    {
        ARP {
            hardware_type: self.hardware_type,
            protocol_type: self.protocol_type,
            hardware_size: self.hardware_size,
            protocol_size: self.protocol_size,
            opcode: ARP_REPLY,
            sender_mac: target_mac,
            sender_ipaddr: self.target_ipaddr,
            target_mac: self.sender_mac,
            target_ipaddr: self.sender_ipaddr,
        }
    }

    /// Reads the packet at the start of `xs`. Bytes after it are ignored.
    pub fn decode(xs: &Vec<u8>) -> (r: Res<ARP>)
        ensures
            match spec_decode(xs@) {
                Ok(arp) => r matches Ok(got) && got == arp,
                Err(e) => r matches Err(got) && got@ == e,
            },
    {
        if xs.len() < ARP_LEN {
            return Err(Error::NotEnoughBytes);
        }
        Ok(
            ARP {
                hardware_type: read_2bytes(xs, 0),
                protocol_type: read_2bytes(xs, 2),
                hardware_size: xs[4],
                protocol_size: xs[5],
                opcode: read_2bytes(xs, 6),
                sender_mac: Mac::new(read_4bytes(xs, 8) as u64),
                sender_ipaddr: IpAddr::new(read_4bytes(xs, 12)),
                target_mac: Mac::new(read_4bytes(xs, 16) as u64),
                target_ipaddr: IpAddr::new(read_4bytes(xs, 20)),
            },
        )
    }

    pub fn encode(&self) -> (xs: Vec<u8>)
        ensures
            xs@ == spec_encode(*self),
    {
        let mut xs: Vec<u8> = Vec::new();
        assert(xs@ + bytes_of_u16(self.hardware_type) =~= bytes_of_u16(self.hardware_type));
        append_u16(&mut xs, self.hardware_type);
        append_u16(&mut xs, self.protocol_type);
        let ghost before = xs@;
        xs.push(self.hardware_size);
        xs.push(self.protocol_size);
        assert(xs@ =~= before + seq![self.hardware_size, self.protocol_size]);
        append_u16(&mut xs, self.opcode);
        append_u32(&mut xs, (self.sender_mac.value % 0x1_0000_0000) as u32);
        append_u32(&mut xs, self.sender_ipaddr.value);
        append_u32(&mut xs, (self.target_mac.value % 0x1_0000_0000) as u32);
        append_u32(&mut xs, self.target_ipaddr.value);
        xs
    }
}

/// A packet that was read from bytes has hardware addresses below 2^32.
pub proof fn lemma_decoded_packet_shape(xs: Seq<u8>)
    requires
        spec_decode(xs) is Ok,
    ensures
        packet_round_trips(spec_decode(xs)->Ok_0),
{
}

/// Where the fields of a packet lie in the concatenation that makes it.
proof fn lemma_field_offsets(
    ht: Seq<u8>,
    pt: Seq<u8>,
    hs: u8,
    ps: u8,
    op: Seq<u8>,
    b0: Seq<u8>,
    b1: Seq<u8>,
    b2: Seq<u8>,
    b3: Seq<u8>,
)
    requires
        ht.len() == 2,
        pt.len() == 2,
        op.len() == 2,
        b0.len() == 4,
        b1.len() == 4,
        b2.len() == 4,
        b3.len() == 4,
    ensures
        ({
            let xs = ht + pt + seq![hs, ps] + op + b0 + b1 + b2 + b3;
            &&& xs.len() == ARP_LEN
            &&& be16(xs, 0) == be16(ht, 0)
            &&& be16(xs, 2) == be16(pt, 0)
            &&& xs[4] == hs
            &&& xs[5] == ps
            &&& be16(xs, 6) == be16(op, 0)
            &&& be32(xs, 8) == be32(b0, 0)
            &&& be32(xs, 12) == be32(b1, 0)
            &&& be32(xs, 16) == be32(b2, 0)
            &&& be32(xs, 20) == be32(b3, 0)
        }),
{
    let xs = ht + pt + seq![hs, ps] + op + b0 + b1 + b2 + b3;
    assert(xs[0] == ht[0] && xs[1] == ht[1]);
    assert(xs[2] == pt[0] && xs[3] == pt[1]);
    assert(xs[6] == op[0] && xs[7] == op[1]);
    assert(forall|i: int| 0 <= i < 4 ==> xs[8 + i] == b0[i]);
    assert(forall|i: int| 0 <= i < 4 ==> xs[12 + i] == b1[i]);
    assert(forall|i: int| 0 <= i < 4 ==> xs[16 + i] == b2[i]);
    assert(forall|i: int| 0 <= i < 4 ==> xs[20 + i] == b3[i]);
}

/// The round trip for a packet whose hardware addresses are given as the
/// 32-bit values that travel.
proof fn lemma_encode_decode_low(arp: ARP, sm: u32, tm: u32)
    requires
        arp.sender_mac.value == sm,
        arp.target_mac.value == tm,
    ensures
        spec_decode(
            bytes_of_u16(arp.hardware_type) + bytes_of_u16(arp.protocol_type) + seq![
                arp.hardware_size,
                arp.protocol_size,
            ] + bytes_of_u16(arp.opcode) + bytes_of_u32(sm) + bytes_of_u32(arp.sender_ipaddr.value)
                + bytes_of_u32(tm) + bytes_of_u32(arp.target_ipaddr.value),
        ) == Ok::<ARP, ErrorView>(arp),
{
    lemma_be16_of_bytes(arp.hardware_type);
    lemma_be16_of_bytes(arp.protocol_type);
    lemma_be16_of_bytes(arp.opcode);
    lemma_be32_of_bytes(sm);
    lemma_be32_of_bytes(arp.sender_ipaddr.value);
    lemma_be32_of_bytes(tm);
    lemma_be32_of_bytes(arp.target_ipaddr.value);
    lemma_field_offsets(
        bytes_of_u16(arp.hardware_type),
        bytes_of_u16(arp.protocol_type),
        arp.hardware_size,
        arp.protocol_size,
        bytes_of_u16(arp.opcode),
        bytes_of_u32(sm),
        bytes_of_u32(arp.sender_ipaddr.value),
        bytes_of_u32(tm),
        bytes_of_u32(arp.target_ipaddr.value),
    );
}

/// Encoding a packet and decoding the bytes gives the packet back, for
/// every packet whose hardware addresses fit in 32 bits.
pub proof fn lemma_encode_decode(arp: ARP)
    requires
        packet_round_trips(arp),
    ensures
        spec_decode(spec_encode(arp)) == Ok::<ARP, ErrorView>(arp),
{
    let s = arp.sender_mac.value;
    let t = arp.target_mac.value;
    assert(s < 0x1_0000_0000 ==> s % 0x1_0000_0000 == s) by (bit_vector);
    assert(t < 0x1_0000_0000 ==> t % 0x1_0000_0000 == t) by (bit_vector);
    lemma_encode_decode_low(arp, s as u32, t as u32);
}

/// A packet that was decoded from bytes encodes to bytes that decode to the
/// same packet.
pub proof fn lemma_decoded_packet_round_trips(xs: Seq<u8>)
    requires
        spec_decode(xs) is Ok,
    ensures
        spec_decode(spec_encode(spec_decode(xs)->Ok_0)) == spec_decode(xs),
{
    lemma_encode_decode(spec_decode(xs)->Ok_0);
}

} // verus!
