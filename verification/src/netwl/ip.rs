//! The IPv4 datagram and its wire format: a 20-byte header and a payload
//! that is either plain bytes or an ICMP message of two bytes.
use vstd::prelude::*;
use crate::types::{Error, ErrorView, Res};
use crate::utils::{
    append_bytes, append_u16, append_u32, be16, be32, bytes_of_u16, bytes_of_u32, copy_range,
    lemma_be16_of_bytes, lemma_be32_of_bytes, read_2bytes, read_4bytes,
};
use super::ip_addr::IpAddr;

verus! {

/// The bytes of a datagram before its payload.
pub const IP_HEADER_LEN: usize = 20;

/// The protocol number of a datagram that carries an ICMP message.
pub const PROTOCOL_ICMP: u8 = 1;

/// The protocol number of a datagram that carries plain bytes.
pub const PROTOCOL_BYTES: u8 = 0;

/// The ICMP type of a destination-unreachable message.
pub const ICMP_UNREACHABLE: u8 = 3;

#[derive(Debug, PartialEq, Eq)]
pub enum IpPayload {
    Bytes(Vec<u8>),
    ICMP { ty: u8, code: u8 },
}

pub enum IpPayloadView {
    Bytes(Seq<u8>),
    ICMP { ty: u8, code: u8 },
}

impl View for IpPayload {
    type V = IpPayloadView;

    open spec fn view(&self) -> IpPayloadView {
        match *self {
            IpPayload::Bytes(xs) => IpPayloadView::Bytes(xs@),
            IpPayload::ICMP { ty, code } => IpPayloadView::ICMP { ty, code },
        }
    }
}

impl Clone for IpPayload {
    fn clone(&self) -> (r: IpPayload)
        ensures
            r@ == self@,
    {
        match self {
            IpPayload::Bytes(xs) => IpPayload::Bytes(xs.clone()),
            IpPayload::ICMP { ty, code } => IpPayload::ICMP { ty: *ty, code: *code },
        }
    }
}

impl IpPayloadView {
    /// The bytes that the payload takes on the wire.
    pub open spec fn bytes(self) -> Seq<u8> {
        match self {
            IpPayloadView::Bytes(xs) => xs,
            IpPayloadView::ICMP { ty, code } => seq![ty, code],
        }
    }

    /// The protocol number that announces this kind of payload.
    pub open spec fn protocol(self) -> u8 {
        match self {
            IpPayloadView::Bytes(_) => PROTOCOL_BYTES,
            IpPayloadView::ICMP { .. } => PROTOCOL_ICMP,
        }
    }
}

impl IpPayload {
    /// The number of bytes that the payload takes on the wire.
    pub fn len(&self) -> (n: usize)
        ensures
            n == self@.bytes().len(),
    {
        match self {
            IpPayload::Bytes(xs) => xs.len(),
            IpPayload::ICMP { ty: _, code: _ } => 2,
        }
    }

    /// The protocol number that announces this kind of payload.
    pub fn protocol(&self) -> (p: u8)
        ensures
            p == self@.protocol(),
    {
        match self {
            IpPayload::Bytes(_) => PROTOCOL_BYTES,
            IpPayload::ICMP { ty: _, code: _ } => PROTOCOL_ICMP,
        }
    }

    /// A copy of the bytes that the payload takes on the wire.
    pub fn to_bytes(&self) -> (xs: Vec<u8>)
        ensures
            xs@ == self@.bytes(),
    {
        match self {
            IpPayload::Bytes(xs) => xs.clone(),
            IpPayload::ICMP { ty, code } => {
                let xs: Vec<u8> = vec![*ty, *code];
                assert(xs@ =~= seq![*ty, *code]);
                xs
            },
        }
    }
}

#[derive(Debug, PartialEq, Eq)]
pub struct IP {
    pub version_ihl: u8,
    pub tos: u8,
    pub total_length: u16,
    pub id: u16,
    pub flags_fragment_offset: u16,
    pub ttl: u8,
    pub protocol: u8,
    pub checksum: u16,
    pub src: IpAddr,
    pub dst: IpAddr,
    pub payload: IpPayload,
}

pub struct IPView {
    pub version_ihl: u8,
    pub tos: u8,
    pub total_length: u16,
    pub id: u16,
    pub flags_fragment_offset: u16,
    pub ttl: u8,
    pub protocol: u8,
    pub checksum: u16,
    pub src: IpAddr,
    pub dst: IpAddr,
    pub payload: IpPayloadView,
}

impl View for IP {
    type V = IPView;

    open spec fn view(&self) -> IPView {
        IPView {
            version_ihl: self.version_ihl,
            tos: self.tos,
            total_length: self.total_length,
            id: self.id,
            flags_fragment_offset: self.flags_fragment_offset,
            ttl: self.ttl,
            protocol: self.protocol,
            checksum: self.checksum,
            src: self.src,
            dst: self.dst,
            payload: self.payload@,
        }
    }
}

impl Clone for IP {
    fn clone(&self) -> (r: IP)
        ensures
            r@ == self@,
    {
        IP {
            version_ihl: self.version_ihl,
            tos: self.tos,
            total_length: self.total_length,
            id: self.id,
            flags_fragment_offset: self.flags_fragment_offset,
            ttl: self.ttl,
            protocol: self.protocol,
            checksum: self.checksum,
            src: self.src,
            dst: self.dst,
            payload: self.payload.clone(),
        }
    }
}

/// A fresh datagram from `src` to `dst`: version 4 with a five-word header,
/// time to live 64, no checksum, and as total length the low 16 bits of the
/// header length plus the payload length.
pub open spec fn spec_new(src: IpAddr, dst: IpAddr, payload: IpPayloadView) -> IPView {
    IPView {
        version_ihl: 0x45,
        tos: 0,
        total_length: ((IP_HEADER_LEN + payload.bytes().len()) % 0x1_0000) as u16,
        id: 0,
        flags_fragment_offset: 0,
        ttl: 64,
        protocol: payload.protocol(),
        checksum: 0,
        src,
        dst,
        payload,
    }
}

/// The wire form of a datagram.
pub open spec fn spec_encode(ip: IPView) -> Seq<u8> {
    seq![ip.version_ihl, ip.tos] + bytes_of_u16(ip.total_length) + bytes_of_u16(ip.id)
        + bytes_of_u16(ip.flags_fragment_offset) + seq![ip.ttl, ip.protocol] + bytes_of_u16(
        ip.checksum,
    ) + bytes_of_u32(ip.src.value) + bytes_of_u32(ip.dst.value) + ip.payload.bytes()
}

/// The datagram that `xs` holds, or the reason why it holds none. With the
/// ICMP protocol number the payload is the two bytes after the header; with
/// any other it is all that follows the header.
pub open spec fn spec_decode(xs: Seq<u8>) -> Result<IPView, ErrorView> {
    if xs.len() < IP_HEADER_LEN {
        Err(ErrorView::NotEnoughBytes)
    } else if xs[9] == PROTOCOL_ICMP && xs.len() < IP_HEADER_LEN + 2 {
        Err(ErrorView::NotEnoughBytes)
    } else {
        Ok(
            IPView {
                version_ihl: xs[0],
                tos: xs[1],
                total_length: be16(xs, 2),
                id: be16(xs, 4),
                flags_fragment_offset: be16(xs, 6),
                ttl: xs[8],
                protocol: xs[9],
                checksum: be16(xs, 10),
                src: IpAddr { value: be32(xs, 12) },
                dst: IpAddr { value: be32(xs, 16) },
                payload: if xs[9] == PROTOCOL_ICMP {
                    IpPayloadView::ICMP { ty: xs[20], code: xs[21] }
                } else {
                    IpPayloadView::Bytes(xs.subrange(IP_HEADER_LEN as int, xs.len() as int))
                },
            },
        )
    }
}

/// The datagrams whose wire form reads back as the same datagram: the
/// protocol number is that of ICMP exactly when the payload is an ICMP
/// message.
pub open spec fn datagram_round_trips(ip: IPView) -> bool {
    (ip.protocol == PROTOCOL_ICMP) == (ip.payload is ICMP)
}

impl IP {
    /// A datagram that carries plain bytes.
    pub fn new_byte(src: IpAddr, dst: IpAddr, payload: Vec<u8>) -> (ip: IP)
        ensures
            ip@ == spec_new(src, dst, IpPayloadView::Bytes(payload@)),
    {
        IP::new(src, dst, IpPayload::Bytes(payload))
    }

    /// A datagram that carries an ICMP message.
    pub fn new_icmp(src: IpAddr, dst: IpAddr, ty: u8, code: u8) -> (ip: IP)
        ensures
            ip@ == spec_new(src, dst, IpPayloadView::ICMP { ty, code }),
    {
        IP::new(src, dst, IpPayload::ICMP { ty, code })
    }

    pub fn new(src: IpAddr, dst: IpAddr, payload: IpPayload) -> (ip: IP)
        ensures
            ip@ == spec_new(src, dst, payload@),
    {
        let len: usize = payload.len();
        let total: u16 = (((len % 0x1_0000) + IP_HEADER_LEN) % 0x1_0000) as u16;
        IP {
            version_ihl: 0x45,
            tos: 0,
            total_length: total,
            id: 0,
            flags_fragment_offset: 0,
            ttl: 64,
            protocol: payload.protocol(),
            checksum: 0,
            src,
            dst,
            payload,
        }
    }

    pub fn decode(xs: &Vec<u8>) -> (r: Res<IP>)
        ensures
            match spec_decode(xs@) {
                Ok(ip) => r matches Ok(got) && got@ == ip,
                Err(e) => r matches Err(got) && got@ == e,
            },
    {
        if xs.len() < IP_HEADER_LEN {
            return Err(Error::NotEnoughBytes);
        }
        let protocol = xs[9];
        if protocol == PROTOCOL_ICMP && xs.len() < IP_HEADER_LEN + 2 {
            return Err(Error::NotEnoughBytes);
        }
        let payload = if protocol == PROTOCOL_ICMP {
            IpPayload::ICMP { ty: xs[20], code: xs[21] }
        } else {
            IpPayload::Bytes(copy_range(xs, IP_HEADER_LEN, xs.len()))
        };
        Ok(
            IP {
                version_ihl: xs[0],
                tos: xs[1],
                total_length: read_2bytes(xs, 2),
                id: read_2bytes(xs, 4),
                flags_fragment_offset: read_2bytes(xs, 6),
                ttl: xs[8],
                protocol,
                checksum: read_2bytes(xs, 10),
                src: IpAddr::new(read_4bytes(xs, 12)),
                dst: IpAddr::new(read_4bytes(xs, 16)),
                payload,
            },
        )
    }

    pub fn encode(&self) -> (xs: Vec<u8>)
        ensures
            xs@ == spec_encode(self@),
    {
        let mut xs: Vec<u8> = Vec::new();
        xs.push(self.version_ihl);
        xs.push(self.tos);
        assert(xs@ =~= seq![self.version_ihl, self.tos]);
        append_u16(&mut xs, self.total_length);
        append_u16(&mut xs, self.id);
        append_u16(&mut xs, self.flags_fragment_offset);
        let ghost before = xs@;
        xs.push(self.ttl);
        xs.push(self.protocol);
        assert(xs@ =~= before + seq![self.ttl, self.protocol]);
        append_u16(&mut xs, self.checksum);
        append_u32(&mut xs, self.src.value);
        append_u32(&mut xs, self.dst.value);
        let payload = self.payload.to_bytes();
        append_bytes(&mut xs, &payload);
        xs
    }
}

/// A datagram that was read from bytes has the ICMP protocol number exactly
/// when its payload is an ICMP message.
pub proof fn lemma_decoded_datagram_shape(xs: Seq<u8>)
    requires
        spec_decode(xs) is Ok,
    ensures
        datagram_round_trips(spec_decode(xs)->Ok_0),
{
}

/// A datagram made by the constructors reads back from its wire form.
pub proof fn lemma_new_datagram_shape(src: IpAddr, dst: IpAddr, payload: IpPayloadView)
    ensures
        datagram_round_trips(spec_new(src, dst, payload)),
{
}

/// Encoding a datagram and decoding the bytes gives the datagram back,
/// whether it carries plain bytes or an ICMP message.
pub proof fn lemma_encode_decode(ip: IPView)
    requires
        datagram_round_trips(ip),
    ensures
        spec_decode(spec_encode(ip)) == Ok::<IPView, ErrorView>(ip),
{
    let xs = spec_encode(ip);
    lemma_be16_of_bytes(ip.total_length);
    lemma_be16_of_bytes(ip.id);
    lemma_be16_of_bytes(ip.flags_fragment_offset);
    lemma_be16_of_bytes(ip.checksum);
    lemma_be32_of_bytes(ip.src.value);
    lemma_be32_of_bytes(ip.dst.value);
    let tl = bytes_of_u16(ip.total_length);
    let id = bytes_of_u16(ip.id);
    let ff = bytes_of_u16(ip.flags_fragment_offset);
    let ck = bytes_of_u16(ip.checksum);
    let s = bytes_of_u32(ip.src.value);
    let d = bytes_of_u32(ip.dst.value);
    assert(xs.len() == IP_HEADER_LEN + ip.payload.bytes().len());
    assert(xs[0] == ip.version_ihl && xs[1] == ip.tos && xs[8] == ip.ttl && xs[9] == ip.protocol);
    assert(xs[2] == tl[0] && xs[3] == tl[1]);
    assert(xs[4] == id[0] && xs[5] == id[1]);
    assert(xs[6] == ff[0] && xs[7] == ff[1]);
    assert(xs[10] == ck[0] && xs[11] == ck[1]);
    assert(forall|i: int| 0 <= i < 4 ==> xs[12 + i] == s[i]);
    assert(forall|i: int| 0 <= i < 4 ==> xs[16 + i] == d[i]);
    assert(be16(xs, 2) == be16(tl, 0));
    assert(be16(xs, 4) == be16(id, 0));
    assert(be16(xs, 6) == be16(ff, 0));
    assert(be16(xs, 10) == be16(ck, 0));
    assert(be32(xs, 12) == be32(s, 0));
    assert(be32(xs, 16) == be32(d, 0));
    match ip.payload {
        IpPayloadView::Bytes(b) => {
            assert(xs.subrange(IP_HEADER_LEN as int, xs.len() as int) =~= b);
        },
        IpPayloadView::ICMP { ty, code } => {
            assert(xs[20] == ty && xs[21] == code);
        },
    }
}

/// A datagram that was decoded from bytes encodes to bytes that decode to
/// the same datagram.
pub proof fn lemma_decoded_datagram_round_trips(xs: Seq<u8>)
    requires
        spec_decode(xs) is Ok,
    ensures
        spec_decode(spec_encode(spec_decode(xs)->Ok_0)) == spec_decode(xs),
{
    lemma_encode_decode(spec_decode(xs)->Ok_0);
}

} // verus!
