//! The Ethernet frame and its wire format: an eight-byte preamble, the
//! destination and source addresses, a two-byte type or length, the payload.
use vstd::prelude::*;
use crate::types::{Error, ErrorView, Mac, Res, invalid_bytes};
use crate::utils::{
    append_bytes, be16, be48, bytes_of_u16, bytes_of_u48, copy_range, lemma_be16_of_bytes,
    lemma_be48_of_bytes, lemma_bytes_of_be48, read_2bytes, read_6bytes, split_2bytes, split_6bytes,
};

verus! {

/// The value of the reserved destination that every device accepts.
pub const MAC_BROADCAST_VALUE: u64 = 0xFFFF_FFFF_FFFF;

/// The reserved destination that every device accepts.
pub open spec fn spec_mac_broadcast() -> Mac {
    Mac { value: MAC_BROADCAST_VALUE }
}

/// The reserved destination that every device accepts.
#[verifier::when_used_as_spec(spec_mac_broadcast)]
pub fn mac_broadcast() -> (m: Mac)
    ensures
        m == spec_mac_broadcast(),
{
    Mac { value: MAC_BROADCAST_VALUE }
}

/// The type value of a frame that carries an IPv4 datagram.
pub const ETHERTYPE_IPV4: u16 = 0x0800;

/// The type value of a frame that carries an ARP packet.
pub const ETHERTYPE_ARP: u16 = 0x0806;

/// The largest value of the type field that is read as a payload length.
pub const MAX_LENGTH_FIELD: u16 = 0x05DC;

/// The bytes of a frame before its payload.
pub const HEADER_LEN: usize = 22;

#[derive(Debug, PartialEq)]
pub struct EthernetFrame {
    pub dst: Mac,
    pub src: Mac,
    pub ethertype: u16,
    pub payload: Vec<u8>,
}

/// A frame with its payload as a sequence of bytes.
pub struct EthernetFrameView {
    pub dst: Mac,
    pub src: Mac,
    pub ethertype: u16,
    pub payload: Seq<u8>,
}

impl View for EthernetFrame {
    type V = EthernetFrameView;

    open spec fn view(&self) -> EthernetFrameView {
        EthernetFrameView {
            dst: self.dst,
            src: self.src,
            ethertype: self.ethertype,
            payload: self.payload@,
        }
    }
}

impl Clone for EthernetFrame {
    fn clone(&self) -> (r: EthernetFrame)
        ensures
            r@ == self@,
    {
        EthernetFrame {
            dst: self.dst,
            src: self.src,
            ethertype: self.ethertype,
            payload: self.payload.clone(),
        }
    }
}

/// The eight bytes that every frame starts with.
pub open spec fn preamble() -> Seq<u8> {
    seq![0xAAu8, 0xAAu8, 0xAAu8, 0xAAu8, 0xAAu8, 0xAAu8, 0xAAu8, 0xABu8]
}

/// The wire form of a frame.
pub open spec fn spec_encode(f: EthernetFrameView) -> Seq<u8> {
    preamble() + bytes_of_u48(f.dst.value) + bytes_of_u48(f.src.value) + bytes_of_u16(f.ethertype)
        + f.payload
}

/// The payload length that the header of `xs` announces. `xs` holds at least
/// the 22 header bytes.
pub open spec fn spec_payload_len(xs: Seq<u8>) -> Result<nat, ErrorView> {
    let ty = be16(xs, 20);
    if ty == ETHERTYPE_IPV4 {
        if xs.len() < HEADER_LEN + 4 {
            Err(ErrorView::NotEnoughBytes)
        } else {
            Ok(be16(xs, 24) as nat)
        }
    } else if ty == ETHERTYPE_ARP {
        Ok(24nat)
    } else if ty <= MAX_LENGTH_FIELD {
        Ok(ty as nat)
    } else {
        Err(ErrorView::InvalidBytes { msg: "unsupported ethernet type"@ })
    }
}

/// The frame at the start of `xs`, or the reason why there is none.
pub open spec fn spec_decode(xs: Seq<u8>) -> Result<EthernetFrameView, ErrorView> {
    if xs.len() < HEADER_LEN {
        Err(ErrorView::NotEnoughBytes)
    } else if xs.subrange(0, 8) != preamble() {
        Err(ErrorView::InvalidBytes { msg: "bad preamble"@ })
    } else {
        match spec_payload_len(xs) {
            Err(e) => Err(e),
            Ok(len) => if xs.len() < HEADER_LEN + len {
                Err(ErrorView::NotEnoughBytes)
            } else {
                Ok(
                    EthernetFrameView {
                        dst: Mac { value: be48(xs, 8) },
                        src: Mac { value: be48(xs, 14) },
                        ethertype: be16(xs, 20),
                        payload: xs.subrange(HEADER_LEN as int, HEADER_LEN + len),
                    },
                )
            },
        }
    }
}

/// The frames whose wire form reads back as the same frame: both addresses
/// fit in 48 bits, and the payload is as long as the type field says.
pub open spec fn frame_round_trips(f: EthernetFrameView) -> bool {
    &&& f.dst.value < 0x1_0000_0000_0000
    &&& f.src.value < 0x1_0000_0000_0000
    &&& if f.ethertype == ETHERTYPE_IPV4 {
        f.payload.len() >= 4 && be16(f.payload, 2) == f.payload.len()
    } else if f.ethertype == ETHERTYPE_ARP {
        f.payload.len() == 24
    } else {
        f.ethertype <= MAX_LENGTH_FIELD && f.payload.len() == f.ethertype
    }
}

impl EthernetFrame {
    pub fn new(dst: Mac, src: Mac, ethertype: u16, payload: Vec<u8>) -> (f: EthernetFrame)
        ensures
            f@ == (EthernetFrameView { dst, src, ethertype, payload: payload@ }),
    {
        EthernetFrame { dst, src, ethertype, payload }
    }

    /// Whether the frame is addressed to every device.
    pub fn is_bloadcast(&self) -> (b: bool)
        ensures
            b == (self.dst == mac_broadcast()),
    {
        self.dst.value == MAC_BROADCAST_VALUE
    }

    /// Reads the frame at the start of `xs`. Bytes after the frame are
    /// ignored.
    pub fn decode(xs: &Vec<u8>) -> (r: Res<EthernetFrame>)
        ensures
            match spec_decode(xs@) {
                Ok(f) => r matches Ok(g) && g@ == f,
                Err(e) => r matches Err(g) && g@ == e,
            },
    {
        if xs.len() < HEADER_LEN {
            return Err(Error::NotEnoughBytes);
        }
        let good = xs[0] == 0xAA && xs[1] == 0xAA && xs[2] == 0xAA && xs[3] == 0xAA && xs[4] == 0xAA
            && xs[5] == 0xAA && xs[6] == 0xAA && xs[7] == 0xAB;
        assert(good == (xs@.subrange(0, 8) == preamble())) by {
            if good {
                assert(xs@.subrange(0, 8) =~= preamble());
            } else {
                let p = xs@.subrange(0, 8);
                assert(p[0] == xs[0] && p[1] == xs[1] && p[2] == xs[2] && p[3] == xs[3] && p[4]
                    == xs[4] && p[5] == xs[5] && p[6] == xs[6] && p[7] == xs[7]);
            }
        }
        if !good {
            return Err(invalid_bytes("bad preamble"));
        }
        let dst = Mac::new(read_6bytes(xs, 8));
        let src = Mac::new(read_6bytes(xs, 14));
        let ty = read_2bytes(xs, 20);
        let len: usize = if ty == ETHERTYPE_IPV4 {
            if xs.len() < HEADER_LEN + 4 {
                return Err(Error::NotEnoughBytes);
            }
            read_2bytes(xs, 24) as usize
        } else if ty == ETHERTYPE_ARP {
            24
        } else if ty <= MAX_LENGTH_FIELD {
            ty as usize
        } else {
            return Err(invalid_bytes("unsupported ethernet type"));
        };
        if xs.len() - HEADER_LEN < len {
            return Err(Error::NotEnoughBytes);
        }
        let payload = copy_range(xs, HEADER_LEN, HEADER_LEN + len);
        Ok(EthernetFrame { dst, src, ethertype: ty, payload })
    }

    /// The wire form of `frame`.
    pub fn encode(frame: &EthernetFrame) -> (xs: Vec<u8>)
        ensures
            xs@ == spec_encode(frame@),
    {
        let et = split_2bytes(frame.ethertype);
        let dst = split_6bytes(frame.dst.value);
        let src = split_6bytes(frame.src.value);
        let mut xs: Vec<u8> = vec![
            0xAA,
            0xAA,
            0xAA,
            0xAA,
            0xAA,
            0xAA,
            0xAA,
            0xAB,
            dst[0],
            dst[1],
            dst[2],
            dst[3],
            dst[4],
            dst[5],
            src[0],
            src[1],
            src[2],
            src[3],
            src[4],
            src[5],
            et[0],
            et[1],
        ];
        assert(xs@ =~= preamble() + bytes_of_u48(frame.dst.value) + bytes_of_u48(frame.src.value)
            + bytes_of_u16(frame.ethertype));
        append_bytes(&mut xs, &frame.payload);
        xs
    }
}

/// A frame that was read from bytes has addresses below 2^48 and a payload
/// of the length that its type field gives.
pub proof fn lemma_decoded_frame_shape(xs: Seq<u8>)
    requires
        spec_decode(xs) is Ok,
    ensures
        ({
            let f = spec_decode(xs)->Ok_0;
            &&& f.dst.value < 0x1_0000_0000_0000
            &&& f.src.value < 0x1_0000_0000_0000
            &&& f.payload.len() <= 0xFFFF
            &&& f.ethertype == ETHERTYPE_IPV4 || f.ethertype == ETHERTYPE_ARP || f.ethertype
                <= MAX_LENGTH_FIELD
            &&& f.ethertype == ETHERTYPE_ARP ==> f.payload.len() == 24
            &&& f.ethertype <= MAX_LENGTH_FIELD ==> f.payload.len() == f.ethertype
            &&& f.ethertype == ETHERTYPE_IPV4 && f.payload.len() >= 4 ==> be16(f.payload, 2)
                == f.payload.len()
        }),
{
    lemma_bytes_of_be48(xs, 8);
    lemma_bytes_of_be48(xs, 14);
}

/// Where the fields of a frame lie in the concatenation that makes it.
proof fn lemma_field_offsets(d: Seq<u8>, s: Seq<u8>, e: Seq<u8>, payload: Seq<u8>)
    requires
        d.len() == 6,
        s.len() == 6,
        e.len() == 2,
    ensures
        ({
            let xs = preamble() + d + s + e + payload;
            &&& xs.len() == HEADER_LEN + payload.len()
            &&& xs.subrange(0, 8) == preamble()
            &&& be48(xs, 8) == be48(d, 0)
            &&& be48(xs, 14) == be48(s, 0)
            &&& be16(xs, 20) == be16(e, 0)
            &&& payload.len() >= 4 ==> be16(xs, 24) == be16(payload, 2)
            &&& xs.subrange(HEADER_LEN as int, HEADER_LEN + payload.len()) == payload
        }),
{
    let xs = preamble() + d + s + e + payload;
    assert(xs.subrange(0, 8) =~= preamble());
    assert(forall|i: int| 0 <= i < 6 ==> xs[8 + i] == d[i]);
    assert(forall|i: int| 0 <= i < 6 ==> xs[14 + i] == s[i]);
    assert(xs[20] == e[0] && xs[21] == e[1]);
    if payload.len() >= 4 {
        assert(xs[24] == payload[2] && xs[25] == payload[3]);
    }
    assert(xs.subrange(HEADER_LEN as int, HEADER_LEN + payload.len()) =~= payload);
}

/// Encoding a frame and decoding the bytes gives the frame back, for every
/// frame whose addresses fit in 48 bits and whose payload is as long as its
/// type field says.
pub proof fn lemma_encode_decode(f: EthernetFrameView)
    requires
        frame_round_trips(f),
    ensures
        spec_decode(spec_encode(f)) == Ok::<EthernetFrameView, ErrorView>(f),
{
    let dv = f.dst.value;
    let sv = f.src.value;
    assert(dv < 0x1_0000_0000_0000 ==> dv % 0x1_0000_0000_0000 == dv) by (bit_vector);
    assert(sv < 0x1_0000_0000_0000 ==> sv % 0x1_0000_0000_0000 == sv) by (bit_vector);
    lemma_be48_of_bytes(f.dst.value);
    lemma_be48_of_bytes(f.src.value);
    lemma_be16_of_bytes(f.ethertype);
    lemma_field_offsets(
        bytes_of_u48(f.dst.value),
        bytes_of_u48(f.src.value),
        bytes_of_u16(f.ethertype),
        f.payload,
    );
}

/// A frame that was decoded from bytes encodes to bytes that decode to the
/// same frame. The one exception is left out: an IPv4 frame whose length
/// field announces fewer than the four bytes that hold that field.
pub proof fn lemma_decoded_frame_round_trips(xs: Seq<u8>)
    requires
        spec_decode(xs) is Ok,
        !(spec_decode(xs)->Ok_0.ethertype == ETHERTYPE_IPV4 && spec_decode(xs)->Ok_0.payload.len()
            < 4),
    ensures
        spec_decode(spec_encode(spec_decode(xs)->Ok_0)) == spec_decode(xs),
{
    lemma_decoded_frame_shape(xs);
    lemma_encode_decode(spec_decode(xs)->Ok_0);
}

} // verus!
