//! The segment of the stream transport and its wire format: a 20-byte
//! header and the payload. What a segment means is read from its flags.
use vstd::prelude::*;
use crate::types::{Error, ErrorView, Res, TPort};
use crate::utils::{
    append_bytes, append_u16, append_u32, be16, be32, bytes_of_u16, bytes_of_u32, copy_range,
    lemma_be16_of_bytes, lemma_be32_of_bytes, read_2bytes, read_4bytes,
};

verus! {

/// The bytes of a segment before its payload.
pub const TCP_HEADER_LEN: usize = 20;

pub const FLAGS_SYN: u8 = 0x02;

pub const FLAGS_SYNACK: u8 = 0x12;

pub const FLAGS_ACK: u8 = 0x10;

pub const FLAGS_FIN: u8 = 0x01;

pub const FLAGS_FINACK: u8 = 0x11;

/// What a segment is, as its flags say.
#[derive(Debug, Clone, Copy, PartialEq, Eq, Structural)]
pub enum TcpContent {
    Syn,
    SynAck,
    Ack,
    Fin,
    FinAck,
    Data,
}

/// The content that a flags byte stands for. Every value other than the
/// five control patterns marks a data segment.
pub open spec fn spec_classify(flags: u8) -> TcpContent {
    if flags == FLAGS_SYN {
        TcpContent::Syn
    } else if flags == FLAGS_SYNACK {
        TcpContent::SynAck
    } else if flags == FLAGS_ACK {
        TcpContent::Ack
    } else if flags == FLAGS_FIN {
        TcpContent::Fin
    } else if flags == FLAGS_FINACK {
        TcpContent::FinAck
    } else {
        TcpContent::Data
    }
}

/// The content that a flags byte stands for.
pub fn classify(flags: u8) -> (c: TcpContent)
    ensures
        c == spec_classify(flags),
{
    if flags == FLAGS_SYN {
        TcpContent::Syn
    } else if flags == FLAGS_SYNACK {
        TcpContent::SynAck
    } else if flags == FLAGS_ACK {
        TcpContent::Ack
    } else if flags == FLAGS_FIN {
        TcpContent::Fin
    } else if flags == FLAGS_FINACK {
        TcpContent::FinAck
    } else {
        TcpContent::Data
    }
}

#[derive(Debug, PartialEq, Eq)]
pub struct TCP {
    pub src: TPort,
    pub dst: TPort,
    pub seq: u32,
    pub ack: u32,
    pub data_offset: u8,
    pub flags: u8,
    pub window: u16,
    pub checksum: u16,
    pub urgent_ptr: u16,
    pub payload: Vec<u8>,
    pub content: TcpContent,
}

pub struct TCPView {
    pub src: TPort,
    pub dst: TPort,
    pub seq: u32,
    pub ack: u32,
    pub data_offset: u8,
    pub flags: u8,
    pub window: u16,
    pub checksum: u16,
    pub urgent_ptr: u16,
    pub payload: Seq<u8>,
    pub content: TcpContent,
}

impl View for TCP {
    type V = TCPView;

    open spec fn view(&self) -> TCPView {
        TCPView {
            src: self.src,
            dst: self.dst,
            seq: self.seq,
            ack: self.ack,
            data_offset: self.data_offset,
            flags: self.flags,
            window: self.window,
            checksum: self.checksum,
            urgent_ptr: self.urgent_ptr,
            payload: self.payload@,
            content: self.content,
        }
    }
}

impl Clone for TCP {
    fn clone(&self) -> (r: TCP)
        ensures
            r@ == self@,
    {
        TCP {
            src: self.src,
            dst: self.dst,
            seq: self.seq,
            ack: self.ack,
            data_offset: self.data_offset,
            flags: self.flags,
            window: self.window,
            checksum: self.checksum,
            urgent_ptr: self.urgent_ptr,
            payload: self.payload.clone(),
            content: self.content,
        }
    }
}

/// A segment with the given flags, content and payload, and zero in every
/// header field that the constructors do not set.
pub open spec fn spec_segment(
    src: TPort,
    dst: TPort,
    seq: u32,
    ack: u32,
    flags: u8,
    payload: Seq<u8>,
    content: TcpContent,
) -> TCPView {
    TCPView {
        src,
        dst,
        seq,
        ack,
        data_offset: 0,
        flags,
        window: 0,
        checksum: 0,
        urgent_ptr: 0,
        payload,
        content,
    }
}

/// The wire form of a segment. The data offset takes the high four bits of
/// its byte.
pub open spec fn spec_encode(tcp: TCPView) -> Seq<u8> {
    bytes_of_u16(tcp.src.value) + bytes_of_u16(tcp.dst.value) + bytes_of_u32(tcp.seq)
        + bytes_of_u32(tcp.ack) + seq![((tcp.data_offset as int * 16) % 0x100) as u8, tcp.flags]
        + bytes_of_u16(tcp.window) + bytes_of_u16(tcp.checksum) + bytes_of_u16(tcp.urgent_ptr)
        + tcp.payload
}

/// The segment that `xs` holds, if `xs` has the 20 bytes of a header. The
/// payload is all that follows the header.
pub open spec fn spec_decode(xs: Seq<u8>) -> Result<TCPView, ErrorView> {
    if xs.len() < TCP_HEADER_LEN {
        Err(ErrorView::NotEnoughBytes)
    } else {
        Ok(
            TCPView {
                src: TPort { value: be16(xs, 0) },
                dst: TPort { value: be16(xs, 2) },
                seq: be32(xs, 4),
                ack: be32(xs, 8),
                data_offset: xs[12] / 16,
                flags: xs[13],
                window: be16(xs, 14),
                checksum: be16(xs, 16),
                urgent_ptr: be16(xs, 18),
                payload: xs.subrange(TCP_HEADER_LEN as int, xs.len() as int),
                content: spec_classify(xs[13]),
            },
        )
    }
}

/// The segments whose wire form reads back as the same segment: the data
/// offset fits in four bits and the content is what the flags say.
pub open spec fn segment_round_trips(tcp: TCPView) -> bool {
    tcp.data_offset < 16 && tcp.content == spec_classify(tcp.flags)
}

impl TCP {
    fn make(
        src: TPort,
        dst: TPort,
        seq: u32,
        ack: u32,
        flags: u8,
        payload: Vec<u8>,
        content: TcpContent,
    ) -> (tcp: TCP)
        ensures
            tcp@ == spec_segment(src, dst, seq, ack, flags, payload@, content),
    {
        TCP {
            src,
            dst,
            seq,
            ack,
            data_offset: 0,
            flags,
            window: 0,
            checksum: 0,
            urgent_ptr: 0,
            payload,
            content,
        }
    }

    /// A data segment with the given flags and payload.
    pub fn new_data(src: TPort, dst: TPort, seq: u32, ack: u32, flags: u8, payload: Vec<u8>) -> (tcp:
        TCP)
        ensures
            tcp@ == spec_segment(src, dst, seq, ack, flags, payload@, TcpContent::Data),
    {
        TCP::make(src, dst, seq, ack, flags, payload, TcpContent::Data)
    }

    pub fn new_syn(src: TPort, dst: TPort, seq: u32) -> (tcp: TCP)
        ensures
            tcp@ == spec_segment(src, dst, seq, 0, FLAGS_SYN, Seq::empty(), TcpContent::Syn),
    {
        TCP::make(src, dst, seq, 0, FLAGS_SYN, Vec::new(), TcpContent::Syn)
    }

    pub fn new_ack(src: TPort, dst: TPort, seq: u32, ack: u32) -> (tcp: TCP)
        ensures
            tcp@ == spec_segment(src, dst, seq, ack, FLAGS_ACK, Seq::empty(), TcpContent::Ack),
    {
        TCP::make(src, dst, seq, ack, FLAGS_ACK, Vec::new(), TcpContent::Ack)
    }

    pub fn new_synack(src: TPort, dst: TPort, seq: u32) -> (tcp: TCP)
        ensures
            tcp@ == spec_segment(src, dst, seq, 0, FLAGS_SYNACK, Seq::empty(), TcpContent::SynAck),
    {
        TCP::make(src, dst, seq, 0, FLAGS_SYNACK, Vec::new(), TcpContent::SynAck)
    }

    pub fn new_fin(src: TPort, dst: TPort, seq: u32, ack: u32) -> (tcp: TCP)
        ensures
            tcp@ == spec_segment(src, dst, seq, ack, FLAGS_FIN, Seq::empty(), TcpContent::Fin),
    {
        TCP::make(src, dst, seq, ack, FLAGS_FIN, Vec::new(), TcpContent::Fin)
    }

    pub fn new_finack(src: TPort, dst: TPort, seq: u32, ack: u32) -> (tcp: TCP)
        ensures
            tcp@ == spec_segment(src, dst, seq, ack, FLAGS_FINACK, Seq::empty(), TcpContent::FinAck),
    {
        TCP::make(src, dst, seq, ack, FLAGS_FINACK, Vec::new(), TcpContent::FinAck)
    }

    pub fn decode(bytes: &Vec<u8>) -> (r: Res<TCP>)
        ensures
            match spec_decode(bytes@) {
                Ok(tcp) => r matches Ok(got) && got@ == tcp,
                Err(e) => r matches Err(got) && got@ == e,
            },
    {
        if bytes.len() < TCP_HEADER_LEN {
            return Err(Error::NotEnoughBytes);
        }
        let b: u8 = bytes[12];
        assert(b >> 4 == b / 16) by (bit_vector);
        let flags = bytes[13];
        Ok(
            TCP {
                src: TPort::new(read_2bytes(bytes, 0)),
                dst: TPort::new(read_2bytes(bytes, 2)),
                seq: read_4bytes(bytes, 4),
                ack: read_4bytes(bytes, 8),
                data_offset: b >> 4,
                flags,
                window: read_2bytes(bytes, 14),
                checksum: read_2bytes(bytes, 16),
                urgent_ptr: read_2bytes(bytes, 18),
                payload: copy_range(bytes, TCP_HEADER_LEN, bytes.len()),
                content: classify(flags),
            },
        )
    }

    pub fn encode(&self) -> (bytes: Vec<u8>)
        ensures
            bytes@ == spec_encode(self@),
    {
        let mut bytes: Vec<u8> = Vec::new();
        assert(bytes@ + bytes_of_u16(self.src.value) =~= bytes_of_u16(self.src.value));
        append_u16(&mut bytes, self.src.value);
        append_u16(&mut bytes, self.dst.value);
        append_u32(&mut bytes, self.seq);
        append_u32(&mut bytes, self.ack);
        let d: u8 = self.data_offset;
        assert(d << 4 == (d as int * 16) % 0x100) by {
            assert(d << 4 == ((d as u16 * 16) % 0x100) as u8) by (bit_vector);
        }
        let ghost before = bytes@;
        bytes.push(d << 4);
        bytes.push(self.flags);
        assert(bytes@ =~= before + seq![((d as int * 16) % 0x100) as u8, self.flags]);
        append_u16(&mut bytes, self.window);
        append_u16(&mut bytes, self.checksum);
        append_u16(&mut bytes, self.urgent_ptr);
        append_bytes(&mut bytes, &self.payload);
        bytes
    }
}

/// A segment that was read from bytes has a data offset below 16 and the
/// content that its flags stand for.
pub proof fn lemma_decoded_segment_shape(xs: Seq<u8>)
    requires
        spec_decode(xs) is Ok,
    ensures
        segment_round_trips(spec_decode(xs)->Ok_0),
{
}

/// Where the fields of a header lie in the concatenation that makes it.
proof fn lemma_field_offsets(
    sp: Seq<u8>,
    dp: Seq<u8>,
    sq: Seq<u8>,
    ak: Seq<u8>,
    off: u8,
    flags: u8,
    wn: Seq<u8>,
    ck: Seq<u8>,
    up: Seq<u8>,
    payload: Seq<u8>,
)
    requires
        sp.len() == 2,
        dp.len() == 2,
        sq.len() == 4,
        ak.len() == 4,
        wn.len() == 2,
        ck.len() == 2,
        up.len() == 2,
    ensures
        ({
            let xs = sp + dp + sq + ak + seq![off, flags] + wn + ck + up + payload;
            &&& xs.len() == TCP_HEADER_LEN + payload.len()
            &&& be16(xs, 0) == be16(sp, 0)
            &&& be16(xs, 2) == be16(dp, 0)
            &&& be32(xs, 4) == be32(sq, 0)
            &&& be32(xs, 8) == be32(ak, 0)
            &&& xs[12] == off
            &&& xs[13] == flags
            &&& be16(xs, 14) == be16(wn, 0)
            &&& be16(xs, 16) == be16(ck, 0)
            &&& be16(xs, 18) == be16(up, 0)
            &&& xs.subrange(TCP_HEADER_LEN as int, xs.len() as int) == payload
        }),
{
    let xs = sp + dp + sq + ak + seq![off, flags] + wn + ck + up + payload;
    assert(xs[0] == sp[0] && xs[1] == sp[1]);
    assert(xs[2] == dp[0] && xs[3] == dp[1]);
    assert(forall|i: int| 0 <= i < 4 ==> xs[4 + i] == sq[i]);
    assert(forall|i: int| 0 <= i < 4 ==> xs[8 + i] == ak[i]);
    assert(xs[14] == wn[0] && xs[15] == wn[1]);
    assert(xs[16] == ck[0] && xs[17] == ck[1]);
    assert(xs[18] == up[0] && xs[19] == up[1]);
    assert(xs.subrange(TCP_HEADER_LEN as int, xs.len() as int) =~= payload);
}

/// Encoding a segment and decoding the bytes gives the segment back, for
/// every segment whose data offset fits in four bits and whose content is
/// what its flags say.
pub proof fn lemma_encode_decode(tcp: TCPView)
    requires
        segment_round_trips(tcp),
    ensures
        spec_decode(spec_encode(tcp)) == Ok::<TCPView, ErrorView>(tcp),
{
    lemma_be16_of_bytes(tcp.src.value);
    lemma_be16_of_bytes(tcp.dst.value);
    lemma_be32_of_bytes(tcp.seq);
    lemma_be32_of_bytes(tcp.ack);
    lemma_be16_of_bytes(tcp.window);
    lemma_be16_of_bytes(tcp.checksum);
    lemma_be16_of_bytes(tcp.urgent_ptr);
    let off = ((tcp.data_offset as int * 16) % 0x100) as u8;
    assert(off / 16 == tcp.data_offset);
    lemma_field_offsets(
        bytes_of_u16(tcp.src.value),
        bytes_of_u16(tcp.dst.value),
        bytes_of_u32(tcp.seq),
        bytes_of_u32(tcp.ack),
        off,
        tcp.flags,
        bytes_of_u16(tcp.window),
        bytes_of_u16(tcp.checksum),
        bytes_of_u16(tcp.urgent_ptr),
        tcp.payload,
    );
}

/// A segment that was decoded from bytes encodes to bytes that decode to
/// the same segment.
pub proof fn lemma_decoded_segment_round_trips(xs: Seq<u8>)
    requires
        spec_decode(xs) is Ok,
    ensures
        spec_decode(spec_encode(spec_decode(xs)->Ok_0)) == spec_decode(xs),
{
    lemma_encode_decode(spec_decode(xs)->Ok_0);
}

} // verus!
