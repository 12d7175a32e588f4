//! Wire codec: the 8-byte packet header, the fixed 512-byte packet buffer
//! with strict sequential-read semantics, and the message-type enumeration.

use vstd::prelude::*;

verus! {

/// Well-known control/rendezvous port that clients first contact.
pub const CONTROL_PORT: u16 = 7835;
/// Largest serialized packet (header + payload) in bytes.
pub const SAFE_MAX_SIZE: usize = 512;
/// Default time-to-live of a connection, in seconds.
pub const CONN_LIFETIME: u8 = 65;

/// Typed failures surfaced by the library; all are recoverable by the caller.
#[derive(Clone, Copy, PartialEq, Eq, Structural, Debug)]
pub enum TunnelError {
    /// Malformed or out-of-order header/payload read.
    FormatError,
    /// Key length mismatch for the chosen cipher, or an empty port range.
    ValidationError,
    /// AEAD encryption/decryption failure, including tag mismatch.
    CryptoError,
    /// No free port found within the allocation attempt budget.
    ResourceExhausted,
    /// Serialized packet would exceed the 512-byte limit.
    OversizeError,
    /// Operation invoked on a connection ID not present in the registry.
    PreconditionError,
}

/// The 8-byte wire header; multi-byte fields are big-endian on the wire.
#[derive(Clone, Copy, PartialEq, Eq, Structural, Debug)]
pub struct Header {
    pub packet_num: u8,
    pub msg_type: u8,
    pub auth_type: u8,
    pub fragment: u8,
    pub conn_id: u16,
    pub data_len: u16,
}

/// Fixed 512-byte packet buffer with a monotonic read cursor.
pub struct BytePacketBuffer {
    pub buf: Vec<u8>,
    pub pos: usize,
}

/// Message type carried in `Header::msg_type`.
#[derive(Clone, Copy, PartialEq, Eq, Structural, Debug)]
pub enum Message {
    SERVERHELLO,
    CLIENTHELLO,
    DATA,
    ERRCODE,
    HEARTBEAT,
}

/// Numeric wire code of each message type; unknown codes decode to `ERRCODE`.
pub open spec fn spec_message_from_num(num: u8) -> Message {
    if num == 1 {
        Message::SERVERHELLO
    } else if num == 2 {
        Message::CLIENTHELLO
    } else if num == 3 {
        Message::DATA
    } else if num == 5 {
        Message::HEARTBEAT
    } else {
        Message::ERRCODE
    }
}

impl Message {
    /// Total mapping from a wire byte to a message type; any value outside
    /// the defined codes falls back to `ERRCODE`.
    pub fn from_num(num: u8) -> (r: Message)
        ensures
            r == spec_message_from_num(num),
    {
        match num {
            1 => Message::SERVERHELLO,
            2 => Message::CLIENTHELLO,
            3 => Message::DATA,
            5 => Message::HEARTBEAT,
            _ => Message::ERRCODE,
        }
    }
}

impl Header {
    /// The exact 8-byte big-endian serialization of this header.
    pub open spec fn spec_bytes(self) -> Seq<u8> {
        seq![
            self.packet_num,
            self.msg_type,
            self.auth_type,
            self.fragment,
            (self.conn_id >> 8) as u8,
            (self.conn_id & 0xFF) as u8,
            (self.data_len >> 8) as u8,
            (self.data_len & 0xFF) as u8,
        ]
    }

    pub fn new(packet_num: u8, msg: u8, auth: u8, frag: u8, id: u16, len: u16) -> (r: Header)
        ensures
            r == (Header {
                packet_num,
                msg_type: msg,
                auth_type: auth,
                fragment: frag,
                conn_id: id,
                data_len: len,
            }),
    {
        Header {
            packet_num,
            msg_type: msg,
            auth_type: auth,
            fragment: frag,
            conn_id: id,
            data_len: len,
        }
    }

    /// Serializes the header fields in wire order; never fails, since every
    /// field is already bounded by its integer width.
    pub fn to_bytes(&self) -> (r: Result<Vec<u8>, TunnelError>)
        ensures
            r matches Ok(v) && v@ == self.spec_bytes(),
    {
        let mut res: Vec<u8> = Vec::new();
        res.push(self.packet_num);
        res.push(self.msg_type);
        res.push(self.auth_type);
        res.push(self.fragment);
        res.push((self.conn_id >> 8) as u8);
        res.push((self.conn_id & 0xFF) as u8);
        res.push((self.data_len >> 8) as u8);
        res.push((self.data_len & 0xFF) as u8);
        proof {
            assert(res@ =~= self.spec_bytes());
        }
        Ok(res)
    }
}

/// The header denoted by the first 8 bytes of a buffer, big-endian fields
/// recombined.
pub open spec fn spec_decoded_header(b: Seq<u8>) -> Header
    recommends
        b.len() >= 8,
{
    Header {
        packet_num: b[0],
        msg_type: b[1],
        auth_type: b[2],
        fragment: b[3],
        conn_id: (b[4] * 256 + b[5]) as u16,
        data_len: (b[6] * 256 + b[7]) as u16,
    }
}

/// Law: decoding the encoding of any header yields the same header
/// (round-trip over the full field ranges).
pub proof fn lemma_header_round_trip(h: Header)
    ensures
        spec_decoded_header(h.spec_bytes()) == h,
{
    lemma_u16_byte_split(h.conn_id);
    lemma_u16_byte_split(h.data_len);
    assert(spec_decoded_header(h.spec_bytes()) == h);
}

/// Splitting a `u16` into its high and low bytes and recombining them
/// big-endian gives the value back.
proof fn lemma_u16_byte_split(x: u16)
    ensures
        (((x >> 8) as u8) * 256 + ((x & 0xFF) as u8)) as u16 == x,
        ((x >> 8) as u8) * 256 + ((x & 0xFF) as u8) <= 0xFFFF,
{
    assert((((x >> 8) as u8) as u16) * 256 + (((x & 0xFF) as u8) as u16) == x) by (bit_vector);
    assert(((x >> 8) as u8) as u16 == ((x >> 8) as u8) as int);
    assert(((x & 0xFF) as u8) as u16 == ((x & 0xFF) as u8) as int);
}

impl BytePacketBuffer {
    /// A buffer is well formed when it holds exactly 512 bytes.
    pub open spec fn wf(self) -> bool {
        self.buf@.len() == 512
    }

    /// A fresh, zero-filled buffer with the cursor at offset 0.
    pub fn new() -> (r: BytePacketBuffer)
        ensures
            r.wf(),
            r.pos == 0,
            forall|i: int| 0 <= i < 512 ==> r.buf@[i] == 0,
    {
        let mut buf: Vec<u8> = Vec::new();
        let mut i: usize = 0;
        while i < 512
            invariant
                buf@.len() == i,
                i <= 512,
                forall|j: int| 0 <= j < i ==> buf@[j] == 0,
            decreases 512 - i,
        {
            buf.push(0);
            i += 1;
        }
        BytePacketBuffer { buf, pos: 0 }
    }

    /// Current read cursor.
    pub fn pos(&self) -> (r: usize)
        ensures
            r == self.pos,
    {
        self.pos
    }

    /// Reads one byte at the cursor and advances it; fails at the end of the
    /// buffer.
    fn read(&mut self) -> (r: Result<u8, TunnelError>)
        requires
            old(self).wf(),
        ensures
            final(self).wf(),
            final(self).buf == old(self).buf,
            old(self).pos < 512 ==> (r matches Ok(b) && b == old(self).buf@[old(self).pos as int]
                && final(self).pos == old(self).pos + 1),
            old(self).pos >= 512 ==> (r matches Err(e) && e == TunnelError::FormatError
                && final(self).pos == old(self).pos),
    {
        if self.pos >= 512 {
            return Err(TunnelError::FormatError);
        }
        let res = self.buf[self.pos];
        self.pos = self.pos + 1;
        Ok(res)
    }

    /// Reads two bytes at the cursor as one big-endian `u16`.
    fn read_u16(&mut self) -> (r: Result<u16, TunnelError>)
        requires
            old(self).wf(),
        ensures
            final(self).wf(),
            final(self).buf == old(self).buf,
            old(self).pos + 2 <= 512 ==> (r matches Ok(v)
                && v == old(self).buf@[old(self).pos as int] * 256
                    + old(self).buf@[old(self).pos + 1]
                && final(self).pos == old(self).pos + 2),
            old(self).pos + 2 > 512 ==> (r matches Err(e) && e == TunnelError::FormatError),
    {
        let hi = match self.read() {
            Ok(b) => b,
            Err(e) => {
                return Err(e);
            },
        };
        let lo = match self.read() {
            Ok(b) => b,
            Err(e) => {
                return Err(e);
            },
        };
        let res = ((hi as u16) << 8) | (lo as u16);
        proof {
            assert(((hi as u16) << 8) | (lo as u16) == (hi as u16) * 256 + (lo as u16))
                by (bit_vector);
        }
        Ok(res)
    }

    /// Consumes the 8-byte header from a buffer whose cursor is still at
    /// offset 0; a cursor anywhere else means the header was already read,
    /// which fails with `FormatError`.
    pub fn read_header(&mut self) -> (r: Result<Header, TunnelError>)
        requires
            old(self).wf(),
        ensures
            final(self).wf(),
            final(self).buf == old(self).buf,
            old(self).pos != 0 ==> (r matches Err(e) && e == TunnelError::FormatError
                && final(self).pos == old(self).pos),
            old(self).pos == 0 ==> (r matches Ok(h) && h == spec_decoded_header(old(self).buf@)
                && final(self).pos == 8),
    {
        if self.pos > 0 {
            Err(TunnelError::FormatError)
        } else {
            let pack_num = match self.read() {
                Ok(b) => b,
                Err(e) => {
                    return Err(e);
                },
            };
            let msg_type = match self.read() {
                Ok(b) => b,
                Err(e) => {
                    return Err(e);
                },
            };
            let auth_type = match self.read() {
                Ok(b) => b,
                Err(e) => {
                    return Err(e);
                },
            };
            let fragment = match self.read() {
                Ok(b) => b,
                Err(e) => {
                    return Err(e);
                },
            };
            let conn_id = match self.read_u16() {
                Ok(v) => v,
                Err(e) => {
                    return Err(e);
                },
            };
            let data_len = match self.read_u16() {
                Ok(v) => v,
                Err(e) => {
                    return Err(e);
                },
            };
            let res = Header::new(pack_num, msg_type, auth_type, fragment, conn_id, data_len);
            Ok(res)
        }
    }

    /// Returns `length` payload bytes immediately following the header.
    /// Valid only with the cursor at offset 8, right after `read_header`;
    /// reading before the header is consumed, reading a second time, or
    /// asking for more bytes than the buffer holds all fail with
    /// `FormatError`.
    pub fn read_data(&mut self, length: u16) -> (r: Result<Vec<u8>, TunnelError>)
        requires
            old(self).wf(),
        ensures
            final(self).wf(),
            final(self).buf == old(self).buf,
            old(self).pos != 8 ==> (r matches Err(e) && e == TunnelError::FormatError
                && final(self).pos == old(self).pos),
            old(self).pos == 8 && 8 + length > 512 ==> (r matches Err(e)
                && e == TunnelError::FormatError && final(self).pos == old(self).pos),
            old(self).pos == 8 && 8 + length <= 512 ==> (r matches Ok(v)
                && v@ == old(self).buf@.subrange(8, 8 + length as int)
                && final(self).pos == 8 + length),
    {
        if self.pos != 8 {
            return Err(TunnelError::FormatError);
        }
        if length > 504 {
            return Err(TunnelError::FormatError);
        }
        let len: usize = length as usize;
        let mut out: Vec<u8> = Vec::new();
        let mut i: usize = 0;
        while i < len
            invariant
                self.wf(),
                self.pos == 8,
                len <= 504,
                i <= len,
                out@.len() == i,
                forall|j: int| 0 <= j < i ==> out@[j] == self.buf@[8 + j],
            decreases len - i,
        {
            out.push(self.buf[8 + i]);
            i += 1;
        }
        proof {
            assert(out@ =~= self.buf@.subrange(8, 8 + length as int));
        }
        self.pos = 8 + len;
        Ok(out)
    }

    /// Copies `data` to the front of the buffer and zero-fills the remainder
    /// up to 512 bytes; fails with `OversizeError` when `data` is longer than
    /// the buffer.
    pub fn write_and_fill(&mut self, data: &[u8]) -> (r: Result<(), TunnelError>)
        requires
            old(self).wf(),
        ensures
            final(self).wf(),
            data@.len() > 512 ==> (r matches Err(e) && e == TunnelError::OversizeError
                && *final(self) == *old(self)),
            data@.len() <= 512 ==> (r is Ok)
                && final(self).pos == old(self).pos
                && (forall|i: int| 0 <= i < data@.len() ==> final(self).buf@[i] == data@[i])
                && (forall|i: int| data@.len() <= i < 512 ==> final(self).buf@[i] == 0),
    {
        if data.len() > 512 {
            return Err(TunnelError::OversizeError);
        }
        let mut nb: Vec<u8> = Vec::new();
        let mut i: usize = 0;
        let dlen = data.len();
        while i < dlen
            invariant
                dlen == data@.len(),
                dlen <= 512,
                i <= dlen,
                nb@.len() == i,
                forall|j: int| 0 <= j < i ==> nb@[j] == data@[j],
            decreases dlen - i,
        {
            nb.push(data[i]);
            i += 1;
        }
        while i < 512
            invariant
                dlen == data@.len(),
                dlen <= i,
                i <= 512,
                nb@.len() == i,
                forall|j: int| 0 <= j < dlen ==> nb@[j] == data@[j],
                forall|j: int| dlen <= j < i ==> nb@[j] == 0,
            decreases 512 - i,
        {
            nb.push(0);
            i += 1;
        }
        self.buf = nb;
        Ok(())
    }
}

} // verus!
