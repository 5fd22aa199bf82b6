//! Frame codec for the accessory's wire protocol.
//!
//! One frame is `[0xAA][length][commandCode][payload...][checksumHi][checksumLo]`
//! where `length == payload.len() + 1` and the checksum is the low 16 bits of
//! `0x2019` plus the sum of every preceding byte of the frame.

use vstd::prelude::*;
use vstd::slice::{slice_subrange, slice_to_vec};
use crate::error::EdifierError;

verus! {

/// The fixed first byte of every frame.
pub const FRAME_SIGNATURE: u8 = 0xAA;

/// Constant offset folded into every checksum.
pub const CHECKSUM_OFFSET: u16 = 0x2019;

/// A frame is at least signature, length, command code and two checksum bytes.
pub const MIN_FRAME_LEN: usize = 5;

/// The longest payload whose length still fits the one-byte length field
/// (`length == payload.len() + 1` must stay below 256).
pub const MAX_PAYLOAD_LEN: usize = 254;

/// Sum of a byte sequence as an unbounded integer.
pub open spec fn byte_sum(s: Seq<u8>) -> int
    decreases s.len(),
{
    if s.len() == 0 {
        0
    } else {
        byte_sum(s.drop_last()) + s.last()
    }
}

/// The checksum of a frame prefix: low 16 bits of the offset plus the byte sum.
pub open spec fn spec_checksum(s: Seq<u8>) -> u16 {
    (((CHECKSUM_OFFSET as int) + byte_sum(s)) % 0x10000) as u16
}

/// Everything of a frame that precedes the checksum trailer.
pub open spec fn frame_body(code: u8, payload: Seq<u8>) -> Seq<u8> {
    seq![FRAME_SIGNATURE, (payload.len() + 1) as u8, code] + payload
}

/// The full wire encoding of a request or response.
pub open spec fn spec_frame(code: u8, payload: Seq<u8>) -> Seq<u8> {
    frame_body(code, payload) + seq![
        (spec_checksum(frame_body(code, payload)) / 256) as u8,
        (spec_checksum(frame_body(code, payload)) % 256) as u8,
    ]
}

/// A received buffer is structurally sound: long enough for the fixed fields
/// and with a length field that matches the buffer size.
pub open spec fn frame_len_ok(s: Seq<u8>) -> bool {
    s.len() >= MIN_FRAME_LEN && s[1] as int == s.len() - 4
}

/// The command code carried by a frame.
pub open spec fn frame_code(s: Seq<u8>) -> u8 {
    s[2]
}

/// The payload region of a frame: everything between the header and the
/// checksum trailer.
pub open spec fn frame_payload(s: Seq<u8>) -> Seq<u8> {
    s.subrange(3, s.len() - 2)
}

/// The big-endian checksum field at the end of a frame.
pub open spec fn frame_checksum_field(s: Seq<u8>) -> int {
    s[s.len() - 2] * 256 + s[s.len() - 1]
}

/// Computes the protocol checksum over `data`: the low 16 bits of
/// `0x2019 + sum of all bytes`.
pub fn compute_crc(data: &[u8]) -> (crc: u16)
    ensures
        crc == spec_checksum(data@),
{
    let mut total: u32 = 0;
    let mut i: usize = 0;
    while i < data.len()
        invariant
            i <= data@.len(),
            total < 0x10000,
            total as int == byte_sum(data@.take(i as int)) % 0x10000,
        decreases data@.len() - i,
    {
        proof {
            assert(data@.take(i + 1).drop_last() =~= data@.take(i as int));
            assert(data@.take(i + 1).last() == data@[i as int]);
            vstd::arithmetic::div_mod::lemma_add_mod_noop(
                byte_sum(data@.take(i as int)),
                data@[i as int] as int,
                0x10000,
            );
        }
        total = (total + data[i] as u32) % 0x10000;
        i = i + 1;
    }
    proof {
        assert(data@.take(data@.len() as int) =~= data@);
        vstd::arithmetic::div_mod::lemma_add_mod_noop(
            CHECKSUM_OFFSET as int,
            byte_sum(data@),
            0x10000,
        );
    }
    ((CHECKSUM_OFFSET as u32 + total) % 0x10000) as u16
}

/// Splits a 16-bit value into its big-endian byte pair.
pub fn split_into_bytes(value: u16) -> (r: [u8; 2])
    ensures
        r@ == seq![(value / 256) as u8, (value % 256) as u8],
{
    let r = [(value / 256) as u8, (value % 256) as u8];
    proof {
        assert(r@ =~= seq![(value / 256) as u8, (value % 256) as u8]);
    }
    r
}

/// One complete protocol message, request or response, in wire form.
#[derive(Debug)]
pub struct EdifierMessage {
    bytes: Vec<u8>,
}

impl View for EdifierMessage {
    type V = Seq<u8>;

    closed spec fn view(&self) -> Seq<u8> {
        self.bytes@
    }
}

impl PartialEq for EdifierMessage {
    fn eq(&self, other: &EdifierMessage) -> (r: bool) {
        let mut i: usize = 0;
        if self.bytes.len() != other.bytes.len() {
            return false;
        }
        while i < self.bytes.len()
            invariant
                i <= self@.len(),
                self@.len() == other@.len(),
                forall|j: int| 0 <= j < i ==> self@[j] == other@[j],
            decreases self@.len() - i,
        {
            if self.bytes[i] != other.bytes[i] {
                return false;
            }
            i = i + 1;
        }
        proof {
            assert(self@ =~= other@);
        }
        true
    }
}

impl Eq for EdifierMessage {}

impl vstd::std_specs::cmp::PartialEqSpecImpl for EdifierMessage {
    open spec fn obeys_eq_spec() -> bool {
        true
    }

    open spec fn eq_spec(&self, other: &EdifierMessage) -> bool {
        self@ == other@
    }
}

impl EdifierMessage {
    /// Encodes a request or response frame: header, payload, checksum trailer.
    pub fn new(command_code: u8, payload: Option<&[u8]>) -> (msg: EdifierMessage)
        requires
            payload matches Some(p) ==> p@.len() <= MAX_PAYLOAD_LEN,
        ensures
            msg@ == spec_frame(command_code, spec_payload_bytes(payload)),
    {
        let ghost pl = spec_payload_bytes(payload);
        let mut bytes: Vec<u8> = Vec::new();
        let length: usize = match payload {
            Some(p) => p.len(),
            None => 0,
        };
        bytes.push(FRAME_SIGNATURE);
        bytes.push((length + 1) as u8);
        bytes.push(command_code);
        if let Some(p) = payload {
            let mut i: usize = 0;
            while i < p.len()
                invariant
                    i <= p@.len(),
                    bytes@ == seq![
                        FRAME_SIGNATURE,
                        (p@.len() + 1) as u8,
                        command_code,
                    ] + p@.take(i as int),
                decreases p@.len() - i,
            {
                bytes.push(p[i]);
                proof {
                    assert(p@.take(i + 1) =~= p@.take(i as int).push(p@[i as int]));
                }
                i = i + 1;
            }
            proof {
                assert(p@.take(p@.len() as int) =~= p@);
            }
        }
        proof {
            assert(bytes@ =~= frame_body(command_code, pl));
        }
        let crc = compute_crc(bytes.as_slice());
        let crc_bytes = split_into_bytes(crc);
        bytes.push(crc_bytes[0]);
        bytes.push(crc_bytes[1]);
        proof {
            assert(bytes@ =~= spec_frame(command_code, pl));
        }
        EdifierMessage { bytes }
    }

    /// Parses a received buffer into a message, rejecting one whose size or
    /// length field is inconsistent.
    pub fn decode(raw: Vec<u8>) -> (r: Result<EdifierMessage, EdifierError>)
        ensures
            frame_len_ok(raw@) ==> (r matches Ok(m) && m@ == raw@),
            !frame_len_ok(raw@) ==> r == Err::<EdifierMessage, _>(EdifierError::MalformedFrame),
    {
        if raw.len() < MIN_FRAME_LEN {
            return Err(EdifierError::MalformedFrame);
        }
        if raw[1] as usize != raw.len() - 4 {
            return Err(EdifierError::MalformedFrame);
        }
        Ok(EdifierMessage { bytes: raw })
    }

    /// The payload region, or `None` when the frame carries none.
    pub fn payload(&self) -> (r: Option<Vec<u8>>)
        requires
            self@.len() >= MIN_FRAME_LEN,
        ensures
            (r is Some) <==> frame_payload(self@).len() > 0,
            r matches Some(p) ==> p@ == frame_payload(self@),
    {
        let n = self.bytes.len();
        let pl_bytes = slice_to_vec(slice_subrange(self.bytes.as_slice(), 3, n - 2));
        if pl_bytes.is_empty() {
            None
        } else {
            Some(pl_bytes)
        }
    }

    /// The command code field.
    pub fn command_code(&self) -> (r: u8)
        requires
            self@.len() >= 3,
        ensures
            r == frame_code(self@),
    {
        self.bytes[2]
    }

    /// The raw wire bytes of the message.
    pub fn as_slice(&self) -> (r: &[u8])
        ensures
            r@ == self@,
    {
        self.bytes.as_slice()
    }

    /// Recomputes the checksum over everything before the trailer and compares
    /// it with the transmitted field. Decoding does not call this: received
    /// trailers are trusted by default, so strict validation is a separate,
    /// explicitly invoked step.
    pub fn verify_checksum(&self) -> (r: bool)
        requires
            self@.len() >= MIN_FRAME_LEN,
        ensures
            r == (frame_checksum_field(self@)
                == spec_checksum(self@.subrange(0, self@.len() - 2)) as int),
    {
        let n = self.bytes.len();
        let crc = compute_crc(slice_subrange(self.bytes.as_slice(), 0, n - 2));
        let field: u32 = self.bytes[n - 2] as u32 * 256 + self.bytes[n - 1] as u32;
        field == crc as u32
    }
}

/// The byte sequence an optional payload argument stands for.
pub open spec fn spec_payload_bytes(payload: Option<&[u8]>) -> Seq<u8> {
    match payload {
        Some(p) => p@,
        None => Seq::empty(),
    }
}

impl From<Vec<u8>> for EdifierMessage {
    /// Wraps already-received wire bytes without any structural check.
    fn from(bytes: Vec<u8>) -> (r: EdifierMessage) {
        EdifierMessage { bytes }
    }
}

impl vstd::std_specs::convert::FromSpecImpl<Vec<u8>> for EdifierMessage {
    open spec fn obeys_from_spec() -> bool {
        true
    }

    closed spec fn from_spec(bytes: Vec<u8>) -> EdifierMessage {
        EdifierMessage { bytes }
    }
}

/// A message wrapped by `From` carries exactly the given bytes.
pub proof fn lemma_from_keeps_bytes(bytes: Vec<u8>)
    ensures
        (<EdifierMessage as vstd::std_specs::convert::FromSpec<Vec<u8>>>::from_spec(bytes))@
            == bytes@,
        <EdifierMessage as vstd::std_specs::convert::FromSpec<Vec<u8>>>::obeys_from_spec(),
{
}

/// Encoding then decoding gives the frame back: an encoded frame passes the
/// structural check and yields the command code and payload it was built from.
pub proof fn lemma_encode_round_trip(code: u8, payload: Seq<u8>)
    requires
        payload.len() <= MAX_PAYLOAD_LEN,
    ensures
        frame_len_ok(spec_frame(code, payload)),
        frame_code(spec_frame(code, payload)) == code,
        frame_payload(spec_frame(code, payload)) == payload,
{
    let f = spec_frame(code, payload);
    assert(f.len() == payload.len() + 5);
    assert(f[1] == (payload.len() + 1) as u8);
    assert(frame_payload(f) =~= payload);
}

} // verus!
