//! The packet codec: one wire packet encoded to, or decoded from, its exact
//! byte layout `[length:i32 LE][id:i32 LE][type:i32 LE][body][0x00][0x00]`,
//! where `length == 10 + byte-length(body)` counts everything after the
//! length field itself.

use crate::error::Error;
use crate::wire::{i32_from_le_bytes, i32_to_le_bytes, lemma_i32_le_bytes_round_trip,
    spec_i32_from_le_bytes, spec_i32_to_le_bytes};
use vstd::prelude::*;
use vstd::string::StrSliceExecFns;
use vstd::slice::{slice_subrange, slice_to_vec};
use vstd::utf8::{decode_utf8, decode_utf8_encode_utf8, encode_utf8, encode_utf8_decode_utf8,
    encode_utf8_valid_utf8, valid_utf8};

verus! {

/// The closed set of packet kinds, with an escape variant for raw values the
/// protocol does not reserve. The raw value 2 is contextually overloaded: it
/// means `ExecCommand` on the request direction and `AuthResponse` on the
/// response direction, so decoding takes the direction as a parameter.
#[derive(Debug, Clone, Copy, PartialEq, Eq, Structural)]
pub enum PacketType {
    Auth,
    AuthResponse,
    ExecCommand,
    ResponseValue,
    Unknown(i32),
}

impl PacketType {
    /// The raw value this type is written as on the wire.
    pub open spec fn spec_to_i32(self) -> i32 {
        match self {
            PacketType::Auth => 3,
            PacketType::AuthResponse => 2,
            PacketType::ExecCommand => 2,
            PacketType::ResponseValue => 0,
            PacketType::Unknown(n) => n,
        }
    }

    /// The type a raw value decodes to in the given direction context.
    pub open spec fn spec_from_i32(n: i32, is_response: bool) -> PacketType {
        if n == 3 {
            PacketType::Auth
        } else if n == 2 && is_response {
            PacketType::AuthResponse
        } else if n == 2 {
            PacketType::ExecCommand
        } else if n == 0 {
            PacketType::ResponseValue
        } else {
            PacketType::Unknown(n)
        }
    }

    /// True of the types a response-context decode can reproduce: every type
    /// but `ExecCommand` (whose raw value 2 reads back as `AuthResponse`) and
    /// `Unknown` of a reserved raw value.
    pub open spec fn decodes_in_response(self) -> bool {
        Self::spec_from_i32(self.spec_to_i32(), true) == self
    }

    /// Writes this type as its raw wire value.
    pub fn to_i32(self) -> (r: i32)
        ensures
            r == self.spec_to_i32(),
    {
        match self {
            PacketType::Auth => 3,
            PacketType::AuthResponse => 2,
            PacketType::ExecCommand => 2,
            PacketType::ResponseValue => 0,
            PacketType::Unknown(n) => n,
        }
    }

    /// Reads a raw wire value back as a type, in the given direction context.
    pub fn from_i32(n: i32, is_response: bool) -> (r: PacketType)
        ensures
            r == Self::spec_from_i32(n, is_response),
    {
        match n {
            3 => PacketType::Auth,
            2 if is_response => PacketType::AuthResponse,
            2 => PacketType::ExecCommand,
            0 => PacketType::ResponseValue,
            _ => PacketType::Unknown(n),
        }
    }
}

/// Decoding the raw value 2 in response context always yields `AuthResponse`,
/// never `ExecCommand`, and any raw value outside the reserved set {0, 2, 3}
/// decodes, in either context, to the unknown-type escape carrying exactly
/// that value.
pub proof fn lemma_response_type_overload(n: i32, is_response: bool)
    ensures
        PacketType::spec_from_i32(2, true) == PacketType::AuthResponse,
        n != 0 && n != 2 && n != 3 ==> PacketType::spec_from_i32(n, is_response)
            == PacketType::Unknown(n),
{
}

/// The mathematical content of a packet: its id, its type, and its body as a
/// character sequence. The wire length field is derived, never independent.
pub ghost struct PacketModel {
    pub id: i32,
    pub ptype: PacketType,
    pub body: Seq<char>,
}

impl PacketModel {
    /// A packet is representable on the wire only while its derived length
    /// field, 10 plus the UTF-8 byte length of the body, fits a signed
    /// 32-bit integer.
    pub open spec fn wf(self) -> bool {
        10 + encode_utf8(self.body).len() <= i32::MAX
    }

    /// The exact serialized form: length, id and raw type as little-endian
    /// 32-bit integers, the UTF-8 bytes of the body, and two zero
    /// terminator bytes.
    pub open spec fn wire_bytes(self) -> Seq<u8> {
        spec_i32_to_le_bytes((10 + encode_utf8(self.body).len()) as i32)
            + spec_i32_to_le_bytes(self.id) + spec_i32_to_le_bytes(self.ptype.spec_to_i32())
            + encode_utf8(self.body) + seq![0u8, 0u8]
    }
}

/// One wire packet. The length field is kept consistent with the body by
/// construction and is not independently settable.
#[derive(Debug)]
pub struct Packet {
    length: i32,
    id: i32,
    ptype: PacketType,
    body: String,
}

impl View for Packet {
    type V = PacketModel;

    closed spec fn view(&self) -> PacketModel {
        PacketModel { id: self.id, ptype: self.ptype, body: self.body@ }
    }
}

/// What a decode of the given frame must return: the structural checks on the
/// header, then the UTF-8 check on the body, each failure with its kind.
/// A frame shorter than its header announces is a short read (the stream
/// closed mid-packet); an announced length under 10 or a frame longer than
/// announced is a structurally inconsistent header; a body that is not
/// well-formed UTF-8 is a decoding failure. The type is read in response
/// context, and the two terminator bytes are consumed without inspection.
pub open spec fn spec_deserialize(bytes: Seq<u8>) -> Result<PacketModel, Error> {
    if bytes.len() < 12 {
        Err(Error::Io)
    } else {
        let length = spec_i32_from_le_bytes(bytes.subrange(0, 4)) as int;
        if length < 10 {
            Err(Error::Decode)
        } else if bytes.len() < 4 + length {
            Err(Error::Io)
        } else if bytes.len() > 4 + length {
            Err(Error::Decode)
        } else if !valid_utf8(bytes.subrange(12, 4 + length - 2)) {
            Err(Error::Decode)
        } else {
            Ok(
                PacketModel {
                    id: spec_i32_from_le_bytes(bytes.subrange(4, 8)),
                    ptype: PacketType::spec_from_i32(
                        spec_i32_from_le_bytes(bytes.subrange(8, 12)),
                        true,
                    ),
                    body: decode_utf8(bytes.subrange(12, 4 + length - 2)),
                },
            )
        }
    }
}

/// The model of a decode result: the packet replaced by its mathematical
/// content, the error kept.
pub open spec fn decode_result_model(r: Result<Packet, Error>) -> Result<PacketModel, Error> {
    match r {
        Ok(p) => Ok(p@),
        Err(e) => Err(e),
    }
}

/// Relies on String::from_utf8: it succeeds exactly on well-formed UTF-8
/// input and returns the character sequence those bytes encode.
#[verifier::external_body]
fn string_from_utf8(bytes: Vec<u8>) -> (r: Option<String>)
    ensures
        r is Some <==> valid_utf8(bytes@),
        r matches Some(s) ==> s@ == decode_utf8(bytes@),
{
    String::from_utf8(bytes).ok()
}

impl Packet {
    /// The length field always equals 10 plus the UTF-8 byte length of the
    /// body, and that sum fits a signed 32-bit integer.
    #[verifier::type_invariant]
    pub closed spec fn wf(&self) -> bool {
        &&& self@.wf()
        &&& self.length == 10 + encode_utf8(self.body@).len()
    }

    /// Builds a packet from an id, a type and a body, deriving the length
    /// field. The body's byte length must leave the derived length within
    /// the signed 32-bit range the wire format allows.
    pub fn new(id: i32, ptype: PacketType, body: String) -> (p: Packet)
        requires
            10 + encode_utf8(body@).len() <= i32::MAX,
        ensures
            p@ == (PacketModel { id, ptype, body: body@ }),
    {
        let length: i32 = 10 + body.as_str().len() as i32;
        Packet { length, id, ptype, body }
    }

    /// True exactly of packets with a negative id: the protocol's one signal
    /// of failed authentication, whatever the type and body say.
    pub fn is_error(&self) -> (r: bool)
        ensures
            r == (self@.id < 0),
    {
        self.id < 0
    }

    /// Encodes this packet into one complete frame, so that the caller can
    /// hand the whole packet to the stream in a single write. Some server
    /// dialects mishandle a request split across several writes; a single
    /// buffer keeps one packet in one write whatever the stream batches.
    pub fn serialize(&self) -> (buf: Vec<u8>)
        ensures
            buf@ == self@.wire_bytes(),
    {
        proof {
            use_type_invariant(self);
        }
        let mut buf: Vec<u8> = Vec::new();
        let mut field = i32_to_le_bytes(self.length);
        buf.append(&mut field);
        let mut field = i32_to_le_bytes(self.id);
        buf.append(&mut field);
        let mut field = i32_to_le_bytes(self.ptype.to_i32());
        buf.append(&mut field);
        let mut body_bytes = self.body.as_str().as_bytes_vec();
        buf.append(&mut body_bytes);
        buf.push(0u8);
        buf.push(0u8);
        proof {
            assert(buf@ =~= self@.wire_bytes());
        }
        buf
    }

    /// Decodes one complete frame: the three header integers, exactly
    /// `length - 10` body bytes validated as UTF-8, and two terminator
    /// bytes consumed without inspection. The type is read in response
    /// context, since the codec only ever decodes what the peer sent.
    pub fn deserialize(frame: &Vec<u8>) -> (r: Result<Packet, Error>)
        ensures
            decode_result_model(r) == spec_deserialize(frame@),
    {
        if frame.len() < 12 {
            return Err(Error::Io);
        }
        let length: i32 = i32_from_le_bytes(slice_subrange(frame.as_slice(), 0, 4));
        if length < 10 {
            return Err(Error::Decode);
        }
        let announced: usize = 4 + length as usize;
        if frame.len() < announced {
            return Err(Error::Io);
        }
        if frame.len() > announced {
            return Err(Error::Decode);
        }
        let id: i32 = i32_from_le_bytes(slice_subrange(frame.as_slice(), 4, 8));
        let raw_type: i32 = i32_from_le_bytes(slice_subrange(frame.as_slice(), 8, 12));
        let body_bytes: Vec<u8> = slice_to_vec(
            slice_subrange(frame.as_slice(), 12, announced - 2),
        );
        match string_from_utf8(body_bytes) {
            None => Err(Error::Decode),
            Some(body) => {
                proof {
                    decode_utf8_encode_utf8(frame@.subrange(12, 4 + length - 2));
                }
                Ok(Packet { length, id, ptype: PacketType::from_i32(raw_type, true), body })
            },
        }
    }

    /// The body text of this packet.
    pub fn get_body(&self) -> (r: &str)
        ensures
            r@ == self@.body,
    {
        self.body.as_str()
    }

    /// The type of this packet.
    pub fn get_type(&self) -> (r: PacketType)
        ensures
            r == self@.ptype,
    {
        self.ptype
    }

    /// The id of this packet.
    pub fn get_id(&self) -> (r: i32)
        ensures
            r == self@.id,
    {
        self.id
    }
}

/// Round-trip: deserializing the serialized form of a well-formed packet
/// yields the packet again, id, type and body alike, whenever the type
/// survives response-context decoding (`decodes_in_response`). `ExecCommand`
/// is the one base type that does not: its raw value 2 reads back as
/// `AuthResponse` on the response direction, by design.
pub proof fn lemma_round_trip(m: PacketModel)
    requires
        m.wf(),
        m.ptype.decodes_in_response(),
    ensures
        spec_deserialize(m.wire_bytes()) == Ok::<PacketModel, Error>(m),
{
    lemma_i32_le_bytes_round_trip();
    encode_utf8_valid_utf8(m.body);
    encode_utf8_decode_utf8(m.body);
    let body_bytes = encode_utf8(m.body);
    let blen = body_bytes.len() as int;
    let length = (10 + blen) as i32;
    let bytes = m.wire_bytes();
    assert(bytes.len() == 4 + 10 + blen);
    assert(bytes.subrange(0, 4) =~= spec_i32_to_le_bytes(length));
    assert(bytes.subrange(4, 8) =~= spec_i32_to_le_bytes(m.id));
    assert(bytes.subrange(8, 12) =~= spec_i32_to_le_bytes(m.ptype.spec_to_i32()));
    assert(bytes.subrange(12, 12 + blen) =~= body_bytes);
    assert(spec_i32_from_le_bytes(bytes.subrange(0, 4)) == length);
    assert(length as int == 10 + blen);
}

} // verus!
