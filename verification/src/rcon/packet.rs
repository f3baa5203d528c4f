use vstd::prelude::*;
use vstd::slice::{slice_subrange, slice_to_vec};
use vstd::string::StrSliceExecFns;

verus! {

/// Bytes that the size field counts besides the body: the id, the type code
/// and the two terminator bytes.
pub const FIXED_FIELDS: usize = 10;

/// Bytes before the body: size, id and type code.
pub const HEADER_LEN: usize = 12;

/// Largest body that a frame can carry: the size field is a signed 32-bit
/// number and counts the fixed fields too.
pub const MAX_BODY_LEN: usize = 2147483637;

/// A frame could not be built or taken apart.
#[derive(Debug, Clone, Copy)]
pub struct PacketError;

impl PacketError {
    /// The text shown to the operator.
    pub fn to_string(&self) -> (s: String)
        ensures
            s@ == "error parsing or serializing RCON packet"@,
    {
        "error parsing or serializing RCON packet".to_owned()
    }
}

#[derive(Debug, Clone, Copy, PartialEq, Eq, Structural)]
pub enum PacketType {
    ServerDataAuth,
    ServerDataAuthResponse,
    ServerDataExecCommand,
    ServerDataResponseValue,
}

/// A message as the contracts speak of it.
pub struct Message {
    pub id: i32,
    pub kind: PacketType,
    pub body: Seq<u8>,
}

#[derive(Debug)]
pub struct Packet {
    pub id: i32,
    pub packet_type: PacketType,
    pub body: Vec<u8>,
}

impl View for Packet {
    type V = Message;

    open spec fn view(&self) -> Message {
        Message { id: self.id, kind: self.packet_type, body: self.body@ }
    }
}

/// The number `v` read as an unsigned 32-bit value (two's complement).
pub open spec fn unsigned_value(v: i32) -> int {
    if v < 0 {
        v + 0x1_0000_0000
    } else {
        v as int
    }
}

/// The four bytes of `v`, least significant first.
pub open spec fn le_bytes(v: i32) -> Seq<u8> {
    let n = unsigned_value(v);
    seq![
        (n % 256) as u8,
        (n / 0x100 % 256) as u8,
        (n / 0x1_0000 % 256) as u8,
        (n / 0x100_0000 % 256) as u8,
    ]
}

/// The signed number that four bytes stand for, least significant first.
pub open spec fn le_value(b: Seq<u8>) -> i32
    recommends
        b.len() == 4,
{
    let n = b[0] + 0x100 * b[1] + 0x1_0000 * b[2] + 0x100_0000 * b[3];
    if n >= 0x8000_0000 {
        (n - 0x1_0000_0000) as i32
    } else {
        n as i32
    }
}

/// The type code that a kind is sent with.
pub open spec fn type_code(kind: PacketType) -> i32 {
    match kind {
        PacketType::ServerDataAuth => 3,
        PacketType::ServerDataAuthResponse => 2,
        PacketType::ServerDataExecCommand => 2,
        PacketType::ServerDataResponseValue => 0,
    }
}

/// The kind that a type code is read as. Code 2 is shared by two kinds: the
/// caller says whether the frame is a request.
pub open spec fn kind_of_code(code: i32, request: bool) -> Option<PacketType> {
    if code == 0 {
        Some(PacketType::ServerDataResponseValue)
    } else if code == 2 {
        if request {
            Some(PacketType::ServerDataExecCommand)
        } else {
            Some(PacketType::ServerDataResponseValue)
        }
    } else if code == 3 {
        Some(PacketType::ServerDataAuth)
    } else {
        None
    }
}

/// Whether a message fits a frame.
pub open spec fn encodable(m: Message) -> bool {
    m.body.len() <= MAX_BODY_LEN
}

/// The frame of a message: size, id, type code, body, two zero bytes.
pub open spec fn frame(m: Message) -> Seq<u8> {
    le_bytes((m.body.len() + FIXED_FIELDS) as i32) + le_bytes(m.id) + le_bytes(type_code(m.kind))
        + m.body + seq![0u8, 0u8]
}

/// The size field of a buffer that holds at least a header.
pub open spec fn declared_size(data: Seq<u8>) -> i32 {
    le_value(data.subrange(0, 4))
}

/// The message that a buffer starts with, if it starts with a whole frame of
/// a known type. Bytes after the frame are not looked at, nor are the body's
/// or the terminator's values.
pub open spec fn decode(data: Seq<u8>, request: bool) -> Option<Message> {
    if data.len() < HEADER_LEN {
        None
    } else {
        let size = declared_size(data);
        let id = le_value(data.subrange(4, 8));
        let code = le_value(data.subrange(8, 12));
        if size < FIXED_FIELDS || size + 4 > data.len() {
            None
        } else {
            match kind_of_code(code, request) {
                None => None,
                Some(kind) => Some(Message { id, kind, body: data.subrange(12, size + 2) }),
            }
        }
    }
}

/// Reading back the bytes of a number gives the number.
pub proof fn lemma_le_value_of_le_bytes(v: i32)
    ensures
        le_bytes(v).len() == 4,
        le_value(le_bytes(v)) == v,
{
    let n = unsigned_value(v);
    assert(0 <= n < 0x1_0000_0000);
    assert(n % 256 + 0x100 * (n / 0x100 % 256) + 0x1_0000 * (n / 0x1_0000 % 256) + 0x100_0000 * (n
        / 0x100_0000 % 256) == n);
}

fn push_le(buffer: &mut Vec<u8>, v: i32)
    ensures
        final(buffer)@ == old(buffer)@ + le_bytes(v),
{
    let wide: i64 = v as i64;
    let n: i64 = if wide < 0 {
        wide + 0x1_0000_0000
    } else {
        wide
    };
    buffer.push((n % 256) as u8);
    buffer.push((n / 0x100 % 256) as u8);
    buffer.push((n / 0x1_0000 % 256) as u8);
    buffer.push((n / 0x100_0000 % 256) as u8);
    assert(buffer@ =~= old(buffer)@ + le_bytes(v));
}

fn read_le(data: &[u8], at: usize) -> (v: i32)
    requires
        at + 4 <= data@.len(),
    ensures
        v == le_value(data@.subrange(at as int, at + 4)),
{
    let n: i64 = data[at] as i64 + 0x100 * (data[at + 1] as i64) + 0x1_0000 * (data[at + 2] as i64)
        + 0x100_0000 * (data[at + 3] as i64);
    if n >= 0x8000_0000 {
        (n - 0x1_0000_0000) as i32
    } else {
        n as i32
    }
}

fn code_of(kind: PacketType) -> (code: i32)
    ensures
        code == type_code(kind),
{
    match kind {
        PacketType::ServerDataAuth => 3,
        PacketType::ServerDataAuthResponse => 2,
        PacketType::ServerDataExecCommand => 2,
        PacketType::ServerDataResponseValue => 0,
    }
}

/// The size field of a buffer that holds one.
pub fn size_field(data: &[u8]) -> (size: i32)
    requires
        data@.len() >= 4,
    ensures
        size == declared_size(data@),
{
    read_le(data, 0)
}

impl Packet {
    /// The frame of this packet, or an error where the body is too long for
    /// the size field.
    pub fn serialize(&self) -> (r: Result<Vec<u8>, PacketError>)
        ensures
            r is Ok <==> encodable(self@),
            r is Ok ==> r->Ok_0@ == frame(self@),
    {
        if self.body.len() > MAX_BODY_LEN {
            return Err(PacketError);
        }
        let size: i32 = (self.body.len() + FIXED_FIELDS) as i32;
        let mut buffer: Vec<u8> = Vec::new();
        push_le(&mut buffer, size);
        push_le(&mut buffer, self.id);
        push_le(&mut buffer, code_of(self.packet_type));
        let ghost head = buffer@;
        let mut i: usize = 0;
        while i < self.body.len()
            invariant
                i <= self.body@.len(),
                buffer@ == head + self.body@.subrange(0, i as int),
            decreases self.body@.len() - i,
        {
            buffer.push(self.body[i]);
            i += 1;
            assert(buffer@ =~= head + self.body@.subrange(0, i as int));
        }
        assert(self.body@.subrange(0, i as int) =~= self.body@);
        buffer.push(0);
        buffer.push(0);
        assert(buffer@ =~= frame(self@));
        Ok(buffer)
    }

    /// The packet that `data` starts with. Fails where `data` is shorter than
    /// a header, where the size field is under the fixed fields' length or
    /// runs past the end of `data`, and where the type code is unknown.
    pub fn deserialize(data: &[u8], request: bool) -> (r: Result<Packet, PacketError>)
        ensures
            match decode(data@, request) {
                Some(m) => r is Ok && r->Ok_0@ == m,
                None => r is Err,
            },
    {
        if data.len() < HEADER_LEN {
            return Err(PacketError);
        }
        let size = read_le(data, 0);
        let id = read_le(data, 4);
        let packet_type_bits = read_le(data, 8);
        if size < 10 || size as usize > data.len() - 4 {
            return Err(PacketError);
        }
        let packet_type = if packet_type_bits == 0 {
            PacketType::ServerDataResponseValue
        } else if packet_type_bits == 2 {
            if request {
                PacketType::ServerDataExecCommand
            } else {
                PacketType::ServerDataResponseValue
            }
        } else if packet_type_bits == 3 {
            PacketType::ServerDataAuth
        } else {
            return Err(PacketError);
        };
        let body = slice_to_vec(slice_subrange(data, HEADER_LEN, size as usize + 2));
        Ok(Packet { id, packet_type, body })
    }

    /// A command for the server to run.
    pub fn new_command(id: i32, command: String) -> (p: Packet)
        ensures
            p@ == (Message {
                id,
                kind: PacketType::ServerDataExecCommand,
                body: vstd::utf8::encode_utf8(command@),
            }),
    {
        Packet {
            id,
            body: command.as_str().as_bytes_vec(),
            packet_type: PacketType::ServerDataExecCommand,
        }
    }

    /// The login request that carries the shared secret.
    pub fn new_auth(id: i32, password: String) -> (p: Packet)
        ensures
            p@ == (Message {
                id,
                kind: PacketType::ServerDataAuth,
                body: vstd::utf8::encode_utf8(password@),
            }),
    {
        Packet {
            id,
            body: password.as_str().as_bytes_vec(),
            packet_type: PacketType::ServerDataAuth,
        }
    }
}

/// A frame has the header, the body and the two terminator bytes, and its
/// size field counts the body and the fixed fields.
pub proof fn lemma_frame_len(m: Message)
    requires
        encodable(m),
    ensures
        frame(m).len() == m.body.len() + 14,
        declared_size(frame(m)) == m.body.len() + FIXED_FIELDS,
        declared_size(frame(m)) + 4 == frame(m).len(),
{
    let size = (m.body.len() + FIXED_FIELDS) as i32;
    lemma_le_value_of_le_bytes(size);
    assert(frame(m).subrange(0, 4) =~= le_bytes(size));
}

/// Decoding the frame of a message gives the message back, also where other
/// bytes follow the frame. A command is read as one only where the caller
/// decodes a request; the kind of a login's answer is not told apart from a
/// command on the wire, so no frame decodes to it.
pub proof fn lemma_round_trip(m: Message, request: bool, rest: Seq<u8>)
    requires
        encodable(m),
        m.kind != PacketType::ServerDataAuthResponse,
        m.kind == PacketType::ServerDataExecCommand ==> request,
        m.kind == PacketType::ServerDataResponseValue ==> !request,
    ensures
        decode(frame(m), request) == Some(m),
        decode(frame(m) + rest, request) == Some(m),
{
    let size = (m.body.len() + FIXED_FIELDS) as i32;
    lemma_le_value_of_le_bytes(size);
    lemma_le_value_of_le_bytes(m.id);
    lemma_le_value_of_le_bytes(type_code(m.kind));
    let f = frame(m);
    let g = f + rest;
    assert(f.subrange(0, 4) =~= le_bytes(size));
    assert(f.subrange(4, 8) =~= le_bytes(m.id));
    assert(f.subrange(8, 12) =~= le_bytes(type_code(m.kind)));
    assert(f.subrange(12, size + 2) =~= m.body);
    assert(g.subrange(0, 4) =~= le_bytes(size));
    assert(g.subrange(4, 8) =~= le_bytes(m.id));
    assert(g.subrange(8, 12) =~= le_bytes(type_code(m.kind)));
    assert(g.subrange(12, size + 2) =~= m.body);
}

} // verus!
