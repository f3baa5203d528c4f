use super::packet::{
    decode, declared_size, encodable, frame, Message, Packet, PacketError, PacketType,
    FIXED_FIELDS,
};
use vstd::prelude::*;
use vstd::string::StringExecFns;
use vstd::utf8::{decode_utf8, encode_utf8, encode_utf8_decode_utf8, valid_utf8};

verus! {

/// Message ids stay below this number: the counter wraps.
pub const ID_MODULUS: i32 = 1024;

/// How many bytes one read from the server asks for.
pub const READ_BUFFER_LEN: usize = 128;

/// `std::io::Error`, carried from the transport to the operator as it is:
/// nothing is known of what it holds.
#[verifier::external_type_specification]
#[verifier::external_body]
pub struct ExIoError(std::io::Error);

/// Where to find the server, and the shared secret.
pub struct ClientConfig {
    pub password: String,
    pub hostname: String,
    pub port: u16,
}

/// A command was issued with no connection.
#[derive(Debug, Clone, Copy)]
pub struct NoConnectionError;

impl NoConnectionError {
    /// The text shown to the operator.
    pub fn to_string(&self) -> (s: String)
        ensures
            s@ == "client has no TCP connection"@,
    {
        "client has no TCP connection".to_owned()
    }
}

/// The server did not accept the shared secret.
#[derive(Debug, Clone, Copy)]
pub struct AuthError;

impl AuthError {
    /// The text shown to the operator.
    pub fn to_string(&self) -> (s: String)
        ensures
            s@ == "authentication failed"@,
    {
        "authentication failed".to_owned()
    }
}

#[derive(Debug)]
pub enum ClientError {
    TcpError(std::io::Error),
    PacketError(PacketError),
    NoConnectionError(NoConnectionError),
    AuthError(AuthError),
}

impl From<std::io::Error> for ClientError {
    fn from(err: std::io::Error) -> (e: Self) {
        Self::TcpError(err)
    }
}

impl vstd::std_specs::convert::FromSpecImpl<std::io::Error> for ClientError {
    open spec fn obeys_from_spec() -> bool {
        true
    }

    open spec fn from_spec(err: std::io::Error) -> Self {
        Self::TcpError(err)
    }
}

impl From<PacketError> for ClientError {
    fn from(err: PacketError) -> (e: Self) {
        Self::PacketError(err)
    }
}

impl vstd::std_specs::convert::FromSpecImpl<PacketError> for ClientError {
    open spec fn obeys_from_spec() -> bool {
        true
    }

    open spec fn from_spec(err: PacketError) -> Self {
        Self::PacketError(err)
    }
}

impl From<NoConnectionError> for ClientError {
    fn from(err: NoConnectionError) -> (e: Self) {
        Self::NoConnectionError(err)
    }
}

impl vstd::std_specs::convert::FromSpecImpl<NoConnectionError> for ClientError {
    open spec fn obeys_from_spec() -> bool {
        true
    }

    open spec fn from_spec(err: NoConnectionError) -> Self {
        Self::NoConnectionError(err)
    }
}

impl From<AuthError> for ClientError {
    fn from(err: AuthError) -> (e: Self) {
        Self::AuthError(err)
    }
}

impl vstd::std_specs::convert::FromSpecImpl<AuthError> for ClientError {
    open spec fn obeys_from_spec() -> bool {
        true
    }

    open spec fn from_spec(err: AuthError) -> Self {
        Self::AuthError(err)
    }
}

/// `std::fmt::Display` of `std::io::Error`. The text is the operating
/// system's and the standard library's: nothing is claimed of it.
#[verifier::external_body]
fn io_error_text(err: &std::io::Error) -> (s: String) {
    format!("{}", err)
}

impl ClientError {
    /// The text shown to the operator: the words "client error: ", then the
    /// text of the error inside.
    pub fn to_string(&self) -> (s: String)
        ensures
            "client error: "@.is_prefix_of(s@),
            self is PacketError ==> s@ == "client error: "@
                + "error parsing or serializing RCON packet"@,
            self is NoConnectionError ==> s@ == "client error: "@ + "client has no TCP connection"@,
            self is AuthError ==> s@ == "client error: "@ + "authentication failed"@,
    {
        let detail = match self {
            ClientError::NoConnectionError(err) => err.to_string(),
            ClientError::TcpError(err) => io_error_text(err),
            ClientError::PacketError(err) => err.to_string(),
            ClientError::AuthError(err) => err.to_string(),
        };
        "client error: ".to_owned().concat(detail.as_str())
    }
}

/// How far a session has come.
#[derive(Debug, Clone, Copy, PartialEq, Eq, Structural)]
pub enum SessionState {
    Disconnected,
    Connected,
    Authenticated,
}

/// The id that follows `id`.
pub open spec fn next_id(id: i32) -> i32 {
    ((id + 1) % (ID_MODULUS as int)) as i32
}

/// Whether a response that was read so far lacks bytes of its frame: the
/// size field is not whole yet, or it declares more than is there. A size
/// that no frame can have awaits nothing.
pub open spec fn awaited(data: Seq<u8>) -> bool {
    data.len() < 4 || (declared_size(data) >= FIXED_FIELDS && data.len() < declared_size(data)
        + 4)
}

/// `String::from_utf8`: the text whose UTF-8 encoding `bytes` is, where it
/// is one.
#[verifier::external_body]
fn text_from_utf8(bytes: Vec<u8>) -> (r: Option<String>)
    ensures
        r is Some <==> valid_utf8(bytes@),
        r is Some ==> encode_utf8(r->Some_0@) == bytes@,
{
    String::from_utf8(bytes).ok()
}

/// One session with a server, without the connection itself: what was
/// agreed, how far the session has come, and the id of the next message.
/// The caller moves the bytes.
pub struct Client {
    password: String,
    hostname: String,
    port: u16,
    command_id: i32,
    state: SessionState,
}

impl Client {
    #[verifier::type_invariant]
    spec fn ids_wrap(&self) -> bool {
        0 <= self.command_id < ID_MODULUS
    }

    /// The id that the next message goes out with.
    pub closed spec fn id(&self) -> i32 {
        self.command_id
    }

    pub closed spec fn state(&self) -> SessionState {
        self.state
    }

    /// The shared secret.
    pub closed spec fn secret(&self) -> Seq<char> {
        self.password@
    }

    pub closed spec fn host(&self) -> Seq<char> {
        self.hostname@
    }

    pub closed spec fn port_number(&self) -> u16 {
        self.port
    }

    /// The settings apart from how far the session has come.
    pub open spec fn same_server(&self, other: &Client) -> bool {
        &&& self.secret() == other.secret()
        &&& self.host() == other.host()
        &&& self.port_number() == other.port_number()
    }

    /// A session that is not connected yet.
    pub fn new(hostname: String, port: u16, password: String) -> (c: Client)
        ensures
            c.state() == SessionState::Disconnected,
            c.id() == 0,
            c.host() == hostname@,
            c.port_number() == port,
            c.secret() == password@,
    {
        Client { password, hostname, port, command_id: 0, state: SessionState::Disconnected }
    }

    pub fn hostname(&self) -> (h: &String)
        ensures
            h@ == self.host(),
    {
        &self.hostname
    }

    pub fn port(&self) -> (p: u16)
        ensures
            p == self.port_number(),
    {
        self.port
    }

    pub fn command_id(&self) -> (id: i32)
        ensures
            id == self.id(),
            0 <= id < ID_MODULUS,
    {
        proof {
            use_type_invariant(self);
        }
        self.command_id
    }

    pub fn session_state(&self) -> (s: SessionState)
        ensures
            s == self.state(),
    {
        self.state
    }

    /// The server was reached: the session is connected, and not logged in.
    pub fn connected(&mut self)
        ensures
            final(self).state() == SessionState::Connected,
            final(self).id() == old(self).id(),
            final(self).same_server(old(self)),
    {
        proof {
            use_type_invariant(&*self);
        }
        self.state = SessionState::Connected;
    }

    /// The connection is gone.
    pub fn disconnected(&mut self)
        ensures
            final(self).state() == SessionState::Disconnected,
            final(self).id() == old(self).id(),
            final(self).same_server(old(self)),
    {
        proof {
            use_type_invariant(&*self);
        }
        self.state = SessionState::Disconnected;
    }

    /// The message that asks for a login.
    pub open spec fn login_message(&self) -> Message {
        Message {
            id: self.id(),
            kind: PacketType::ServerDataAuth,
            body: encode_utf8(self.secret()),
        }
    }

    /// The message that carries a command.
    pub open spec fn command_message(&self, command: Seq<char>) -> Message {
        Message {
            id: self.id(),
            kind: PacketType::ServerDataExecCommand,
            body: encode_utf8(command),
        }
    }

    /// Whether `r` is what a request for sending `m` gives in a session that
    /// has come as far as `state`: no frame without a connection, none for a
    /// message that fits no frame, and else the frame of `m`.
    pub open spec fn is_request_for(
        r: Result<Vec<u8>, ClientError>,
        state: SessionState,
        m: Message,
    ) -> bool {
        if state == SessionState::Disconnected {
            r is Err && r->Err_0 is NoConnectionError
        } else if !encodable(m) {
            r is Err && r->Err_0 is PacketError
        } else {
            r is Ok && r->Ok_0@ == frame(m)
        }
    }

    /// The frame to send in order to log in: the shared secret under the
    /// current id. Fails without a connection, and where the secret is too
    /// long for a frame.
    pub fn login_request(&self) -> (r: Result<Vec<u8>, ClientError>)
        ensures
            Self::is_request_for(r, self.state(), self.login_message()),
    {
        if self.state == SessionState::Disconnected {
            return Err(ClientError::from(NoConnectionError));
        }
        let login_packet = Packet::new_auth(self.command_id, self.password.clone());
        match login_packet.serialize() {
            Ok(data) => Ok(data),
            Err(err) => Err(ClientError::from(err)),
        }
    }

    /// Takes the server's answer to a login. The server accepts by echoing
    /// the id: the session is then logged in and the id advances. Any other
    /// id is a refusal; a buffer that holds no frame is an error. After a
    /// refusal or an error the session is as it was before.
    pub fn login_response(&mut self, response: &[u8]) -> (r: Result<(), ClientError>)
        ensures
            final(self).same_server(old(self)),
            old(self).state() == SessionState::Disconnected ==> r is Err && r->Err_0
                is NoConnectionError,
            old(self).state() != SessionState::Disconnected ==> match decode(response@, false) {
                None => r is Err && r->Err_0 is PacketError,
                Some(m) => if m.id == old(self).id() {
                    r is Ok
                } else {
                    r is Err && r->Err_0 is AuthError
                },
            },
            r is Ok ==> final(self).state() == SessionState::Authenticated && final(self).id()
                == next_id(old(self).id()),
            r is Err ==> final(self).state() == old(self).state() && final(self).id() == old(
                self,
            ).id(),
    {
        proof {
            use_type_invariant(&*self);
        }
        if self.state == SessionState::Disconnected {
            return Err(ClientError::from(NoConnectionError));
        }
        match Packet::deserialize(response, false) {
            Err(err) => Err(ClientError::from(err)),
            Ok(response_packet) => {
                if response_packet.id != self.command_id {
                    return Err(ClientError::from(AuthError));
                }
                self.state = SessionState::Authenticated;
                self.command_id = (self.command_id + 1) % ID_MODULUS;
                Ok(())
            },
        }
    }

    /// The frame to send in order to run `command`, under the current id.
    /// Fails without a connection, and where the command is too long for a
    /// frame.
    pub fn command_request(&self, command: &str) -> (r: Result<Vec<u8>, ClientError>)
        ensures
            Self::is_request_for(r, self.state(), self.command_message(command@)),
    {
        if self.state == SessionState::Disconnected {
            return Err(ClientError::from(NoConnectionError));
        }
        let command_packet = Packet::new_command(self.command_id, command.to_owned());
        match command_packet.serialize() {
            Ok(data) => Ok(data),
            Err(err) => Err(ClientError::from(err)),
        }
    }

    /// The text that a response to a command carries, where the buffer
    /// starts with a frame whose body is text.
    pub open spec fn response_text(response: Seq<u8>) -> Option<Seq<char>> {
        match decode(response, false) {
            None => None,
            Some(m) => if valid_utf8(m.body) {
                Some(decode_utf8(m.body))
            } else {
                None
            },
        }
    }

    /// Takes the server's answer to a command and returns its text; the id
    /// then advances. A buffer that holds no frame, or a body that is no
    /// text, is an error and leaves the id as it was.
    pub fn command_response(&mut self, response: &[u8]) -> (r: Result<String, ClientError>)
        ensures
            final(self).same_server(old(self)),
            final(self).state() == old(self).state(),
            old(self).state() == SessionState::Disconnected ==> r is Err && r->Err_0
                is NoConnectionError,
            old(self).state() != SessionState::Disconnected ==> match Self::response_text(
                response@,
            ) {
                None => r is Err && r->Err_0 is PacketError,
                Some(text) => r is Ok && r->Ok_0@ == text,
            },
            r is Ok ==> final(self).id() == next_id(old(self).id()),
            r is Err ==> final(self).id() == old(self).id(),
    {
        proof {
            use_type_invariant(&*self);
        }
        if self.state == SessionState::Disconnected {
            return Err(ClientError::from(NoConnectionError));
        }
        match Packet::deserialize(response, false) {
            Err(err) => Err(ClientError::from(err)),
            Ok(result_packet) => {
                match text_from_utf8(result_packet.body) {
                    None => Err(ClientError::from(PacketError)),
                    Some(text) => {
                        proof {
                            encode_utf8_decode_utf8(text@);
                        }
                        self.command_id = (self.command_id + 1) % ID_MODULUS;
                        Ok(text)
                    },
                }
            },
        }
    }

    /// Adds the `n` bytes that one read put into `buffer` to the response,
    /// and says whether to read again: after a full buffer, as long as the
    /// response lacks bytes of its frame. A short read ends the response.
    pub fn receive(response: &mut Vec<u8>, buffer: &[u8], n: usize) -> (more: bool)
        requires
            n <= buffer@.len(),
        ensures
            final(response)@ == old(response)@ + buffer@.subrange(0, n as int),
            more == (n == buffer@.len() && awaited(final(response)@)),
    {
        let mut i: usize = 0;
        while i < n
            invariant
                i <= n <= buffer@.len(),
                response@ == old(response)@ + buffer@.subrange(0, i as int),
            decreases n - i,
        {
            response.push(buffer[i]);
            i += 1;
            assert(response@ =~= old(response)@ + buffer@.subrange(0, i as int));
        }
        if n < buffer.len() {
            return false;
        }
        if response.len() < 4 {
            return true;
        }
        let size = super::packet::size_field(response.as_slice());
        size >= 10 && response.len() - 4 < size as usize
    }
}

/// A response that lacks bytes of its frame holds no message yet, and one
/// that holds a message lacks nothing: reading stops no later than at the
/// end of the frame.
pub proof fn lemma_awaited_holds_no_frame(data: Seq<u8>, request: bool)
    ensures
        awaited(data) ==> decode(data, request) is None,
        decode(data, request) is Some ==> !awaited(data),
{
}

/// Once the frame of a message is read, whatever follows it, nothing is
/// awaited.
pub proof fn lemma_whole_frame_awaits_nothing(m: Message, rest: Seq<u8>)
    requires
        encodable(m),
    ensures
        !awaited(frame(m) + rest),
{
    let size = (m.body.len() + FIXED_FIELDS) as i32;
    super::packet::lemma_le_value_of_le_bytes(size);
    assert((frame(m) + rest).subrange(0, 4) =~= super::packet::le_bytes(size));
}

/// What the server answers comes back as it was said: where a response
/// starts with the frame of a response value whose body is the encoding of
/// a text, under any id and with anything after the frame, the text read
/// from the response is that text.
pub proof fn lemma_response_text_of_frame(id: i32, text: Seq<char>, rest: Seq<u8>)
    requires
        encode_utf8(text).len() <= super::packet::MAX_BODY_LEN,
    ensures
        Client::response_text(
            frame(
                Message {
                    id,
                    kind: PacketType::ServerDataResponseValue,
                    body: encode_utf8(text),
                },
            ) + rest,
        ) == Some(text),
{
    let m = Message { id, kind: PacketType::ServerDataResponseValue, body: encode_utf8(text) };
    super::packet::lemma_round_trip(m, false, rest);
    vstd::utf8::encode_utf8_valid_utf8(text);
    encode_utf8_decode_utf8(text);
}

} // verus!
