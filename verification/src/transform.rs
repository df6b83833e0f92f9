//! How payloads become wire text: the header that a client may add to what
//! it sends, the command envelope, and the interface that a typed message
//! implements to be written to and read from the wire.

use crate::json::{decimal, is_json, json_well_formed, number, quote, quoted, utf8_text};
use vstd::prelude::*;
use vstd::string::*;
use vstd::utf8::*;

verus! {

/// Why a value could not be turned into wire text, or back.
#[derive(Clone, Copy, Debug, PartialEq, Eq, Structural)]
pub enum TransformError {
    Encode,
    Decode,
}

/// What a client adds to each envelope it sends.
#[derive(Debug, PartialEq, Eq)]
pub struct WSClientHeader {
    pub token: String,
}

/// The header object: `{"token":"..."}`.
pub open spec fn header_json(token: Seq<char>) -> Seq<char> {
    "{\"token\":"@ + quoted(token) + "}"@
}

/// The header member of an envelope, with the comma that precedes it;
/// nothing where there is no header.
pub open spec fn header_member(token: Option<Seq<char>>) -> Seq<char> {
    match token {
        Some(t) => ",\"header\":"@ + header_json(t),
        None => Seq::empty(),
    }
}

/// The token of a header that may be absent.
pub open spec fn token_of(header: Option<WSClientHeader>) -> Option<Seq<char>> {
    match header {
        Some(h) => Some(h.token@),
        None => None,
    }
}

/// The command envelope:
/// `{"command":<number>,"header":{"token":"..."},"data":<payload>}`, the
/// header left out where there is none.
pub open spec fn command_envelope(command: u32, token: Option<Seq<char>>, data: Seq<char>) -> Seq<
    char,
> {
    "{\"command\":"@ + decimal(command as nat) + header_member(token) + ",\"data\":"@ + data
        + "}"@
}

impl Clone for WSClientHeader {
    fn clone(&self) -> (r: Self)
        ensures
            r.token@ == self.token@,
    {
        WSClientHeader { token: self.token.clone() }
    }
}

impl WSClientHeader {
    /// The header as a JSON object.
    pub fn to_json(&self) -> (r: String)
        ensures
            r@ == header_json(self.token@),
    {
        let mut out = String::from_str("{\"token\":");
        let literal = quote(self.token.as_str());
        out.append(literal.as_str());
        out.append("}");
        out
    }
}

/// Appends the header member of an envelope to `out`.
pub fn append_header_member(out: &mut String, header: &Option<WSClientHeader>)
    ensures
        final(out)@ == old(out)@ + header_member(token_of(*header)),
{
    match header {
        Some(h) => {
            out.append(",\"header\":");
            let object = h.to_json();
            out.append(object.as_str());
            assert(out@ =~= old(out)@ + header_member(token_of(*header)));
        },
        None => {
            assert(out@ =~= old(out)@ + header_member(token_of(*header)));
        },
    }
}

/// Something that can produce the header of the moment.
pub trait GenHader {
    /// The token that `gen_header` puts in the header.
    spec fn header_token(&self) -> Seq<char>;

    fn gen_header(&self) -> (header: WSClientHeader)
        ensures
            header.token@ == self.header_token(),
    ;
}

/// A header produces itself.
impl GenHader for WSClientHeader {
    open spec fn header_token(&self) -> Seq<char> {
        self.token@
    }

    fn gen_header(&self) -> (header: WSClientHeader) {
        self.clone()
    }
}

/// A numbered command on its way to the wire. `data` is the payload, already
/// JSON text.
#[derive(Debug, PartialEq, Eq)]
pub struct WSClientData {
    command: u32,
    header: Option<WSClientHeader>,
    data: String,
}

impl WSClientData {
    pub closed spec fn command(&self) -> u32 {
        self.command
    }

    pub closed spec fn token(&self) -> Option<Seq<char>> {
        token_of(self.header)
    }

    pub closed spec fn data(&self) -> Seq<char> {
        self.data@
    }

    pub fn new(command: u32, data: String, header: Option<WSClientHeader>) -> (r: Self)
        ensures
            r.command() == command,
            r.token() == token_of(header),
            r.data() == data@,
    {
        WSClientData { command, header, data }
    }

    /// The envelope as wire text. Fails exactly when the payload is not
    /// JSON.
    pub fn to_json(&self) -> (r: Result<String, TransformError>)
        ensures
            r matches Ok(text) ==> json_well_formed(self.data()) && text@ == command_envelope(
                self.command(),
                self.token(),
                self.data(),
            ),
            r matches Err(e) ==> !json_well_formed(self.data()) && e == TransformError::Encode,
    {
        if !is_json(self.data.as_str()) {
            return Err(TransformError::Encode);
        }
        let mut out = String::from_str("{\"command\":");
        let digits = number(self.command);
        out.append(digits.as_str());
        append_header_member(&mut out, &self.header);
        out.append(",\"data\":");
        out.append(self.data.as_str());
        out.append("}");
        assert(out@ =~= command_envelope(self.command(), self.token(), self.data()));
        Ok(out)
    }
}

/// A typed message that knows its wire form. `C` is the client's context,
/// from which an implementation may take a header for what it writes.
///
/// The client calls these hooks and passes on what they return; it claims
/// nothing of what an implementation does.
pub trait WSCell<C>: Sized {
    /// The wire text of a value.
    fn to_string(&self, context: &Option<C>) -> Result<String, TransformError>;

    /// The wire bytes of a value.
    fn to_vec(&self, context: &Option<C>) -> Result<Vec<u8>, TransformError>;

    /// The value that a wire text stands for.
    fn from_str(text: &str, context: &Option<C>) -> Result<Self, TransformError>;

    /// The value that wire bytes stand for.
    fn from_slice(bytes: &[u8], context: &Option<C>) -> Result<Self, TransformError>;

    /// The value that stands for "the connection has opened".
    fn open_cell(context: &Option<C>) -> Result<Self, TransformError>;

    /// The value that stands for "the connection has closed".
    fn close_cell(context: &Option<C>) -> Result<Self, TransformError>;
}

/// A payload that is JSON text as it stands. This is the plain transform: a
/// value is written as it is and read as it is, provided it is JSON. It adds
/// no header and has no value for the opening and closing of a connection.
#[derive(Debug, PartialEq, Eq)]
pub struct JsonText(pub String);

/// What the plain transform writes for a text.
pub open spec fn json_written(text: Seq<char>) -> Result<Seq<char>, TransformError> {
    if json_well_formed(text) {
        Ok(text)
    } else {
        Err(TransformError::Encode)
    }
}

/// What the plain transform reads from a wire text.
pub open spec fn json_read(wire: Seq<char>) -> Result<Seq<char>, TransformError> {
    if json_well_formed(wire) {
        Ok(wire)
    } else {
        Err(TransformError::Decode)
    }
}

/// What the plain transform reads from wire bytes.
pub open spec fn json_read_bytes(wire: Seq<u8>) -> Result<Seq<char>, TransformError> {
    if valid_utf8(wire) && json_well_formed(decode_utf8(wire)) {
        Ok(decode_utf8(wire))
    } else {
        Err(TransformError::Decode)
    }
}

/// The text of a value that was read, or the error.
pub open spec fn read_view(r: Result<JsonText, TransformError>) -> Result<
    Seq<char>,
    TransformError,
> {
    match r {
        Ok(value) => Ok(value.0@),
        Err(e) => Err(e),
    }
}

impl<C> WSCell<C> for JsonText {
    fn to_string(&self, context: &Option<C>) -> (r: Result<String, TransformError>)
        ensures
            match r {
                Ok(wire) => json_written(self.0@) == Ok::<Seq<char>, TransformError>(wire@),
                Err(e) => json_written(self.0@) == Err::<Seq<char>, TransformError>(e),
            },
    {
        if is_json(self.0.as_str()) {
            Ok(self.0.clone())
        } else {
            Err(TransformError::Encode)
        }
    }

    fn to_vec(&self, context: &Option<C>) -> (r: Result<Vec<u8>, TransformError>)
        ensures
            match r {
                Ok(wire) => json_well_formed(self.0@) && wire@ == encode_utf8(self.0@),
                Err(e) => !json_well_formed(self.0@) && e == TransformError::Encode,
            },
    {
        if is_json(self.0.as_str()) {
            Ok(self.0.as_str().as_bytes_vec())
        } else {
            Err(TransformError::Encode)
        }
    }

    fn from_str(text: &str, context: &Option<C>) -> (r: Result<Self, TransformError>)
        ensures
            read_view(r) == json_read(text@),
    {
        if is_json(text) {
            Ok(JsonText(String::from_str(text)))
        } else {
            Err(TransformError::Decode)
        }
    }

    fn from_slice(bytes: &[u8], context: &Option<C>) -> (r: Result<Self, TransformError>)
        ensures
            read_view(r) == json_read_bytes(bytes@),
    {
        match utf8_text(bytes) {
            Some(text) => if is_json(text) {
                Ok(JsonText(String::from_str(text)))
            } else {
                Err(TransformError::Decode)
            },
            None => Err(TransformError::Decode),
        }
    }

    fn open_cell(context: &Option<C>) -> (r: Result<Self, TransformError>)
        ensures
            r == Err::<Self, TransformError>(TransformError::Decode),
    {
        Err(TransformError::Decode)
    }

    fn close_cell(context: &Option<C>) -> (r: Result<Self, TransformError>)
        ensures
            r == Err::<Self, TransformError>(TransformError::Decode),
    {
        Err(TransformError::Decode)
    }
}

/// The plain transform gives back what it was given: whatever it writes, as
/// text or as bytes, it reads as the value that was written.
pub proof fn lemma_json_round_trip(text: Seq<char>)
    requires
        json_well_formed(text),
    ensures
        json_written(text) == Ok::<Seq<char>, TransformError>(text),
        json_read(text) == Ok::<Seq<char>, TransformError>(text),
        json_read_bytes(encode_utf8(text)) == Ok::<Seq<char>, TransformError>(text),
{
    encode_utf8_valid_utf8(text);
    encode_utf8_decode_utf8(text);
}

} // verus!
