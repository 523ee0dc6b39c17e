use vstd::prelude::*;
use vstd::utf8::{encode_utf8, valid_utf8};

use arrow_format::flight::data::BasicAuth;
use prost::Message;

use crate::text::string_of;

verus! {

/// How many exported strings one chunk of the export stream holds at most.
pub const EXPORT_CHUNK_SIZE: usize = 16;

/// The size of the next chunk of an export of `len` strings.
pub open spec fn chunk_len(len: nat) -> nat {
    if len < EXPORT_CHUNK_SIZE { len } else { EXPORT_CHUNK_SIZE as nat }
}

/// The chunks in which an export of `data` is handed out, in order.
pub open spec fn export_chunks(data: Seq<String>) -> Seq<Seq<String>>
    decreases data.len(),
{
    if data.len() == 0 {
        Seq::empty()
    } else {
        let n = chunk_len(data.len()) as int;
        seq![data.take(n)] + export_chunks(data.skip(n))
    }
}

/// An export hands out all of its data, in order, in chunks of 1 to
/// [`EXPORT_CHUNK_SIZE`] strings.
pub proof fn lemma_export_chunks_cover(data: Seq<String>)
    ensures
        export_chunks(data).flatten() == data,
        forall|i: int| 0 <= i < export_chunks(data).len() ==>
            1 <= #[trigger] export_chunks(data)[i].len() <= EXPORT_CHUNK_SIZE,
    decreases data.len(),
{
    if data.len() > 0 {
        let n = chunk_len(data.len()) as int;
        let rest = data.skip(n);
        lemma_export_chunks_cover(rest);
        let chunks = export_chunks(data);
        assert(chunks.first() == data.take(n));
        assert(chunks.drop_first() =~= export_chunks(rest));
        assert(data.take(n) + rest =~= data);
        assert forall|i: int| 0 <= i < chunks.len() implies
            1 <= #[trigger] chunks[i].len() <= EXPORT_CHUNK_SIZE by {
            if i > 0 {
                assert(chunks[i] == export_chunks(rest)[i - 1]);
            }
        }
    } else {
        assert(export_chunks(data).flatten() =~= data);
    }
}

/// Taking the next chunk hands out the first of the export's chunks and
/// leaves the others: `next_chunk` walks through [`export_chunks`].
pub proof fn lemma_next_chunk_steps_through_chunks(data: Seq<String>)
    requires
        data.len() > 0,
    ensures
        export_chunks(data)[0] == data.take(chunk_len(data.len()) as int),
        export_chunks(data.skip(chunk_len(data.len()) as int)) == export_chunks(data).drop_first(),
{
    let n = chunk_len(data.len()) as int;
    assert(export_chunks(data).drop_first() =~= export_chunks(data.skip(n)));
}

/// The exported meta data, handed out in chunks of at most
/// [`EXPORT_CHUNK_SIZE`] strings.
pub struct ExportStream {
    pub data: Vec<String>,
}

impl ExportStream {
    /// Takes the next chunk: `None` once all data is handed out, else the
    /// first `min(16, len)` strings, which leave the stream.
    pub fn next_chunk(&mut self) -> (r: Option<Vec<String>>)
        ensures
            old(self).data@.len() == 0 ==> r is None && final(self).data@ == old(self).data@,
            old(self).data@.len() > 0 ==> (r matches Some(chunk) && chunk@ == old(self).data@.take(
                chunk_len(old(self).data@.len()) as int,
            ) && final(self).data@ == old(self).data@.skip(chunk_len(old(self).data@.len()) as int)),
    {
        let l = self.data.len();
        if l == 0 {
            return None;
        }
        let chunk_size = if l < EXPORT_CHUNK_SIZE { l } else { EXPORT_CHUNK_SIZE };
        let mut chunk = self.data.split_off(chunk_size);
        std::mem::swap(&mut self.data, &mut chunk);
        Some(chunk)
    }
}

/// Why a handshake is refused.
#[derive(Debug, Clone, PartialEq, Eq)]
pub enum HandshakeError {
    /// The client speaks a protocol older than the oldest one the server accepts.
    IncompatibleVersion { protocol_version: u64, min_compatible: u64 },
    /// The payload is not an encoded `BasicAuth`; the decoder's message.
    BadPayload(String),
    /// The user who asked is not `root`; the user's name.
    UnknownUser(String),
}

/// The only user that a handshake grants a token to.
pub const ROOT_USER: &'static str = "root";

/// Whether a client's protocol version is accepted: a version of 0 means the
/// client sent none, which is accepted for backward compatibility.
pub open spec fn spec_version_accepted(protocol_version: u64, min_compatible: u64) -> bool {
    !(protocol_version > 0 && protocol_version < min_compatible)
}

/// What the handshake answers for a decoded `BasicAuth` (its username and
/// password, or the decoder's message): the user to grant a token to, or why not.
pub open spec fn spec_handshake_user(
    auth: Result<(Seq<char>, Seq<char>), Seq<char>>,
    r: Result<String, HandshakeError>,
) -> bool {
    match auth {
        Err(m) => r matches Err(HandshakeError::BadPayload(msg)) && msg@ == m,
        Ok((username, _)) => if username == ROOT_USER@ {
            r matches Ok(user) && user@ == ROOT_USER@
        } else {
            r matches Err(HandshakeError::UnknownUser(name)) && name@ == username
        },
    }
}

/// What prost's `BasicAuth::decode` gives for `payload`: the username and
/// password, or the message of the decode error.
pub uninterp spec fn basic_auth_decoding(payload: Seq<u8>) -> Result<(Seq<char>, Seq<char>), Seq<char>>;

/// Decodes `payload` as a protobuf `BasicAuth` with prost
/// (`BasicAuth::decode`), and renders a decode error with its `Display`.
/// The contract names the result and claims only that it is a function of
/// the payload's bytes.
#[verifier::external_body]
fn decode_basic_auth(payload: &[u8]) -> (r: Result<(String, String), String>)
    ensures
        match r {
            Ok((u, p)) => basic_auth_decoding(payload@) == Ok::<(Seq<char>, Seq<char>), Seq<char>>((u@, p@)),
            Err(m) => basic_auth_decoding(payload@) == Err::<(Seq<char>, Seq<char>), Seq<char>>(m@),
        },
{
    match BasicAuth::decode(payload) {
        Ok(auth) => Ok((auth.username, auth.password)),
        Err(e) => Err(e.to_string()),
    }
}

/// Whether a client's protocol version is accepted (see [`spec_version_accepted`]).
pub fn version_accepted(protocol_version: u64, min_compatible: u64) -> (r: bool)
    ensures
        r == spec_version_accepted(protocol_version, min_compatible),
{
    !(protocol_version > 0 && protocol_version < min_compatible)
}

/// The user that a decoded `BasicAuth` is granted a token for: `root` only.
pub fn handshake_user(auth: Result<(String, String), String>) -> (r: Result<String, HandshakeError>)
    ensures
        spec_handshake_user(
            match auth {
                Ok((u, p)) => Ok::<(Seq<char>, Seq<char>), Seq<char>>((u@, p@)),
                Err(m) => Err::<(Seq<char>, Seq<char>), Seq<char>>(m@),
            },
            r,
        ),
{
    match auth {
        Err(m) => Err(HandshakeError::BadPayload(m)),
        Ok((username, _password)) => {
            let root = string_of(ROOT_USER);
            if username == root {
                Ok(root)
            } else {
                Err(HandshakeError::UnknownUser(username))
            }
        },
    }
}

/// Decides a handshake: the protocol version is checked first, then the
/// payload is decoded as a `BasicAuth`, and only `root` is granted a token.
pub fn authorize_handshake(protocol_version: u64, min_compatible: u64, payload: &[u8]) -> (r: Result<
    String,
    HandshakeError,
>)
    ensures
        !spec_version_accepted(protocol_version, min_compatible) ==> r == Err::<String, HandshakeError>(
            HandshakeError::IncompatibleVersion { protocol_version, min_compatible },
        ),
        spec_version_accepted(protocol_version, min_compatible) ==> spec_handshake_user(
            basic_auth_decoding(payload@),
            r,
        ),
{
    if !version_accepted(protocol_version, min_compatible) {
        return Err(HandshakeError::IncompatibleVersion { protocol_version, min_compatible });
    }
    let auth = decode_basic_auth(payload);
    handshake_user(auth)
}

/// Why a request carries no usable token.
#[derive(Debug, Clone, PartialEq, Eq)]
pub enum TokenError {
    /// The `auth-token-bin` metadata is absent, undecodable or not UTF-8.
    Empty,
}

/// Makes a string of `bytes` with std's `String::from_utf8`: `Some` exactly
/// when the bytes are valid UTF-8, and then the string's encoding is those
/// bytes.
#[verifier::external_body]
fn string_from_utf8(bytes: Vec<u8>) -> (r: Option<String>)
    ensures
        r is Some <==> valid_utf8(bytes@),
        r matches Some(s) ==> encode_utf8(s@) == bytes@,
{
    String::from_utf8(bytes).ok()
}

/// The token text of a request from the raw `auth-token-bin` metadata value:
/// an error when it is absent or not UTF-8.
pub fn auth_token_text(raw: Option<Vec<u8>>) -> (r: Result<String, TokenError>)
    ensures
        match raw {
            None => r == Err::<String, TokenError>(TokenError::Empty),
            Some(bytes) => if valid_utf8(bytes@) {
                r matches Ok(s) && encode_utf8(s@) == bytes@
            } else {
                r == Err::<String, TokenError>(TokenError::Empty)
            },
        },
{
    match raw {
        None => Err(TokenError::Empty),
        Some(bytes) => match string_from_utf8(bytes) {
            Some(s) => Ok(s),
            None => Err(TokenError::Empty),
        },
    }
}

} // verus!

verus! {

/// A client that sends no version (0) is accepted for backward
/// compatibility; one that sends a version is accepted exactly when it is at
/// least the oldest compatible one.
pub proof fn lemma_version_acceptance(protocol_version: u64, min_compatible: u64)
    ensures
        spec_version_accepted(0, min_compatible),
        protocol_version > 0 ==> (spec_version_accepted(protocol_version, min_compatible)
            <==> protocol_version >= min_compatible),
{
}

/// A handshake grants a token to `root` and to nobody else.
pub proof fn lemma_only_root_is_granted(
    auth: Result<(Seq<char>, Seq<char>), Seq<char>>,
    r: Result<String, HandshakeError>,
)
    requires
        spec_handshake_user(auth, r),
    ensures
        r matches Ok(user) ==> user@ == ROOT_USER@,
        r is Ok ==> (auth matches Ok((name, _)) && name == ROOT_USER@),
{
}

} // verus!

verus! {

/// A decoded `BasicAuth` whose username is `root` is always granted, whatever
/// its password.
pub proof fn lemma_root_is_always_granted(password: Seq<char>, r: Result<String, HandshakeError>)
    requires
        spec_handshake_user(Ok((ROOT_USER@, password)), r),
    ensures
        r matches Ok(user) && user@ == "root"@,
{
}

/// The password of a decoded `BasicAuth` never decides the handshake: two
/// payloads with the same username get the same answer.
pub proof fn lemma_password_is_not_checked(
    username: Seq<char>,
    p1: Seq<char>,
    p2: Seq<char>,
    r: Result<String, HandshakeError>,
)
    requires
        spec_handshake_user(Ok((username, p1)), r),
    ensures
        spec_handshake_user(Ok((username, p2)), r),
{
}

/// Any other user is refused by name, and a payload that does not decode is
/// refused with the decoder's message.
pub proof fn lemma_refusals(
    auth: Result<(Seq<char>, Seq<char>), Seq<char>>,
    r: Result<String, HandshakeError>,
)
    requires
        spec_handshake_user(auth, r),
    ensures
        auth matches Ok((name, _)) ==> (name != "root"@ ==> (r matches Err(HandshakeError::UnknownUser(n)) && n@ == name)),
        auth matches Err(m) ==> (r matches Err(HandshakeError::BadPayload(msg)) && msg@ == m),
{
}

} // verus!

verus! {

/// Every chunk but the last holds exactly 16 strings: an export of at least
/// 16 strings hands out 16 first, and a smaller one hands out all of them in
/// one chunk.
pub proof fn lemma_export_chunks_are_full(data: Seq<String>)
    ensures
        data.len() >= 16 ==> export_chunks(data)[0] == data.take(16),
        0 < data.len() < 16 ==> export_chunks(data) == seq![data],
{
    if 0 < data.len() < 16 {
        assert(data.take(data.len() as int) =~= data);
        assert(data.skip(data.len() as int) =~= Seq::<String>::empty());
        assert(export_chunks(data.skip(data.len() as int)) =~= Seq::<Seq<String>>::empty());
        assert(export_chunks(data) =~= seq![data]);
    }
}

} // verus!
