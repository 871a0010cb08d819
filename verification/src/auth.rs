//! The login exchange with the auth server, as far as it is bytes: the
//! handshake and the login request that are sent, and the lengths that are
//! read back. Connecting, encrypting the password and reading from the
//! socket are the caller's part.

use crate::packets::spec_be_bytes_u32;
use crate::varint::{encode_varint, spec_encode, unsigned_of};
use vstd::prelude::*;
use vstd::string::StringSliceAdditionalSpecFns;

verus! {

/// The number every handshake starts with.
pub const HANDSHAKE_MAGIC: u32 = 1917264919;

/// The request type of a login.
pub const AUTH_REQUEST_TYPE: i32 = 4;

/// The longest token the server may send.
pub const MAX_TOKEN_LEN: usize = 1024;

/// The length of the modulus in a handshake.
pub const PADDED_MODULUS_LEN: usize = 257;

/// What a login gives.
#[derive(Debug)]
pub struct AuthData {
    pub access_token: String,
    pub profile: String,
}

/// What a login that ran in the background reports.
#[derive(Debug)]
pub enum AuthResult {
    Success { account_name: Option<String>, access_token: String, profile: String, username: String },
    Error { account_name: Option<String>, message: String },
}

fn append(out: &mut Vec<u8>, bytes: &[u8])
    ensures
        final(out)@ == old(out)@ + bytes@,
{
    let mut i: usize = 0;
    while i < bytes.len()
        invariant
            i <= bytes@.len(),
            out@ == old(out)@ + bytes@.take(i as int),
        decreases bytes@.len() - i,
    {
        out.push(bytes[i]);
        assert(out@ =~= old(out)@ + bytes@.take(i + 1));
        i += 1;
    }
    assert(bytes@.take(bytes@.len() as int) =~= bytes@);
}

/// The bytes of a handshake: the magic number in four bytes, most
/// significant first, the length of the modulus as a variable-length
/// integer, the modulus, and the request type as a variable-length integer.
pub open spec fn spec_handshake(padded_modulus: Seq<u8>, request_type: i32) -> Seq<u8> {
    spec_be_bytes_u32(HANDSHAKE_MAGIC) + spec_encode(
        unsigned_of(padded_modulus.len() as i32),
    ) + padded_modulus + spec_encode(unsigned_of(request_type))
}

/// Builds a handshake, see [`spec_handshake`].
pub fn build_handshake(padded_modulus: &[u8], request_type: i32) -> (hs: Vec<u8>)
    ensures
        hs@ == spec_handshake(padded_modulus@, request_type),
{
    let mut hs: Vec<u8> = Vec::new();
    hs.push((HANDSHAKE_MAGIC / 0x100_0000) as u8);
    hs.push(((HANDSHAKE_MAGIC / 0x1_0000) % 0x100) as u8);
    hs.push(((HANDSHAKE_MAGIC / 0x100) % 0x100) as u8);
    hs.push((HANDSHAKE_MAGIC % 0x100) as u8);
    assert(hs@ =~= spec_be_bytes_u32(HANDSHAKE_MAGIC));
    let len = encode_varint(#[verifier::truncate] (padded_modulus.len() as i32));
    append(&mut hs, len.as_slice());
    append(&mut hs, padded_modulus);
    let kind = encode_varint(request_type);
    append(&mut hs, kind.as_slice());
    hs
}

/// The bytes of a login request: the length of the user name as a
/// variable-length integer, the name, the length of the encrypted password
/// as a variable-length integer, the encrypted password, and a byte 1.
pub open spec fn spec_login_payload(username: Seq<u8>, encrypted_password: Seq<u8>) -> Seq<u8> {
    spec_encode(unsigned_of(username.len() as i32)) + username + spec_encode(
        unsigned_of(encrypted_password.len() as i32),
    ) + encrypted_password + seq![1u8]
}

/// Builds a login request, see [`spec_login_payload`].
pub fn build_login_payload(username: &str, encrypted_password: &[u8]) -> (login: Vec<u8>)
    ensures
        login@ == spec_login_payload(username.spec_bytes(), encrypted_password@),
{
    let name = username.as_bytes();
    let mut login: Vec<u8> = encode_varint(#[verifier::truncate] (name.len() as i32));
    append(&mut login, name);
    let len = encode_varint(#[verifier::truncate] (encrypted_password.len() as i32));
    append(&mut login, len.as_slice());
    append(&mut login, encrypted_password);
    login.push(1);
    login
}

/// The modulus of a public key as the handshake carries it: a zero byte
/// before a modulus whose first bit is set, then zeros in front up to 257
/// bytes.
pub open spec fn spec_padded_modulus(modulus: Seq<u8>) -> Seq<u8> {
    let signed = if modulus.len() > 0 && modulus[0] >= 0x80 {
        seq![0u8] + modulus
    } else {
        modulus
    };
    Seq::new((PADDED_MODULUS_LEN - signed.len()) as nat, |i: int| 0u8) + signed
}

/// Pads the big-endian bytes of a modulus for the handshake. `None` for a
/// modulus that does not fit in 257 bytes.
pub fn padded_modulus_be(modulus: &[u8]) -> (r: Option<Vec<u8>>)
    ensures
        ({
            let extra: int = if modulus@.len() > 0 && modulus@[0] >= 0x80 {
                1
            } else {
                0
            };
            if modulus@.len() + extra <= PADDED_MODULUS_LEN {
                r is Some && r->0@ == spec_padded_modulus(modulus@) && r->0@.len()
                    == PADDED_MODULUS_LEN
            } else {
                r is None
            }
        }),
{
    let n = modulus.len();
    let sign: usize = if n > 0 && modulus[0] >= 0x80 {
        1
    } else {
        0
    };
    if n > PADDED_MODULUS_LEN - sign {
        return None;
    }
    let zeros = PADDED_MODULUS_LEN - n;
    let mut out: Vec<u8> = Vec::new();
    let mut i: usize = 0;
    while i < zeros
        invariant
            i <= zeros,
            out@ == Seq::new(i as nat, |k: int| 0u8),
        decreases zeros - i,
    {
        out.push(0);
        assert(out@ =~= Seq::new((i + 1) as nat, |k: int| 0u8));
        i += 1;
    }
    append(&mut out, modulus);
    assert(out@ =~= spec_padded_modulus(modulus@));
    Some(out)
}

/// The length of the token that follows, from the four bytes before it: the
/// magnitude of the number they spell. `None` for more than 1024.
pub fn token_length(tok_int: i32) -> (r: Option<usize>)
    ensures
        ({
            let magnitude: int = if tok_int < 0 {
                -(tok_int as int)
            } else {
                tok_int as int
            };
            r == (if magnitude <= MAX_TOKEN_LEN {
                Some(magnitude as usize)
            } else {
                None
            })
        }),
{
    let magnitude: i64 = if tok_int < 0 {
        -(tok_int as i64)
    } else {
        tok_int as i64
    };
    if magnitude > 1024 {
        None
    } else {
        Some(magnitude as usize)
    }
}

} // verus!
