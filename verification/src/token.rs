//! The bearer token that authenticates the shell to its worker: sixteen
//! bytes from the operating system's random source, written as 32 lowercase
//! hexadecimal digits.

use vstd::prelude::*;

verus! {

/// Number of random bytes in a token.
pub const TOKEN_BYTES: usize = 16;

/// Why no token could be made.
#[derive(Clone, Copy, Debug, PartialEq, Eq, Structural)]
pub enum TokenError {
    /// The operating system's random source gave nothing. There is no safe
    /// substitute; the shell must not start.
    EntropyUnavailable,
}

/// The error of the rand crate's `OsRng`, passed on unopened.
#[verifier::external_type_specification]
#[verifier::external_body]
pub struct ExOsError(rand::rand_core::OsError);

/// The lowercase hexadecimal digit for `nibble`, which is below sixteen.
pub open spec fn hex_digit(nibble: nat) -> char {
    if nibble == 0 {
        '0'
    } else if nibble == 1 {
        '1'
    } else if nibble == 2 {
        '2'
    } else if nibble == 3 {
        '3'
    } else if nibble == 4 {
        '4'
    } else if nibble == 5 {
        '5'
    } else if nibble == 6 {
        '6'
    } else if nibble == 7 {
        '7'
    } else if nibble == 8 {
        '8'
    } else if nibble == 9 {
        '9'
    } else if nibble == 10 {
        'a'
    } else if nibble == 11 {
        'b'
    } else if nibble == 12 {
        'c'
    } else if nibble == 13 {
        'd'
    } else if nibble == 14 {
        'e'
    } else {
        'f'
    }
}

/// Two digits per byte, the high half first.
pub open spec fn hex_lower(bytes: Seq<u8>) -> Seq<char> {
    Seq::new(
        2 * bytes.len(),
        |i: int|
            hex_digit(
                if i % 2 == 0 {
                    (bytes[i / 2] / 16) as nat
                } else {
                    (bytes[i / 2] % 16) as nat
                },
            ),
    )
}

/// Whether `c` is a digit or one of `a` to `f`.
pub open spec fn is_lower_hex(c: char) -> bool {
    ('0' <= c <= '9') || ('a' <= c <= 'f')
}

/// Whether `text` has the form of a token: 32 lowercase hexadecimal digits.
pub open spec fn is_token(text: Seq<char>) -> bool {
    &&& text.len() == 2 * TOKEN_BYTES
    &&& forall|i: int| 0 <= i < text.len() ==> is_lower_hex(#[trigger] text[i])
}

/// Fills `key` from the operating system's random source by
/// `OsRng::try_fill_bytes` of the rand crate. Nothing is claimed of the bytes,
/// nor that the call succeeds.
#[verifier::external_body]
fn fill_from_os(key: &mut [u8; 16]) -> (filled: Result<(), rand::rand_core::OsError>) {
    rand::TryRngCore::try_fill_bytes(&mut rand::rngs::OsRng, key)
}

/// Writes `bytes` in hexadecimal by `hex::encode`, which gives each byte two
/// lowercase digits, the high half first.
#[verifier::external_body]
fn hex_encode(bytes: &[u8; 16]) -> (text: String)
    ensures
        text@ == hex_lower(bytes@),
{
    hex::encode(bytes)
}

/// Hexadecimal text has two digits per byte and no other character.
pub proof fn lemma_hex_lower_shape(bytes: Seq<u8>)
    ensures
        hex_lower(bytes).len() == 2 * bytes.len(),
        forall|i: int| 0 <= i < hex_lower(bytes).len() ==> is_lower_hex(#[trigger] hex_lower(bytes)[i]),
{
}

/// The value of a hexadecimal digit.
pub open spec fn hex_value(c: char) -> nat {
    if '0' <= c <= '9' {
        (c as nat - '0' as nat) as nat
    } else {
        (c as nat - 'a' as nat + 10) as nat
    }
}

/// Different keys give different tokens: the bytes can be read back from the
/// text.
pub proof fn lemma_hex_lower_injective(a: Seq<u8>, b: Seq<u8>)
    requires
        hex_lower(a) == hex_lower(b),
    ensures
        a == b,
{
    assert(a.len() == b.len()) by {
        assert(hex_lower(a).len() == 2 * a.len());
        assert(hex_lower(b).len() == 2 * b.len());
    }
    assert forall|k: int| 0 <= k < a.len() implies a[k] == b[k] by {
        let high_a = hex_lower(a)[2 * k];
        let low_a = hex_lower(a)[2 * k + 1];
        let high_b = hex_lower(b)[2 * k];
        let low_b = hex_lower(b)[2 * k + 1];
        assert(hex_value(high_a) == a[k] / 16);
        assert(hex_value(low_a) == a[k] % 16);
        assert(hex_value(high_b) == b[k] / 16);
        assert(hex_value(low_b) == b[k] % 16);
    }
    assert(a =~= b);
}

/// The token for a key of sixteen bytes.
pub fn token_from_key(key: &[u8; 16]) -> (token: String)
    ensures
        token@ == hex_lower(key@),
        is_token(token@),
{
    proof {
        lemma_hex_lower_shape(key@);
    }
    hex_encode(key)
}

/// What becomes of an attempt to fill a key: the token of the key if the
/// random source delivered, the error if it did not.
pub fn token_from_entropy<E>(key: &[u8; 16], filled: Result<(), E>) -> (token: Result<
    String,
    TokenError,
>)
    ensures
        filled is Ok ==> token is Ok && token->Ok_0@ == hex_lower(key@),
        filled is Err ==> token == Err::<String, TokenError>(TokenError::EntropyUnavailable),
        token matches Ok(text) ==> is_token(text@),
{
    match filled {
        Ok(()) => Ok(token_from_key(key)),
        Err(_) => Err(TokenError::EntropyUnavailable),
    }
}

/// Makes a fresh token. Whatever the random source delivers, a token that
/// comes back is 32 lowercase hexadecimal digits.
pub fn generate_secure_token() -> (token: Result<String, TokenError>)
    ensures
        token matches Ok(text) ==> is_token(text@),
        token matches Err(error) ==> error == TokenError::EntropyUnavailable,
{
    let mut key = [0u8; 16];
    let filled = fill_from_os(&mut key);
    token_from_entropy(&key, filled)
}

} // verus!
