//! The action decoder: parses an opaque text payload into one typed
//! input-device action (a token naming a pointer move, a key press, a scroll,
//! text entry, and so on), or reports why the payload is malformed. Decoding
//! is pure: it touches no input handle and has no side effect, so a decode
//! failure guarantees that no injection was even attempted.
//!
//! The payload grammar itself is an external contract: the tokens travel in
//! RON, a structured text encoding, and `ron`'s deserializer decides
//! acceptance. This module only routes its verdict.

use vstd::prelude::*;

use enigo::agent::Token;

verus! {

/// Whether the RON grammar for input-action tokens accepts the payload text.
/// The verdict of `ron::de::from_str::<Token>` depends on that text alone.
pub uninterp spec fn token_grammar_accepts(payload: Seq<char>) -> bool;

#[verifier::external_type_specification]
#[verifier::external_body]
pub struct ExToken(Token);

#[verifier::external_type_specification]
#[verifier::external_body]
pub struct ExSpannedError(ron::error::SpannedError);

/// A payload the decoder rejected: malformed syntax, an unknown action kind,
/// or an out-of-range field, with a human-readable cause.
#[derive(Debug)]
pub struct DecodeError {
    pub cause: String,
}

/// Relies on `ron::de::from_str::<Token>`: parses the payload as one
/// RON-encoded input-action token; a deterministic function of the text,
/// returning a spanned error when the grammar rejects it.
#[verifier::external_body]
fn parse_token(payload: &str) -> (r: Result<Token, ron::error::SpannedError>)
    ensures
        r is Ok <==> token_grammar_accepts(payload@),
{
    ron::de::from_str(payload)
}

/// Relies on `Display for ron::error::SpannedError` (through `ToString`):
/// renders the parse failure, with its position, as human-readable text.
#[verifier::external_body]
fn spanned_error_text(e: &ron::error::SpannedError) -> String {
    e.to_string()
}

/// Decode an action payload: a fully typed action needing no further
/// validation, or a `DecodeError` naming the cause. Succeeds exactly on the
/// payloads the token grammar accepts; pure either way.
pub fn decode(payload: &str) -> (r: Result<Token, DecodeError>)
    ensures
        r is Ok <==> token_grammar_accepts(payload@),
{
    match parse_token(payload) {
        Ok(token) => Ok(token),
        Err(e) => Err(DecodeError { cause: spanned_error_text(&e) }),
    }
}

} // verus!
