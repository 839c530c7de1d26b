//! The request pipeline up to dispatch: the passphrase guard, the multipart
//! decode and the envelope resolution, in that order. The guard runs before
//! any part of the body is examined; a guard failure therefore rejects the
//! request with nothing decoded and nothing delivered.

use crate::errors::RelayError;
use crate::form::{FormModel, InboundForm};
use crate::json::{parse_envelope, parse_envelope_spec};
use crate::models::{Envelope, EnvelopeModel, QueryParameters};
use crate::multipart::{decode_multipart, decode_parts_spec, Part};
use vstd::prelude::*;

verus! {

/// True when the caller-supplied passphrase matches the configured secret.
pub open spec fn passphrase_ok(supplied: Seq<char>, secret: Seq<char>) -> bool {
    supplied == secret
}

/// The passphrase guard: compares the caller-supplied shared secret
/// against the configured one.
pub fn check_passphrase(query: &QueryParameters, secret: &String) -> (r: bool)
    ensures
        r == passphrase_ok(query@, secret@),
{
    query.passphrase == *secret
}

/// What receiving one request yields before any dispatch: the decoded form
/// and the resolved envelope, or the first fault. The passphrase is
/// checked first; then the parts are decoded; then the form must hold an
/// "envelope" field whose text parses as an envelope.
pub open spec fn spec_receive(secret: Seq<char>, supplied: Seq<char>, parts: Seq<Part>) -> Result<
    (FormModel, EnvelopeModel),
    RelayError,
> {
    if !passphrase_ok(supplied, secret) {
        Err(RelayError::InvalidPassphrase)
    } else {
        match decode_parts_spec(parts) {
            Err(e) => Err(e),
            Ok(f) => {
                if !f.fields.contains_key("envelope"@) {
                    Err(RelayError::MissingEnvelope)
                } else {
                    match parse_envelope_spec(f.fields["envelope"@]) {
                        None => Err(RelayError::FailedToParseEnvelope),
                        Some(env) => Ok((f, env)),
                    }
                }
            },
        }
    }
}

/// The guard short-circuits: a request with a wrong passphrase is
/// rejected as such whatever the body holds — no part is decoded, no
/// envelope is resolved, and the dispatcher is never reached, so no
/// outbound delivery arises from the request.
pub proof fn lemma_wrong_passphrase_rejected(
    secret: Seq<char>,
    supplied: Seq<char>,
    parts: Seq<Part>,
)
    requires
        !passphrase_ok(supplied, secret),
    ensures
        spec_receive(secret, supplied, parts) == Err::<(FormModel, EnvelopeModel), RelayError>(
            RelayError::InvalidPassphrase,
        ),
{
}

/// Receives one request up to dispatch, exactly as [`spec_receive`] says:
/// the guard first, then the multipart decode, then the envelope.
pub fn receive(secret: &String, query: &QueryParameters, parts: &Vec<Part>) -> (r: Result<
    (InboundForm, Envelope),
    RelayError,
>)
    ensures
        ({
            let s = spec_receive(secret@, query@, parts@);
            match r {
                Ok(ok) => s is Ok && ok.0@ == s->Ok_0.0 && ok.1@ == s->Ok_0.1,
                Err(e) => s is Err && e == s->Err_0,
            }
        }),
{
    if !check_passphrase(query, secret) {
        return Err(RelayError::InvalidPassphrase);
    }
    let form = match decode_multipart(parts) {
        Ok(f) => f,
        Err(e) => {
            return Err(e);
        },
    };
    let envelope_text = match form.field("envelope") {
        Some(t) => t,
        None => {
            return Err(RelayError::MissingEnvelope);
        },
    };
    let envelope = match parse_envelope(envelope_text.as_str()) {
        Ok(env) => env,
        Err(e) => {
            return Err(e);
        },
    };
    Ok((form, envelope))
}

} // verus!
