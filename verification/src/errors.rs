//! The error taxonomy of the relay: every failure of one request is reported
//! to the caller as a bad request carrying one of these reasons.

use vstd::prelude::*;

verus! {

/// Why one inbound request was rejected. Every variant maps to a short
/// client-facing reason string; none of them outlives the request.
#[derive(Clone, Copy, Debug, PartialEq, Eq, Structural)]
pub enum RelayError {
    /// The caller-supplied shared secret did not match the configured one.
    InvalidPassphrase,
    /// A binary part carried no content disposition at all.
    MissingContentDisposition,
    /// A binary part carried no filename.
    MissingFilename,
    /// A text part carried no field name.
    MissingName,
    /// Reading a chunk of the body failed.
    FailedToReadChunk,
    /// A text part was not valid UTF-8.
    FailedToReadData,
    /// The required "envelope" field was absent from the form.
    MissingEnvelope,
    /// The "envelope" field was not the expected JSON shape.
    FailedToParseEnvelope,
    /// A display field (from, to, subject or text) was absent from the form.
    MissingDisplayField,
    /// A recipient of the envelope has no configured webhook endpoint.
    MissingTo,
    /// The configured endpoint URL could not be resolved to a webhook.
    InvalidWebhook,
    /// Delivering the notification to the endpoint failed.
    FailedToExecuteWebhook,
}

impl RelayError {
    /// The reason string sent to the caller in the bad-request body.
    pub open spec fn spec_message(self) -> Seq<char> {
        match self {
            RelayError::InvalidPassphrase => "Invalid passphrase"@,
            RelayError::MissingContentDisposition => "Missing content disposition"@,
            RelayError::MissingFilename => "Missing filename"@,
            RelayError::MissingName => "Missing name"@,
            RelayError::FailedToReadChunk => "Failed to read chunk"@,
            RelayError::FailedToReadData => "Failed to read data"@,
            RelayError::MissingEnvelope => "Missing envelope"@,
            RelayError::FailedToParseEnvelope => "Failed to parse envelope"@,
            RelayError::MissingDisplayField => "Missing field"@,
            RelayError::MissingTo => "Missing to"@,
            RelayError::InvalidWebhook => "Invalid webhook"@,
            RelayError::FailedToExecuteWebhook => "Failed to execute webhook"@,
        }
    }

    /// The reason string sent to the caller in the bad-request body.
    pub fn message(&self) -> (r: &'static str)
        ensures
            r@ == self.spec_message(),
    {
        match self {
            RelayError::InvalidPassphrase => "Invalid passphrase",
            RelayError::MissingContentDisposition => "Missing content disposition",
            RelayError::MissingFilename => "Missing filename",
            RelayError::MissingName => "Missing name",
            RelayError::FailedToReadChunk => "Failed to read chunk",
            RelayError::FailedToReadData => "Failed to read data",
            RelayError::MissingEnvelope => "Missing envelope",
            RelayError::FailedToParseEnvelope => "Failed to parse envelope",
            RelayError::MissingDisplayField => "Missing field",
            RelayError::MissingTo => "Missing to",
            RelayError::InvalidWebhook => "Invalid webhook",
            RelayError::FailedToExecuteWebhook => "Failed to execute webhook",
        }
    }
}

} // verus!
