//! Plain data carried through one request: the query parameters and the
//! delivery envelope extracted from the form.

use vstd::prelude::*;

verus! {

/// The delivery envelope: the authoritative recipient list and sender,
/// decoded from the JSON text of the form's "envelope" field.
pub struct Envelope {
    /// Recipient addresses, in the order they are to be notified.
    /// May be empty: a valid envelope that asks for no deliveries.
    pub to: Vec<String>,
    /// The sender address.
    pub from: String,
}

/// The mathematical value of an [`Envelope`]: the recipient list and the
/// sender as character sequences.
pub struct EnvelopeModel {
    pub to: Seq<Seq<char>>,
    pub from: Seq<char>,
}

impl View for Envelope {
    type V = EnvelopeModel;

    open spec fn view(&self) -> EnvelopeModel {
        EnvelopeModel { to: self.to.deep_view(), from: self.from@ }
    }
}

/// The query parameters of the transfer endpoint.
pub struct QueryParameters {
    /// The caller-supplied shared secret.
    pub passphrase: String,
}

impl View for QueryParameters {
    type V = Seq<char>;

    open spec fn view(&self) -> Seq<char> {
        self.passphrase@
    }
}

} // verus!
