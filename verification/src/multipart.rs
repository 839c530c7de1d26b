//! Decoding an inbound multipart body into an [`InboundForm`].
//!
//! The surrounding binary drains the request stream and hands every part
//! over as plain values: the declared content type, the content-disposition
//! data and the raw chunks, each chunk either its bytes or a read fault.
//! Everything from there on is decided here: a part whose declared type is
//! an opaque binary stream becomes an attachment and must carry a filename;
//! every other part becomes a UTF-8 text field and must carry a field name.

use crate::errors::RelayError;
use crate::form::{Attachment, AttachmentModel, FormModel, InboundForm};
use vstd::prelude::*;
use vstd::utf8::{decode_utf8, valid_utf8};

verus! {

/// The declared media type of one part, split into its type and subtype.
pub struct ContentType {
    /// The top-level type, such as "application".
    pub ctype: String,
    /// The subtype, such as "octet-stream".
    pub subtype: String,
}

impl ContentType {
    /// True when this type declares an opaque binary stream.
    pub open spec fn spec_is_octet_stream(self) -> bool {
        self.ctype@ == "application"@ && self.subtype@ == "octet-stream"@
    }

    /// True when this type declares an opaque binary stream.
    pub fn is_octet_stream(&self) -> (r: bool)
        ensures
            r == self.spec_is_octet_stream(),
    {
        let app: String = "application".to_owned();
        let oct: String = "octet-stream".to_owned();
        self.ctype == app && self.subtype == oct
    }
}

/// One chunk of a part's body: either the bytes read, or a read fault.
pub enum Chunk {
    /// Bytes read from the stream.
    Data(Vec<u8>),
    /// Reading this chunk failed; the whole request is rejected.
    ReadError,
}

/// One part of the multipart body, as plain values.
pub struct Part {
    /// The declared content type of the part, if any.
    pub content_type: Option<ContentType>,
    /// Whether the part carried a content disposition at all.
    pub has_content_disposition: bool,
    /// The filename declared by the content disposition, if any.
    pub filename: Option<String>,
    /// The field name declared by the content disposition, if any.
    pub name: Option<String>,
    /// The body of the part, in stream order.
    pub chunks: Vec<Chunk>,
}

/// The bytes of one chunk; a failed read contributes nothing.
pub open spec fn chunk_data(c: Chunk) -> Seq<u8> {
    match c {
        Chunk::Data(d) => d@,
        Chunk::ReadError => Seq::empty(),
    }
}

/// True when every chunk was read without a fault.
pub open spec fn chunks_ok(chunks: Seq<Chunk>) -> bool {
    forall|i: int| 0 <= i < chunks.len() ==> !(#[trigger] chunks[i] is ReadError)
}

/// All chunk bytes concatenated in stream order.
pub open spec fn concat_chunks(chunks: Seq<Chunk>) -> Seq<u8>
    decreases chunks.len(),
{
    if chunks.len() == 0 {
        Seq::empty()
    } else {
        concat_chunks(chunks.drop_last()) + chunk_data(chunks.last())
    }
}

/// True when the part is to be treated as a binary attachment: its declared
/// content type signals an opaque binary stream.
pub open spec fn is_binary_part(p: Part) -> bool {
    p.content_type is Some && p.content_type->Some_0.spec_is_octet_stream()
}

/// What one decoded part contributes to the form.
pub enum PartValue {
    /// A binary attachment.
    Attach(AttachmentModel),
    /// A named UTF-8 text field.
    Field(Seq<char>, Seq<char>),
}

/// How one part decodes, in the order the faults are discovered: a binary
/// part needs a content disposition and a filename, then its chunks; a text
/// part needs a field name, then its chunks, which must be valid UTF-8.
pub open spec fn decode_part_spec(p: Part) -> Result<PartValue, RelayError> {
    if is_binary_part(p) {
        if !p.has_content_disposition {
            Err(RelayError::MissingContentDisposition)
        } else if p.filename is None {
            Err(RelayError::MissingFilename)
        } else if !chunks_ok(p.chunks@) {
            Err(RelayError::FailedToReadChunk)
        } else {
            Ok(
                PartValue::Attach(
                    AttachmentModel {
                        filename: p.filename->Some_0@,
                        data: concat_chunks(p.chunks@),
                    },
                ),
            )
        }
    } else {
        if p.name is None {
            Err(RelayError::MissingName)
        } else if !chunks_ok(p.chunks@) {
            Err(RelayError::FailedToReadChunk)
        } else if !valid_utf8(concat_chunks(p.chunks@)) {
            Err(RelayError::FailedToReadData)
        } else {
            Ok(PartValue::Field(p.name->Some_0@, decode_utf8(concat_chunks(p.chunks@))))
        }
    }
}

/// Decoding the parts in stream order on top of what was decoded already:
/// the first fault rejects the whole body; an attachment is appended, so
/// arrival order is kept; a field is inserted, so a repeated name keeps the
/// later value.
pub open spec fn decode_parts_from(parts: Seq<Part>, acc: FormModel) -> Result<
    FormModel,
    RelayError,
>
    decreases parts.len(),
{
    if parts.len() == 0 {
        Ok(acc)
    } else {
        match decode_part_spec(parts.first()) {
            Err(e) => Err(e),
            Ok(PartValue::Attach(a)) => decode_parts_from(
                parts.drop_first(),
                FormModel { fields: acc.fields, attachments: acc.attachments.push(a) },
            ),
            Ok(PartValue::Field(n, v)) => decode_parts_from(
                parts.drop_first(),
                FormModel { fields: acc.fields.insert(n, v), attachments: acc.attachments },
            ),
        }
    }
}

/// What decoding an inbound multipart body yields: the form, or the first
/// fault found.
pub open spec fn decode_parts_spec(parts: Seq<Part>) -> Result<FormModel, RelayError> {
    decode_parts_from(parts, FormModel::empty())
}

/// A text part carrying the given field name.
pub open spec fn is_text_part_named(p: Part, name: Seq<char>) -> bool {
    &&& !is_binary_part(p)
    &&& p.name is Some
    &&& p.name->Some_0@ == name
}

/// The decoded text of a part's chunks.
pub open spec fn part_text(p: Part) -> Seq<char> {
    decode_utf8(concat_chunks(p.chunks@))
}

/// The attachment a binary part yields.
pub open spec fn attachment_of(p: Part) -> AttachmentModel {
    AttachmentModel { filename: p.filename->Some_0@, data: concat_chunks(p.chunks@) }
}

/// The files of the binary parts, in arrival order.
pub open spec fn spec_attachments(parts: Seq<Part>) -> Seq<AttachmentModel>
    decreases parts.len(),
{
    if parts.len() == 0 {
        Seq::empty()
    } else if is_binary_part(parts.first()) {
        seq![attachment_of(parts.first())] + spec_attachments(parts.drop_first())
    } else {
        spec_attachments(parts.drop_first())
    }
}

proof fn lemma_decode_first_fault_from(parts: Seq<Part>, acc: FormModel, i: int)
    requires
        0 <= i < parts.len(),
        forall|j: int| 0 <= j < i ==> decode_part_spec(#[trigger] parts[j]) is Ok,
        decode_part_spec(parts[i]) is Err,
    ensures
        decode_parts_from(parts, acc) == Err::<FormModel, RelayError>(
            decode_part_spec(parts[i])->Err_0,
        ),
    decreases i,
{
    assert(parts.first() == parts[0]);
    if i == 0 {
    } else {
        let rest = parts.drop_first();
        assert(rest[i - 1] == parts[i]);
        assert forall|j: int| 0 <= j < i - 1 implies decode_part_spec(#[trigger] rest[j]) is Ok by {
            assert(rest[j] == parts[j + 1]);
        }
        match decode_part_spec(parts.first()) {
            Ok(PartValue::Attach(a)) => {
                lemma_decode_first_fault_from(
                    rest,
                    FormModel { fields: acc.fields, attachments: acc.attachments.push(a) },
                    i - 1,
                );
            },
            Ok(PartValue::Field(n, v)) => {
                lemma_decode_first_fault_from(
                    rest,
                    FormModel { fields: acc.fields.insert(n, v), attachments: acc.attachments },
                    i - 1,
                );
            },
            Err(_) => {
                assert(decode_part_spec(parts[0]) is Ok);
            },
        }
    }
}

/// Decoding reports the first fault: a body whose parts decode cleanly up
/// to a binary attachment part that lacks a filename is rejected with the
/// missing-filename fault, whatever follows that part.
pub proof fn lemma_missing_filename_rejected(parts: Seq<Part>, i: int)
    requires
        0 <= i < parts.len(),
        forall|j: int| 0 <= j < i ==> decode_part_spec(#[trigger] parts[j]) is Ok,
        is_binary_part(parts[i]),
        parts[i].has_content_disposition,
        parts[i].filename is None,
    ensures
        decode_parts_spec(parts) == Err::<FormModel, RelayError>(RelayError::MissingFilename),
{
    lemma_decode_first_fault_from(parts, FormModel::empty(), i);
}

proof fn lemma_fields_untouched(parts: Seq<Part>, acc: FormModel, name: Seq<char>)
    requires
        decode_parts_from(parts, acc) is Ok,
        forall|j: int| 0 <= j < parts.len() ==> !is_text_part_named(#[trigger] parts[j], name),
    ensures
        ({
            let f = decode_parts_from(parts, acc)->Ok_0;
            &&& f.fields.contains_key(name) <==> acc.fields.contains_key(name)
            &&& f.fields.contains_key(name) ==> f.fields[name] == acc.fields[name]
        }),
    decreases parts.len(),
{
    assert(parts.len() > 0 ==> parts.first() == parts[0]);
    if parts.len() == 0 {
    } else {
        let rest = parts.drop_first();
        assert forall|j: int| 0 <= j < rest.len() implies !is_text_part_named(
            #[trigger] rest[j],
            name,
        ) by {
            assert(rest[j] == parts[j + 1]);
        }
        match decode_part_spec(parts.first()) {
            Ok(PartValue::Attach(a)) => {
                lemma_fields_untouched(
                    rest,
                    FormModel { fields: acc.fields, attachments: acc.attachments.push(a) },
                    name,
                );
            },
            Ok(PartValue::Field(n, v)) => {
                assert(!is_text_part_named(parts[0], name));
                assert(n != name);
                lemma_fields_untouched(
                    rest,
                    FormModel { fields: acc.fields.insert(n, v), attachments: acc.attachments },
                    name,
                );
            },
            Err(_) => {},
        }
    }
}

proof fn lemma_fields_last_from(parts: Seq<Part>, acc: FormModel, name: Seq<char>, i: int)
    requires
        decode_parts_from(parts, acc) is Ok,
        0 <= i < parts.len(),
        is_text_part_named(parts[i], name),
        forall|j: int| i < j < parts.len() ==> !is_text_part_named(#[trigger] parts[j], name),
    ensures
        decode_parts_from(parts, acc)->Ok_0.fields.contains_key(name),
        decode_parts_from(parts, acc)->Ok_0.fields[name] == part_text(parts[i]),
    decreases i,
{
    assert(parts.first() == parts[0]);
    let rest = parts.drop_first();
    if i == 0 {
        assert forall|j: int| 0 <= j < rest.len() implies !is_text_part_named(
            #[trigger] rest[j],
            name,
        ) by {
            assert(rest[j] == parts[j + 1]);
        }
        match decode_part_spec(parts.first()) {
            Ok(PartValue::Field(n, v)) => {
                assert(n == name);
                assert(v == part_text(parts[0]));
                lemma_fields_untouched(
                    rest,
                    FormModel { fields: acc.fields.insert(n, v), attachments: acc.attachments },
                    name,
                );
            },
            Ok(PartValue::Attach(_)) => {},
            Err(_) => {},
        }
    } else {
        assert(rest[i - 1] == parts[i]);
        assert forall|j: int| i - 1 < j < rest.len() implies !is_text_part_named(
            #[trigger] rest[j],
            name,
        ) by {
            assert(rest[j] == parts[j + 1]);
        }
        match decode_part_spec(parts.first()) {
            Ok(PartValue::Attach(a)) => {
                lemma_fields_last_from(
                    rest,
                    FormModel { fields: acc.fields, attachments: acc.attachments.push(a) },
                    name,
                    i - 1,
                );
            },
            Ok(PartValue::Field(n, v)) => {
                lemma_fields_last_from(
                    rest,
                    FormModel { fields: acc.fields.insert(n, v), attachments: acc.attachments },
                    name,
                    i - 1,
                );
            },
            Err(_) => {},
        }
    }
}

/// Last write wins: when a body decodes cleanly and its last text part
/// named `name` is the one at `i`, the decoded form holds that part's text
/// under `name` — an earlier part of the same name is overwritten.
pub proof fn lemma_last_write_wins(parts: Seq<Part>, name: Seq<char>, i: int)
    requires
        decode_parts_spec(parts) is Ok,
        0 <= i < parts.len(),
        is_text_part_named(parts[i], name),
        forall|j: int| i < j < parts.len() ==> !is_text_part_named(#[trigger] parts[j], name),
    ensures
        decode_parts_spec(parts)->Ok_0.fields.contains_key(name),
        decode_parts_spec(parts)->Ok_0.fields[name] == part_text(parts[i]),
{
    lemma_fields_last_from(parts, FormModel::empty(), name, i);
}

proof fn lemma_attachments_from(parts: Seq<Part>, acc: FormModel)
    requires
        decode_parts_from(parts, acc) is Ok,
    ensures
        decode_parts_from(parts, acc)->Ok_0.attachments == acc.attachments + spec_attachments(
            parts,
        ),
    decreases parts.len(),
{
    if parts.len() == 0 {
        assert(acc.attachments + Seq::<AttachmentModel>::empty() =~= acc.attachments);
    } else {
        let rest = parts.drop_first();
        match decode_part_spec(parts.first()) {
            Ok(PartValue::Attach(a)) => {
                lemma_attachments_from(
                    rest,
                    FormModel { fields: acc.fields, attachments: acc.attachments.push(a) },
                );
                assert(a == attachment_of(parts.first()));
                assert(acc.attachments.push(a) + spec_attachments(rest) =~= acc.attachments + (
                seq![a] + spec_attachments(rest)));
            },
            Ok(PartValue::Field(n, v)) => {
                lemma_attachments_from(
                    rest,
                    FormModel { fields: acc.fields.insert(n, v), attachments: acc.attachments },
                );
            },
            Err(_) => {},
        }
    }
}

/// Arrival order is kept: a body that decodes cleanly yields exactly the
/// binary parts' files, in stream order, duplicates included.
pub proof fn lemma_attachments_in_arrival_order(parts: Seq<Part>)
    requires
        decode_parts_spec(parts) is Ok,
    ensures
        decode_parts_spec(parts)->Ok_0.attachments == spec_attachments(parts),
{
    lemma_attachments_from(parts, FormModel::empty());
    assert(Seq::<AttachmentModel>::empty() + spec_attachments(parts) =~= spec_attachments(parts));
}

/// Relies on std's String::from_utf8: it succeeds exactly on valid UTF-8
/// and returns the decoded characters.
#[verifier::external_body]
fn utf8_to_string(bytes: Vec<u8>) -> (r: Option<String>)
    ensures
        r is Some <==> valid_utf8(bytes@),
        r is Some ==> r->Some_0@ == decode_utf8(bytes@),
{
    String::from_utf8(bytes).ok()
}

/// All chunk bytes of one part concatenated, or the read fault.
fn collect_chunks(chunks: &Vec<Chunk>) -> (r: Result<Vec<u8>, RelayError>)
    ensures
        r is Ok <==> chunks_ok(chunks@),
        r is Ok ==> r->Ok_0@ == concat_chunks(chunks@),
        r is Err ==> r->Err_0 == RelayError::FailedToReadChunk,
{
    let mut bytes: Vec<u8> = Vec::new();
    let mut j: usize = 0;
    proof {
        assert(chunks@.take(0) =~= Seq::<Chunk>::empty());
    }
    while j < chunks.len()
        invariant
            j <= chunks.len(),
            chunks_ok(chunks@.take(j as int)),
            bytes@ == concat_chunks(chunks@.take(j as int)),
        decreases chunks.len() - j,
    {
        match &chunks[j] {
            Chunk::Data(d) => {
                bytes.extend_from_slice(d.as_slice());
            },
            Chunk::ReadError => {
                return Err(RelayError::FailedToReadChunk);
            },
        }
        proof {
            let taken = chunks@.take(j + 1);
            assert(taken.drop_last() =~= chunks@.take(j as int));
            assert(taken.last() == chunks@[j as int]);
        }
        j = j + 1;
    }
    proof {
        assert(chunks@.take(chunks@.len() as int) =~= chunks@);
    }
    Ok(bytes)
}

/// Decodes the parts of one inbound multipart body into an [`InboundForm`],
/// exactly as [`decode_parts_spec`] says: the first fault rejects the body;
/// attachments keep arrival order; a repeated field name keeps the later
/// value.
pub fn decode_multipart(parts: &Vec<Part>) -> (r: Result<InboundForm, RelayError>)
    ensures
        r is Ok <==> decode_parts_spec(parts@) is Ok,
        r is Ok ==> r->Ok_0@ == decode_parts_spec(parts@)->Ok_0,
        r is Err ==> r->Err_0 == decode_parts_spec(parts@)->Err_0,
{
    let mut form = InboundForm::new();
    let mut i: usize = 0;
    proof {
        assert(parts@.skip(0) =~= parts@);
    }
    while i < parts.len()
        invariant
            i <= parts.len(),
            decode_parts_spec(parts@) == decode_parts_from(parts@.skip(i as int), form@),
        decreases parts.len() - i,
    {
        let ghost prev = form@;
        let ghost rest = parts@.skip(i as int);
        proof {
            assert(rest.first() == parts@[i as int]);
            assert(rest.drop_first() =~= parts@.skip(i + 1));
        }
        let p = &parts[i];
        let binary = match &p.content_type {
            Some(ct) => ct.is_octet_stream(),
            None => false,
        };
        if binary {
            if !p.has_content_disposition {
                return Err(RelayError::MissingContentDisposition);
            }
            let filename = match &p.filename {
                Some(f) => f.clone(),
                None => {
                    return Err(RelayError::MissingFilename);
                },
            };
            let data = match collect_chunks(&p.chunks) {
                Ok(d) => d,
                Err(e) => {
                    return Err(e);
                },
            };
            let att = Attachment { filename, data };
            form.attachments.push(att);
            proof {
                assert(form@.attachments =~= prev.attachments.push(att@));
                assert(form@.fields =~= prev.fields);
                assert(form@ =~= FormModel {
                    fields: prev.fields,
                    attachments: prev.attachments.push(att@),
                });
            }
        } else {
            let name = match &p.name {
                Some(n) => n.clone(),
                None => {
                    return Err(RelayError::MissingName);
                },
            };
            let data = match collect_chunks(&p.chunks) {
                Ok(d) => d,
                Err(e) => {
                    return Err(e);
                },
            };
            let text = match utf8_to_string(data) {
                Some(t) => t,
                None => {
                    return Err(RelayError::FailedToReadData);
                },
            };
            let ghost text_view = text@;
            form.fields.insert(name.clone(), text);
            proof {
                assert(form@.fields =~= prev.fields.insert(name@, text_view));
                assert(form@.attachments =~= prev.attachments);
                assert(form@ =~= FormModel {
                    fields: prev.fields.insert(name@, text_view),
                    attachments: prev.attachments,
                });
            }
        }
        i = i + 1;
    }
    proof {
        assert(parts@.skip(parts@.len() as int) =~= Seq::<Part>::empty());
    }
    Ok(form)
}

} // verus!
