//! The decoded inbound form: named UTF-8 text fields plus binary file
//! attachments, the two distinguished by each part's declared content type.

use vstd::hash_map::StringHashMap;
use vstd::prelude::*;

verus! {

/// One binary file carried by the inbound form.
pub struct Attachment {
    /// The filename declared by the part's content disposition.
    pub filename: String,
    /// The raw bytes of the part, all chunks concatenated.
    pub data: Vec<u8>,
}

/// The mathematical value of an [`Attachment`].
pub struct AttachmentModel {
    pub filename: Seq<char>,
    pub data: Seq<u8>,
}

impl View for Attachment {
    type V = AttachmentModel;

    open spec fn view(&self) -> AttachmentModel {
        AttachmentModel { filename: self.filename@, data: self.data@ }
    }
}

impl DeepView for Attachment {
    type V = AttachmentModel;

    open spec fn deep_view(&self) -> AttachmentModel {
        self.view()
    }
}

/// Everything decoded from one inbound multipart body.
pub struct InboundForm {
    /// Text fields by name. A name submitted twice keeps the later value.
    pub fields: StringHashMap<String>,
    /// File attachments, in arrival order; duplicate filenames are kept.
    pub attachments: Vec<Attachment>,
}

/// The mathematical value of an [`InboundForm`]: the field mapping over
/// character sequences and the attachment sequence in arrival order.
#[verifier::ext_equal]
pub struct FormModel {
    pub fields: Map<Seq<char>, Seq<char>>,
    pub attachments: Seq<AttachmentModel>,
}

impl FormModel {
    /// The form with no fields and no attachments.
    pub open spec fn empty() -> FormModel {
        FormModel { fields: Map::empty(), attachments: Seq::empty() }
    }
}

impl View for InboundForm {
    type V = FormModel;

    open spec fn view(&self) -> FormModel {
        FormModel {
            fields: self.fields@.map_values(|v: String| v@),
            attachments: self.attachments.deep_view(),
        }
    }
}

impl InboundForm {
    /// A form with no fields and no attachments.
    pub fn new() -> (r: InboundForm)
        ensures
            r@ =~= FormModel::empty(),
    {
        let r = InboundForm { fields: StringHashMap::new(), attachments: Vec::new() };
        proof {
            assert(r@.fields =~= Map::<Seq<char>, Seq<char>>::empty());
            assert(r@.attachments =~= Seq::<AttachmentModel>::empty());
        }
        r
    }

    /// The value of the named text field, if the form holds one.
    pub fn field<'a>(&'a self, name: &str) -> (r: Option<&'a String>)
        ensures
            r is Some <==> self@.fields.contains_key(name@),
            r is Some ==> r->Some_0@ == self@.fields[name@],
    {
        self.fields.get(name)
    }
}

} // verus!
