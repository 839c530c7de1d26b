//! The notification dispatcher: one delivery per recipient of the envelope,
//! in envelope order, each carrying the full attachment set.
//!
//! The step is pure: given the configuration, the decoded form, the
//! envelope and how many recipients are already done, it decides what
//! happens next — the next delivery to perform, a fault that aborts the
//! whole request, or completion. The surrounding binary performs each
//! delivery and asks for the next step, so the first fault leaves later
//! recipients untried while earlier deliveries stand.

use crate::config::ConfigWebhook;
use crate::errors::RelayError;
use crate::form::{Attachment, AttachmentModel, FormModel, InboundForm};
use crate::models::Envelope;
use vstd::prelude::*;

verus! {

/// One labeled text field of the embedded card.
pub struct EmbedField {
    /// The configured label.
    pub label: String,
    /// The value taken from the inbound form.
    pub value: String,
    /// Whether the field renders inline.
    pub inline: bool,
}

/// The mathematical value of an [`EmbedField`].
pub struct EmbedFieldModel {
    pub label: Seq<char>,
    pub value: Seq<char>,
    pub inline: bool,
}

impl View for EmbedField {
    type V = EmbedFieldModel;

    open spec fn view(&self) -> EmbedFieldModel {
        EmbedFieldModel { label: self.label@, value: self.value@, inline: self.inline }
    }
}

impl DeepView for EmbedField {
    type V = EmbedFieldModel;

    open spec fn deep_view(&self) -> EmbedFieldModel {
        self.view()
    }
}

/// The outbound notification built for one recipient: the configured
/// identity and title, the four labeled display fields, and every
/// attachment of the inbound form.
pub struct OutboundNotification {
    /// The display name the notification is posted under.
    pub username: String,
    /// The avatar URL the notification is posted under.
    pub avatar_url: String,
    /// The title of the embedded card.
    pub title: String,
    /// The labeled display fields: sender, recipient, subject, body.
    pub fields: Vec<EmbedField>,
    /// Every attachment of the inbound form, in arrival order.
    pub attachments: Vec<Attachment>,
}

/// The mathematical value of an [`OutboundNotification`].
pub struct NotificationModel {
    pub username: Seq<char>,
    pub avatar_url: Seq<char>,
    pub title: Seq<char>,
    pub fields: Seq<EmbedFieldModel>,
    pub attachments: Seq<AttachmentModel>,
}

impl View for OutboundNotification {
    type V = NotificationModel;

    open spec fn view(&self) -> NotificationModel {
        NotificationModel {
            username: self.username@,
            avatar_url: self.avatar_url@,
            title: self.title@,
            fields: self.fields.deep_view(),
            attachments: self.attachments.deep_view(),
        }
    }
}

/// One delivery to perform: the endpoint URL and the notification.
pub struct Delivery {
    /// The configured endpoint URL of the recipient.
    pub url: String,
    /// The notification to post there.
    pub notification: OutboundNotification,
}

/// The mathematical value of a [`Delivery`].
pub struct DeliveryModel {
    pub url: Seq<char>,
    pub notification: NotificationModel,
}

impl View for Delivery {
    type V = DeliveryModel;

    open spec fn view(&self) -> DeliveryModel {
        DeliveryModel { url: self.url@, notification: self.notification@ }
    }
}

/// True when the form carries all four display fields the notification
/// shows: "from", "to", "subject" and "text".
pub open spec fn display_fields_present(f: FormModel) -> bool {
    &&& f.fields.contains_key("from"@)
    &&& f.fields.contains_key("to"@)
    &&& f.fields.contains_key("subject"@)
    &&& f.fields.contains_key("text"@)
}

/// The notification built from the configured labels and the form's
/// display fields, carrying the form's full attachment sequence.
pub open spec fn spec_notification(cfg: ConfigWebhook, f: FormModel) -> NotificationModel
    recommends
        display_fields_present(f),
{
    NotificationModel {
        username: cfg.username@,
        avatar_url: cfg.avatar_url@,
        title: cfg.title@,
        fields: seq![
            EmbedFieldModel { label: cfg.from@, value: f.fields["from"@], inline: true },
            EmbedFieldModel { label: cfg.to@, value: f.fields["to"@], inline: true },
            EmbedFieldModel { label: cfg.subject@, value: f.fields["subject"@], inline: true },
            EmbedFieldModel { label: cfg.text@, value: f.fields["text"@], inline: false },
        ],
        attachments: f.attachments,
    }
}

/// What the dispatcher decides once `idx` recipients are done: completion
/// when every recipient is served; otherwise the recipient is resolved
/// through the map — an unmapped recipient aborts the whole request — and
/// a missing display field aborts it too; else the next delivery is owed.
pub open spec fn spec_next_delivery(
    cfg: ConfigWebhook,
    f: FormModel,
    to: Seq<Seq<char>>,
    idx: int,
) -> Result<Option<DeliveryModel>, RelayError>
    recommends
        0 <= idx <= to.len(),
{
    if idx == to.len() {
        Ok(None)
    } else if !cfg.url@.contains_key(to[idx]) {
        Err(RelayError::MissingTo)
    } else if !display_fields_present(f) {
        Err(RelayError::MissingDisplayField)
    } else {
        Ok(Some(DeliveryModel { url: cfg.url@[to[idx]]@, notification: spec_notification(cfg, f) }))
    }
}

/// An empty recipient list completes at once: the first dispatch step is
/// already completion, so the request succeeds with zero deliveries.
pub proof fn lemma_empty_envelope_no_deliveries(
    cfg: ConfigWebhook,
    f: FormModel,
    to: Seq<Seq<char>>,
)
    requires
        to.len() == 0,
    ensures
        spec_next_delivery(cfg, f, to, 0) == Ok::<Option<DeliveryModel>, RelayError>(None),
{
}

/// Dispatch runs in envelope order and stops at the first unresolved
/// recipient: the step at an unmapped address aborts the whole request, so
/// recipients before it stand delivered and recipients after it are never
/// resolved.
pub proof fn lemma_unresolved_recipient_aborts(
    cfg: ConfigWebhook,
    f: FormModel,
    to: Seq<Seq<char>>,
    idx: int,
)
    requires
        0 <= idx < to.len(),
        !cfg.url@.contains_key(to[idx]),
    ensures
        spec_next_delivery(cfg, f, to, idx) == Err::<Option<DeliveryModel>, RelayError>(
            RelayError::MissingTo,
        ),
{
}

/// No partitioning across recipients: every delivery the dispatcher owes,
/// at any position in the envelope, carries the form's full attachment
/// sequence.
pub proof fn lemma_all_attachments_delivered(
    cfg: ConfigWebhook,
    f: FormModel,
    to: Seq<Seq<char>>,
    idx: int,
)
    requires
        0 <= idx <= to.len(),
        spec_next_delivery(cfg, f, to, idx) is Ok,
        spec_next_delivery(cfg, f, to, idx)->Ok_0 is Some,
    ensures
        spec_next_delivery(cfg, f, to, idx)->Ok_0->Some_0.notification.attachments
            == f.attachments,
{
}

/// A copy of a byte vector.
fn clone_bytes(v: &Vec<u8>) -> (r: Vec<u8>)
    ensures
        r@ == v@,
{
    let mut r: Vec<u8> = Vec::new();
    r.extend_from_slice(v.as_slice());
    proof {
        assert(r@ =~= v@);
    }
    r
}

impl Clone for Attachment {
    /// A copy with the same filename and bytes.
    fn clone(&self) -> (r: Self)
        ensures
            r@ == self@,
    {
        Attachment { filename: self.filename.clone(), data: clone_bytes(&self.data) }
    }
}

/// A copy of an attachment list, same files in the same order.
#[verifier::loop_isolation(false)]
fn clone_attachments(v: &Vec<Attachment>) -> (r: Vec<Attachment>)
    ensures
        r.deep_view() == v.deep_view(),
{
    let mut r: Vec<Attachment> = Vec::new();
    let mut i: usize = 0;
    proof {
        assert(r.deep_view() =~= v.deep_view().take(0));
    }
    while i < v.len()
        invariant
            i <= v.len(),
            r.deep_view() == v.deep_view().take(i as int),
        decreases v.len() - i,
    {
        let ghost old_r = r@;
        let ghost old_dv = r.deep_view();
        let c = v[i].clone();
        r.push(c);
        proof {
            assert(old_dv.len() == i);
            assert forall|k: int| 0 <= k < r@.len() implies r.deep_view()[k] == v.deep_view().take(
                i + 1,
            )[k] by {
                if k < i as int {
                    assert(r@[k] == old_r[k]);
                    assert(old_dv[k] == v.deep_view().take(i as int)[k]);
                } else {
                    assert(r@[k]@ == v@[i as int]@);
                }
            }
            assert(r.deep_view() =~= v.deep_view().take(i + 1));
        }
        i = i + 1;
    }
    proof {
        assert(v.deep_view().take(v.deep_view().len() as int) =~= v.deep_view());
    }
    r
}

/// Builds the outbound notification for one recipient from the configured
/// labels and the form, exactly as [`spec_notification`] says; a missing
/// display field rejects the request instead.
pub fn build_notification(cfg: &ConfigWebhook, form: &InboundForm) -> (r: Result<
    OutboundNotification,
    RelayError,
>)
    ensures
        r is Ok <==> display_fields_present(form@),
        r is Ok ==> r->Ok_0@ == spec_notification(*cfg, form@),
        r is Err ==> r->Err_0 == RelayError::MissingDisplayField,
{
    let from_value = match form.field("from") {
        Some(v) => v.clone(),
        None => {
            return Err(RelayError::MissingDisplayField);
        },
    };
    let to_value = match form.field("to") {
        Some(v) => v.clone(),
        None => {
            return Err(RelayError::MissingDisplayField);
        },
    };
    let subject_value = match form.field("subject") {
        Some(v) => v.clone(),
        None => {
            return Err(RelayError::MissingDisplayField);
        },
    };
    let text_value = match form.field("text") {
        Some(v) => v.clone(),
        None => {
            return Err(RelayError::MissingDisplayField);
        },
    };
    let mut fields: Vec<EmbedField> = Vec::new();
    fields.push(EmbedField { label: cfg.from.clone(), value: from_value, inline: true });
    fields.push(EmbedField { label: cfg.to.clone(), value: to_value, inline: true });
    fields.push(EmbedField { label: cfg.subject.clone(), value: subject_value, inline: true });
    fields.push(EmbedField { label: cfg.text.clone(), value: text_value, inline: false });
    let notification = OutboundNotification {
        username: cfg.username.clone(),
        avatar_url: cfg.avatar_url.clone(),
        title: cfg.title.clone(),
        fields,
        attachments: clone_attachments(&form.attachments),
    };
    proof {
        assert(notification@.fields =~= spec_notification(*cfg, form@).fields);
    }
    Ok(notification)
}

/// The dispatch step, exactly as [`spec_next_delivery`] says: `Ok(None)`
/// once every recipient is served, the next delivery to perform otherwise,
/// or the fault that aborts the whole request.
pub fn next_delivery(
    cfg: &ConfigWebhook,
    form: &InboundForm,
    envelope: &Envelope,
    idx: usize,
) -> (r: Result<Option<Delivery>, RelayError>)
    requires
        idx <= envelope@.to.len(),
    ensures
        ({
            let s = spec_next_delivery(*cfg, form@, envelope@.to, idx as int);
            match r {
                Ok(None) => s == Ok::<Option<DeliveryModel>, RelayError>(None),
                Ok(Some(d)) => s is Ok && s->Ok_0 is Some && d@ == s->Ok_0->Some_0,
                Err(e) => s is Err && e == s->Err_0,
            }
        }),
{
    if idx == envelope.to.len() {
        return Ok(None);
    }
    let address = &envelope.to[idx];
    proof {
        assert(address@ == envelope@.to[idx as int]);
    }
    let url = match cfg.url.get(address.as_str()) {
        Some(u) => u.clone(),
        None => {
            return Err(RelayError::MissingTo);
        },
    };
    let notification = match build_notification(cfg, form) {
        Ok(n) => n,
        Err(e) => {
            return Err(e);
        },
    };
    Ok(Some(Delivery { url, notification }))
}

} // verus!
