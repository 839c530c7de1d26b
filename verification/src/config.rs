//! The read-only configuration consumed by the relay: the recipient map and
//! the display labels of the outbound notification. It is loaded once at
//! startup and shared unchanged across requests.

use vstd::hash_map::StringHashMap;
use vstd::prelude::*;

verus! {

/// Logging configuration.
pub struct ConfigLogger {
    /// The log level filter name.
    pub level: String,
}

impl Default for ConfigLogger {
    /// The default log level is "Info".
    fn default() -> (r: Self)
        ensures
            r.level@ == "Info"@,
    {
        ConfigLogger { level: "Info".to_owned() }
    }
}

/// Outbound webhook configuration: the recipient map and the labels used to
/// render the notification.
pub struct ConfigWebhook {
    /// The recipient map: recipient address to endpoint URL.
    pub url: StringHashMap<String>,
    /// The display name the notification is posted under.
    pub username: String,
    /// The avatar URL the notification is posted under.
    pub avatar_url: String,
    /// The title of the embedded card.
    pub title: String,
    /// The label of the sender field.
    pub from: String,
    /// The label of the recipient field.
    pub to: String,
    /// The label of the subject field.
    pub subject: String,
    /// The label of the body field.
    pub text: String,
    /// The label of the attachment count.
    pub attachments: String,
    /// The notice shown for likely spam.
    pub might_be_a_spam: String,
    /// The notice shown for likely legitimate mail.
    pub might_not_be_a_spam: String,
    /// The name of the spam score field.
    pub spam_score: String,
}

impl Default for ConfigWebhook {
    /// A placeholder recipient map with one example entry, and the stock
    /// Japanese display labels.
    fn default() -> (r: Self)
        ensures
            r.url@.dom() =~= set!["example@example.com"@],
            r.url@["example@example.com"@]@ == "https://discord.com/api/webhooks/..."@,
            r.username@ == "JIZI-Network メール転送"@,
            r.avatar_url@ == "https://github.com/Jizi-Network.png"@,
            r.title@ == "メールを受信しました"@,
            r.from@ == "送信者"@,
            r.to@ == "受信者"@,
            r.subject@ == "件名"@,
            r.text@ == "本文"@,
            r.attachments@ == "添付ファイルの個数"@,
            r.might_be_a_spam@ == "スパムメールの可能性が高いです。注意してください。"@,
            r.might_not_be_a_spam@ == "スパムメールの可能性は低いです。"@,
            r.spam_score@ == "spam_score"@,
    {
        let mut url: StringHashMap<String> = StringHashMap::new();
        url.insert(
            "example@example.com".to_owned(),
            "https://discord.com/api/webhooks/...".to_owned(),
        );
        proof {
            assert(url@.dom() =~= set!["example@example.com"@]);
        }
        ConfigWebhook {
            url,
            username: "JIZI-Network メール転送".to_owned(),
            avatar_url: "https://github.com/Jizi-Network.png".to_owned(),
            title: "メールを受信しました".to_owned(),
            from: "送信者".to_owned(),
            to: "受信者".to_owned(),
            subject: "件名".to_owned(),
            text: "本文".to_owned(),
            attachments: "添付ファイルの個数".to_owned(),
            might_be_a_spam: "スパムメールの可能性が高いです。注意してください。".to_owned(),
            might_not_be_a_spam: "スパムメールの可能性は低いです。".to_owned(),
            spam_score: "spam_score".to_owned(),
        }
    }
}

} // verus!
