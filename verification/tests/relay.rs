use s2d::config::{ConfigLogger, ConfigWebhook};
use s2d::dispatch::next_delivery;
use s2d::errors::RelayError;
use s2d::handler::{check_passphrase, receive};
use s2d::json::parse_envelope;
use s2d::models::QueryParameters;
use s2d::multipart::{decode_multipart, Chunk, ContentType, Part};

fn err_of<T>(r: Result<T, RelayError>) -> RelayError {
    match r {
        Ok(_) => panic!("expected an error"),
        Err(e) => e,
    }
}

fn text_part(name: &str, value: &str) -> Part {
    Part {
        content_type: None,
        has_content_disposition: true,
        filename: None,
        name: Some(name.to_string()),
        chunks: vec![Chunk::Data(value.as_bytes().to_vec())],
    }
}

fn binary_part(filename: Option<&str>, data: &[u8]) -> Part {
    Part {
        content_type: Some(ContentType {
            ctype: "application".to_string(),
            subtype: "octet-stream".to_string(),
        }),
        has_content_disposition: true,
        filename: filename.map(|s| s.to_string()),
        name: None,
        chunks: vec![Chunk::Data(data.to_vec())],
    }
}

fn query(passphrase: &str) -> QueryParameters {
    QueryParameters { passphrase: passphrase.to_string() }
}

fn test_config() -> ConfigWebhook {
    let mut cfg = ConfigWebhook::default();
    cfg.from = "From".to_string();
    cfg.to = "To".to_string();
    cfg.subject = "Subject".to_string();
    cfg.text = "Text".to_string();
    cfg.username = "relay".to_string();
    cfg.avatar_url = "https://example.com/avatar.png".to_string();
    cfg.title = "Mail received".to_string();
    cfg.url.insert(
        "a@example.com".to_string(),
        "https://hooks.example.com/a".to_string(),
    );
    cfg
}

fn display_parts() -> Vec<Part> {
    vec![
        text_part(
            "envelope",
            "{\"to\":[\"a@example.com\"],\"from\":\"x@y.com\"}",
        ),
        text_part("from", "x@y.com"),
        text_part("to", "a@example.com"),
        text_part("subject", "hi"),
        text_part("text", "body"),
    ]
}

#[test]
fn wrong_passphrase_rejected_without_decoding() {
    let secret = "right".to_string();
    assert!(!check_passphrase(&query("wrong"), &secret));
    let parts = display_parts();
    let r = receive(&secret, &query("wrong"), &parts);
    assert_eq!(err_of(r), RelayError::InvalidPassphrase);
}

#[test]
fn correct_passphrase_accepted() {
    let secret = "right".to_string();
    assert!(check_passphrase(&query("right"), &secret));
    let parts = display_parts();
    assert!(receive(&secret, &query("right"), &parts).is_ok());
}

#[test]
fn attachment_without_filename_rejected() {
    let parts = vec![
        text_part("subject", "hi"),
        binary_part(None, b"payload"),
    ];
    let r = decode_multipart(&parts);
    assert_eq!(err_of(r), RelayError::MissingFilename);
    let secret = "s".to_string();
    let r = receive(&secret, &query("s"), &parts);
    assert_eq!(err_of(r), RelayError::MissingFilename);
}

#[test]
fn attachment_without_disposition_rejected() {
    let mut part = binary_part(Some("a.bin"), b"payload");
    part.has_content_disposition = false;
    part.filename = None;
    let r = decode_multipart(&vec![part]);
    assert_eq!(err_of(r), RelayError::MissingContentDisposition);
}

#[test]
fn field_without_name_rejected() {
    let mut part = text_part("x", "y");
    part.name = None;
    let r = decode_multipart(&vec![part]);
    assert_eq!(err_of(r), RelayError::MissingName);
}

#[test]
fn chunk_read_fault_rejected() {
    let mut part = binary_part(Some("a.bin"), b"payload");
    part.chunks.push(Chunk::ReadError);
    let r = decode_multipart(&vec![part]);
    assert_eq!(err_of(r), RelayError::FailedToReadChunk);
}

#[test]
fn invalid_utf8_field_rejected() {
    let mut part = text_part("subject", "");
    part.chunks = vec![Chunk::Data(vec![0xff, 0xfe])];
    let r = decode_multipart(&vec![part]);
    assert_eq!(err_of(r), RelayError::FailedToReadData);
}

#[test]
fn multibyte_text_field_decoded() {
    let part = text_part("subject", "メール");
    let form = decode_multipart(&vec![part]).unwrap();
    assert_eq!(form.field("subject").unwrap().as_str(), "メール");
}

#[test]
fn chunks_concatenated_in_order() {
    let mut part = text_part("subject", "");
    part.chunks = vec![
        Chunk::Data(b"he".to_vec()),
        Chunk::Data(b"ll".to_vec()),
        Chunk::Data(b"o".to_vec()),
    ];
    let form = decode_multipart(&vec![part]).unwrap();
    assert_eq!(form.field("subject").unwrap().as_str(), "hello");
}

#[test]
fn declared_non_binary_type_is_a_text_field() {
    let mut part = text_part("note", "plain");
    part.content_type = Some(ContentType {
        ctype: "text".to_string(),
        subtype: "plain".to_string(),
    });
    let form = decode_multipart(&vec![part]).unwrap();
    assert_eq!(form.field("note").unwrap().as_str(), "plain");
    assert_eq!(form.attachments.len(), 0);
}

#[test]
fn repeated_field_keeps_later_value() {
    let parts = vec![
        text_part("subject", "first"),
        text_part("subject", "second"),
    ];
    let form = decode_multipart(&parts).unwrap();
    assert_eq!(form.field("subject").unwrap().as_str(), "second");
}

#[test]
fn repeated_field_value_reaches_notification() {
    let mut parts = display_parts();
    parts.push(text_part("subject", "overwritten"));
    let secret = "s".to_string();
    let (form, envelope) = receive(&secret, &query("s"), &parts).unwrap();
    let cfg = test_config();
    let delivery = next_delivery(&cfg, &form, &envelope, 0)
        .unwrap()
        .unwrap();
    assert_eq!(delivery.notification.fields[2].value, "overwritten");
}

#[test]
fn envelope_missing_rejected() {
    let parts = vec![text_part("subject", "hi")];
    let secret = "s".to_string();
    let r = receive(&secret, &query("s"), &parts);
    assert_eq!(err_of(r), RelayError::MissingEnvelope);
}

#[test]
fn envelope_bad_json_rejected() {
    assert_eq!(
        err_of(parse_envelope("not json")),
        RelayError::FailedToParseEnvelope
    );
    assert_eq!(
        err_of(parse_envelope("{\"to\":\"a\",\"from\":\"b\"}")),
        RelayError::FailedToParseEnvelope
    );
    assert_eq!(
        err_of(parse_envelope("{\"from\":\"b\"}")),
        RelayError::FailedToParseEnvelope
    );
    assert_eq!(
        err_of(parse_envelope("{\"to\":[\"a\",3],\"from\":\"b\"}")),
        RelayError::FailedToParseEnvelope
    );
    assert_eq!(err_of(parse_envelope("[]")), RelayError::FailedToParseEnvelope);
}

#[test]
fn envelope_parsed_members_and_order() {
    let envelope = parse_envelope("{\"to\":[\"b@x\",\"a@x\"],\"from\":\"c@x\",\"extra\":null}")
        .unwrap();
    assert_eq!(envelope.to, vec!["b@x".to_string(), "a@x".to_string()]);
    assert_eq!(envelope.from, "c@x");
}

#[test]
fn empty_envelope_succeeds_with_no_deliveries() {
    let parts = vec![text_part("envelope", "{\"to\":[],\"from\":\"x@y.com\"}")];
    let secret = "s".to_string();
    let (form, envelope) = receive(&secret, &query("s"), &parts).unwrap();
    let cfg = test_config();
    let step = next_delivery(&cfg, &form, &envelope, 0).unwrap();
    assert!(step.is_none());
}

#[test]
fn unresolved_recipient_aborts_after_earlier_delivery() {
    let mut parts = display_parts();
    parts[0] = text_part(
        "envelope",
        "{\"to\":[\"a@example.com\",\"b@example.com\"],\"from\":\"x@y.com\"}",
    );
    let secret = "s".to_string();
    let (form, envelope) = receive(&secret, &query("s"), &parts).unwrap();
    let cfg = test_config();
    let first = next_delivery(&cfg, &form, &envelope, 0).unwrap().unwrap();
    assert_eq!(first.url, "https://hooks.example.com/a");
    let second = next_delivery(&cfg, &form, &envelope, 1);
    assert_eq!(err_of(second), RelayError::MissingTo);
}

#[test]
fn missing_display_field_aborts_dispatch() {
    let parts = vec![
        text_part(
            "envelope",
            "{\"to\":[\"a@example.com\"],\"from\":\"x@y.com\"}",
        ),
        text_part("from", "x@y.com"),
        text_part("to", "a@example.com"),
        text_part("subject", "hi"),
    ];
    let secret = "s".to_string();
    let (form, envelope) = receive(&secret, &query("s"), &parts).unwrap();
    let cfg = test_config();
    let r = next_delivery(&cfg, &form, &envelope, 0);
    assert_eq!(err_of(r), RelayError::MissingDisplayField);
}

#[test]
fn end_to_end_single_recipient() {
    let parts = display_parts();
    let secret = "s3cret".to_string();
    let (form, envelope) = receive(&secret, &query("s3cret"), &parts).unwrap();
    assert_eq!(envelope.to, vec!["a@example.com".to_string()]);
    assert_eq!(envelope.from, "x@y.com");
    let cfg = test_config();
    let mut deliveries = Vec::new();
    let mut idx = 0;
    loop {
        match next_delivery(&cfg, &form, &envelope, idx).unwrap() {
            Some(d) => {
                deliveries.push(d);
                idx += 1;
            }
            None => break,
        }
    }
    assert_eq!(deliveries.len(), 1);
    let n = &deliveries[0].notification;
    assert_eq!(deliveries[0].url, "https://hooks.example.com/a");
    assert_eq!(n.username, "relay");
    assert_eq!(n.avatar_url, "https://example.com/avatar.png");
    assert_eq!(n.title, "Mail received");
    assert_eq!(n.fields.len(), 4);
    assert_eq!(n.fields[0].label, "From");
    assert_eq!(n.fields[0].value, "x@y.com");
    assert!(n.fields[0].inline);
    assert_eq!(n.fields[1].label, "To");
    assert_eq!(n.fields[1].value, "a@example.com");
    assert!(n.fields[1].inline);
    assert_eq!(n.fields[2].label, "Subject");
    assert_eq!(n.fields[2].value, "hi");
    assert!(n.fields[2].inline);
    assert_eq!(n.fields[3].label, "Text");
    assert_eq!(n.fields[3].value, "body");
    assert!(!n.fields[3].inline);
    assert_eq!(n.attachments.len(), 0);
}

#[test]
fn attachments_keep_order_and_reach_every_recipient() {
    let mut parts = display_parts();
    parts[0] = text_part(
        "envelope",
        "{\"to\":[\"a@example.com\",\"b@example.com\"],\"from\":\"x@y.com\"}",
    );
    parts.push(binary_part(Some("one.bin"), b"first"));
    parts.push(binary_part(Some("two.bin"), b"second"));
    let secret = "s".to_string();
    let (form, envelope) = receive(&secret, &query("s"), &parts).unwrap();
    assert_eq!(form.attachments.len(), 2);
    assert_eq!(form.attachments[0].filename, "one.bin");
    assert_eq!(form.attachments[0].data, b"first".to_vec());
    assert_eq!(form.attachments[1].filename, "two.bin");
    assert_eq!(form.attachments[1].data, b"second".to_vec());
    let mut cfg = test_config();
    cfg.url.insert(
        "b@example.com".to_string(),
        "https://hooks.example.com/b".to_string(),
    );
    for idx in 0..2 {
        let d = next_delivery(&cfg, &form, &envelope, idx).unwrap().unwrap();
        assert_eq!(d.notification.attachments.len(), 2);
        assert_eq!(d.notification.attachments[0].filename, "one.bin");
        assert_eq!(d.notification.attachments[0].data, b"first".to_vec());
        assert_eq!(d.notification.attachments[1].filename, "two.bin");
        assert_eq!(d.notification.attachments[1].data, b"second".to_vec());
    }
}

#[test]
fn duplicate_attachment_filenames_kept() {
    let parts = vec![
        binary_part(Some("same.bin"), b"a"),
        binary_part(Some("same.bin"), b"b"),
    ];
    let form = decode_multipart(&parts).unwrap();
    assert_eq!(form.attachments.len(), 2);
    assert_eq!(form.attachments[0].data, b"a".to_vec());
    assert_eq!(form.attachments[1].data, b"b".to_vec());
}

#[test]
fn error_messages_match_reasons() {
    assert_eq!(RelayError::InvalidPassphrase.message(), "Invalid passphrase");
    assert_eq!(
        RelayError::MissingContentDisposition.message(),
        "Missing content disposition"
    );
    assert_eq!(RelayError::MissingFilename.message(), "Missing filename");
    assert_eq!(RelayError::MissingName.message(), "Missing name");
    assert_eq!(RelayError::FailedToReadChunk.message(), "Failed to read chunk");
    assert_eq!(RelayError::FailedToReadData.message(), "Failed to read data");
    assert_eq!(RelayError::MissingEnvelope.message(), "Missing envelope");
    assert_eq!(
        RelayError::FailedToParseEnvelope.message(),
        "Failed to parse envelope"
    );
    assert_eq!(RelayError::MissingDisplayField.message(), "Missing field");
    assert_eq!(RelayError::MissingTo.message(), "Missing to");
    assert_eq!(RelayError::InvalidWebhook.message(), "Invalid webhook");
    assert_eq!(
        RelayError::FailedToExecuteWebhook.message(),
        "Failed to execute webhook"
    );
}

#[test]
fn config_defaults() {
    let logger = ConfigLogger::default();
    assert_eq!(logger.level, "Info");
    let webhook = ConfigWebhook::default();
    assert_eq!(
        webhook.url.get("example@example.com").unwrap().as_str(),
        "https://discord.com/api/webhooks/..."
    );
    assert_eq!(webhook.spam_score, "spam_score");
}
