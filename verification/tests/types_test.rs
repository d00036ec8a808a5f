use openagentmail::{
    AttachmentInput, CreateDomainRequest, CreateDraftRequest, CreateInboxRequest,
    CreatePodRequest, CreateWebhookRequest, HeaderMap, ListInboxesParams, ListMessagesParams,
    PaginationParams, ReplyRequest, SendMessageRequest, UpdateDraftRequest, UpdateInboxRequest,
    UpdatePodRequest, UpdateWebhookRequest, WebhookEventType,
};

#[test]
fn pagination_params_builder() {
    let p = PaginationParams::new();
    assert_eq!(p.limit, None);
    assert_eq!(p.page_token, None);
    let p = PaginationParams::new().limit(10).page_token("tok");
    assert_eq!(p.limit, Some(10));
    assert_eq!(p.page_token.as_deref(), Some("tok"));
    let owned = String::from("next");
    let p = p.page_token(owned);
    assert_eq!(p.page_token.as_deref(), Some("next"));
    assert_eq!(p.limit, Some(10));
}

#[test]
fn pod_requests() {
    let r = CreatePodRequest::new("Production").client_id("prod-001");
    assert_eq!(r.name, "Production");
    assert_eq!(r.client_id.as_deref(), Some("prod-001"));
    let d = CreatePodRequest::default();
    assert_eq!(d.name, "");
    assert!(d.client_id.is_none());
    let u = UpdatePodRequest::new();
    assert!(u.name.is_none());
    let u = u.name("Production v2");
    assert_eq!(u.name.as_deref(), Some("Production v2"));
}

#[test]
fn inbox_requests() {
    let r = CreateInboxRequest::new("support-agent").display_name("Support Agent");
    assert_eq!(r.username, "support-agent");
    assert_eq!(r.display_name.as_deref(), Some("Support Agent"));
    assert!(r.domain.is_none());
    assert!(r.client_id.is_none());
    let r = r.domain("mail.example.com").client_id("c-1");
    assert_eq!(r.domain.as_deref(), Some("mail.example.com"));
    assert_eq!(r.client_id.as_deref(), Some("c-1"));
    assert_eq!(r.display_name.as_deref(), Some("Support Agent"));
    let u = UpdateInboxRequest::new().display_name("Updated Support Agent");
    assert_eq!(u.display_name.as_deref(), Some("Updated Support Agent"));
    let l = ListInboxesParams::new().limit(1).page_token("t").pod_id("pod_1");
    assert_eq!(l.pagination.limit, Some(1));
    assert_eq!(l.pagination.page_token.as_deref(), Some("t"));
    assert_eq!(l.pod_id.as_deref(), Some("pod_1"));
}

#[test]
fn send_message_request_builder() {
    let r = SendMessageRequest::new("user@example.com", "Hello!")
        .text("Plain text body")
        .html("<p>HTML body</p>")
        .add_cc("cc@example.com")
        .label("outbound");
    assert_eq!(r.to, vec!["user@example.com".to_string()]);
    assert_eq!(r.subject, "Hello!");
    assert_eq!(r.text.as_deref(), Some("Plain text body"));
    assert_eq!(r.html.as_deref(), Some("<p>HTML body</p>"));
    assert_eq!(r.cc, vec!["cc@example.com".to_string()]);
    assert!(r.bcc.is_empty());
    assert_eq!(r.labels, vec!["outbound".to_string()]);
    assert!(r.headers.is_none());
    assert!(r.reply_to.is_none());
    let r = r
        .add_to("second@example.com")
        .add_bcc("hidden@example.com")
        .reply_to("replies@example.com")
        .attachment(AttachmentInput::new("hello.txt", "SGVsbG8=").content_type("text/plain"));
    assert_eq!(r.to, vec!["user@example.com".to_string(), "second@example.com".to_string()]);
    assert_eq!(r.bcc, vec!["hidden@example.com".to_string()]);
    assert_eq!(r.reply_to.as_deref(), Some("replies@example.com"));
    assert_eq!(r.attachments.len(), 1);
    assert_eq!(r.attachments[0].filename, "hello.txt");
    assert_eq!(r.attachments[0].content, "SGVsbG8=");
    assert_eq!(r.attachments[0].content_type.as_deref(), Some("text/plain"));
    let r = r.to(vec!["a@x.com".to_string()]).cc(vec![]).bcc(vec!["b@x.com".to_string()]);
    assert_eq!(r.to, vec!["a@x.com".to_string()]);
    assert!(r.cc.is_empty());
    assert_eq!(r.bcc, vec!["b@x.com".to_string()]);
}

#[test]
fn send_message_headers_replace_same_name() {
    let r = SendMessageRequest::new("user@example.com", "Hi")
        .header("X-Trace", "1")
        .header("X-Other", "a")
        .header("X-Trace", "2");
    let h = r.headers.expect("headers set");
    assert_eq!(h.len(), 2);
    assert_eq!(h.get("X-Trace").map(|s| s.as_str()), Some("2"));
    assert_eq!(h.get("X-Other").map(|s| s.as_str()), Some("a"));
    assert_eq!(h.get("X-Missing"), None);
    let names: Vec<&str> = h.entries().iter().map(|(k, _)| k.as_str()).collect();
    assert_eq!(names, vec!["X-Trace", "X-Other"]);
}

#[test]
fn header_map_insert_returns_previous() {
    let mut m = HeaderMap::new();
    assert!(m.is_empty());
    assert_eq!(m.insert("A".to_string(), "1".to_string()), None);
    assert_eq!(m.insert("B".to_string(), "2".to_string()), None);
    assert_eq!(m.insert("A".to_string(), "3".to_string()), Some("1".to_string()));
    assert_eq!(m.len(), 2);
    assert_eq!(m.get("A").map(|s| s.as_str()), Some("3"));
    let c = m.clone();
    assert_eq!(c.get("B").map(|s| s.as_str()), Some("2"));
    assert_eq!(c.len(), 2);
    assert!(HeaderMap::default().is_empty());
}

#[test]
fn reply_request_builder() {
    let r = ReplyRequest::new()
        .text("Thanks for reaching out!")
        .html("<p>Thanks</p>")
        .label("replied")
        .attachment(AttachmentInput::new("a.txt", "QQ=="));
    assert_eq!(r.text.as_deref(), Some("Thanks for reaching out!"));
    assert_eq!(r.html.as_deref(), Some("<p>Thanks</p>"));
    assert_eq!(r.labels, vec!["replied".to_string()]);
    assert_eq!(r.attachments.len(), 1);
    let e = ReplyRequest::default();
    assert!(e.text.is_none() && e.html.is_none() && e.attachments.is_empty() && e.labels.is_empty());
}

#[test]
fn list_messages_params_builder() {
    let p = ListMessagesParams::new().limit(20).label("inbox").thread_id("thr_1").page_token("p");
    assert_eq!(p.pagination.limit, Some(20));
    assert_eq!(p.label.as_deref(), Some("inbox"));
    assert_eq!(p.thread_id.as_deref(), Some("thr_1"));
    assert_eq!(p.pagination.page_token.as_deref(), Some("p"));
}

#[test]
fn draft_requests() {
    let d = CreateDraftRequest::new()
        .add_to("user@example.com")
        .subject("Draft: Weekly Report")
        .text("Work in progress...")
        .send_at("2024-01-20T09:00:00Z");
    assert_eq!(d.to, vec!["user@example.com".to_string()]);
    assert_eq!(d.subject.as_deref(), Some("Draft: Weekly Report"));
    assert_eq!(d.text.as_deref(), Some("Work in progress..."));
    assert_eq!(d.send_at.as_deref(), Some("2024-01-20T09:00:00Z"));
    assert!(d.html.is_none() && d.reply_to.is_none() && d.attachments.is_empty());
    let d = d
        .to(vec!["x@y.z".to_string()])
        .cc(vec!["c@y.z".to_string()])
        .bcc(vec!["b@y.z".to_string()])
        .html("<b>x</b>")
        .reply_to("r@y.z")
        .attachment(AttachmentInput::new("f", "Zg=="));
    assert_eq!(d.to, vec!["x@y.z".to_string()]);
    assert_eq!(d.cc, vec!["c@y.z".to_string()]);
    assert_eq!(d.bcc, vec!["b@y.z".to_string()]);
    assert_eq!(d.html.as_deref(), Some("<b>x</b>"));
    assert_eq!(d.reply_to.as_deref(), Some("r@y.z"));
    assert_eq!(d.attachments.len(), 1);

    let u = UpdateDraftRequest::new();
    assert!(u.to.is_none() && u.subject.is_none() && u.attachments.is_none() && u.reply_to.is_none());
    let u = u
        .to(vec!["a@b.c".to_string()])
        .cc(vec![])
        .bcc(vec![])
        .subject("Updated")
        .text("Final version ready to send.")
        .html("<p>Final</p>")
        .send_at("2024-01-21T09:00:00Z");
    assert_eq!(u.to, Some(vec!["a@b.c".to_string()]));
    assert_eq!(u.cc, Some(vec![]));
    assert_eq!(u.bcc, Some(vec![]));
    assert_eq!(u.subject.as_deref(), Some("Updated"));
    assert_eq!(u.text.as_deref(), Some("Final version ready to send."));
    assert_eq!(u.html.as_deref(), Some("<p>Final</p>"));
    assert_eq!(u.send_at.as_deref(), Some("2024-01-21T09:00:00Z"));
}

#[test]
fn webhook_event_type_names() {
    assert_eq!(WebhookEventType::MessageReceived.as_str(), "message.received");
    assert_eq!(WebhookEventType::MessageSent.as_str(), "message.sent");
    assert_eq!(WebhookEventType::MessageDelivered.as_str(), "message.delivered");
    assert_eq!(WebhookEventType::MessageBounced.as_str(), "message.bounced");
    assert_eq!(WebhookEventType::MessageComplained.as_str(), "message.complained");
    assert_eq!(WebhookEventType::MessageRejected.as_str(), "message.rejected");
}

#[test]
fn webhook_event_type_names_are_distinct() {
    let all = [
        WebhookEventType::MessageReceived,
        WebhookEventType::MessageSent,
        WebhookEventType::MessageDelivered,
        WebhookEventType::MessageBounced,
        WebhookEventType::MessageComplained,
        WebhookEventType::MessageRejected,
    ];
    for a in all.iter() {
        for b in all.iter() {
            assert_eq!(a == b, a.as_str() == b.as_str());
        }
    }
}

#[test]
fn create_webhook_request_builder() {
    let r = CreateWebhookRequest::new(
        "https://api.myapp.com/webhooks/email",
        vec![WebhookEventType::MessageReceived, WebhookEventType::MessageBounced],
    )
    .inbox_id("inb_abc123");
    assert_eq!(r.url, "https://api.myapp.com/webhooks/email");
    assert_eq!(r.event_types, vec!["message.received".to_string(), "message.bounced".to_string()]);
    assert_eq!(r.inbox_ids, vec!["inb_abc123".to_string()]);
    assert!(r.pod_ids.is_empty());
    assert!(r.client_id.is_none() && r.secret.is_none());
    let r = r.pod_id("pod_1").client_id("webhook-001").secret("s3");
    assert_eq!(r.pod_ids, vec!["pod_1".to_string()]);
    assert_eq!(r.client_id.as_deref(), Some("webhook-001"));
    assert_eq!(r.secret.as_deref(), Some("s3"));
    let empty = CreateWebhookRequest::new("u", vec![]);
    assert!(empty.event_types.is_empty());
}

#[test]
fn update_webhook_request_builder() {
    let u = UpdateWebhookRequest::new();
    assert!(u.url.is_none() && u.event_types.is_none() && u.enabled.is_none());
    let u = u
        .enabled(false)
        .url("https://x.y/hook")
        .event_types(vec![WebhookEventType::MessageSent])
        .inbox_ids(vec!["i".to_string()])
        .pod_ids(vec!["p".to_string()]);
    assert_eq!(u.enabled, Some(false));
    assert_eq!(u.url.as_deref(), Some("https://x.y/hook"));
    assert_eq!(u.event_types, Some(vec!["message.sent".to_string()]));
    assert_eq!(u.inbox_ids, Some(vec!["i".to_string()]));
    assert_eq!(u.pod_ids, Some(vec!["p".to_string()]));
}

#[test]
fn domain_request_builder() {
    let r = CreateDomainRequest::new("mail.mycompany.com");
    assert_eq!(r.domain, "mail.mycompany.com");
    assert!(r.pod_id.is_none());
    let r = r.pod_id("pod_xyz789");
    assert_eq!(r.pod_id.as_deref(), Some("pod_xyz789"));
    assert_eq!(r.domain, "mail.mycompany.com");
}
