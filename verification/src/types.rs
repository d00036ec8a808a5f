//! Data types of the API: resources returned by the server and the request
//! values that callers build with chained setters.
use vstd::prelude::*;

use crate::headers::HeaderMap;
use crate::text::IntoText;

verus! {

/// The characters of an optional string.
pub open spec fn opt_text(o: Option<String>) -> Option<Seq<char>> {
    match o {
        Some(s) => Some(s@),
        None => None,
    }
}

/// The characters of each string of a sequence.
pub open spec fn texts(v: Seq<String>) -> Seq<Seq<char>> {
    v.map_values(|s: String| s@)
}

// ============================================================================
// Common types
// ============================================================================

/// One page of a listing.
#[derive(Debug, Clone)]
pub struct PaginatedResponse<T> {
    pub items: Vec<T>,
    pub next_page_token: Option<String>,
    pub has_more: bool,
}

/// Page size and cursor of a listing request.
#[derive(Debug, Clone)]
pub struct PaginationParams {
    pub limit: Option<u32>,
    pub page_token: Option<String>,
}

impl Default for PaginationParams {
    fn default() -> (r: Self)
        ensures
            r.limit is None,
            r.page_token is None,
    {
        PaginationParams { limit: None, page_token: None }
    }
}

impl PaginationParams {
    /// No page size and no cursor.
    pub fn new() -> (r: Self)
        ensures
            r.limit is None,
            r.page_token is None,
    {
        Self::default()
    }

    /// Sets the page size.
    pub fn limit(self, limit: u32) -> (r: Self)
        ensures
            r == (Self { limit: Some(limit), ..self }),
    {
        let mut s = self;
        s.limit = Some(limit);
        s
    }

    /// Sets the cursor of the page to fetch.
    pub fn page_token(self, token: impl IntoText) -> (r: Self)
        ensures
            opt_text(r.page_token) == Some(token.text()),
            r.limit == self.limit,
    {
        let mut s = self;
        s.page_token = Some(token.into_text());
        s
    }
}

// ============================================================================
// Organization types
// ============================================================================

/// Organization details.
#[derive(Debug, Clone)]
pub struct Organization {
    pub organization_id: String,
    pub name: String,
    pub plan: String,
    pub created_at: String,
}

// ============================================================================
// Pod types
// ============================================================================

/// A pod: an isolated tenant with its own inboxes and domains.
#[derive(Debug, Clone)]
pub struct Pod {
    pub pod_id: String,
    pub name: String,
    pub client_id: Option<String>,
    pub created_at: String,
    pub updated_at: String,
}

/// Request to create a pod.
#[derive(Debug, Clone)]
pub struct CreatePodRequest {
    pub name: String,
    pub client_id: Option<String>,
}

impl Default for CreatePodRequest {
    fn default() -> (r: Self)
        ensures
            r.name@ == Seq::<char>::empty(),
            r.client_id is None,
    {
        CreatePodRequest { name: String::new(), client_id: None }
    }
}

impl CreatePodRequest {
    /// A request for a pod named `name`, without client id.
    pub fn new(name: impl IntoText) -> (r: Self)
        ensures
            r.name@ == name.text(),
            r.client_id is None,
    {
        CreatePodRequest { name: name.into_text(), client_id: None }
    }

    /// Sets the caller's idempotency id.
    pub fn client_id(self, id: impl IntoText) -> (r: Self)
        ensures
            opt_text(r.client_id) == Some(id.text()),
            r.name == self.name,
    {
        let mut s = self;
        s.client_id = Some(id.into_text());
        s
    }
}

/// Request to update a pod.
#[derive(Debug, Clone)]
pub struct UpdatePodRequest {
    pub name: Option<String>,
}

impl Default for UpdatePodRequest {
    fn default() -> (r: Self)
        ensures
            r.name is None,
    {
        UpdatePodRequest { name: None }
    }
}

impl UpdatePodRequest {
    /// A request that changes nothing.
    pub fn new() -> (r: Self)
        ensures
            r.name is None,
    {
        Self::default()
    }

    /// Sets the new name.
    pub fn name(self, name: impl IntoText) -> (r: Self)
        ensures
            opt_text(r.name) == Some(name.text()),
    {
        let mut s = self;
        s.name = Some(name.into_text());
        s
    }
}


// ============================================================================
// Inbox types
// ============================================================================

/// An e-mail inbox.
#[derive(Debug, Clone)]
pub struct Inbox {
    pub inbox_id: String,
    pub pod_id: String,
    pub username: String,
    pub domain: String,
    pub email: String,
    pub display_name: Option<String>,
    pub client_id: Option<String>,
    pub created_at: String,
    pub updated_at: String,
}

/// Request to create an inbox.
#[derive(Debug, Clone)]
pub struct CreateInboxRequest {
    pub username: String,
    pub domain: Option<String>,
    pub display_name: Option<String>,
    pub client_id: Option<String>,
}

impl Default for CreateInboxRequest {
    fn default() -> (r: Self)
        ensures
            r.username@ == Seq::<char>::empty(),
            r.domain is None,
            r.display_name is None,
            r.client_id is None,
    {
        CreateInboxRequest { username: String::new(), domain: None, display_name: None, client_id: None }
    }
}

impl CreateInboxRequest {
    /// A request for the inbox `username`, with every optional field unset.
    pub fn new(username: impl IntoText) -> (r: Self)
        ensures
            r.username@ == username.text(),
            r.domain is None,
            r.display_name is None,
            r.client_id is None,
    {
        CreateInboxRequest { username: username.into_text(), domain: None, display_name: None, client_id: None }
    }

    /// Sets the domain of the address.
    pub fn domain(self, domain: impl IntoText) -> (r: Self)
        ensures
            opt_text(r.domain) == Some(domain.text()),
            r == (Self { domain: r.domain, ..self }),
    {
        let mut s = self;
        s.domain = Some(domain.into_text());
        s
    }

    /// Sets the display name.
    pub fn display_name(self, name: impl IntoText) -> (r: Self)
        ensures
            opt_text(r.display_name) == Some(name.text()),
            r == (Self { display_name: r.display_name, ..self }),
    {
        let mut s = self;
        s.display_name = Some(name.into_text());
        s
    }

    /// Sets the caller's idempotency id.
    pub fn client_id(self, id: impl IntoText) -> (r: Self)
        ensures
            opt_text(r.client_id) == Some(id.text()),
            r == (Self { client_id: r.client_id, ..self }),
    {
        let mut s = self;
        s.client_id = Some(id.into_text());
        s
    }
}

/// Request to update an inbox.
#[derive(Debug, Clone)]
pub struct UpdateInboxRequest {
    pub display_name: Option<String>,
}

impl Default for UpdateInboxRequest {
    fn default() -> (r: Self)
        ensures
            r.display_name is None,
    {
        UpdateInboxRequest { display_name: None }
    }
}

impl UpdateInboxRequest {
    /// A request that changes nothing.
    pub fn new() -> (r: Self)
        ensures
            r.display_name is None,
    {
        Self::default()
    }

    /// Sets the new display name.
    pub fn display_name(self, name: impl IntoText) -> (r: Self)
        ensures
            opt_text(r.display_name) == Some(name.text()),
    {
        let mut s = self;
        s.display_name = Some(name.into_text());
        s
    }
}

/// Parameters for listing inboxes.
#[derive(Debug, Clone)]
pub struct ListInboxesParams {
    pub pagination: PaginationParams,
    pub pod_id: Option<String>,
}

impl Default for ListInboxesParams {
    fn default() -> (r: Self)
        ensures
            r.pagination.limit is None,
            r.pagination.page_token is None,
            r.pod_id is None,
    {
        ListInboxesParams { pagination: PaginationParams::default(), pod_id: None }
    }
}

impl ListInboxesParams {
    /// No page size, cursor or pod filter.
    pub fn new() -> (r: Self)
        ensures
            r.pagination.limit is None,
            r.pagination.page_token is None,
            r.pod_id is None,
    {
        Self::default()
    }

    /// Sets the page size.
    pub fn limit(self, limit: u32) -> (r: Self)
        ensures
            r.pagination.limit == Some(limit),
            r.pagination.page_token == self.pagination.page_token,
            r.pod_id == self.pod_id,
    {
        let mut s = self;
        s.pagination.limit = Some(limit);
        s
    }

    /// Sets the cursor of the page to fetch.
    pub fn page_token(self, token: impl IntoText) -> (r: Self)
        ensures
            opt_text(r.pagination.page_token) == Some(token.text()),
            r.pagination.limit == self.pagination.limit,
            r.pod_id == self.pod_id,
    {
        let mut s = self;
        s.pagination.page_token = Some(token.into_text());
        s
    }

    /// Lists only the inboxes of one pod.
    pub fn pod_id(self, id: impl IntoText) -> (r: Self)
        ensures
            opt_text(r.pod_id) == Some(id.text()),
            r.pagination == self.pagination,
    {
        let mut s = self;
        s.pod_id = Some(id.into_text());
        s
    }
}

// ============================================================================
// Message types
// ============================================================================

/// An e-mail message.
#[derive(Debug, Clone)]
pub struct Message {
    pub message_id: String,
    pub inbox_id: String,
    pub thread_id: String,
    pub from: String,
    pub to: Vec<String>,
    pub cc: Vec<String>,
    pub bcc: Vec<String>,
    pub subject: String,
    pub text: Option<String>,
    pub html: Option<String>,
    pub attachments: Vec<Attachment>,
    pub labels: Vec<String>,
    pub headers: HeaderMap,
    pub created_at: String,
}

/// Metadata of a stored attachment.
#[derive(Debug, Clone)]
pub struct Attachment {
    pub attachment_id: String,
    pub filename: String,
    pub content_type: String,
    pub size: u64,
}

/// An attachment to send; `content` is Base64-encoded.
#[derive(Debug, Clone)]
pub struct AttachmentInput {
    pub filename: String,
    pub content: String,
    pub content_type: Option<String>,
}

impl AttachmentInput {
    /// An attachment with the given file name and Base64 content.
    pub fn new(filename: impl IntoText, content: impl IntoText) -> (r: Self)
        ensures
            r.filename@ == filename.text(),
            r.content@ == content.text(),
            r.content_type is None,
    {
        AttachmentInput { filename: filename.into_text(), content: content.into_text(), content_type: None }
    }

    /// Sets the MIME type.
    pub fn content_type(self, mime: impl IntoText) -> (r: Self)
        ensures
            opt_text(r.content_type) == Some(mime.text()),
            r.filename == self.filename,
            r.content == self.content,
    {
        let mut s = self;
        s.content_type = Some(mime.into_text());
        s
    }
}

/// Request to send a message.
#[derive(Debug, Clone)]
pub struct SendMessageRequest {
    pub to: Vec<String>,
    pub cc: Vec<String>,
    pub bcc: Vec<String>,
    pub subject: String,
    pub text: Option<String>,
    pub html: Option<String>,
    pub reply_to: Option<String>,
    pub attachments: Vec<AttachmentInput>,
    pub labels: Vec<String>,
    pub headers: Option<HeaderMap>,
}

impl Default for SendMessageRequest {
    fn default() -> (r: Self)
        ensures
            r.to@ == Seq::<String>::empty(),
            r.cc@ == Seq::<String>::empty(),
            r.bcc@ == Seq::<String>::empty(),
            r.subject@ == Seq::<char>::empty(),
            r.text is None,
            r.html is None,
            r.reply_to is None,
            r.attachments@ == Seq::<AttachmentInput>::empty(),
            r.labels@ == Seq::<String>::empty(),
            r.headers is None,
    {
        SendMessageRequest {
            to: Vec::new(),
            cc: Vec::new(),
            bcc: Vec::new(),
            subject: String::new(),
            text: None,
            html: None,
            reply_to: None,
            attachments: Vec::new(),
            labels: Vec::new(),
            headers: None,
        }
    }
}

impl SendMessageRequest {
    /// A message to one recipient with the given subject and nothing else.
    pub fn new(to: impl IntoText, subject: impl IntoText) -> (r: Self)
        ensures
            texts(r.to@) == seq![to.text()],
            r.subject@ == subject.text(),
            r.cc@ == Seq::<String>::empty(),
            r.bcc@ == Seq::<String>::empty(),
            r.text is None,
            r.html is None,
            r.reply_to is None,
            r.attachments@ == Seq::<AttachmentInput>::empty(),
            r.labels@ == Seq::<String>::empty(),
            r.headers is None,
    {
        let first = to.into_text();
        let subject = subject.into_text();
        let mut r = Self::default();
        r.to.push(first);
        r.subject = subject;
        assert(texts(r.to@) =~= seq![to.text()]);
        r
    }

    /// Replaces the recipients.
    pub fn to(self, recipients: Vec<String>) -> (r: Self)
        ensures
            r == (Self { to: recipients, ..self }),
    {
        let mut s = self;
        s.to = recipients;
        s
    }

    /// Appends one recipient.
    pub fn add_to(self, recipient: impl IntoText) -> (r: Self)
        ensures
            texts(r.to@) == texts(self.to@).push(recipient.text()),
            r == (Self { to: r.to, ..self }),
    {
        let mut s = self;
        s.to.push(recipient.into_text());
        assert(texts(s.to@) =~= texts(self.to@).push(recipient.text()));
        s
    }

    /// Replaces the carbon-copy recipients.
    pub fn cc(self, recipients: Vec<String>) -> (r: Self)
        ensures
            r == (Self { cc: recipients, ..self }),
    {
        let mut s = self;
        s.cc = recipients;
        s
    }

    /// Appends one carbon-copy recipient.
    pub fn add_cc(self, recipient: impl IntoText) -> (r: Self)
        ensures
            texts(r.cc@) == texts(self.cc@).push(recipient.text()),
            r == (Self { cc: r.cc, ..self }),
    {
        let mut s = self;
        s.cc.push(recipient.into_text());
        assert(texts(s.cc@) =~= texts(self.cc@).push(recipient.text()));
        s
    }

    /// Replaces the blind-copy recipients.
    pub fn bcc(self, recipients: Vec<String>) -> (r: Self)
        ensures
            r == (Self { bcc: recipients, ..self }),
    {
        let mut s = self;
        s.bcc = recipients;
        s
    }

    /// Appends one blind-copy recipient.
    pub fn add_bcc(self, recipient: impl IntoText) -> (r: Self)
        ensures
            texts(r.bcc@) == texts(self.bcc@).push(recipient.text()),
            r == (Self { bcc: r.bcc, ..self }),
    {
        let mut s = self;
        s.bcc.push(recipient.into_text());
        assert(texts(s.bcc@) =~= texts(self.bcc@).push(recipient.text()));
        s
    }

    /// Sets the plain-text body.
    pub fn text(self, text: impl IntoText) -> (r: Self)
        ensures
            opt_text(r.text) == Some(text.text()),
            r == (Self { text: r.text, ..self }),
    {
        let mut s = self;
        s.text = Some(text.into_text());
        s
    }

    /// Sets the HTML body.
    pub fn html(self, html: impl IntoText) -> (r: Self)
        ensures
            opt_text(r.html) == Some(html.text()),
            r == (Self { html: r.html, ..self }),
    {
        let mut s = self;
        s.html = Some(html.into_text());
        s
    }

    /// Sets the reply-to address.
    pub fn reply_to(self, reply_to: impl IntoText) -> (r: Self)
        ensures
            opt_text(r.reply_to) == Some(reply_to.text()),
            r == (Self { reply_to: r.reply_to, ..self }),
    {
        let mut s = self;
        s.reply_to = Some(reply_to.into_text());
        s
    }

    /// Appends an attachment.
    pub fn attachment(self, attachment: AttachmentInput) -> (r: Self)
        ensures
            r.attachments@ == self.attachments@.push(attachment),
            r == (Self { attachments: r.attachments, ..self }),
    {
        let mut s = self;
        s.attachments.push(attachment);
        s
    }

    /// Appends a label.
    pub fn label(self, label: impl IntoText) -> (r: Self)
        ensures
            texts(r.labels@) == texts(self.labels@).push(label.text()),
            r == (Self { labels: r.labels, ..self }),
    {
        let mut s = self;
        s.labels.push(label.into_text());
        assert(texts(s.labels@) =~= texts(self.labels@).push(label.text()));
        s
    }

    /// Sets a custom header, creating the header map on first use; a
    /// header of the same name is replaced.
    pub fn header(self, key: impl IntoText, value: impl IntoText) -> (r: Self)
        ensures
            r.headers is Some,
            r.headers->0@ == (match self.headers {
                Some(h) => h@,
                None => Map::<Seq<char>, Seq<char>>::empty(),
            }).insert(key.text(), value.text()),
            r == (Self { headers: r.headers, ..self }),
    {
        let key = key.into_text();
        let value = value.into_text();
        let mut s = self;
        let mut map = match s.headers {
            Some(h) => h,
            None => HeaderMap::new(),
        };
        map.insert(key, value);
        s.headers = Some(map);
        s
    }
}

/// Request to reply to a message.
#[derive(Debug, Clone)]
pub struct ReplyRequest {
    pub text: Option<String>,
    pub html: Option<String>,
    pub attachments: Vec<AttachmentInput>,
    pub labels: Vec<String>,
}

impl Default for ReplyRequest {
    fn default() -> (r: Self)
        ensures
            r.text is None,
            r.html is None,
            r.attachments@ == Seq::<AttachmentInput>::empty(),
            r.labels@ == Seq::<String>::empty(),
    {
        ReplyRequest { text: None, html: None, attachments: Vec::new(), labels: Vec::new() }
    }
}

impl ReplyRequest {
    /// An empty reply.
    pub fn new() -> (r: Self)
        ensures
            r.text is None,
            r.html is None,
            r.attachments@ == Seq::<AttachmentInput>::empty(),
            r.labels@ == Seq::<String>::empty(),
    {
        Self::default()
    }

    /// Sets the plain-text body.
    pub fn text(self, text: impl IntoText) -> (r: Self)
        ensures
            opt_text(r.text) == Some(text.text()),
            r == (Self { text: r.text, ..self }),
    {
        let mut s = self;
        s.text = Some(text.into_text());
        s
    }

    /// Sets the HTML body.
    pub fn html(self, html: impl IntoText) -> (r: Self)
        ensures
            opt_text(r.html) == Some(html.text()),
            r == (Self { html: r.html, ..self }),
    {
        let mut s = self;
        s.html = Some(html.into_text());
        s
    }

    /// Appends an attachment.
    pub fn attachment(self, attachment: AttachmentInput) -> (r: Self)
        ensures
            r.attachments@ == self.attachments@.push(attachment),
            r == (Self { attachments: r.attachments, ..self }),
    {
        let mut s = self;
        s.attachments.push(attachment);
        s
    }

    /// Appends a label.
    pub fn label(self, label: impl IntoText) -> (r: Self)
        ensures
            texts(r.labels@) == texts(self.labels@).push(label.text()),
            r == (Self { labels: r.labels, ..self }),
    {
        let mut s = self;
        s.labels.push(label.into_text());
        assert(texts(s.labels@) =~= texts(self.labels@).push(label.text()));
        s
    }
}

/// Parameters for listing messages.
#[derive(Debug, Clone)]
pub struct ListMessagesParams {
    pub pagination: PaginationParams,
    pub thread_id: Option<String>,
    pub label: Option<String>,
}

impl Default for ListMessagesParams {
    fn default() -> (r: Self)
        ensures
            r.pagination.limit is None,
            r.pagination.page_token is None,
            r.thread_id is None,
            r.label is None,
    {
        ListMessagesParams { pagination: PaginationParams::default(), thread_id: None, label: None }
    }
}

impl ListMessagesParams {
    /// No page size, cursor or filter.
    pub fn new() -> (r: Self)
        ensures
            r.pagination.limit is None,
            r.pagination.page_token is None,
            r.thread_id is None,
            r.label is None,
    {
        Self::default()
    }

    /// Sets the page size.
    pub fn limit(self, limit: u32) -> (r: Self)
        ensures
            r.pagination.limit == Some(limit),
            r.pagination.page_token == self.pagination.page_token,
            r.thread_id == self.thread_id,
            r.label == self.label,
    {
        let mut s = self;
        s.pagination.limit = Some(limit);
        s
    }

    /// Sets the cursor of the page to fetch.
    pub fn page_token(self, token: impl IntoText) -> (r: Self)
        ensures
            opt_text(r.pagination.page_token) == Some(token.text()),
            r.pagination.limit == self.pagination.limit,
            r.thread_id == self.thread_id,
            r.label == self.label,
    {
        let mut s = self;
        s.pagination.page_token = Some(token.into_text());
        s
    }

    /// Lists only the messages of one thread.
    pub fn thread_id(self, id: impl IntoText) -> (r: Self)
        ensures
            opt_text(r.thread_id) == Some(id.text()),
            r == (Self { thread_id: r.thread_id, ..self }),
    {
        let mut s = self;
        s.thread_id = Some(id.into_text());
        s
    }

    /// Lists only the messages that carry a label.
    pub fn label(self, label: impl IntoText) -> (r: Self)
        ensures
            opt_text(r.label) == Some(label.text()),
            r == (Self { label: r.label, ..self }),
    {
        let mut s = self;
        s.label = Some(label.into_text());
        s
    }
}

// ============================================================================
// Draft types
// ============================================================================

/// A draft: an unsent message that can still be edited.
#[derive(Debug, Clone)]
pub struct Draft {
    pub draft_id: String,
    pub inbox_id: String,
    pub to: Vec<String>,
    pub cc: Vec<String>,
    pub bcc: Vec<String>,
    pub subject: Option<String>,
    pub text: Option<String>,
    pub html: Option<String>,
    pub attachments: Vec<Attachment>,
    pub send_at: Option<String>,
    pub created_at: String,
    pub updated_at: String,
}

/// Request to create a draft.
#[derive(Debug, Clone)]
pub struct CreateDraftRequest {
    pub to: Vec<String>,
    pub cc: Vec<String>,
    pub bcc: Vec<String>,
    pub subject: Option<String>,
    pub text: Option<String>,
    pub html: Option<String>,
    pub reply_to: Option<String>,
    pub attachments: Vec<AttachmentInput>,
    pub send_at: Option<String>,
}

impl Default for CreateDraftRequest {
    fn default() -> (r: Self)
        ensures
            r.to@ == Seq::<String>::empty(),
            r.cc@ == Seq::<String>::empty(),
            r.bcc@ == Seq::<String>::empty(),
            r.subject is None,
            r.text is None,
            r.html is None,
            r.reply_to is None,
            r.attachments@ == Seq::<AttachmentInput>::empty(),
            r.send_at is None,
    {
        CreateDraftRequest {
            to: Vec::new(),
            cc: Vec::new(),
            bcc: Vec::new(),
            subject: None,
            text: None,
            html: None,
            reply_to: None,
            attachments: Vec::new(),
            send_at: None,
        }
    }
}

impl CreateDraftRequest {
    /// An empty draft.
    pub fn new() -> (r: Self)
        ensures
            r.to@ == Seq::<String>::empty(),
            r.cc@ == Seq::<String>::empty(),
            r.bcc@ == Seq::<String>::empty(),
            r.subject is None,
            r.text is None,
            r.html is None,
            r.reply_to is None,
            r.attachments@ == Seq::<AttachmentInput>::empty(),
            r.send_at is None,
    {
        Self::default()
    }

    /// Replaces the recipients.
    pub fn to(self, recipients: Vec<String>) -> (r: Self)
        ensures
            r == (Self { to: recipients, ..self }),
    {
        let mut s = self;
        s.to = recipients;
        s
    }

    /// Appends one recipient.
    pub fn add_to(self, recipient: impl IntoText) -> (r: Self)
        ensures
            texts(r.to@) == texts(self.to@).push(recipient.text()),
            r == (Self { to: r.to, ..self }),
    {
        let mut s = self;
        s.to.push(recipient.into_text());
        assert(texts(s.to@) =~= texts(self.to@).push(recipient.text()));
        s
    }

    /// Replaces the carbon-copy recipients.
    pub fn cc(self, recipients: Vec<String>) -> (r: Self)
        ensures
            r == (Self { cc: recipients, ..self }),
    {
        let mut s = self;
        s.cc = recipients;
        s
    }

    /// Replaces the blind-copy recipients.
    pub fn bcc(self, recipients: Vec<String>) -> (r: Self)
        ensures
            r == (Self { bcc: recipients, ..self }),
    {
        let mut s = self;
        s.bcc = recipients;
        s
    }

    /// Sets the subject.
    pub fn subject(self, subject: impl IntoText) -> (r: Self)
        ensures
            opt_text(r.subject) == Some(subject.text()),
            r == (Self { subject: r.subject, ..self }),
    {
        let mut s = self;
        s.subject = Some(subject.into_text());
        s
    }

    /// Sets the plain-text body.
    pub fn text(self, text: impl IntoText) -> (r: Self)
        ensures
            opt_text(r.text) == Some(text.text()),
            r == (Self { text: r.text, ..self }),
    {
        let mut s = self;
        s.text = Some(text.into_text());
        s
    }

    /// Sets the HTML body.
    pub fn html(self, html: impl IntoText) -> (r: Self)
        ensures
            opt_text(r.html) == Some(html.text()),
            r == (Self { html: r.html, ..self }),
    {
        let mut s = self;
        s.html = Some(html.into_text());
        s
    }

    /// Sets the reply-to address.
    pub fn reply_to(self, reply_to: impl IntoText) -> (r: Self)
        ensures
            opt_text(r.reply_to) == Some(reply_to.text()),
            r == (Self { reply_to: r.reply_to, ..self }),
    {
        let mut s = self;
        s.reply_to = Some(reply_to.into_text());
        s
    }

    /// Appends an attachment.
    pub fn attachment(self, attachment: AttachmentInput) -> (r: Self)
        ensures
            r.attachments@ == self.attachments@.push(attachment),
            r == (Self { attachments: r.attachments, ..self }),
    {
        let mut s = self;
        s.attachments.push(attachment);
        s
    }

    /// Schedules the draft to be sent at the given time.
    pub fn send_at(self, time: impl IntoText) -> (r: Self)
        ensures
            opt_text(r.send_at) == Some(time.text()),
            r == (Self { send_at: r.send_at, ..self }),
    {
        let mut s = self;
        s.send_at = Some(time.into_text());
        s
    }
}

/// Request to update a draft; unset fields are left as they are.
#[derive(Debug, Clone)]
pub struct UpdateDraftRequest {
    pub to: Option<Vec<String>>,
    pub cc: Option<Vec<String>>,
    pub bcc: Option<Vec<String>>,
    pub subject: Option<String>,
    pub text: Option<String>,
    pub html: Option<String>,
    pub reply_to: Option<String>,
    pub attachments: Option<Vec<AttachmentInput>>,
    pub send_at: Option<String>,
}

impl Default for UpdateDraftRequest {
    fn default() -> (r: Self)
        ensures
            r.to is None,
            r.cc is None,
            r.bcc is None,
            r.subject is None,
            r.text is None,
            r.html is None,
            r.reply_to is None,
            r.attachments is None,
            r.send_at is None,
    {
        UpdateDraftRequest {
            to: None,
            cc: None,
            bcc: None,
            subject: None,
            text: None,
            html: None,
            reply_to: None,
            attachments: None,
            send_at: None,
        }
    }
}

impl UpdateDraftRequest {
    /// A request that changes nothing.
    pub fn new() -> (r: Self)
        ensures
            r.to is None,
            r.cc is None,
            r.bcc is None,
            r.subject is None,
            r.text is None,
            r.html is None,
            r.reply_to is None,
            r.attachments is None,
            r.send_at is None,
    {
        Self::default()
    }

    /// Replaces the recipients.
    pub fn to(self, recipients: Vec<String>) -> (r: Self)
        ensures
            r == (Self { to: Some(recipients), ..self }),
    {
        let mut s = self;
        s.to = Some(recipients);
        s
    }

    /// Replaces the carbon-copy recipients.
    pub fn cc(self, recipients: Vec<String>) -> (r: Self)
        ensures
            r == (Self { cc: Some(recipients), ..self }),
    {
        let mut s = self;
        s.cc = Some(recipients);
        s
    }

    /// Replaces the blind-copy recipients.
    pub fn bcc(self, recipients: Vec<String>) -> (r: Self)
        ensures
            r == (Self { bcc: Some(recipients), ..self }),
    {
        let mut s = self;
        s.bcc = Some(recipients);
        s
    }

    /// Sets the subject.
    pub fn subject(self, subject: impl IntoText) -> (r: Self)
        ensures
            opt_text(r.subject) == Some(subject.text()),
            r == (Self { subject: r.subject, ..self }),
    {
        let mut s = self;
        s.subject = Some(subject.into_text());
        s
    }

    /// Sets the plain-text body.
    pub fn text(self, text: impl IntoText) -> (r: Self)
        ensures
            opt_text(r.text) == Some(text.text()),
            r == (Self { text: r.text, ..self }),
    {
        let mut s = self;
        s.text = Some(text.into_text());
        s
    }

    /// Sets the HTML body.
    pub fn html(self, html: impl IntoText) -> (r: Self)
        ensures
            opt_text(r.html) == Some(html.text()),
            r == (Self { html: r.html, ..self }),
    {
        let mut s = self;
        s.html = Some(html.into_text());
        s
    }

    /// Schedules the draft to be sent at the given time.
    pub fn send_at(self, time: impl IntoText) -> (r: Self)
        ensures
            opt_text(r.send_at) == Some(time.text()),
            r == (Self { send_at: r.send_at, ..self }),
    {
        let mut s = self;
        s.send_at = Some(time.into_text());
        s
    }
}

// ============================================================================
// Webhook types
// ============================================================================

/// The events a webhook can subscribe to.
#[derive(Debug, Clone, Copy, PartialEq, Eq, Structural)]
pub enum WebhookEventType {
    MessageReceived,
    MessageSent,
    MessageDelivered,
    MessageBounced,
    MessageComplained,
    MessageRejected,
}

impl WebhookEventType {
    /// The name of the event on the wire, such as `message.received`.
    pub open spec fn wire_name(self) -> Seq<char> {
        match self {
            WebhookEventType::MessageReceived => "message.received"@,
            WebhookEventType::MessageSent => "message.sent"@,
            WebhookEventType::MessageDelivered => "message.delivered"@,
            WebhookEventType::MessageBounced => "message.bounced"@,
            WebhookEventType::MessageComplained => "message.complained"@,
            WebhookEventType::MessageRejected => "message.rejected"@,
        }
    }

    /// The name of the event on the wire.
    pub fn as_str(&self) -> (s: &'static str)
        ensures
            s@ == self.wire_name(),
    {
        match self {
            WebhookEventType::MessageReceived => "message.received",
            WebhookEventType::MessageSent => "message.sent",
            WebhookEventType::MessageDelivered => "message.delivered",
            WebhookEventType::MessageBounced => "message.bounced",
            WebhookEventType::MessageComplained => "message.complained",
            WebhookEventType::MessageRejected => "message.rejected",
        }
    }
}

/// The wire names of a list of event types, in order.
pub open spec fn wire_names(types: Seq<WebhookEventType>) -> Seq<Seq<char>> {
    types.map_values(|t: WebhookEventType| t.wire_name())
}

/// The wire names of a list of event types are, position by position, the
/// name of the event type at that position; and each event type has the
/// name the API gives it.
pub proof fn lemma_wire_names_rule(types: Seq<WebhookEventType>)
    ensures
        wire_names(types).len() == types.len(),
        forall|i: int| 0 <= i < types.len() ==> #[trigger] wire_names(types)[i] == types[i].wire_name(),
        WebhookEventType::MessageReceived.wire_name() == "message.received"@,
        WebhookEventType::MessageSent.wire_name() == "message.sent"@,
        WebhookEventType::MessageDelivered.wire_name() == "message.delivered"@,
        WebhookEventType::MessageBounced.wire_name() == "message.bounced"@,
        WebhookEventType::MessageComplained.wire_name() == "message.complained"@,
        WebhookEventType::MessageRejected.wire_name() == "message.rejected"@,
{
}

/// Distinct event types have distinct wire names, so a list of names
/// identifies the subscribed events exactly.
pub proof fn lemma_wire_names_distinct(a: WebhookEventType, b: WebhookEventType)
    requires
        a != b,
    ensures
        a.wire_name() != b.wire_name(),
{
    reveal_strlit("message.received");
    reveal_strlit("message.sent");
    reveal_strlit("message.delivered");
    reveal_strlit("message.bounced");
    reveal_strlit("message.complained");
    reveal_strlit("message.rejected");
    if a.wire_name().len() == b.wire_name().len() {
        assert(a.wire_name()[10] != b.wire_name()[10]);
    }
}

/// The names of `types` as owned strings.
fn event_type_strings(types: &Vec<WebhookEventType>) -> (r: Vec<String>)
    ensures
        texts(r@) == wire_names(types@),
{
    let mut r: Vec<String> = Vec::new();
    let mut i: usize = 0;
    while i < types.len()
        invariant
            i <= types@.len(),
            texts(r@) =~= wire_names(types@.take(i as int)),
        decreases types@.len() - i,
    {
        let name = types[i].as_str().to_owned();
        let ghost before = r@;
        r.push(name);
        proof {
            assert(types@.take(i + 1) =~= types@.take(i as int).push(types@[i as int]));
            assert(texts(r@) =~= texts(before).push(types@[i as int].wire_name()));
        }
        i = i + 1;
    }
    assert(types@.take(i as int) =~= types@);
    r
}

/// A webhook subscription.
#[derive(Debug, Clone)]
pub struct Webhook {
    pub webhook_id: String,
    pub url: String,
    pub event_types: Vec<String>,
    pub inbox_ids: Vec<String>,
    pub pod_ids: Vec<String>,
    pub client_id: Option<String>,
    pub secret: String,
    pub enabled: bool,
    pub created_at: String,
    pub updated_at: String,
}

/// Request to create a webhook.
#[derive(Debug, Clone)]
pub struct CreateWebhookRequest {
    pub url: String,
    pub event_types: Vec<String>,
    pub inbox_ids: Vec<String>,
    pub pod_ids: Vec<String>,
    pub client_id: Option<String>,
    pub secret: Option<String>,
}

impl CreateWebhookRequest {
    /// A subscription of `url` to `event_types`, named on the wire in the
    /// given order, without inbox or pod filter.
    pub fn new(url: impl IntoText, event_types: Vec<WebhookEventType>) -> (r: Self)
        ensures
            r.url@ == url.text(),
            texts(r.event_types@) == wire_names(event_types@),
            r.inbox_ids@ == Seq::<String>::empty(),
            r.pod_ids@ == Seq::<String>::empty(),
            r.client_id is None,
            r.secret is None,
    {
        CreateWebhookRequest {
            url: url.into_text(),
            event_types: event_type_strings(&event_types),
            inbox_ids: Vec::new(),
            pod_ids: Vec::new(),
            client_id: None,
            secret: None,
        }
    }

    /// Adds an inbox to the filter.
    pub fn inbox_id(self, id: impl IntoText) -> (r: Self)
        ensures
            texts(r.inbox_ids@) == texts(self.inbox_ids@).push(id.text()),
            r == (Self { inbox_ids: r.inbox_ids, ..self }),
    {
        let mut s = self;
        s.inbox_ids.push(id.into_text());
        assert(texts(s.inbox_ids@) =~= texts(self.inbox_ids@).push(id.text()));
        s
    }

    /// Adds a pod to the filter.
    pub fn pod_id(self, id: impl IntoText) -> (r: Self)
        ensures
            texts(r.pod_ids@) == texts(self.pod_ids@).push(id.text()),
            r == (Self { pod_ids: r.pod_ids, ..self }),
    {
        let mut s = self;
        s.pod_ids.push(id.into_text());
        assert(texts(s.pod_ids@) =~= texts(self.pod_ids@).push(id.text()));
        s
    }

    /// Sets the caller's idempotency id.
    pub fn client_id(self, id: impl IntoText) -> (r: Self)
        ensures
            opt_text(r.client_id) == Some(id.text()),
            r == (Self { client_id: r.client_id, ..self }),
    {
        let mut s = self;
        s.client_id = Some(id.into_text());
        s
    }

    /// Sets the signing secret instead of letting the server generate one.
    pub fn secret(self, secret: impl IntoText) -> (r: Self)
        ensures
            opt_text(r.secret) == Some(secret.text()),
            r == (Self { secret: r.secret, ..self }),
    {
        let mut s = self;
        s.secret = Some(secret.into_text());
        s
    }
}

/// Request to update a webhook; unset fields are left as they are.
#[derive(Debug, Clone)]
pub struct UpdateWebhookRequest {
    pub url: Option<String>,
    pub event_types: Option<Vec<String>>,
    pub inbox_ids: Option<Vec<String>>,
    pub pod_ids: Option<Vec<String>>,
    pub enabled: Option<bool>,
}

impl Default for UpdateWebhookRequest {
    fn default() -> (r: Self)
        ensures
            r.url is None,
            r.event_types is None,
            r.inbox_ids is None,
            r.pod_ids is None,
            r.enabled is None,
    {
        UpdateWebhookRequest { url: None, event_types: None, inbox_ids: None, pod_ids: None, enabled: None }
    }
}

impl UpdateWebhookRequest {
    /// A request that changes nothing.
    pub fn new() -> (r: Self)
        ensures
            r.url is None,
            r.event_types is None,
            r.inbox_ids is None,
            r.pod_ids is None,
            r.enabled is None,
    {
        Self::default()
    }

    /// Sets the endpoint URL.
    pub fn url(self, url: impl IntoText) -> (r: Self)
        ensures
            opt_text(r.url) == Some(url.text()),
            r == (Self { url: r.url, ..self }),
    {
        let mut s = self;
        s.url = Some(url.into_text());
        s
    }

    /// Replaces the subscribed events, named on the wire in the given order.
    pub fn event_types(self, types: Vec<WebhookEventType>) -> (r: Self)
        ensures
            r.event_types matches Some(v) && texts(v@) == wire_names(types@),
            r == (Self { event_types: r.event_types, ..self }),
    {
        let mut s = self;
        s.event_types = Some(event_type_strings(&types));
        s
    }

    /// Replaces the inbox filter.
    pub fn inbox_ids(self, ids: Vec<String>) -> (r: Self)
        ensures
            r == (Self { inbox_ids: Some(ids), ..self }),
    {
        let mut s = self;
        s.inbox_ids = Some(ids);
        s
    }

    /// Replaces the pod filter.
    pub fn pod_ids(self, ids: Vec<String>) -> (r: Self)
        ensures
            r == (Self { pod_ids: Some(ids), ..self }),
    {
        let mut s = self;
        s.pod_ids = Some(ids);
        s
    }

    /// Enables or disables the webhook.
    pub fn enabled(self, enabled: bool) -> (r: Self)
        ensures
            r == (Self { enabled: Some(enabled), ..self }),
    {
        let mut s = self;
        s.enabled = Some(enabled);
        s
    }
}

/// `serde_json::Value`, an arbitrary JSON document; carried through as is.
#[verifier::external_type_specification]
#[verifier::external_body]
pub struct ExJsonValue(serde_json::Value);

/// `serde_json::Value::clone`, a deep copy of the document. Nothing is
/// stated of the copy: the document is opaque here.
pub assume_specification[ <serde_json::Value as Clone>::clone ](v: &serde_json::Value) -> serde_json::Value;

/// The payload that the server posts to a webhook endpoint.
#[derive(Debug, Clone)]
pub struct WebhookEvent {
    pub id: String,
    pub event_type: String,
    pub created_at: String,
    pub data: serde_json::Value,
}

// ============================================================================
// Domain types
// ============================================================================

/// Verification state of a custom domain.
#[derive(Debug, Clone, Copy, PartialEq, Eq, Structural)]
pub enum DomainStatus {
    Pending,
    Verifying,
    Verified,
    Failed,
}

/// A DNS record to publish for domain verification.
#[derive(Debug, Clone)]
pub struct DnsRecord {
    pub record_type: String,
    pub name: String,
    pub value: String,
}

/// A custom sending domain.
#[derive(Debug, Clone)]
pub struct Domain {
    pub domain_id: String,
    pub domain: String,
    pub pod_id: Option<String>,
    pub status: DomainStatus,
    pub dns_records: Vec<DnsRecord>,
    pub created_at: String,
    pub updated_at: String,
}

/// Request to add a custom domain.
#[derive(Debug, Clone)]
pub struct CreateDomainRequest {
    pub domain: String,
    pub pod_id: Option<String>,
}

impl CreateDomainRequest {
    /// A request for `domain`, not tied to a pod.
    pub fn new(domain: impl IntoText) -> (r: Self)
        ensures
            r.domain@ == domain.text(),
            r.pod_id is None,
    {
        CreateDomainRequest { domain: domain.into_text(), pod_id: None }
    }

    /// Ties the domain to a pod.
    pub fn pod_id(self, id: impl IntoText) -> (r: Self)
        ensures
            opt_text(r.pod_id) == Some(id.text()),
            r.domain == self.domain,
    {
        let mut s = self;
        s.pod_id = Some(id.into_text());
        s
    }
}

} // verus!
