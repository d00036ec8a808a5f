//! A typed client library for the OpenAgentMail e-mail API, an e-mail
//! service for AI agents.
//!
//! The library holds the API's data types and request builders, the
//! description of every request that an operation makes (method, path,
//! query, body), the construction of URLs and headers, the mapping of
//! error responses to errors, and the decisions of paginated iteration.
use vstd::prelude::*;

pub mod client;
pub mod error;
pub mod headers;
pub mod pagination;
pub mod resources;
pub mod text;
pub mod types;

pub use client::{ApiClient, ClientConfig, Endpoint, Expect, Method};
pub use error::{ApiError, ApiErrorResponse, ErrorDetails, Result, SdkError};
pub use headers::HeaderMap;
pub use pagination::{PageStep, PaginatedStream, PollStep};
pub use resources::{
    Domains, DomainsResource, DraftsResource, InboxesResource, MessagesResource,
    OrganizationResource, PodsResource, Webhooks, WebhooksResource,
};
pub use text::IntoText;
pub use types::{
    Attachment, AttachmentInput, CreateDomainRequest, CreateDraftRequest, CreateInboxRequest,
    CreatePodRequest, CreateWebhookRequest, DnsRecord, Domain, DomainStatus, Draft, Inbox,
    ListInboxesParams, ListMessagesParams, Message, Organization, PaginatedResponse,
    PaginationParams, Pod, ReplyRequest, SendMessageRequest, UpdateDraftRequest,
    UpdateInboxRequest, UpdatePodRequest, UpdateWebhookRequest, Webhook, WebhookEvent,
    WebhookEventType,
};

verus! {

/// The entry point: a client for the API, from which each resource's
/// operations are reached.
pub struct OpenAgentMail {
    client: ApiClient,
}

impl OpenAgentMail {
    /// The client that every resource goes through.
    pub closed spec fn spec_client(&self) -> ApiClient {
        self.client
    }

    /// A client with the default settings for `api_key`.
    pub fn new(api_key: impl IntoText) -> (r: Result<Self>)
        ensures
            r matches Ok(c) ==> {
                &&& c.spec_client().spec_config().api_key@ == api_key.text()
                &&& c.spec_client().spec_config().base_url@ == client::default_base_url()
                &&& c.spec_client().spec_config().timeout_secs == 30
                &&& client::client_timeout(c.spec_client().spec_http()) == Some(30u64)
            },
            r matches Err(e) ==> e is Http,
    {
        Self::with_config(ClientConfig::new(api_key))
    }

    /// A client with the given settings.
    pub fn with_config(config: ClientConfig) -> (r: Result<Self>)
        ensures
            r matches Ok(c) ==> c.spec_client().spec_config() == config,
            r matches Ok(c) ==> client::client_timeout(c.spec_client().spec_http()) == Some(
                config.timeout_secs,
            ),
            r matches Err(e) ==> e is Http,
    {
        match ApiClient::new(config) {
            Ok(client) => Ok(OpenAgentMail { client }),
            Err(e) => Err(e),
        }
    }

    /// The client that every resource goes through.
    pub fn client(&self) -> (c: &ApiClient)
        ensures
            *c == self.spec_client(),
    {
        &self.client
    }

    /// Organization operations.
    pub fn organization(&self) -> (r: OrganizationResource<'_>)
        ensures
            *r.spec_client() == self.spec_client(),
    {
        OrganizationResource::new(&self.client)
    }

    /// Pod operations.
    pub fn pods(&self) -> (r: PodsResource<'_>)
        ensures
            *r.spec_client() == self.spec_client(),
    {
        PodsResource::new(&self.client)
    }

    /// Inbox operations.
    pub fn inboxes(&self) -> (r: InboxesResource<'_>)
        ensures
            *r.spec_client() == self.spec_client(),
    {
        InboxesResource::new(&self.client)
    }

    /// Message operations.
    pub fn messages(&self) -> (r: MessagesResource<'_>)
        ensures
            *r.spec_client() == self.spec_client(),
    {
        MessagesResource::new(&self.client)
    }

    /// Draft operations.
    pub fn drafts(&self) -> (r: DraftsResource<'_>)
        ensures
            *r.spec_client() == self.spec_client(),
    {
        DraftsResource::new(&self.client)
    }

    /// Webhook operations.
    pub fn webhooks(&self) -> (r: WebhooksResource<'_>)
        ensures
            *r.spec_client() == self.spec_client(),
    {
        Webhooks::new(&self.client)
    }

    /// Custom domain operations.
    pub fn domains(&self) -> (r: DomainsResource<'_>)
        ensures
            *r.spec_client() == self.spec_client(),
    {
        Domains::new(&self.client)
    }
}

} // verus!
