//! Webhooks: notifications of mail events to an endpoint of the caller.
use vstd::prelude::*;

use crate::client::{
    concat2, describes, pagination_query, pagination_query_of, ApiClient, Endpoint, Expect, Method,
};
use crate::types::{opt_text, PaginationParams};

verus! {

/// Operations on webhooks.
pub struct Webhooks<'a> {
    client: &'a ApiClient,
}

/// The name under which the client hands out webhook operations.
pub type WebhooksResource<'a> = Webhooks<'a>;

impl<'a> Webhooks<'a> {
    /// The client that the operations go through.
    pub closed spec fn spec_client(&self) -> &'a ApiClient {
        self.client
    }

    pub(crate) fn new(client: &'a ApiClient) -> (r: Self)
        ensures
            r.spec_client() == client,
    {
        Webhooks { client }
    }

    /// The client that the operations go through.
    pub fn client(&self) -> (c: &'a ApiClient)
        ensures
            c == self.spec_client(),
    {
        self.client
    }

    /// Creating a webhook: `POST /webhooks` with the request as body.
    pub fn create_endpoint(&self) -> (e: Endpoint)
        ensures
            describes(e, Method::Post, "/webhooks"@, Seq::empty(), true, Expect::Json),
    {
        Endpoint::plain(Method::Post, "/webhooks".to_owned(), true, Expect::Json)
    }

    /// Listing webhooks: `GET /webhooks` with the pagination query.
    pub fn list_endpoint(&self, params: &PaginationParams) -> (e: Endpoint)
        ensures
            describes(
                e,
                Method::Get,
                "/webhooks"@,
                pagination_query(params.limit, opt_text(params.page_token)),
                false,
                Expect::Json,
            ),
    {
        Endpoint {
            method: Method::Get,
            path: "/webhooks".to_owned(),
            query: pagination_query_of(params),
            with_body: false,
            expect: Expect::Json,
        }
    }

    /// Getting a webhook: `GET /webhooks/{webhook_id}`.
    pub fn get_endpoint(&self, webhook_id: &str) -> (e: Endpoint)
        ensures
            describes(e, Method::Get, "/webhooks/"@ + webhook_id@, Seq::empty(), false, Expect::Json),
    {
        Endpoint::plain(Method::Get, concat2("/webhooks/", webhook_id), false, Expect::Json)
    }

    /// Updating a webhook: `PUT /webhooks/{webhook_id}` with the request as
    /// body.
    pub fn update_endpoint(&self, webhook_id: &str) -> (e: Endpoint)
        ensures
            describes(e, Method::Put, "/webhooks/"@ + webhook_id@, Seq::empty(), true, Expect::Json),
    {
        Endpoint::plain(Method::Put, concat2("/webhooks/", webhook_id), true, Expect::Json)
    }

    /// Deleting a webhook: `DELETE /webhooks/{webhook_id}`, with an empty
    /// answer.
    pub fn delete_endpoint(&self, webhook_id: &str) -> (e: Endpoint)
        ensures
            describes(e, Method::Delete, "/webhooks/"@ + webhook_id@, Seq::empty(), false, Expect::Empty),
    {
        Endpoint::plain(Method::Delete, concat2("/webhooks/", webhook_id), false, Expect::Empty)
    }

    /// Replacing a webhook's signing secret:
    /// `POST /webhooks/{webhook_id}/rotate-secret` without a body.
    pub fn rotate_secret_endpoint(&self, webhook_id: &str) -> (e: Endpoint)
        ensures
            describes(
                e,
                Method::Post,
                "/webhooks/"@ + webhook_id@ + "/rotate-secret"@,
                Seq::empty(),
                false,
                Expect::Json,
            ),
    {
        let mut path = concat2("/webhooks/", webhook_id);
        path.append("/rotate-secret");
        Endpoint::plain(Method::Post, path, false, Expect::Json)
    }
}

} // verus!
