//! Drafts of an inbox: unsent messages.
use vstd::prelude::*;

use crate::client::{
    concat4, concat5, describes, pagination_query, pagination_query_of, ApiClient, Endpoint,
    Expect, Method,
};
use crate::types::{opt_text, PaginationParams};

verus! {

/// The path of one draft.
pub open spec fn draft_path(inbox_id: Seq<char>, draft_id: Seq<char>) -> Seq<char> {
    "inboxes/"@ + inbox_id + "/drafts/"@ + draft_id
}

/// Operations on drafts.
pub struct DraftsResource<'a> {
    client: &'a ApiClient,
}

impl<'a> DraftsResource<'a> {
    /// The client that the operations go through.
    pub closed spec fn spec_client(&self) -> &'a ApiClient {
        self.client
    }

    pub(crate) fn new(client: &'a ApiClient) -> (r: Self)
        ensures
            r.spec_client() == client,
    {
        DraftsResource { client }
    }

    /// The client that the operations go through.
    pub fn client(&self) -> (c: &'a ApiClient)
        ensures
            c == self.spec_client(),
    {
        self.client
    }

    /// Creating a draft: `POST inboxes/{inbox_id}/drafts` with the request
    /// as body.
    pub fn create_endpoint(&self, inbox_id: &str) -> (e: Endpoint)
        ensures
            describes(
                e,
                Method::Post,
                "inboxes/"@ + inbox_id@ + "/drafts"@,
                Seq::empty(),
                true,
                Expect::Json,
            ),
    {
        let mut path = "inboxes/".to_owned();
        path.append(inbox_id);
        path.append("/drafts");
        Endpoint::plain(Method::Post, path, true, Expect::Json)
    }

    /// Listing drafts: `GET inboxes/{inbox_id}/drafts` with the pagination
    /// query.
    pub fn list_endpoint(&self, inbox_id: &str, params: &PaginationParams) -> (e: Endpoint)
        ensures
            describes(
                e,
                Method::Get,
                "inboxes/"@ + inbox_id@ + "/drafts"@,
                pagination_query(params.limit, opt_text(params.page_token)),
                false,
                Expect::Json,
            ),
    {
        let mut path = "inboxes/".to_owned();
        path.append(inbox_id);
        path.append("/drafts");
        Endpoint {
            method: Method::Get,
            path,
            query: pagination_query_of(params),
            with_body: false,
            expect: Expect::Json,
        }
    }

    /// Getting a draft: `GET inboxes/{inbox_id}/drafts/{draft_id}`.
    pub fn get_endpoint(&self, inbox_id: &str, draft_id: &str) -> (e: Endpoint)
        ensures
            describes(e, Method::Get, draft_path(inbox_id@, draft_id@), Seq::empty(), false, Expect::Json),
    {
        let path = concat4("inboxes/", inbox_id, "/drafts/", draft_id);
        Endpoint::plain(Method::Get, path, false, Expect::Json)
    }

    /// Updating a draft: `PUT inboxes/{inbox_id}/drafts/{draft_id}` with the
    /// request as body.
    pub fn update_endpoint(&self, inbox_id: &str, draft_id: &str) -> (e: Endpoint)
        ensures
            describes(e, Method::Put, draft_path(inbox_id@, draft_id@), Seq::empty(), true, Expect::Json),
    {
        let path = concat4("inboxes/", inbox_id, "/drafts/", draft_id);
        Endpoint::plain(Method::Put, path, true, Expect::Json)
    }

    /// Deleting a draft: `DELETE inboxes/{inbox_id}/drafts/{draft_id}`, with
    /// an empty answer.
    pub fn delete_endpoint(&self, inbox_id: &str, draft_id: &str) -> (e: Endpoint)
        ensures
            describes(e, Method::Delete, draft_path(inbox_id@, draft_id@), Seq::empty(), false, Expect::Empty),
    {
        let path = concat4("inboxes/", inbox_id, "/drafts/", draft_id);
        Endpoint::plain(Method::Delete, path, false, Expect::Empty)
    }

    /// Sending a draft: `POST inboxes/{inbox_id}/drafts/{draft_id}/send`
    /// without a body; the answer is the sent message.
    pub fn send_endpoint(&self, inbox_id: &str, draft_id: &str) -> (e: Endpoint)
        ensures
            describes(
                e,
                Method::Post,
                draft_path(inbox_id@, draft_id@) + "/send"@,
                Seq::empty(),
                false,
                Expect::Json,
            ),
    {
        let path = concat5("inboxes/", inbox_id, "/drafts/", draft_id, "/send");
        Endpoint::plain(Method::Post, path, false, Expect::Json)
    }
}

} // verus!
