//! Inboxes: addresses that send and receive mail.
use vstd::prelude::*;

use crate::client::{
    concat2, describes, pagination_query, pagination_query_of, ApiClient, Endpoint, Expect, Method,
};
use crate::types::{opt_text, ListInboxesParams};

verus! {

/// The path of an inbox listing: the inboxes of one pod when a pod is
/// given, else all inboxes.
pub open spec fn inbox_list_path(params: ListInboxesParams) -> Seq<char> {
    match params.pod_id {
        Some(p) => "pods/"@ + p@ + "/inboxes"@,
        None => "inboxes"@,
    }
}

/// A listing with a pod filter asks for that pod's inboxes, whatever the
/// pagination; a listing without one asks for all inboxes.
pub proof fn lemma_inbox_list_path_rule(params: ListInboxesParams)
    ensures
        params.pod_id matches Some(p) ==> inbox_list_path(params) == "pods/"@ + p@ + "/inboxes"@,
        params.pod_id is None ==> inbox_list_path(params) == "inboxes"@,
        forall|pagination: crate::types::PaginationParams|
            inbox_list_path(ListInboxesParams { pagination, ..params }) == #[trigger] inbox_list_path(params),
{
}

/// Operations on inboxes.
pub struct InboxesResource<'a> {
    client: &'a ApiClient,
}

impl<'a> InboxesResource<'a> {
    /// The client that the operations go through.
    pub closed spec fn spec_client(&self) -> &'a ApiClient {
        self.client
    }

    pub(crate) fn new(client: &'a ApiClient) -> (r: Self)
        ensures
            r.spec_client() == client,
    {
        InboxesResource { client }
    }

    /// The client that the operations go through.
    pub fn client(&self) -> (c: &'a ApiClient)
        ensures
            c == self.spec_client(),
    {
        self.client
    }

    /// Creating an inbox in a pod: `POST pods/{pod_id}/inboxes` with the
    /// request as body.
    pub fn create_endpoint(&self, pod_id: &str) -> (e: Endpoint)
        ensures
            describes(
                e,
                Method::Post,
                "pods/"@ + pod_id@ + "/inboxes"@,
                Seq::empty(),
                true,
                Expect::Json,
            ),
    {
        let mut path = concat2("pods/", pod_id);
        path.append("/inboxes");
        Endpoint::plain(Method::Post, path, true, Expect::Json)
    }

    /// Listing inboxes with the pagination query: `GET pods/{pod_id}/inboxes`
    /// for the inboxes of one pod when a pod is given, else `GET inboxes`.
    pub fn list_endpoint(&self, params: &ListInboxesParams) -> (e: Endpoint)
        ensures
            describes(
                e,
                Method::Get,
                inbox_list_path(*params),
                pagination_query(params.pagination.limit, opt_text(params.pagination.page_token)),
                false,
                Expect::Json,
            ),
    {
        let path = match &params.pod_id {
            Some(p) => {
                let mut path = concat2("pods/", p.as_str());
                path.append("/inboxes");
                path
            },
            None => "inboxes".to_owned(),
        };
        Endpoint {
            method: Method::Get,
            path,
            query: pagination_query_of(&params.pagination),
            with_body: false,
            expect: Expect::Json,
        }
    }

    /// Getting an inbox: `GET inboxes/{inbox_id}`.
    pub fn get_endpoint(&self, inbox_id: &str) -> (e: Endpoint)
        ensures
            describes(e, Method::Get, "inboxes/"@ + inbox_id@, Seq::empty(), false, Expect::Json),
    {
        Endpoint::plain(Method::Get, concat2("inboxes/", inbox_id), false, Expect::Json)
    }

    /// Updating an inbox: `PUT inboxes/{inbox_id}` with the request as body.
    pub fn update_endpoint(&self, inbox_id: &str) -> (e: Endpoint)
        ensures
            describes(e, Method::Put, "inboxes/"@ + inbox_id@, Seq::empty(), true, Expect::Json),
    {
        Endpoint::plain(Method::Put, concat2("inboxes/", inbox_id), true, Expect::Json)
    }

    /// Deleting an inbox: `DELETE inboxes/{inbox_id}`, with an empty answer.
    pub fn delete_endpoint(&self, inbox_id: &str) -> (e: Endpoint)
        ensures
            describes(e, Method::Delete, "inboxes/"@ + inbox_id@, Seq::empty(), false, Expect::Empty),
    {
        Endpoint::plain(Method::Delete, concat2("inboxes/", inbox_id), false, Expect::Empty)
    }
}

} // verus!
