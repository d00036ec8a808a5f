//! Pods: isolated tenants.
use vstd::prelude::*;

use crate::client::{
    concat2, describes, pagination_query, pagination_query_of, ApiClient, Endpoint, Expect, Method,
};
use crate::types::{opt_text, PaginationParams};

verus! {

/// Operations on pods.
pub struct PodsResource<'a> {
    client: &'a ApiClient,
}

impl<'a> PodsResource<'a> {
    /// The client that the operations go through.
    pub closed spec fn spec_client(&self) -> &'a ApiClient {
        self.client
    }

    pub(crate) fn new(client: &'a ApiClient) -> (r: Self)
        ensures
            r.spec_client() == client,
    {
        PodsResource { client }
    }

    /// The client that the operations go through.
    pub fn client(&self) -> (c: &'a ApiClient)
        ensures
            c == self.spec_client(),
    {
        self.client
    }

    /// Creating a pod: `POST pods` with the request as body.
    pub fn create_endpoint(&self) -> (e: Endpoint)
        ensures
            describes(e, Method::Post, "pods"@, Seq::empty(), true, Expect::Json),
    {
        Endpoint::plain(Method::Post, "pods".to_owned(), true, Expect::Json)
    }

    /// Listing pods: `GET pods` with the pagination query.
    pub fn list_endpoint(&self, params: &PaginationParams) -> (e: Endpoint)
        ensures
            describes(
                e,
                Method::Get,
                "pods"@,
                pagination_query(params.limit, opt_text(params.page_token)),
                false,
                Expect::Json,
            ),
    {
        Endpoint {
            method: Method::Get,
            path: "pods".to_owned(),
            query: pagination_query_of(params),
            with_body: false,
            expect: Expect::Json,
        }
    }

    /// Getting a pod: `GET pods/{pod_id}`.
    pub fn get_endpoint(&self, pod_id: &str) -> (e: Endpoint)
        ensures
            describes(e, Method::Get, "pods/"@ + pod_id@, Seq::empty(), false, Expect::Json),
    {
        Endpoint::plain(Method::Get, concat2("pods/", pod_id), false, Expect::Json)
    }

    /// Updating a pod: `PUT pods/{pod_id}` with the request as body.
    pub fn update_endpoint(&self, pod_id: &str) -> (e: Endpoint)
        ensures
            describes(e, Method::Put, "pods/"@ + pod_id@, Seq::empty(), true, Expect::Json),
    {
        Endpoint::plain(Method::Put, concat2("pods/", pod_id), true, Expect::Json)
    }

    /// Deleting a pod: `DELETE pods/{pod_id}`, with an empty answer.
    pub fn delete_endpoint(&self, pod_id: &str) -> (e: Endpoint)
        ensures
            describes(e, Method::Delete, "pods/"@ + pod_id@, Seq::empty(), false, Expect::Empty),
    {
        Endpoint::plain(Method::Delete, concat2("pods/", pod_id), false, Expect::Empty)
    }
}

} // verus!
