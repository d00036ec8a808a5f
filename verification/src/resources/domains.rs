//! Custom sending domains.
use vstd::prelude::*;

use crate::client::{
    concat2, describes, pagination_query, pagination_query_of, ApiClient, Endpoint, Expect, Method,
};
use crate::types::{opt_text, PaginationParams};

verus! {

/// Operations on custom domains.
pub struct Domains<'a> {
    client: &'a ApiClient,
}

/// The name under which the client hands out domain operations.
pub type DomainsResource<'a> = Domains<'a>;

impl<'a> Domains<'a> {
    /// The client that the operations go through.
    pub closed spec fn spec_client(&self) -> &'a ApiClient {
        self.client
    }

    pub(crate) fn new(client: &'a ApiClient) -> (r: Self)
        ensures
            r.spec_client() == client,
    {
        Domains { client }
    }

    /// The client that the operations go through.
    pub fn client(&self) -> (c: &'a ApiClient)
        ensures
            c == self.spec_client(),
    {
        self.client
    }

    /// Adding a domain: `POST /domains` with the request as body.
    pub fn add_endpoint(&self) -> (e: Endpoint)
        ensures
            describes(e, Method::Post, "/domains"@, Seq::empty(), true, Expect::Json),
    {
        Endpoint::plain(Method::Post, "/domains".to_owned(), true, Expect::Json)
    }

    /// Listing domains: `GET /domains` with the pagination query.
    pub fn list_endpoint(&self, params: &PaginationParams) -> (e: Endpoint)
        ensures
            describes(
                e,
                Method::Get,
                "/domains"@,
                pagination_query(params.limit, opt_text(params.page_token)),
                false,
                Expect::Json,
            ),
    {
        Endpoint {
            method: Method::Get,
            path: "/domains".to_owned(),
            query: pagination_query_of(params),
            with_body: false,
            expect: Expect::Json,
        }
    }

    /// Getting a domain: `GET /domains/{domain_id}`.
    pub fn get_endpoint(&self, domain_id: &str) -> (e: Endpoint)
        ensures
            describes(e, Method::Get, "/domains/"@ + domain_id@, Seq::empty(), false, Expect::Json),
    {
        Endpoint::plain(Method::Get, concat2("/domains/", domain_id), false, Expect::Json)
    }

    /// Checking a domain's DNS records: `POST /domains/{domain_id}/verify`
    /// without a body; the answer is the domain with its new status.
    pub fn verify_endpoint(&self, domain_id: &str) -> (e: Endpoint)
        ensures
            describes(
                e,
                Method::Post,
                "/domains/"@ + domain_id@ + "/verify"@,
                Seq::empty(),
                false,
                Expect::Json,
            ),
    {
        let mut path = concat2("/domains/", domain_id);
        path.append("/verify");
        Endpoint::plain(Method::Post, path, false, Expect::Json)
    }

    /// Deleting a domain: `DELETE /domains/{domain_id}`, with an empty
    /// answer.
    pub fn delete_endpoint(&self, domain_id: &str) -> (e: Endpoint)
        ensures
            describes(e, Method::Delete, "/domains/"@ + domain_id@, Seq::empty(), false, Expect::Empty),
    {
        Endpoint::plain(Method::Delete, concat2("/domains/", domain_id), false, Expect::Empty)
    }
}

} // verus!
