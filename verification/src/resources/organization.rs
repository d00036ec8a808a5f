//! The organization of the API key.
use vstd::prelude::*;

use crate::client::{describes, ApiClient, Endpoint, Expect, Method};

verus! {

/// Operations on the organization.
pub struct OrganizationResource<'a> {
    client: &'a ApiClient,
}

impl<'a> OrganizationResource<'a> {
    /// The client that the operations go through.
    pub closed spec fn spec_client(&self) -> &'a ApiClient {
        self.client
    }

    pub(crate) fn new(client: &'a ApiClient) -> (r: Self)
        ensures
            r.spec_client() == client,
    {
        OrganizationResource { client }
    }

    /// The client that the operations go through.
    pub fn client(&self) -> (c: &'a ApiClient)
        ensures
            c == self.spec_client(),
    {
        self.client
    }

    /// Getting the organization: `GET organization`.
    pub fn get_endpoint(&self) -> (e: Endpoint)
        ensures
            describes(e, Method::Get, "organization"@, Seq::empty(), false, Expect::Json),
    {
        Endpoint::plain(Method::Get, "organization".to_owned(), false, Expect::Json)
    }
}

} // verus!
