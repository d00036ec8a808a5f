//! Messages of an inbox: sending, listing, replying.
use vstd::prelude::*;

use crate::client::{
    concat4, concat5, describes, optional_param, pagination_query, pagination_query_of,
    push_optional_param, ApiClient, Endpoint, Expect, Method,
};
use crate::types::{opt_text, ListMessagesParams};

verus! {

/// The query of a message listing: the pagination query, then
/// `thread_id` if set, then `label` if set.
pub open spec fn message_list_query(params: ListMessagesParams) -> Seq<(Seq<char>, Seq<char>)> {
    pagination_query(params.pagination.limit, opt_text(params.pagination.page_token))
        + optional_param("thread_id"@, opt_text(params.thread_id))
        + optional_param("label"@, opt_text(params.label))
}

/// The query of a message listing is the pagination query, then
/// `thread_id` exactly when a thread filter is set, then `label` exactly
/// when a label filter is set; each filter is sent whatever the other
/// filters and the pagination are.
pub proof fn lemma_message_list_query_rule(params: ListMessagesParams)
    ensures
        message_list_query(params) == pagination_query(
            params.pagination.limit,
            opt_text(params.pagination.page_token),
        ) + (match params.thread_id {
            Some(t) => seq![("thread_id"@, t@)],
            None => Seq::<(Seq<char>, Seq<char>)>::empty(),
        }) + (match params.label {
            Some(l) => seq![("label"@, l@)],
            None => Seq::<(Seq<char>, Seq<char>)>::empty(),
        }),
        params.thread_id matches Some(t) ==> message_list_query(params).contains(("thread_id"@, t@)),
        params.thread_id is None ==> forall|i: int|
            0 <= i < message_list_query(params).len() ==> (#[trigger] message_list_query(params)[i]).0
                != "thread_id"@,
        params.label matches Some(l) ==> message_list_query(params).contains(("label"@, l@)),
        params.label is None ==> forall|i: int|
            0 <= i < message_list_query(params).len() ==> (#[trigger] message_list_query(params)[i]).0
                != "label"@,
{
    let pq = pagination_query(params.pagination.limit, opt_text(params.pagination.page_token));
    crate::client::lemma_pagination_query_rule(
        params.pagination.limit,
        opt_text(params.pagination.page_token),
    );
    reveal_strlit("limit");
    reveal_strlit("page_token");
    reveal_strlit("thread_id");
    reveal_strlit("label");
    let q = message_list_query(params);
    let tq = match params.thread_id {
        Some(t) => seq![("thread_id"@, t@)],
        None => Seq::<(Seq<char>, Seq<char>)>::empty(),
    };
    assert(optional_param("thread_id"@, opt_text(params.thread_id)) == tq);
    if let Some(t) = params.thread_id {
        assert(q[pq.len() as int] == ("thread_id"@, t@));
    }
    if let Some(l) = params.label {
        assert(q[q.len() - 1] == ("label"@, l@));
    }
    assert forall|i: int| 0 <= i < q.len() implies {
        &&& params.thread_id is None ==> (#[trigger] q[i]).0 != "thread_id"@
        &&& params.label is None ==> q[i].0 != "label"@
    } by {
        if i < pq.len() {
            assert(q[i] == pq[i]);
            assert(pq[i].0 == "limit"@ || pq[i].0 == "page_token"@);
            assert("limit"@[1] != "label"@[1]);
            assert("limit"@[0] != "thread_id"@[0]);
            assert("page_token"@[0] != "thread_id"@[0]);
            assert("page_token"@[0] != "label"@[0]);
        } else if i < pq.len() + tq.len() {
            assert(q[i] == tq[i - pq.len()]);
            assert("thread_id"@[0] != "label"@[0]);
        } else {
            assert("thread_id"@[0] != "label"@[0]);
        }
    }
}

/// The path of one message.
pub open spec fn message_path(inbox_id: Seq<char>, message_id: Seq<char>) -> Seq<char> {
    "inboxes/"@ + inbox_id + "/messages/"@ + message_id
}

/// Operations on messages.
pub struct MessagesResource<'a> {
    client: &'a ApiClient,
}

impl<'a> MessagesResource<'a> {
    /// The client that the operations go through.
    pub closed spec fn spec_client(&self) -> &'a ApiClient {
        self.client
    }

    pub(crate) fn new(client: &'a ApiClient) -> (r: Self)
        ensures
            r.spec_client() == client,
    {
        MessagesResource { client }
    }

    /// The client that the operations go through.
    pub fn client(&self) -> (c: &'a ApiClient)
        ensures
            c == self.spec_client(),
    {
        self.client
    }

    /// Sending a message: `POST inboxes/{inbox_id}/messages` with the
    /// request as body.
    pub fn send_endpoint(&self, inbox_id: &str) -> (e: Endpoint)
        ensures
            describes(
                e,
                Method::Post,
                "inboxes/"@ + inbox_id@ + "/messages"@,
                Seq::empty(),
                true,
                Expect::Json,
            ),
    {
        let mut path = "inboxes/".to_owned();
        path.append(inbox_id);
        path.append("/messages");
        Endpoint::plain(Method::Post, path, true, Expect::Json)
    }

    /// Listing messages: `GET inboxes/{inbox_id}/messages` with the
    /// pagination query and the thread and label filters.
    pub fn list_endpoint(&self, inbox_id: &str, params: &ListMessagesParams) -> (e: Endpoint)
        ensures
            describes(
                e,
                Method::Get,
                "inboxes/"@ + inbox_id@ + "/messages"@,
                message_list_query(*params),
                false,
                Expect::Json,
            ),
    {
        let mut path = "inboxes/".to_owned();
        path.append(inbox_id);
        path.append("/messages");
        let mut query = pagination_query_of(&params.pagination);
        push_optional_param(&mut query, "thread_id", &params.thread_id);
        push_optional_param(&mut query, "label", &params.label);
        Endpoint { method: Method::Get, path, query, with_body: false, expect: Expect::Json }
    }

    /// Getting a message: `GET inboxes/{inbox_id}/messages/{message_id}`.
    pub fn get_endpoint(&self, inbox_id: &str, message_id: &str) -> (e: Endpoint)
        ensures
            describes(e, Method::Get, message_path(inbox_id@, message_id@), Seq::empty(), false, Expect::Json),
    {
        let path = concat4("inboxes/", inbox_id, "/messages/", message_id);
        Endpoint::plain(Method::Get, path, false, Expect::Json)
    }

    /// Deleting a message: `DELETE inboxes/{inbox_id}/messages/{message_id}`,
    /// with an empty answer.
    pub fn delete_endpoint(&self, inbox_id: &str, message_id: &str) -> (e: Endpoint)
        ensures
            describes(
                e,
                Method::Delete,
                message_path(inbox_id@, message_id@),
                Seq::empty(),
                false,
                Expect::Empty,
            ),
    {
        let path = concat4("inboxes/", inbox_id, "/messages/", message_id);
        Endpoint::plain(Method::Delete, path, false, Expect::Empty)
    }

    /// Replying to the sender of a message:
    /// `POST inboxes/{inbox_id}/messages/{message_id}/reply` with the reply
    /// as body.
    pub fn reply_endpoint(&self, inbox_id: &str, message_id: &str) -> (e: Endpoint)
        ensures
            describes(
                e,
                Method::Post,
                message_path(inbox_id@, message_id@) + "/reply"@,
                Seq::empty(),
                true,
                Expect::Json,
            ),
    {
        let path = concat5("inboxes/", inbox_id, "/messages/", message_id, "/reply");
        Endpoint::plain(Method::Post, path, true, Expect::Json)
    }

    /// Replying to every recipient of a message:
    /// `POST inboxes/{inbox_id}/messages/{message_id}/reply-all` with the
    /// reply as body.
    pub fn reply_all_endpoint(&self, inbox_id: &str, message_id: &str) -> (e: Endpoint)
        ensures
            describes(
                e,
                Method::Post,
                message_path(inbox_id@, message_id@) + "/reply-all"@,
                Seq::empty(),
                true,
                Expect::Json,
            ),
    {
        let path = concat5("inboxes/", inbox_id, "/messages/", message_id, "/reply-all");
        Endpoint::plain(Method::Post, path, true, Expect::Json)
    }
}

} // verus!
