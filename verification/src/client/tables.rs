//! Items of the tables in global storage.

use vstd::prelude::*;
use vstd::string::*;
use crate::error::ClientError;
use crate::json::{FromJson, Json};
use crate::transport::{Body, Expect, Method, Reply, Request};
use super::Client;

verus! {

/// Whether `body` is the query for the item under `key`: a JSON object with
/// the three members `key_type`, `value_type` and `key`, in this order.
pub open spec fn is_table_query(
    body: Body,
    key_type: Seq<char>,
    value_type: Seq<char>,
    key: Json,
) -> bool {
    match body {
        Body::Json(Json::Object(members)) => {
            &&& members@.len() == 3
            &&& members@[0].0@ == "key_type"@
            &&& members@[0].1.text() == Some(key_type)
            &&& members@[1].0@ == "value_type"@
            &&& members@[1].1.text() == Some(value_type)
            &&& members@[2].0@ == "key"@
            &&& members@[2].1 == key
        },
        _ => false,
    }
}

/// The key that the query `body` asks for: the value of its third member.
pub open spec fn queried_key(body: Body) -> Json {
    match body {
        Body::Json(Json::Object(members)) => members@[2].1,
        _ => Json::Null,
    }
}

/// Whether `request` asks the node at `base` for the item of the table
/// `table_handle` under `key`: a `POST` to `/tables/{table_handle}/item` of
/// the query for that key.
pub open spec fn is_table_request(
    request: Request,
    base: Seq<char>,
    table_handle: Seq<char>,
    key_type: Seq<char>,
    value_type: Seq<char>,
    key: Json,
) -> bool {
    &&& request.method == Method::Post
    &&& request.url@ == base + "/tables/"@ + table_handle + "/item"@
    &&& is_table_query(request.body, key_type, value_type, key)
    &&& request.expect == Expect::Json
}

/// Whether `result` is what `reply` brings when it is read as a `T`: the
/// record that it holds, or its failure.
pub open spec fn is_item<T: FromJson>(result: Result<T, ClientError>, reply: Reply) -> bool {
    match result {
        Ok(item) => reply.record::<T>() == Ok::<T::V, ClientError>(item@),
        Err(e) => reply.record::<T>() == Err::<T::V, ClientError>(e),
    }
}

/// A lookup in a table is determined by what is asked and what is answered.
///
/// Two requests for the same handle, types and key ask the node the same
/// thing, and two readings of the same reply give the same record, or fail
/// in the same way.
pub proof fn lemma_table_lookup_is_deterministic<T: FromJson>(
    base: Seq<char>,
    table_handle: Seq<char>,
    key_type: Seq<char>,
    value_type: Seq<char>,
    key: Json,
    first: Request,
    second: Request,
    reply: Reply,
    one: Result<T, ClientError>,
    other: Result<T, ClientError>,
)
    requires
        is_table_request(first, base, table_handle, key_type, value_type, key),
        is_table_request(second, base, table_handle, key_type, value_type, key),
        is_item(one, reply),
        is_item(other, reply),
    ensures
        first.method == second.method,
        first.url@ == second.url@,
        first.expect == second.expect,
        queried_key(first.body) == queried_key(second.body),
        queried_key(first.body) == key,
        match (one, other) {
            (Ok(a), Ok(b)) => a@ == b@,
            (Err(e), Err(f)) => e == f,
            _ => false,
        },
{
}

impl Client {
    /// The request for one item of a table: a `POST` to
    /// `/tables/{table_handle}/item` of a query that names the key's type,
    /// the value's type and the key.
    pub fn table_item_request(
        &self,
        table_handle: &str,
        key_type: &str,
        value_type: &str,
        key: Json,
    ) -> (request: Request)
        ensures
            is_table_request(request, self.base(), table_handle@, key_type@, value_type@, key),
    {
        let mut url = String::from_str(self.base_url());
        url.append("/tables/");
        url.append(table_handle);
        url.append("/item");
        assert(url@ =~= self.base() + "/tables/"@ + table_handle@ + "/item"@);
        let mut members: Vec<(String, Json)> = Vec::new();
        members.push((String::from_str("key_type"), Json::Text(String::from_str(key_type))));
        members.push((String::from_str("value_type"), Json::Text(String::from_str(value_type))));
        members.push((String::from_str("key"), key));
        Request {
            method: Method::Post,
            url,
            body: Body::Json(Json::Object(members)),
            expect: Expect::Json,
        }
    }

    /// Reads the item from the reply to `table_item_request`, as a `T`.
    pub fn table_item<T: FromJson>(&self, reply: &Reply) -> (r: Result<T, ClientError>)
        ensures
            is_item(r, *reply),
    {
        reply.read::<T>()
    }
}

} // verus!
