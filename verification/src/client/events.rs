//! The events that an account has emitted.

use vstd::prelude::*;
use vstd::string::*;
use crate::address::{short_text, Address};
use crate::error::ClientError;
use crate::json::{parsed_items, views, FromJson, Json};
use crate::transport::{Reply, Request};
use crate::types::U64;
use super::{is_get, Client};

verus! {

/// One event: its type, its place in its stream, and its data.
#[derive(Debug)]
pub struct Event<T> {
    /// The event's type, as the node names it.
    pub event_type: String,
    /// The event's number in its stream.
    pub sequence_number: U64,
    /// The event's data.
    pub data: T,
}

/// The view of an event.
pub ghost struct EventView<V> {
    pub event_type: Seq<char>,
    pub sequence_number: u64,
    pub data: V,
}

impl<T: View> View for Event<T> {
    type V = EventView<T::V>;

    open spec fn view(&self) -> EventView<T::V> {
        EventView {
            event_type: self.event_type@,
            sequence_number: self.sequence_number.0,
            data: self.data@,
        }
    }
}

impl<T: FromJson> FromJson for Event<T> {
    /// An object with a string `type`, a string-carried number
    /// `sequence_number` and a member `data` that holds a `T`.
    open spec fn parsed(json: Json) -> Option<EventView<T::V>> {
        match (
            json.text_member("type"@),
            json.u64_member("sequence_number"@),
            json.member("data"@),
        ) {
            (Some(event_type), Some(sequence_number), Some(data)) => match T::parsed(data) {
                Some(data) => Some(EventView { event_type, sequence_number, data }),
                None => None,
            },
            _ => None,
        }
    }

    fn from_json(json: &Json) -> (r: Option<Self>) {
        let event_type = match json.get_string("type") {
            Some(text) => text,
            None => {
                return None;
            },
        };
        let sequence_number = match json.get_u64("sequence_number") {
            Some(number) => U64(number),
            None => {
                return None;
            },
        };
        match json.get("data") {
            Some(data) => match T::from_json(data) {
                Some(data) => Some(Event { event_type, sequence_number, data }),
                None => None,
            },
            None => None,
        }
    }
}

/// The events that a reply brings: those that the documents of its array
/// hold, in order; or the failure that it stands for; or `DecodeError` where
/// it brings no array, or a document that holds no event.
pub open spec fn events_of<T: FromJson>(reply: Reply) -> Result<Seq<EventView<T::V>>, ClientError> {
    match reply {
        Reply::Answer(json) => match json.items() {
            Some(items) => match parsed_items::<Event<T>>(items) {
                Some(events) => Ok(events),
                None => Err(ClientError::DecodeError),
            },
            None => Err(ClientError::DecodeError),
        },
        _ => Err(reply.failure().unwrap()),
    }
}

impl Client {
    /// The request for the events of one stream of an account: a `GET` of
    /// `/accounts/{address}/events/{event_handle}/{field_name}`, the address
    /// in its short form.
    pub fn events_by_event_handle_request(
        &self,
        account_address: &Address,
        event_handle: &str,
        field_name: &str,
    ) -> (request: Request)
        ensures
            is_get(
                request,
                self.base() + "/accounts/"@ + short_text(account_address@) + "/events/"@
                    + event_handle@ + "/"@ + field_name@,
            ),
    {
        let mut path = String::from_str("/accounts/");
        path.append(account_address.to_hex_literal().as_str());
        path.append("/events/");
        path.append(event_handle);
        path.append("/");
        path.append(field_name);
        let request = self.get(path);
        assert(request.url@ =~= self.base() + "/accounts/"@ + short_text(account_address@)
            + "/events/"@ + event_handle@ + "/"@ + field_name@);
        request
    }

    /// Reads the events from the reply to `events_by_event_handle_request`,
    /// the data of each as a `T`.
    pub fn events_by_event_handle<T: FromJson>(&self, reply: &Reply) -> (r: Result<
        Vec<Event<T>>,
        ClientError,
    >)
        ensures
            match r {
                Ok(events) => events_of::<T>(*reply) == Ok::<Seq<EventView<T::V>>, ClientError>(
                    views(events@),
                ),
                Err(e) => events_of::<T>(*reply) == Err::<Seq<EventView<T::V>>, ClientError>(e),
            },
    {
        match reply.json() {
            Ok(json) => match json.read_list::<Event<T>>() {
                Some(events) => Ok(events),
                None => Err(ClientError::DecodeError),
            },
            Err(e) => Err(e),
        }
    }
}

} // verus!
