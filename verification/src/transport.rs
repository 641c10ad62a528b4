//! What the client hands to a transport, and what it takes back.
//!
//! The library performs no I/O. Each operation is a request for the caller to
//! send, and a reply for the library to read.

use vstd::prelude::*;
use crate::error::ClientError;
use crate::json::{FromJson, Json};

verus! {

/// The HTTP status with which a node says that something does not exist.
pub const STATUS_NOT_FOUND: u16 = 404;

/// The HTTP method of a request.
#[derive(Clone, Copy, Debug, PartialEq, Eq, Structural)]
pub enum Method {
    /// `GET`.
    Get,
    /// `POST`.
    Post,
}

/// What a request carries.
#[derive(Debug)]
pub enum Body {
    /// Nothing.
    Empty,
    /// A JSON document.
    Json(Json),
    /// Bytes, with the content type that names their form.
    Bytes { content_type: String, data: Vec<u8> },
}

/// How the body of the reply is to be read.
#[derive(Clone, Copy, Debug, PartialEq, Eq, Structural)]
pub enum Expect {
    /// As a JSON document.
    Json,
    /// As text.
    Text,
}

/// A request for the transport to send.
#[derive(Debug)]
pub struct Request {
    /// The method.
    pub method: Method,
    /// The full address of the resource.
    pub url: String,
    /// What is sent with it.
    pub body: Body,
    /// How the reply's body is to be read.
    pub expect: Expect,
}

/// What came of sending a request.
#[derive(Debug)]
pub enum Reply {
    /// The node answered with success, and its body was read as JSON.
    Answer(Json),
    /// The node answered with success, and its body was read as text.
    Text(String),
    /// The node answered with success, but its body could not be read.
    Unreadable,
    /// The node answered with a status that reports an error.
    Status(u16),
    /// The node could not be reached, or did not answer in time.
    Unreachable,
}

impl Reply {
    /// The failure that this reply stands for when a JSON document is
    /// expected, or nothing where it brings one.
    ///
    /// A status of 404 says that what was asked for does not exist; any other
    /// error status and an unreachable node are failures of the transport; a
    /// body that is no JSON document has the wrong shape.
    pub open spec fn failure(self) -> Option<ClientError> {
        match self {
            Reply::Answer(_) => None,
            Reply::Text(_) => Some(ClientError::DecodeError),
            Reply::Unreadable => Some(ClientError::DecodeError),
            Reply::Status(code) => if code == STATUS_NOT_FOUND {
                Some(ClientError::NotFound)
            } else {
                Some(ClientError::TransportError)
            },
            Reply::Unreachable => Some(ClientError::TransportError),
        }
    }

    /// The record that this reply brings: the one that its document holds, or
    /// the failure that it stands for, or `DecodeError` where the document has
    /// not the record's shape.
    pub open spec fn record<T: FromJson>(self) -> Result<T::V, ClientError> {
        match self {
            Reply::Answer(json) => match T::parsed(json) {
                Some(record) => Ok(record),
                None => Err(ClientError::DecodeError),
            },
            _ => Err(self.failure().unwrap()),
        }
    }

    /// The text that this reply brings, or the failure that it stands for
    /// when a text is expected: as `failure`, but that a text is what is
    /// wanted, and a JSON document has the wrong shape.
    pub open spec fn body_text(self) -> Result<Seq<char>, ClientError> {
        match self {
            Reply::Text(text) => Ok(text@),
            Reply::Answer(_) => Err(ClientError::DecodeError),
            _ => Err(self.failure().unwrap()),
        }
    }

    /// The text of this reply, or the failure that it stands for.
    pub fn text(&self) -> (r: Result<&String, ClientError>)
        ensures
            match r {
                Ok(text) => self.body_text() == Ok::<Seq<char>, ClientError>(text@),
                Err(e) => self.body_text() == Err::<Seq<char>, ClientError>(e),
            },
    {
        match self {
            Reply::Text(text) => Ok(text),
            Reply::Answer(_) => Err(ClientError::DecodeError),
            Reply::Unreadable => Err(ClientError::DecodeError),
            Reply::Status(code) => if *code == STATUS_NOT_FOUND {
                Err(ClientError::NotFound)
            } else {
                Err(ClientError::TransportError)
            },
            Reply::Unreachable => Err(ClientError::TransportError),
        }
    }

    /// The document of this reply, or the failure that it stands for.
    pub fn json(&self) -> (r: Result<&Json, ClientError>)
        ensures
            match r {
                Ok(json) => *self == Reply::Answer(*json),
                Err(e) => self.failure() == Some(e),
            },
    {
        match self {
            Reply::Answer(json) => Ok(json),
            Reply::Text(_) => Err(ClientError::DecodeError),
            Reply::Unreadable => Err(ClientError::DecodeError),
            Reply::Status(code) => if *code == STATUS_NOT_FOUND {
                Err(ClientError::NotFound)
            } else {
                Err(ClientError::TransportError)
            },
            Reply::Unreachable => Err(ClientError::TransportError),
        }
    }

    /// Reads the record that this reply brings.
    pub fn read<T: FromJson>(&self) -> (r: Result<T, ClientError>)
        ensures
            match r {
                Ok(record) => self.record::<T>() == Ok::<T::V, ClientError>(record@),
                Err(e) => self.record::<T>() == Err::<T::V, ClientError>(e),
            },
    {
        match self.json() {
            Ok(json) => match T::from_json(json) {
                Some(record) => Ok(record),
                None => Err(ClientError::DecodeError),
            },
            Err(e) => Err(e),
        }
    }
}

} // verus!
