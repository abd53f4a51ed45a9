//! Requests and replies as plain values. The client describes each call to
//! the controller as a [`Request`]; the caller performs it and hands back
//! the [`Reply`], which is read here. Nothing is retried at this level.

use vstd::prelude::*;
use crate::envelope::FromJson;
use crate::envelope::Response;
use crate::envelope::ResponseType;
use crate::envelope::ResponseTypeValue;
use crate::envelope::ResponseValue;
use crate::json::Json;
use crate::json::JsonValue;
use crate::task::TaskInfo;
use crate::task::TaskInfoValue;

verus! {

/// Name of the header that carries the session token.
pub const TOKEN_HEADER: &'static str = "X-Auth-Token";

/// The status with which the controller reports a structured error.
pub const SERVER_ERROR: u16 = 500;

/// The method of a request.
#[derive(Clone, Copy, Debug, PartialEq, Eq)]
pub enum Method {
    Get,
    Post,
}

/// One call to the controller: where it goes, the headers it carries by
/// name and value, the user and password of basic authentication where it
/// uses that, its query parameters and its body.
#[derive(Debug, PartialEq)]
pub struct Request {
    pub method: Method,
    pub url: String,
    pub headers: Vec<(String, String)>,
    pub basic_auth: Option<(String, String)>,
    pub query: Vec<(String, String)>,
    pub body: Option<Json>,
}

/// What came back: the status, and the body where it was a JSON document.
#[derive(Debug, PartialEq)]
pub struct Reply {
    pub status: u16,
    pub body: Option<Json>,
}

/// The detail part of the controller's error body.
#[derive(Debug, PartialEq)]
pub struct ApiErrorResponse {
    pub error_code: String,
    pub message: String,
    pub href: String,
}

/// The controller's error body, `{ "message": [..], "response": { .. } }`.
#[derive(Debug, PartialEq)]
pub struct ApiError {
    pub message: Vec<String>,
    pub response: ApiErrorResponse,
}

/// Why a call gave no usable answer.
#[derive(Debug, PartialEq)]
pub enum TransportError {
    /// The controller answered with its error status and a structured
    /// error.
    Api(ApiError),
    /// Another status outside 200..=299.
    Status(u16),
    /// The body was missing or did not have the expected shape.
    Decode,
    /// The body was well-formed and held one item where many were expected,
    /// or the reverse.
    Unexpected,
    /// The call itself failed; the text says how.
    Network(String),
}

/// Model of [`Request`].
pub struct RequestValue {
    pub method: Method,
    pub url: Seq<char>,
    pub headers: Seq<(Seq<char>, Seq<char>)>,
    pub basic_auth: Option<(Seq<char>, Seq<char>)>,
    pub query: Seq<(Seq<char>, Seq<char>)>,
    pub body: Option<JsonValue>,
}

/// Model of [`Reply`].
pub struct ReplyValue {
    pub status: u16,
    pub body: Option<JsonValue>,
}

/// Model of [`ApiErrorResponse`].
pub struct ApiErrorResponseValue {
    pub error_code: Seq<char>,
    pub message: Seq<char>,
    pub href: Seq<char>,
}

/// Model of [`ApiError`].
pub struct ApiErrorValue {
    pub message: Seq<Seq<char>>,
    pub response: ApiErrorResponseValue,
}

/// Model of [`TransportError`].
pub enum TransportErrorValue {
    Api(ApiErrorValue),
    Status(u16),
    Decode,
    Unexpected,
    Network(Seq<char>),
}

impl DeepView for Request {
    type V = RequestValue;

    open spec fn deep_view(&self) -> RequestValue {
        RequestValue {
            method: self.method,
            url: self.url@,
            headers: self.headers.deep_view(),
            basic_auth: self.basic_auth.deep_view(),
            query: self.query.deep_view(),
            body: self.body.deep_view(),
        }
    }
}

impl DeepView for Reply {
    type V = ReplyValue;

    open spec fn deep_view(&self) -> ReplyValue {
        ReplyValue { status: self.status, body: self.body.deep_view() }
    }
}

impl DeepView for ApiErrorResponse {
    type V = ApiErrorResponseValue;

    open spec fn deep_view(&self) -> ApiErrorResponseValue {
        ApiErrorResponseValue {
            error_code: self.error_code@,
            message: self.message@,
            href: self.href@,
        }
    }
}

impl DeepView for ApiError {
    type V = ApiErrorValue;

    open spec fn deep_view(&self) -> ApiErrorValue {
        ApiErrorValue { message: self.message.deep_view(), response: self.response.deep_view() }
    }
}

impl DeepView for TransportError {
    type V = TransportErrorValue;

    open spec fn deep_view(&self) -> TransportErrorValue {
        match self {
            TransportError::Api(e) => TransportErrorValue::Api(e.deep_view()),
            TransportError::Status(s) => TransportErrorValue::Status(*s),
            TransportError::Decode => TransportErrorValue::Decode,
            TransportError::Unexpected => TransportErrorValue::Unexpected,
            TransportError::Network(t) => TransportErrorValue::Network(t@),
        }
    }
}

impl FromJson for ApiErrorResponse {
    open spec fn decoded(j: JsonValue) -> Option<ApiErrorResponseValue> {
        match (j.required_text("errorCode"@), j.required_text("message"@), j.required_text("href"@)) {
            (Some(error_code), Some(message), Some(href)) => Some(
                ApiErrorResponseValue { error_code, message, href },
            ),
            _ => None,
        }
    }

    fn from_json(j: &Json) -> (r: Option<ApiErrorResponse>) {
        let error_code = j.required_text("errorCode");
        let message = j.required_text("message");
        let href = j.required_text("href");
        match (error_code, message, href) {
            (Some(error_code), Some(message), Some(href)) => Some(
                ApiErrorResponse { error_code, message, href },
            ),
            _ => None,
        }
    }
}

impl FromJson for ApiError {
    open spec fn decoded(j: JsonValue) -> Option<ApiErrorValue> {
        match (j.required_texts("message"@), j.member("response"@)) {
            (Some(message), Some(detail)) => match ApiErrorResponse::decoded(detail) {
                Some(response) => Some(ApiErrorValue { message, response }),
                None => None,
            },
            _ => None,
        }
    }

    fn from_json(j: &Json) -> (r: Option<ApiError>) {
        let message = j.required_texts("message");
        let detail = j.get("response");
        match (message, detail) {
            (Some(message), Some(detail)) => match ApiErrorResponse::from_json(detail) {
                Some(response) => Some(ApiError { message, response }),
                None => None,
            },
            _ => None,
        }
    }
}

impl ApiError {
    /// The one line this error is reported with.
    pub fn to_string(&self) -> (s: String)
        ensures
            s@ == "Error with the API request"@,
    {
        "Error with the API request".to_owned()
    }
}

/// Whether `status` reports success.
pub open spec fn is_success(status: u16) -> bool {
    200 <= status <= 299
}

impl ReplyValue {
    /// The failure that the status and body stand for, before the payload
    /// is looked at: a structured error for the controller's error status,
    /// the bare status for any other that is no success, none otherwise.
    pub open spec fn failure(self) -> Option<TransportErrorValue> {
        if self.status == SERVER_ERROR {
            match self.body {
                Some(j) => match ApiError::decoded(j) {
                    Some(e) => Some(TransportErrorValue::Api(e)),
                    None => Some(TransportErrorValue::Decode),
                },
                None => Some(TransportErrorValue::Decode),
            }
        } else if !is_success(self.status) {
            Some(TransportErrorValue::Status(self.status))
        } else {
            None
        }
    }

    /// The reply read as a `T`.
    pub open spec fn read<T: FromJson>(self) -> Result<<T as DeepView>::V, TransportErrorValue> {
        match self.failure() {
            Some(e) => Err(e),
            None => match self.body {
                Some(j) => match T::decoded(j) {
                    Some(v) => Ok(v),
                    None => Err(TransportErrorValue::Decode),
                },
                None => Err(TransportErrorValue::Decode),
            },
        }
    }

    /// The reply to a write: with `poll`, the handle of the task that the
    /// write started, which the body must hold as a single item; without,
    /// nothing, and the body is not looked at.
    pub open spec fn read_task_handle(self, poll: bool) -> Result<
        Option<TaskInfoValue>,
        TransportErrorValue,
    > {
        match self.failure() {
            Some(e) => Err(e),
            None => if poll {
                match self.read::<Response<TaskInfo>>() {
                    Ok(ResponseValue { response: ResponseTypeValue::Item(info) }) => Ok(Some(info)),
                    Ok(_) => Err(TransportErrorValue::Unexpected),
                    Err(e) => Err(e),
                }
            } else {
                Ok(None)
            },
        }
    }
}

impl Reply {
    /// Reads the failure that status and body stand for, if any.
    pub fn failure(&self) -> (r: Option<TransportError>)
        ensures
            r.deep_view() == self.deep_view().failure(),
    {
        if self.status == SERVER_ERROR {
            match &self.body {
                Some(j) => match ApiError::from_json(j) {
                    Some(e) => Some(TransportError::Api(e)),
                    None => Some(TransportError::Decode),
                },
                None => Some(TransportError::Decode),
            }
        } else if self.status < 200 || self.status > 299 {
            Some(TransportError::Status(self.status))
        } else {
            None
        }
    }

    /// Reads the reply as a `T`: the controller's structured error where
    /// the status is its error status, a plain failure for any other status
    /// that is no success or for a body of another shape, the decoded value
    /// otherwise.
    pub fn read<T: FromJson>(&self) -> (r: Result<T, TransportError>)
        ensures
            match r {
                Ok(v) => self.deep_view().read::<T>() == Ok::<T::V, TransportErrorValue>(
                    v.deep_view(),
                ),
                Err(e) => self.deep_view().read::<T>() == Err::<T::V, TransportErrorValue>(
                    e.deep_view(),
                ),
            },
    {
        match self.failure() {
            Some(e) => Err(e),
            None => match &self.body {
                Some(j) => match T::from_json(j) {
                    Some(v) => Ok(v),
                    None => Err(TransportError::Decode),
                },
                None => Err(TransportError::Decode),
            },
        }
    }

    /// Reads the reply to a write. With `poll` it must hold the handle of
    /// the started task as a single item, which is returned for polling.
    pub fn read_task_handle(&self, poll: bool) -> (r: Result<Option<TaskInfo>, TransportError>)
        ensures
            match r {
                Ok(v) => self.deep_view().read_task_handle(poll) == Ok::<
                    Option<TaskInfoValue>,
                    TransportErrorValue,
                >(v.deep_view()),
                Err(e) => self.deep_view().read_task_handle(poll) == Err::<
                    Option<TaskInfoValue>,
                    TransportErrorValue,
                >(e.deep_view()),
            },
    {
        match self.failure() {
            Some(e) => Err(e),
            None => if poll {
                match self.read::<Response<TaskInfo>>() {
                    Ok(envelope) => match envelope.response {
                        ResponseType::Item(info) => Ok(Some(info)),
                        ResponseType::Array(_) => Err(TransportError::Unexpected),
                    },
                    Err(e) => Err(e),
                }
            } else {
                Ok(None)
            },
        }
    }
}

} // verus!
