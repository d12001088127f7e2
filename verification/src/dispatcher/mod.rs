//! Requests that come into the engine, responses that leave it, and the
//! reactor that serves one request after the other.
use crate::action::{Alert, AlertView};
use vstd::prelude::*;

pub mod handlers;
pub mod reactor;
pub mod request;
pub mod response;

pub use self::request::{Request, RequestHandle};
pub use self::response::{MockResponseSender, ResponseSender};

verus! {

/// A response as plain mathematical values.
pub enum ResponseView {
    Exit,
    Alert(AlertView),
}

/// What leaves the engine.
#[derive(Debug)]
pub enum Response {
    /// The engine has taken note of a request to stop.
    Exit,
    /// An action of a context whose window closed.
    Alert(Alert),
}

impl View for Response {
    type V = ResponseView;

    open spec fn view(&self) -> ResponseView {
        match self {
            Response::Exit => ResponseView::Exit,
            Response::Alert(alert) => ResponseView::Alert(alert@),
        }
    }
}

/// The kinds of responses, by which their handlers are found.
#[derive(Debug, Clone, Copy, PartialEq, Eq, Hash, Structural)]
pub enum ResponseHandle {
    Exit,
    Alert,
}

impl ResponseView {
    /// The kind of the response.
    pub open spec fn handle(self) -> ResponseHandle {
        match self {
            ResponseView::Exit => ResponseHandle::Exit,
            ResponseView::Alert(_) => ResponseHandle::Alert,
        }
    }
}

impl Response {
    /// The kind of the response.
    pub fn handle(&self) -> (handle: ResponseHandle)
        ensures
            handle == self@.handle(),
    {
        match self {
            Response::Exit => ResponseHandle::Exit,
            Response::Alert(_) => ResponseHandle::Alert,
        }
    }
}

/// The responses behind a list of responses.
pub open spec fn response_views(responses: Seq<Response>) -> Seq<ResponseView> {
    responses.map_values(|response: Response| response@)
}

} // verus!
