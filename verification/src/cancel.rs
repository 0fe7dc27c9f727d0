//! Cancelling requests that are under way.

use core::time::Duration;

use vstd::prelude::*;

use crate::error::{Error, outcome_is};
use crate::messages::{CancelRequest, CancelResponse, RequestHeaderView, ResponseMessage};
use crate::request_builder::{RequestHeaderBuilder, RequestHeaderBuilderView};
use crate::session::Session;
use crate::types::NodeId;

verus! {

/// A request to give up on an earlier one.
#[derive(Debug)]
pub struct Cancel {
    request_handle: u32,
    header: RequestHeaderBuilder,
}

/// The value of a [`Cancel`].
pub struct CancelView {
    /// The handle of the request to give up on.
    pub request_handle: u32,
    pub header: RequestHeaderBuilderView,
}

impl View for Cancel {
    type V = CancelView;

    closed spec fn view(&self) -> CancelView {
        CancelView { request_handle: self.request_handle, header: self.header@ }
    }
}

impl Clone for Cancel {
    fn clone(&self) -> (res: Self)
        ensures
            res@ == self@,
    {
        Cancel { request_handle: self.request_handle, header: self.header.clone() }
    }
}

impl Cancel {
    /// The request of a session to give up on `request_to_cancel`.
    pub fn new(request_to_cancel: u32, session: &Session) -> (res: Self)
        ensures
            res@ == (CancelView {
                request_handle: request_to_cancel,
                header: session.header_view(),
            }),
    {
        Cancel {
            request_handle: request_to_cancel,
            header: RequestHeaderBuilder::new_from_session(session),
        }
    }

    /// A request to give up on `request_to_cancel`.
    pub fn new_manual(
        request_to_cancel: u32,
        session_id: u32,
        timeout: Duration,
        auth_token: NodeId,
        request_handle: u32,
    ) -> (res: Self)
        ensures
            res@ == (CancelView {
                request_handle: request_to_cancel,
                header: RequestHeaderBuilderView {
                    header: RequestHeaderView {
                        authentication_token: auth_token@,
                        request_handle,
                    },
                    timeout,
                    session_id,
                },
            }),
    {
        Cancel {
            request_handle: request_to_cancel,
            header: RequestHeaderBuilder::new(session_id, timeout, auth_token, request_handle),
        }
    }

    /// How long to wait for the response.
    pub fn timeout(&self) -> (res: Duration)
        ensures
            res == self@.header.timeout,
    {
        self.header.timeout
    }

    /// The request to send.
    pub fn request(self) -> (res: CancelRequest)
        ensures
            res.request_header@ == self@.header.header,
            res.request_handle == self@.request_handle,
    {
        CancelRequest { request_header: self.header.header, request_handle: self.request_handle }
    }

    /// Takes what came back.
    pub fn on_response(response: Result<ResponseMessage, Error>) -> (res: Result<
        CancelResponse,
        Error,
    >)
        ensures
            outcome_is(res, CancelResponse::accepted(response)),
    {
        CancelResponse::accept(response)
    }
}

} // verus!
