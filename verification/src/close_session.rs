//! Closing a session.

use core::time::Duration;

use vstd::prelude::*;

use crate::error::{Error, outcome_is};
use crate::messages::{
    CloseSessionRequest, CloseSessionResponse, RequestHeaderView, ResponseMessage,
};
use crate::request_builder::{RequestHeaderBuilder, RequestHeaderBuilderView};
use crate::session::Session;
use crate::types::NodeId;

verus! {

/// A request to close a session.
#[derive(Debug)]
pub struct CloseSession {
    delete_subscriptions: bool,
    header: RequestHeaderBuilder,
}

/// The value of a [`CloseSession`].
pub struct CloseSessionView {
    pub delete_subscriptions: bool,
    pub header: RequestHeaderBuilderView,
}

impl View for CloseSession {
    type V = CloseSessionView;

    closed spec fn view(&self) -> CloseSessionView {
        CloseSessionView {
            delete_subscriptions: self.delete_subscriptions,
            header: self.header@,
        }
    }
}

impl Clone for CloseSession {
    fn clone(&self) -> (res: Self)
        ensures
            res@ == self@,
    {
        CloseSession {
            delete_subscriptions: self.delete_subscriptions,
            header: self.header.clone(),
        }
    }
}

impl CloseSession {
    /// The request that closes a session, and its subscriptions with it.
    pub fn new(session: &Session) -> (res: Self)
        ensures
            res@ == (CloseSessionView {
                delete_subscriptions: true,
                header: session.header_view(),
            }),
    {
        CloseSession {
            delete_subscriptions: true,
            header: RequestHeaderBuilder::new_from_session(session),
        }
    }

    /// A request that closes a session, and its subscriptions with it.
    pub fn new_manual(
        session_id: u32,
        timeout: Duration,
        auth_token: NodeId,
        request_handle: u32,
    ) -> (res: Self)
        ensures
            res@ == (CloseSessionView {
                delete_subscriptions: true,
                header: RequestHeaderBuilderView {
                    header: RequestHeaderView {
                        authentication_token: auth_token@,
                        request_handle,
                    },
                    timeout,
                    session_id,
                },
            }),
    {
        CloseSession {
            delete_subscriptions: true,
            header: RequestHeaderBuilder::new(session_id, timeout, auth_token, request_handle),
        }
    }

    /// Sets whether the server deletes the subscriptions at once, or waits until
    /// they expire.
    pub fn delete_subscriptions(self, delete_subscriptions: bool) -> (res: Self)
        ensures
            res@ == (CloseSessionView { delete_subscriptions, ..self@ }),
    {
        CloseSession { delete_subscriptions, ..self }
    }

    /// How long to wait for the response.
    pub fn timeout(&self) -> (res: Duration)
        ensures
            res == self@.header.timeout,
    {
        self.header.timeout
    }

    /// The request to send.
    pub fn request(self) -> (res: CloseSessionRequest)
        ensures
            res.request_header@ == self@.header.header,
            res.delete_subscriptions == self@.delete_subscriptions,
    {
        CloseSessionRequest {
            request_header: self.header.header,
            delete_subscriptions: self.delete_subscriptions,
        }
    }

    /// Takes what came back.
    pub fn on_response(response: Result<ResponseMessage, Error>) -> (res: Result<
        CloseSessionResponse,
        Error,
    >)
        ensures
            outcome_is(res, CloseSessionResponse::accepted(response)),
    {
        CloseSessionResponse::accept(response)
    }
}

} // verus!
