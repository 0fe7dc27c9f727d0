//! The session of a client with a server.

use core::time::Duration;

use vstd::prelude::*;

use crate::activate_session::{ActivateSession, ActivateSessionView, key_view, present_texts};
use crate::cancel::Cancel;
use crate::channel::{SecureChannel, nonce_refusal};
use crate::close_session::CloseSession;
use crate::create_session::{CreateSession, CreateSessionView, PendingSession};
use crate::crypto::{PrivateKey, X509, certificate_der, certificate_view};
use crate::endpoint::{ApplicationDescription, EndpointDescription};
use crate::error::Error;
use crate::identity::IdentityToken;
use crate::messages::{
    ActivateSessionRequest, ActivateSessionResponse, CancelRequest, CancelResponse,
    CloseSessionRequest, CloseSessionResponse, CreateSessionRequest, CreateSessionResponse,
    Milliseconds, RequestHeaderView, ResponseMessage,
};
use crate::request_builder::{RequestHeaderBuilder, RequestHeaderBuilderView};
use crate::types::{ByteString, NodeId, UAString};

verus! {

/// Which endpoint a session connects to, and as whom.
pub struct SessionInfo {
    pub endpoint: EndpointDescription,
    pub user_identity_token: IdentityToken,
    /// The locales that the user prefers, the most preferred one first.
    pub preferred_locales: Vec<String>,
}

/// A session, and what its requests are made from.
pub struct Session {
    /// The id that the server gave the session.
    pub session_id: NodeId,
    /// The number by which the client tells its sessions apart.
    pub internal_session_id: u32,
    pub channel: SecureChannel,
    pub endpoint_info: SessionInfo,
    pub application_description: ApplicationDescription,
    pub session_name: UAString,
    pub session_timeout: Milliseconds,
    pub session_nonce_length: usize,
    /// The client's own certificate.
    pub own_certificate: Option<X509>,
    /// The client's own private key.
    pub own_private_key: Option<PrivateKey>,
    pub request_timeout: Duration,
    /// The handle for the next request.
    pub request_handle: u32,
}

impl Session {
    /// The header of the next request.
    pub open spec fn header_view(self) -> RequestHeaderBuilderView {
        RequestHeaderBuilderView {
            header: RequestHeaderView {
                authentication_token: self.channel@.auth_token,
                request_handle: self.request_handle,
            },
            timeout: self.request_timeout,
            session_id: self.internal_session_id,
        }
    }
}

impl RequestHeaderBuilder {
    /// The header of the next request of a session. It carries the session's
    /// authentication token.
    pub fn new_from_session(session: &Session) -> (res: Self)
        ensures
            res@ == session.header_view(),
    {
        RequestHeaderBuilder::new(
            session.internal_session_id,
            session.request_timeout,
            session.channel.auth_token().clone(),
            session.request_handle,
        )
    }
}

impl Session {
    /// The request that the session is created with.
    pub open spec fn creation(self) -> CreateSessionView {
        CreateSessionView {
            client_description: self.application_description@,
            server_uri: None,
            endpoint_url: self.endpoint_info.endpoint@.endpoint_url,
            session_name: self.session_name@,
            client_certificate: certificate_view(self.own_certificate),
            session_timeout: self.session_timeout,
            max_response_message_size: 0,
            endpoint: self.endpoint_info.endpoint@,
            nonce_length: self.session_nonce_length,
            header: self.header_view(),
        }
    }

    /// The request that the session is activated with.
    pub open spec fn activation(self) -> ActivateSessionView {
        ActivateSessionView {
            identity_token: self.endpoint_info.user_identity_token@,
            private_key: key_view(self.own_private_key),
            locale_ids: present_texts(self.endpoint_info.preferred_locales@),
            client_software_certificates: seq![],
            endpoint: self.endpoint_info.endpoint@,
            header: self.header_view(),
        }
    }

    /// Starts to create the session: the request to send, and what its response is held
    /// against.
    pub fn create_session(&self) -> (res: (CreateSessionRequest, PendingSession))
        requires
            self.session_nonce_length <= isize::MAX,
        ensures
            res.0@.client_nonce is Some,
            res.0@.client_nonce->0.len() == self.session_nonce_length,
            res.0@ == self.creation().request(res.0@.client_nonce),
            res.1@ == self.creation().pending(
                self.channel@.security_policy,
                res.0@.client_nonce,
            ),
            self.own_certificate is None ==> {
                &&& res.0.client_certificate.value is None
                &&& res.1@.client_certificate is None
            },
            self.own_certificate matches Some(own) ==> {
                &&& certificate_der(own@) is Some
                &&& res.0.client_certificate@ == certificate_der(own@)
                &&& res.1@.client_certificate == Some(own@)
            },
            res.0.request_header.authentication_token@ == self.channel@.auth_token,
            res.0.request_header.request_handle == self.request_handle,
            res.0.client_description@ == self.application_description@,
            res.0.server_uri.value is None,
            res.0.endpoint_url@ == self.endpoint_info.endpoint.endpoint_url@,
            res.0.session_name@ == self.session_name@,
            res.0.requested_session_timeout == self.session_timeout,
            res.0.max_response_message_size == 0,
            res.1@.security_policy == self.channel@.security_policy,
            res.1@.endpoint == self.endpoint_info.endpoint@,
            res.1@.client_nonce == res.0.client_nonce@,
    {
        CreateSession::new(self).start(&self.channel)
    }

    /// Takes over the id of the session that was created, and gives it back.
    pub fn session_created(&mut self, outcome: Result<CreateSessionResponse, Error>) -> (res: Result<
        NodeId,
        Error,
    >)
        ensures
            match outcome {
                Ok(response) => {
                    &&& res is Ok
                    &&& res->Ok_0@ == response.session_id@
                    &&& final(self).session_id@ == response.session_id@
                    &&& *final(self) == (Session {
                        session_id: final(self).session_id,
                        ..*old(self)
                    })
                },
                Err(error) => {
                    &&& res == Err::<NodeId, Error>(error)
                    &&& *final(self) == *old(self)
                },
            },
    {
        match outcome {
            Ok(response) => {
                self.session_id = response.session_id.clone();
                Ok(response.session_id)
            },
            Err(error) => Err(error),
        }
    }

    /// Whether activating the session needs a token that has to be issued first.
    pub fn needs_issued_token(&self) -> (res: bool)
        ensures
            res == (self.activation().identity_token is IssuedToken
                && self.activation().token_policy() is Ok),
    {
        ActivateSession::new(self).needs_issued_token()
    }

    /// Starts to activate the session: the request to send; `None` where the user's
    /// secret has to be encrypted for a server whose certificate is missing or too
    /// short for it.
    pub fn activate_session(&self, issued_token: Result<ByteString, Error>) -> (res: Option<
        Result<ActivateSessionRequest, Error>,
    >)
        ensures
            res is Some <==> self.activation().request_defined(issued_token, self.channel@),
            res matches Some(outcome) ==> self.activation().request_outcome(
                issued_token,
                self.channel@,
                outcome,
            ),
            res matches Some(Ok(request)) ==> match self.endpoint_info.user_identity_token {
                IdentityToken::Anonymous => request.user_identity_token is Anonymous,
                IdentityToken::UserName(user, _) => {
                    &&& request.user_identity_token is UserName
                    &&& request.user_identity_token->user_name@ == Some(user@)
                },
                IdentityToken::X509(certificate, _) => {
                    &&& request.user_identity_token is X509
                    &&& request.user_identity_token->certificate_data@ == certificate_der(
                        certificate@,
                    )
                },
                IdentityToken::IssuedToken => request.user_identity_token is Issued,
            },
            res matches Some(Ok(request)) ==> {
                &&& request.request_header.authentication_token@ == self.channel@.auth_token
                &&& request.request_header.request_handle == self.request_handle
            },
    {
        ActivateSession::new(self).try_build_request(&self.channel, issued_token)
    }

    /// Takes what came back for the activation.
    pub fn session_activated(&mut self, response: Result<ResponseMessage, Error>) -> (res: Result<
        (),
        Error,
    >)
        ensures
            *final(self) == (Session { channel: final(self).channel, ..*old(self) }),
            match ActivateSessionResponse::accepted(response) {
                Err(error) => {
                    &&& res is Err
                    &&& res->Err_0@ == error
                    &&& final(self).channel@ == old(self).channel@
                },
                Ok(answer) => if old(self).channel@.takes_nonce(answer.server_nonce@) {
                    &&& res is Ok
                    &&& final(self).channel@ == old(self).channel@.with_nonce(
                        answer.server_nonce@,
                    )
                } else {
                    &&& res is Err
                    &&& res->Err_0@ == nonce_refusal()
                    &&& final(self).channel@ == old(self).channel@
                },
            },
    {
        match ActivateSession::on_response(&mut self.channel, response) {
            Ok(_) => Ok(()),
            Err(error) => Err(error),
        }
    }

    /// Starts to close the session: the request to send.
    pub fn close_session(&self, delete_subscriptions: bool) -> (res: CloseSessionRequest)
        ensures
            res.request_header@ == self.header_view().header,
            res.delete_subscriptions == delete_subscriptions,
    {
        CloseSession::new(self).delete_subscriptions(delete_subscriptions).request()
    }

    /// Takes what came back for the request to close the session.
    pub fn session_closed(response: Result<ResponseMessage, Error>) -> (res: Result<(), Error>)
        ensures
            match CloseSessionResponse::accepted(response) {
                Ok(_) => res is Ok,
                Err(error) => res is Err && res->Err_0@ == error,
            },
    {
        match CloseSession::on_response(response) {
            Ok(_) => Ok(()),
            Err(error) => Err(error),
        }
    }

    /// Starts to cancel the request with the handle `request_handle`: the request to
    /// send.
    pub fn cancel(&self, request_handle: u32) -> (res: CancelRequest)
        ensures
            res.request_header@ == self.header_view().header,
            res.request_handle == request_handle,
    {
        Cancel::new(request_handle, self).request()
    }

    /// Takes what came back for the request to cancel: the number of requests that
    /// were cancelled.
    pub fn cancelled(response: Result<ResponseMessage, Error>) -> (res: Result<u32, Error>)
        ensures
            match CancelResponse::accepted(response) {
                Ok(answer) => res == Ok::<u32, Error>(answer.cancel_count),
                Err(error) => res is Err && res->Err_0@ == error,
            },
    {
        match Cancel::on_response(response) {
            Ok(answer) => Ok(answer.cancel_count),
            Err(error) => Err(error),
        }
    }
}

} // verus!
