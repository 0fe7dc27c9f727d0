//! The requests and responses of the session services.

use vstd::prelude::*;

use crate::crypto::{SignatureData, SignatureDataView};
use crate::endpoint::{
    ApplicationDescription, ApplicationDescriptionView, EndpointDescription, text_views,
};
use crate::error::{BAD_UNKNOWN_RESPONSE, Error, ErrorView, StatusCode, error_view, outcome_is};
use crate::types::{ByteString, NodeId, NodeIdView, UAString};

verus! {

/// A number of milliseconds, held as the bits of an IEEE 754 double.
#[derive(Debug, Clone, Copy, PartialEq, Eq, Structural)]
pub struct Milliseconds {
    pub bits: u64,
}

/// What every request starts with.
#[derive(Debug)]
pub struct RequestHeader {
    pub authentication_token: NodeId,
    pub request_handle: u32,
}

/// The value of a [`RequestHeader`].
pub struct RequestHeaderView {
    pub authentication_token: NodeIdView,
    pub request_handle: u32,
}

impl View for RequestHeader {
    type V = RequestHeaderView;

    open spec fn view(&self) -> RequestHeaderView {
        RequestHeaderView {
            authentication_token: self.authentication_token@,
            request_handle: self.request_handle,
        }
    }
}

impl Clone for RequestHeader {
    fn clone(&self) -> (res: Self)
        ensures
            res@ == self@,
    {
        RequestHeader {
            authentication_token: self.authentication_token.clone(),
            request_handle: self.request_handle,
        }
    }
}

/// What every response starts with.
#[derive(Debug, Clone, Copy, PartialEq, Eq, Structural)]
pub struct ResponseHeader {
    pub request_handle: u32,
    pub service_result: StatusCode,
}

/// A certificate for a software product, signed by who issued it.
#[derive(Debug)]
pub struct SignedSoftwareCertificate {
    pub certificate_data: ByteString,
    pub signature: ByteString,
}

/// The value of a [`SignedSoftwareCertificate`].
pub struct SignedSoftwareCertificateView {
    pub certificate_data: Option<Seq<u8>>,
    pub signature: Option<Seq<u8>>,
}

impl View for SignedSoftwareCertificate {
    type V = SignedSoftwareCertificateView;

    open spec fn view(&self) -> SignedSoftwareCertificateView {
        SignedSoftwareCertificateView {
            certificate_data: self.certificate_data@,
            signature: self.signature@,
        }
    }
}

impl Clone for SignedSoftwareCertificate {
    fn clone(&self) -> (res: Self)
        ensures
            res@ == self@,
    {
        SignedSoftwareCertificate {
            certificate_data: self.certificate_data.clone(),
            signature: self.signature.clone(),
        }
    }
}

/// The values of a list of software certificates.
pub open spec fn software_views(certificates: Seq<SignedSoftwareCertificate>) -> Seq<
    SignedSoftwareCertificateView,
> {
    certificates.map_values(|certificate: SignedSoftwareCertificate| certificate@)
}

/// Asks the server for a session.
#[derive(Debug)]
pub struct CreateSessionRequest {
    pub request_header: RequestHeader,
    pub client_description: ApplicationDescription,
    pub server_uri: UAString,
    pub endpoint_url: UAString,
    pub session_name: UAString,
    pub client_nonce: ByteString,
    pub client_certificate: ByteString,
    pub requested_session_timeout: Milliseconds,
    pub max_response_message_size: u32,
}

/// The value of a [`CreateSessionRequest`].
pub struct CreateSessionRequestView {
    pub request_header: RequestHeaderView,
    pub client_description: ApplicationDescriptionView,
    pub server_uri: Option<Seq<char>>,
    pub endpoint_url: Option<Seq<char>>,
    pub session_name: Option<Seq<char>>,
    pub client_nonce: Option<Seq<u8>>,
    pub client_certificate: Option<Seq<u8>>,
    pub requested_session_timeout: Milliseconds,
    pub max_response_message_size: u32,
}

impl View for CreateSessionRequest {
    type V = CreateSessionRequestView;

    open spec fn view(&self) -> CreateSessionRequestView {
        CreateSessionRequestView {
            request_header: self.request_header@,
            client_description: self.client_description@,
            server_uri: self.server_uri@,
            endpoint_url: self.endpoint_url@,
            session_name: self.session_name@,
            client_nonce: self.client_nonce@,
            client_certificate: self.client_certificate@,
            requested_session_timeout: self.requested_session_timeout,
            max_response_message_size: self.max_response_message_size,
        }
    }
}

/// The session that the server made.
#[derive(Debug)]
pub struct CreateSessionResponse {
    pub response_header: ResponseHeader,
    pub session_id: NodeId,
    pub authentication_token: NodeId,
    pub revised_session_timeout: Milliseconds,
    pub server_nonce: ByteString,
    pub server_certificate: ByteString,
    pub server_endpoints: Option<Vec<EndpointDescription>>,
    pub server_software_certificates: Option<Vec<SignedSoftwareCertificate>>,
    pub server_signature: SignatureData,
    pub max_request_message_size: u32,
}

/// Who the user is, in the form that a request carries.
#[derive(Debug)]
pub enum UserIdentityToken {
    Anonymous { policy_id: UAString },
    UserName {
        policy_id: UAString,
        user_name: UAString,
        password: ByteString,
        encryption_algorithm: UAString,
    },
    X509 { policy_id: UAString, certificate_data: ByteString },
    Issued { policy_id: UAString, token_data: ByteString, encryption_algorithm: UAString },
}

/// The value of a [`UserIdentityToken`].
pub enum UserIdentityTokenView {
    Anonymous { policy_id: Option<Seq<char>> },
    UserName {
        policy_id: Option<Seq<char>>,
        user_name: Option<Seq<char>>,
        password: Option<Seq<u8>>,
        encryption_algorithm: Option<Seq<char>>,
    },
    X509 { policy_id: Option<Seq<char>>, certificate_data: Option<Seq<u8>> },
    Issued {
        policy_id: Option<Seq<char>>,
        token_data: Option<Seq<u8>>,
        encryption_algorithm: Option<Seq<char>>,
    },
}

impl View for UserIdentityToken {
    type V = UserIdentityTokenView;

    open spec fn view(&self) -> UserIdentityTokenView {
        match self {
            UserIdentityToken::Anonymous { policy_id } => UserIdentityTokenView::Anonymous {
                policy_id: policy_id@,
            },
            UserIdentityToken::UserName {
                policy_id,
                user_name,
                password,
                encryption_algorithm,
            } => UserIdentityTokenView::UserName {
                policy_id: policy_id@,
                user_name: user_name@,
                password: password@,
                encryption_algorithm: encryption_algorithm@,
            },
            UserIdentityToken::X509 { policy_id, certificate_data } => {
                UserIdentityTokenView::X509 {
                    policy_id: policy_id@,
                    certificate_data: certificate_data@,
                }
            },
            UserIdentityToken::Issued { policy_id, token_data, encryption_algorithm } => {
                UserIdentityTokenView::Issued {
                    policy_id: policy_id@,
                    token_data: token_data@,
                    encryption_algorithm: encryption_algorithm@,
                }
            },
        }
    }
}

/// Asks the server to activate the session for a user.
#[derive(Debug)]
pub struct ActivateSessionRequest {
    pub request_header: RequestHeader,
    pub client_signature: SignatureData,
    pub client_software_certificates: Option<Vec<SignedSoftwareCertificate>>,
    pub locale_ids: Option<Vec<UAString>>,
    pub user_identity_token: UserIdentityToken,
    pub user_token_signature: SignatureData,
}

/// The value of an [`ActivateSessionRequest`].
pub struct ActivateSessionRequestView {
    pub request_header: RequestHeaderView,
    pub client_signature: SignatureDataView,
    pub client_software_certificates: Option<Seq<SignedSoftwareCertificateView>>,
    pub locale_ids: Option<Seq<Option<Seq<char>>>>,
    pub user_identity_token: UserIdentityTokenView,
    pub user_token_signature: SignatureDataView,
}

impl View for ActivateSessionRequest {
    type V = ActivateSessionRequestView;

    open spec fn view(&self) -> ActivateSessionRequestView {
        ActivateSessionRequestView {
            request_header: self.request_header@,
            client_signature: self.client_signature@,
            client_software_certificates: match self.client_software_certificates {
                Some(certificates) => Some(software_views(certificates@)),
                None => None,
            },
            locale_ids: match self.locale_ids {
                Some(locales) => Some(text_views(locales@)),
                None => None,
            },
            user_identity_token: self.user_identity_token@,
            user_token_signature: self.user_token_signature@,
        }
    }
}

/// The session is active.
#[derive(Debug)]
pub struct ActivateSessionResponse {
    pub response_header: ResponseHeader,
    pub server_nonce: ByteString,
    pub results: Option<Vec<StatusCode>>,
}

/// Asks the server to close the session.
#[derive(Debug)]
pub struct CloseSessionRequest {
    pub request_header: RequestHeader,
    pub delete_subscriptions: bool,
}

/// The session is closed.
#[derive(Debug)]
pub struct CloseSessionResponse {
    pub response_header: ResponseHeader,
}

/// Asks the server to give up on an earlier request.
#[derive(Debug)]
pub struct CancelRequest {
    pub request_header: RequestHeader,
    /// The handle of the requests to give up on.
    pub request_handle: u32,
}

/// How many requests the server gave up on.
#[derive(Debug)]
pub struct CancelResponse {
    pub response_header: ResponseHeader,
    pub cancel_count: u32,
}

/// Whatever the server answers to a request.
#[derive(Debug)]
pub enum ResponseMessage {
    CreateSession(CreateSessionResponse),
    ActivateSession(ActivateSessionResponse),
    CloseSession(CloseSessionResponse),
    Cancel(CancelResponse),
    ServiceFault(ResponseHeader),
    /// A response to a request of another service.
    Other,
}

/// The error for a response whose service result is bad.
pub open spec fn bad_result(header: ResponseHeader) -> ErrorView {
    error_view(header.service_result.bits, "The server answered with a bad service result"@)
}

/// The error for a response to some other request. A fault gives its own status.
pub open spec fn unexpected_response(response: ResponseMessage) -> ErrorView {
    match response {
        ResponseMessage::ServiceFault(header) => error_view(
            header.service_result.bits,
            "The server answered with a service fault"@,
        ),
        _ => error_view(BAD_UNKNOWN_RESPONSE, "Received an unexpected response to the request"@),
    }
}

/// Fails where the service result is bad.
pub fn process_service_result(header: &ResponseHeader) -> (res: Result<(), Error>)
    ensures
        res is Err <==> header.service_result.bad(),
        res is Err ==> res->Err_0@ == bad_result(*header),
{
    if header.service_result.is_bad() {
        Err(
            Error::new(
                header.service_result.bits,
                "The server answered with a bad service result",
            ),
        )
    } else {
        Ok(())
    }
}

/// The error for a response that does not belong to the request.
pub fn process_unexpected_response(response: &ResponseMessage) -> (res: Error)
    ensures
        res@ == unexpected_response(*response),
{
    match response {
        ResponseMessage::ServiceFault(header) => Error::new(
            header.service_result.bits,
            "The server answered with a service fault",
        ),
        _ => Error::new(BAD_UNKNOWN_RESPONSE, "Received an unexpected response to the request"),
    }
}

impl CreateSessionResponse {
    /// What `response` is as the answer to a session request: the response where it
    /// is of that kind and its service result is not bad, and else the error.
    pub open spec fn accepted(response: Result<ResponseMessage, Error>) -> Result<
        CreateSessionResponse,
        ErrorView,
    > {
        match response {
            Ok(ResponseMessage::CreateSession(answer)) => if answer.response_header.service_result.bad() {
                Err(bad_result(answer.response_header))
            } else {
                Ok(answer)
            },
            Ok(other) => Err(unexpected_response(other)),
            Err(error) => Err(error@),
        }
    }

    /// Takes what came back for a session request.
    pub fn accept(response: Result<ResponseMessage, Error>) -> (res: Result<CreateSessionResponse, Error>)
        ensures
            outcome_is(res, CreateSessionResponse::accepted(response)),
    {
        match response {
            Ok(ResponseMessage::CreateSession(answer)) => match process_service_result(
                &answer.response_header,
            ) {
                Ok(()) => Ok(answer),
                Err(error) => Err(error),
            },
            Ok(other) => Err(process_unexpected_response(&other)),
            Err(error) => Err(error),
        }
    }
}

impl ActivateSessionResponse {
    /// What `response` is as the answer to an activation: the response where it
    /// is of that kind and its service result is not bad, and else the error.
    pub open spec fn accepted(response: Result<ResponseMessage, Error>) -> Result<
        ActivateSessionResponse,
        ErrorView,
    > {
        match response {
            Ok(ResponseMessage::ActivateSession(answer)) => if answer.response_header.service_result.bad() {
                Err(bad_result(answer.response_header))
            } else {
                Ok(answer)
            },
            Ok(other) => Err(unexpected_response(other)),
            Err(error) => Err(error@),
        }
    }

    /// Takes what came back for an activation.
    pub fn accept(response: Result<ResponseMessage, Error>) -> (res: Result<ActivateSessionResponse, Error>)
        ensures
            outcome_is(res, ActivateSessionResponse::accepted(response)),
    {
        match response {
            Ok(ResponseMessage::ActivateSession(answer)) => match process_service_result(
                &answer.response_header,
            ) {
                Ok(()) => Ok(answer),
                Err(error) => Err(error),
            },
            Ok(other) => Err(process_unexpected_response(&other)),
            Err(error) => Err(error),
        }
    }
}

impl CloseSessionResponse {
    /// What `response` is as the answer to a request to close the session: the response where it
    /// is of that kind and its service result is not bad, and else the error.
    pub open spec fn accepted(response: Result<ResponseMessage, Error>) -> Result<
        CloseSessionResponse,
        ErrorView,
    > {
        match response {
            Ok(ResponseMessage::CloseSession(answer)) => if answer.response_header.service_result.bad() {
                Err(bad_result(answer.response_header))
            } else {
                Ok(answer)
            },
            Ok(other) => Err(unexpected_response(other)),
            Err(error) => Err(error@),
        }
    }

    /// Takes what came back for a request to close the session.
    pub fn accept(response: Result<ResponseMessage, Error>) -> (res: Result<CloseSessionResponse, Error>)
        ensures
            outcome_is(res, CloseSessionResponse::accepted(response)),
    {
        match response {
            Ok(ResponseMessage::CloseSession(answer)) => match process_service_result(
                &answer.response_header,
            ) {
                Ok(()) => Ok(answer),
                Err(error) => Err(error),
            },
            Ok(other) => Err(process_unexpected_response(&other)),
            Err(error) => Err(error),
        }
    }
}

impl CancelResponse {
    /// What `response` is as the answer to a request to cancel: the response where it
    /// is of that kind and its service result is not bad, and else the error.
    pub open spec fn accepted(response: Result<ResponseMessage, Error>) -> Result<
        CancelResponse,
        ErrorView,
    > {
        match response {
            Ok(ResponseMessage::Cancel(answer)) => if answer.response_header.service_result.bad() {
                Err(bad_result(answer.response_header))
            } else {
                Ok(answer)
            },
            Ok(other) => Err(unexpected_response(other)),
            Err(error) => Err(error@),
        }
    }

    /// Takes what came back for a request to cancel.
    pub fn accept(response: Result<ResponseMessage, Error>) -> (res: Result<CancelResponse, Error>)
        ensures
            outcome_is(res, CancelResponse::accepted(response)),
    {
        match response {
            Ok(ResponseMessage::Cancel(answer)) => match process_service_result(
                &answer.response_header,
            ) {
                Ok(()) => Ok(answer),
                Err(error) => Err(error),
            },
            Ok(other) => Err(process_unexpected_response(&other)),
            Err(error) => Err(error),
        }
    }
}

} // verus!
