//! Creating a session: the request, and what the client checks in the response.

use core::time::Duration;

use vstd::prelude::*;
use vstd::string::StringExecFns;

use crate::channel::{SecureChannel, SecureChannelView, nonce_refusal};
use crate::crypto::{
    X509, certificate_der, certificate_refusal, certificate_view, random_byte_string, result_view,
    signature_check, verify_signature_data,
};
use crate::endpoint::{
    ApplicationDescription, ApplicationDescriptionView, EndpointDescription,
    EndpointDescriptionView, blank_description,
};
use crate::error::{
    BAD_CERTIFICATE_INVALID, BAD_UNEXPECTED_ERROR, Error, ErrorView, error_view,
};
use crate::messages::{
    CreateSessionRequest, CreateSessionRequestView, CreateSessionResponse, Milliseconds,
    RequestHeaderView, ResponseMessage,
};
use crate::request_builder::{RequestHeaderBuilder, RequestHeaderBuilderView};
use crate::security::SecurityPolicy;
use crate::session::Session;
use crate::types::{ByteString, NodeId, UAString, bytes_or_empty, chars_or_empty, shown_text};
use crate::url::{hostname_from_url, url_hostname};

verus! {

/// A request for a new session.
///
/// [`start`](CreateSession::start) gives the request to send. What came back goes
/// to the [`PendingSession`] that comes with it, which checks the response and
/// stores in the channel the authentication token that later requests carry.
pub struct CreateSession<'a> {
    client_description: ApplicationDescription,
    server_uri: UAString,
    endpoint_url: UAString,
    session_name: UAString,
    client_certificate: Option<X509>,
    session_timeout: Milliseconds,
    max_response_message_size: u32,
    endpoint: &'a EndpointDescription,
    nonce_length: usize,
    header: RequestHeaderBuilder,
}

/// The value of a [`CreateSession`].
pub struct CreateSessionView {
    pub client_description: ApplicationDescriptionView,
    pub server_uri: Option<Seq<char>>,
    pub endpoint_url: Option<Seq<char>>,
    pub session_name: Option<Seq<char>>,
    pub client_certificate: Option<Seq<u8>>,
    pub session_timeout: Milliseconds,
    pub max_response_message_size: u32,
    pub endpoint: EndpointDescriptionView,
    pub nonce_length: usize,
    pub header: RequestHeaderBuilderView,
}

impl<'a> View for CreateSession<'a> {
    type V = CreateSessionView;

    closed spec fn view(&self) -> CreateSessionView {
        CreateSessionView {
            client_description: self.client_description@,
            server_uri: self.server_uri@,
            endpoint_url: self.endpoint_url@,
            session_name: self.session_name@,
            client_certificate: certificate_view(self.client_certificate),
            session_timeout: self.session_timeout,
            max_response_message_size: self.max_response_message_size,
            endpoint: self.endpoint@,
            nonce_length: self.nonce_length,
            header: self.header@,
        }
    }
}

impl CreateSessionView {
    /// The request with the client nonce `nonce`.
    pub open spec fn request(self, nonce: Option<Seq<u8>>) -> CreateSessionRequestView {
        CreateSessionRequestView {
            request_header: self.header.header,
            client_description: self.client_description,
            server_uri: self.server_uri,
            endpoint_url: self.endpoint_url,
            session_name: self.session_name,
            client_nonce: nonce,
            client_certificate: match self.client_certificate {
                Some(certificate) => certificate_der(certificate),
                None => None,
            },
            requested_session_timeout: self.session_timeout,
            max_response_message_size: self.max_response_message_size,
        }
    }

    /// What the response to that request is held against, on a channel that is
    /// secured by `policy`.
    pub open spec fn pending(
        self,
        policy: SecurityPolicy,
        nonce: Option<Seq<u8>>,
    ) -> PendingSessionView {
        PendingSessionView {
            security_policy: policy,
            client_certificate: self.client_certificate,
            endpoint: self.endpoint,
            client_nonce: nonce,
        }
    }
}

impl<'a> Clone for CreateSession<'a> {
    fn clone(&self) -> (res: Self)
        ensures
            res@ == self@,
    {
        CreateSession {
            client_description: self.client_description.clone(),
            server_uri: self.server_uri.clone(),
            endpoint_url: self.endpoint_url.clone(),
            session_name: self.session_name.clone(),
            client_certificate: match &self.client_certificate {
                Some(certificate) => Some(certificate.clone()),
                None => None,
            },
            session_timeout: self.session_timeout,
            max_response_message_size: self.max_response_message_size,
            endpoint: self.endpoint,
            nonce_length: self.nonce_length,
            header: self.header.clone(),
        }
    }
}

impl<'a> CreateSession<'a> {
    /// The request that a session is created with.
    pub fn new(session: &'a Session) -> (res: Self)
        ensures
            res@ == session.creation(),
    {
        CreateSession {
            client_description: session.application_description.clone(),
            server_uri: UAString::null(),
            endpoint_url: session.endpoint_info.endpoint.endpoint_url.clone(),
            session_name: session.session_name.clone(),
            client_certificate: match &session.own_certificate {
                Some(certificate) => Some(certificate.clone()),
                None => None,
            },
            session_timeout: session.session_timeout,
            max_response_message_size: 0,
            endpoint: &session.endpoint_info.endpoint,
            nonce_length: session.session_nonce_length,
            header: RequestHeaderBuilder::new_from_session(session),
        }
    }

    /// A request for a session at `endpoint`. Everything that has a setter is left
    /// blank; the client nonce has 32 bytes.
    pub fn new_manual(
        endpoint: &'a EndpointDescription,
        session_id: u32,
        timeout: Duration,
        auth_token: NodeId,
        request_handle: u32,
    ) -> (res: Self)
        ensures
            res@ == (CreateSessionView {
                client_description: blank_description(),
                server_uri: None,
                endpoint_url: None,
                session_name: None,
                client_certificate: None,
                session_timeout: Milliseconds { bits: 0 },
                max_response_message_size: 0,
                endpoint: endpoint@,
                nonce_length: 32,
                header: RequestHeaderBuilderView {
                    header: RequestHeaderView {
                        authentication_token: auth_token@,
                        request_handle,
                    },
                    timeout,
                    session_id,
                },
            }),
    {
        CreateSession {
            client_description: ApplicationDescription::default(),
            server_uri: UAString::null(),
            endpoint_url: UAString::null(),
            session_name: UAString::null(),
            client_certificate: None,
            session_timeout: Milliseconds { bits: 0 },
            max_response_message_size: 0,
            endpoint,
            nonce_length: 32,
            header: RequestHeaderBuilder::new(session_id, timeout, auth_token, request_handle),
        }
    }

    /// Sets the description of the client.
    pub fn client_description(self, desc: impl Into<ApplicationDescription>) -> (res: Self)
        ensures
            exists|value: ApplicationDescription| #[trigger]
                call_ensures(Into::<ApplicationDescription>::into, (desc,), value) && res@ == (
                CreateSessionView { client_description: value@, ..self@ }),
    {
        CreateSession { client_description: desc.into(), ..self }
    }

    /// Sets the URI of the server.
    pub fn server_uri(self, server_uri: impl Into<UAString>) -> (res: Self)
        ensures
            exists|value: UAString| #[trigger]
                call_ensures(Into::<UAString>::into, (server_uri,), value) && res@ == (
                CreateSessionView { server_uri: value@, ..self@ }),
    {
        CreateSession { server_uri: server_uri.into(), ..self }
    }

    /// Sets the URL of the endpoint that the request names.
    pub fn endpoint_url(self, endpoint_url: impl Into<UAString>) -> (res: Self)
        ensures
            exists|value: UAString| #[trigger]
                call_ensures(Into::<UAString>::into, (endpoint_url,), value) && res@ == (
                CreateSessionView { endpoint_url: value@, ..self@ }),
    {
        CreateSession { endpoint_url: endpoint_url.into(), ..self }
    }

    /// Sets the name of the session.
    pub fn session_name(self, session_name: impl Into<UAString>) -> (res: Self)
        ensures
            exists|value: UAString| #[trigger]
                call_ensures(Into::<UAString>::into, (session_name,), value) && res@ == (
                CreateSessionView { session_name: value@, ..self@ }),
    {
        CreateSession { session_name: session_name.into(), ..self }
    }

    /// Sets the certificate of the client.
    pub fn client_certificate(self, client_certificate: X509) -> (res: Self)
        ensures
            res@ == (CreateSessionView {
                client_certificate: Some(client_certificate@),
                ..self@
            }),
    {
        CreateSession { client_certificate: Some(client_certificate), ..self }
    }

    /// Sets the certificate of the client to what a certificate store gave, or to
    /// none where the store failed.
    pub fn client_cert_from_store(self, own_cert: Result<X509, Error>) -> (res: Self)
        ensures
            res@ == (CreateSessionView {
                client_certificate: match own_cert {
                    Ok(certificate) => Some(certificate@),
                    Err(_) => None,
                },
                ..self@
            }),
    {
        CreateSession {
            client_certificate: match own_cert {
                Ok(certificate) => Some(certificate),
                Err(_) => None,
            },
            ..self
        }
    }

    /// Sets the session timeout to ask for.
    pub fn session_timeout(self, session_timeout: Milliseconds) -> (res: Self)
        ensures
            res@ == (CreateSessionView { session_timeout, ..self@ }),
    {
        CreateSession { session_timeout, ..self }
    }

    /// Sets the maximum size of a response message to ask for.
    pub fn max_response_message_size(self, max_response_message_size: u32) -> (res: Self)
        ensures
            res@ == (CreateSessionView { max_response_message_size, ..self@ }),
    {
        CreateSession { max_response_message_size, ..self }
    }

    /// Sets the length of the client nonce.
    pub fn nonce_length(self, nonce_length: usize) -> (res: Self)
        ensures
            res@ == (CreateSessionView { nonce_length, ..self@ }),
    {
        CreateSession { nonce_length, ..self }
    }
}

/// What the response to a session request is held against.
pub struct PendingSession {
    security_policy: SecurityPolicy,
    client_certificate: Option<X509>,
    endpoint: EndpointDescription,
    client_nonce: ByteString,
}

/// The value of a [`PendingSession`].
pub struct PendingSessionView {
    pub security_policy: SecurityPolicy,
    pub client_certificate: Option<Seq<u8>>,
    pub endpoint: EndpointDescriptionView,
    pub client_nonce: Option<Seq<u8>>,
}

impl View for PendingSession {
    type V = PendingSessionView;

    closed spec fn view(&self) -> PendingSessionView {
        PendingSessionView {
            security_policy: self.security_policy,
            client_certificate: certificate_view(self.client_certificate),
            endpoint: self.endpoint@,
            client_nonce: self.client_nonce@,
        }
    }
}

impl<'a> CreateSession<'a> {
    /// How long to wait for the response.
    pub fn timeout(&self) -> (res: Duration)
        ensures
            res == self@.header.timeout,
    {
        self.header.timeout
    }

    /// The length of the client nonce.
    pub fn nonce_size(&self) -> (res: usize)
        ensures
            res == self@.nonce_length,
    {
        self.nonce_length
    }

    /// The request to send over `channel`, with a client nonce drawn by chance, and
    /// what its response is held against.
    pub fn start(self, channel: &SecureChannel) -> (res: (CreateSessionRequest, PendingSession))
        requires
            self@.nonce_length <= isize::MAX,
        ensures
            res.0@.client_nonce is Some,
            res.0@.client_nonce->0.len() == self@.nonce_length,
            res.0@ == self@.request(res.0@.client_nonce),
            res.1@ == self@.pending(channel@.security_policy, res.0@.client_nonce),
            self@.client_certificate is Some ==> res.0@.client_certificate is Some,
    {
        let client_nonce = random_byte_string(self.nonce_length);
        self.start_with_nonce(channel.security_policy(), client_nonce)
    }

    /// The request to send with the client nonce `client_nonce`, and what its response is
    /// held against on a channel that is secured by `security_policy`.
    pub fn start_with_nonce(self, security_policy: SecurityPolicy, client_nonce: ByteString) -> (res:
        (CreateSessionRequest, PendingSession))
        ensures
            res.0@ == self@.request(client_nonce@),
            res.1@ == self@.pending(security_policy, client_nonce@),
            self@.client_certificate is Some ==> res.0@.client_certificate is Some,
    {
        let request = CreateSessionRequest {
            request_header: self.header.header,
            client_description: self.client_description,
            server_uri: self.server_uri,
            endpoint_url: self.endpoint_url,
            session_name: self.session_name,
            client_nonce: client_nonce.clone(),
            client_certificate: match &self.client_certificate {
                Some(certificate) => certificate.as_byte_string(),
                None => ByteString::null(),
            },
            requested_session_timeout: self.session_timeout,
            max_response_message_size: self.max_response_message_size,
        };
        let pending = PendingSession {
            security_policy,
            client_certificate: self.client_certificate,
            endpoint: self.endpoint.clone(),
            client_nonce,
        };
        (request, pending)
    }
}

/// How far the creation of a session has come.
pub enum SessionProgress {
    /// The session is there, and the channel carries its token.
    Created(CreateSessionResponse),
    /// The server's certificate has to be validated first.
    Validate(CertificateCheck),
}

/// The error for a server certificate that is not the endpoint's.
pub open spec fn certificate_mismatch() -> ErrorView {
    error_view(
        BAD_CERTIFICATE_INVALID,
        "Server certificate in CreateSession response does not match channel certificate"@,
    )
}

/// The error for an endpoint URL without a host name.
pub open spec fn hostname_refusal(url: Option<Seq<char>>, reason: Seq<char>) -> ErrorView {
    error_view(
        BAD_UNEXPECTED_ERROR,
        "Failed to extract hostname from endpoint URL ("@ + shown_text(url) + "): "@ + reason,
    )
}

/// The error for a secured session request that carried no certificate.
pub open spec fn missing_client_certificate() -> ErrorView {
    error_view(BAD_CERTIFICATE_INVALID, "Missing client certificate in request"@)
}

/// What becomes of a response that passed every check: `after` is the channel
/// with the session stored in it, unless the channel does not take the server's
/// nonce.
pub open spec fn session_stored(
    before: SecureChannelView,
    response: CreateSessionResponse,
    certificate: Option<Seq<u8>>,
    after: SecureChannelView,
    outcome: Result<CreateSessionResponse, Error>,
) -> bool {
    if before.takes_nonce(response.server_nonce@) {
        &&& outcome == Ok::<CreateSessionResponse, Error>(response)
        &&& after == before.with_session(
            response.server_nonce@,
            certificate,
            response.authentication_token@,
        )
    } else {
        &&& outcome is Err
        &&& outcome->Err_0@ == nonce_refusal()
        &&& after == before
    }
}

/// Stores a session in the channel.
fn store_session(
    channel: &mut SecureChannel,
    response: CreateSessionResponse,
    certificate: Option<X509>,
) -> (res: Result<CreateSessionResponse, Error>)
    ensures
        session_stored(
            old(channel)@,
            response,
            certificate_view(certificate),
            final(channel)@,
            res,
        ),
{
    match channel.update_from_created_session(
        &response.server_nonce,
        certificate,
        &response.authentication_token,
    ) {
        Ok(()) => Ok(response),
        Err(error) => Err(error),
    }
}

impl PendingSessionView {
    /// Why a response that was accepted as one to a session request fails before its
    /// certificate is validated, on a secured channel; `None` where it does not.
    pub open spec fn refusal(self, response: CreateSessionResponse) -> Option<ErrorView> {
        if response.server_certificate@ != self.endpoint.server_certificate {
            Some(certificate_mismatch())
        } else if certificate_der(bytes_or_empty(response.server_certificate@)) is None {
            Some(certificate_refusal(bytes_or_empty(response.server_certificate@)))
        } else {
            match url_hostname(chars_or_empty(self.endpoint.endpoint_url)) {
                Ok(_) => None,
                Err(reason) => Some(hostname_refusal(self.endpoint.endpoint_url, reason)),
            }
        }
    }
}

impl PendingSession {
    /// Takes what came back for the session request. Without security the session
    /// is then there. Else the response must bring the certificate of the endpoint,
    /// and that certificate has still to be validated. An error leaves the channel
    /// as it was.
    pub fn on_response(
        self,
        channel: &mut SecureChannel,
        response: Result<ResponseMessage, Error>,
    ) -> (res: Result<SessionProgress, Error>)
        ensures
            match CreateSessionResponse::accepted(response) {
                Err(error) => {
                    &&& res is Err
                    &&& res->Err_0@ == error
                    &&& final(channel)@ == old(channel)@
                },
                Ok(answer) => if self@.security_policy == SecurityPolicy::Unsecured {
                    &&& res is Ok ==> res->Ok_0 is Created
                    &&& session_stored(
                        old(channel)@,
                        answer,
                        None,
                        final(channel)@,
                        match res {
                            Ok(progress) => Ok(progress->Created_0),
                            Err(error) => Err(error),
                        },
                    )
                } else {
                    &&& final(channel)@ == old(channel)@
                    &&& match self@.refusal(answer) {
                        Some(error) => res is Err && res->Err_0@ == error,
                        None => {
                            &&& res is Ok
                            &&& res->Ok_0 is Validate
                            &&& res->Ok_0->Validate_0@.pending == self@
                            &&& res->Ok_0->Validate_0@.response == answer
                            &&& res->Ok_0->Validate_0@.certificate == bytes_or_empty(
                                answer.server_certificate@,
                            )
                            &&& url_hostname(chars_or_empty(self@.endpoint.endpoint_url)) == Ok::<
                                Seq<char>,
                                Seq<char>,
                            >(res->Ok_0->Validate_0@.hostname)
                        },
                    }
                },
            },
    {
        let answer = match CreateSessionResponse::accept(response) {
            Ok(answer) => answer,
            Err(error) => {
                return Err(error);
            },
        };
        if self.security_policy == SecurityPolicy::Unsecured {
            return match store_session(channel, answer, None) {
                Ok(created) => Ok(SessionProgress::Created(created)),
                Err(error) => Err(error),
            };
        }
        if !self.endpoint.server_certificate.same_as(&answer.server_certificate) {
            return Err(
                Error::new(
                    BAD_CERTIFICATE_INVALID,
                    "Server certificate in CreateSession response does not match channel certificate",
                ),
            );
        }
        let certificate = match X509::from_byte_string(&answer.server_certificate) {
            Ok(certificate) => certificate,
            Err(error) => {
                return Err(error);
            },
        };
        let hostname = hostname_from_url(self.endpoint.endpoint_url.as_text());
        match self.begin_validation(answer, certificate, hostname) {
            Ok(check) => Ok(SessionProgress::Validate(check)),
            Err(error) => Err(error),
        }
    }

    /// Asks for the validation of the server's certificate against the host name
    /// of the endpoint, which is `hostname`, or fails where there is none.
    pub fn begin_validation(
        self,
        response: CreateSessionResponse,
        certificate: X509,
        hostname: Result<String, String>,
    ) -> (res: Result<CertificateCheck, Error>)
        ensures
            match hostname {
                Ok(name) => {
                    &&& res is Ok
                    &&& res->Ok_0@ == (CertificateCheckView {
                        pending: self@,
                        response,
                        certificate: certificate@,
                        hostname: name@,
                    })
                },
                Err(reason) => {
                    &&& res is Err
                    &&& res->Err_0@ == hostname_refusal(self@.endpoint.endpoint_url, reason@)
                },
            },
    {
        match hostname {
            Ok(hostname) => Ok(CertificateCheck { pending: self, response, certificate, hostname }),
            Err(reason) => {
                let message = String::from_str("Failed to extract hostname from endpoint URL (")
                    .concat(self.endpoint.endpoint_url.shown())
                    .concat("): ")
                    .concat(reason.as_str());
                Err(Error::new(BAD_UNEXPECTED_ERROR, message.as_str()))
            },
        }
    }
}

/// A session whose server certificate has still to be validated.
pub struct CertificateCheck {
    pending: PendingSession,
    response: CreateSessionResponse,
    certificate: X509,
    hostname: String,
}

/// The value of a [`CertificateCheck`].
pub struct CertificateCheckView {
    pub pending: PendingSessionView,
    pub response: CreateSessionResponse,
    pub certificate: Seq<u8>,
    pub hostname: Seq<char>,
}

impl View for CertificateCheck {
    type V = CertificateCheckView;

    closed spec fn view(&self) -> CertificateCheckView {
        CertificateCheckView {
            pending: self.pending@,
            response: self.response,
            certificate: self.certificate@,
            hostname: self.hostname@,
        }
    }
}

impl CertificateCheckView {
    /// Why the session fails once the validation answered `verdict`; `None` where it
    /// does not. The server must have signed the client's certificate followed by the
    /// client nonce.
    pub open spec fn refusal(self, verdict: Result<(), ErrorView>) -> Option<ErrorView> {
        match verdict {
            Err(error) => Some(error),
            Ok(()) => match self.pending.client_certificate {
                None => Some(missing_client_certificate()),
                Some(client_certificate) => match signature_check(
                    bytes_or_empty(self.response.server_signature@.signature),
                    self.pending.security_policy,
                    self.certificate,
                    certificate_der(client_certificate)->0 + bytes_or_empty(
                        self.pending.client_nonce,
                    ),
                ) {
                    Ok(()) => None,
                    Err(error) => Some(error),
                },
            },
        }
    }
}

impl CertificateCheck {
    /// The certificate to validate.
    pub fn certificate(&self) -> (res: &X509)
        ensures
            res@ == self@.certificate,
    {
        &self.certificate
    }

    /// The policy that secures the channel.
    pub fn security_policy(&self) -> (res: SecurityPolicy)
        ensures
            res == self@.pending.security_policy,
    {
        self.pending.security_policy
    }

    /// Whether the request carried a certificate of the client.
    pub fn has_client_certificate(&self) -> (res: bool)
        ensures
            res == (self@.pending.client_certificate is Some),
    {
        self.pending.client_certificate.is_some()
    }

    /// The host name that the certificate has to name.
    pub fn hostname(&self) -> (res: &str)
        ensures
            res@ == self@.hostname,
    {
        self.hostname.as_str()
    }

    /// The application URI that the certificate has to name.
    pub fn application_uri(&self) -> (res: &str)
        ensures
            res@ == chars_or_empty(self@.pending.endpoint.server.application_uri),
    {
        self.pending.endpoint.server.application_uri.as_text()
    }

    /// Takes what the validation answered. A valid certificate must also have
    /// signed what the request carried. An error leaves the channel as it was.
    pub fn on_verdict(self, channel: &mut SecureChannel, verdict: Result<(), Error>) -> (res: Result<
        CreateSessionResponse,
        Error,
    >)
        requires
            verdict is Ok && self@.pending.client_certificate is Some
                ==> self@.pending.security_policy != SecurityPolicy::Unknown,
        ensures
            match self@.refusal(result_view(verdict)) {
                Some(error) => {
                    &&& res is Err
                    &&& res->Err_0@ == error
                    &&& final(channel)@ == old(channel)@
                },
                None => session_stored(
                    old(channel)@,
                    self@.response,
                    Some(self@.certificate),
                    final(channel)@,
                    res,
                ),
            },
    {
        if let Err(error) = verdict {
            return Err(error);
        }
        let signature = match &self.pending.client_certificate {
            Some(client_certificate) => verify_signature_data(
                &self.response.server_signature,
                self.pending.security_policy,
                &self.certificate,
                client_certificate,
                &self.pending.client_nonce,
            ),
            None => Err(
                Error::new(BAD_CERTIFICATE_INVALID, "Missing client certificate in request"),
            ),
        };
        self.conclude(channel, signature)
    }

    /// Takes what the check of the server's signature answered, and stores the
    /// session in the channel where it passed.
    pub fn conclude(self, channel: &mut SecureChannel, signature: Result<(), Error>) -> (res: Result<
        CreateSessionResponse,
        Error,
    >)
        ensures
            match signature {
                Err(error) => {
                    &&& res == Err::<CreateSessionResponse, Error>(error)
                    &&& *final(channel) == *old(channel)
                },
                Ok(()) => session_stored(
                    old(channel)@,
                    self@.response,
                    Some(self@.certificate),
                    final(channel)@,
                    res,
                ),
            },
    {
        match signature {
            Ok(()) => store_session(channel, self.response, Some(self.certificate)),
            Err(error) => Err(error),
        }
    }
}

} // verus!
