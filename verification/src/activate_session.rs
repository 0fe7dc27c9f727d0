//! Activating a session: proving who the client and its user are.

use core::time::Duration;

use vstd::prelude::*;
use vstd::string::StringExecFns;
use vstd::utf8::encode_utf8;

use crate::channel::{SecureChannel, SecureChannelView, nonce_refusal};
use crate::crypto::{
    LegacyEncryptedSecret, PrivateKey, SignatureData, SignatureDataView, X509, certificate_der, certificate_view,
    create_signature_data, encryption_defined, encryption_has_answer, legacy_encrypt_secret,
    named_policy, null_signature, policy_named_by, secret_outcome, signing_outcome,
};
use crate::endpoint::{
    EndpointDescription, EndpointDescriptionView, UserTokenPolicy, UserTokenPolicyView,
    UserTokenType, first_policy, text_views,
};
use crate::error::{
    BAD_CERTIFICATE_INVALID, BAD_SECURITY_POLICY_REJECTED, BAD_UNEXPECTED_ERROR, Error, ErrorView,
    error_view,
};
use crate::identity::{IdentityToken, IdentityTokenView};
use crate::messages::{
    ActivateSessionRequest, ActivateSessionRequestView, ActivateSessionResponse, RequestHeaderView,
    ResponseMessage, SignedSoftwareCertificate, SignedSoftwareCertificateView, UserIdentityToken,
    UserIdentityTokenView, software_views,
};
use crate::request_builder::{RequestHeaderBuilder, RequestHeaderBuilderView};
use crate::security::{MessageSecurityMode, SecurityPolicy, encryption_mode_of};
use crate::session::Session;
use crate::types::{ByteString, NodeId, UAString, bytes_or_empty, shown_text};

verus! {

/// A request to activate a session.
pub struct ActivateSession {
    identity_token: IdentityToken,
    private_key: Option<PrivateKey>,
    locale_ids: Vec<UAString>,
    client_software_certificates: Vec<SignedSoftwareCertificate>,
    endpoint: EndpointDescription,
    header: RequestHeaderBuilder,
}

/// The value of an [`ActivateSession`].
pub struct ActivateSessionView {
    pub identity_token: IdentityTokenView,
    pub private_key: Option<Seq<u8>>,
    pub locale_ids: Seq<Option<Seq<char>>>,
    pub client_software_certificates: Seq<SignedSoftwareCertificateView>,
    pub endpoint: EndpointDescriptionView,
    pub header: RequestHeaderBuilderView,
}

/// The PEM form of an optional key.
pub open spec fn key_view(key: Option<PrivateKey>) -> Option<Seq<u8>> {
    match key {
        Some(held) => Some(held@),
        None => None,
    }
}

/// Texts, none of them null.
pub open spec fn present_texts(texts: Seq<String>) -> Seq<Option<Seq<char>>> {
    texts.map_values(|text: String| Some(text@))
}

impl View for ActivateSession {
    type V = ActivateSessionView;

    closed spec fn view(&self) -> ActivateSessionView {
        ActivateSessionView {
            identity_token: self.identity_token@,
            private_key: key_view(self.private_key),
            locale_ids: text_views(self.locale_ids@),
            client_software_certificates: software_views(self.client_software_certificates@),
            endpoint: self.endpoint@,
            header: self.header@,
        }
    }
}

impl Clone for ActivateSession {
    fn clone(&self) -> (res: Self)
        ensures
            res@ == self@,
    {
        let locale_ids = self.locale_ids.clone();
        let client_software_certificates = self.client_software_certificates.clone();
        assert(text_views(locale_ids@) =~= text_views(self.locale_ids@));
        assert(software_views(client_software_certificates@) =~= software_views(
            self.client_software_certificates@,
        ));
        ActivateSession {
            identity_token: self.identity_token.clone(),
            private_key: match &self.private_key {
                Some(key) => Some(key.clone()),
                None => None,
            },
            locale_ids,
            client_software_certificates,
            endpoint: self.endpoint.clone(),
            header: self.header.clone(),
        }
    }
}

/// The texts as strings that may be null.
fn to_locale_ids(texts: &Vec<String>) -> (res: Vec<UAString>)
    ensures
        text_views(res@) == present_texts(texts@),
{
    let mut res: Vec<UAString> = Vec::new();
    let mut index: usize = 0;
    while index < texts.len()
        invariant
            index <= texts@.len(),
            res@.len() == index,
            forall|i: int| 0 <= i < index ==> (#[trigger] res@[i])@ == Some(texts@[i]@),
        decreases texts@.len() - index,
    {
        res.push(UAString::from_text(texts[index].as_str()));
        index = index + 1;
    }
    assert(text_views(res@) =~= present_texts(texts@));
    res
}

impl ActivateSession {
    /// The request that a session is activated with.
    pub fn new(session: &Session) -> (res: Self)
        ensures
            res@ == session.activation(),
    {
        let res = ActivateSession {
            identity_token: session.endpoint_info.user_identity_token.clone(),
            private_key: match &session.own_private_key {
                Some(key) => Some(key.clone()),
                None => None,
            },
            locale_ids: to_locale_ids(&session.endpoint_info.preferred_locales),
            client_software_certificates: Vec::new(),
            endpoint: session.endpoint_info.endpoint.clone(),
            header: RequestHeaderBuilder::new_from_session(session),
        };
        assert(res@.client_software_certificates =~= seq![]);
        res
    }

    /// A request to activate a session at `endpoint` for an anonymous user, without
    /// a private key, locales and software certificates.
    pub fn new_manual(
        endpoint: EndpointDescription,
        session_id: u32,
        timeout: Duration,
        auth_token: NodeId,
        request_handle: u32,
    ) -> (res: Self)
        ensures
            res@ == (ActivateSessionView {
                identity_token: IdentityTokenView::Anonymous,
                private_key: None,
                locale_ids: seq![],
                client_software_certificates: seq![],
                endpoint: endpoint@,
                header: RequestHeaderBuilderView {
                    header: RequestHeaderView {
                        authentication_token: auth_token@,
                        request_handle,
                    },
                    timeout,
                    session_id,
                },
            }),
    {
        let res = ActivateSession {
            identity_token: IdentityToken::Anonymous,
            private_key: None,
            locale_ids: Vec::new(),
            client_software_certificates: Vec::new(),
            endpoint,
            header: RequestHeaderBuilder::new(session_id, timeout, auth_token, request_handle),
        };
        assert(res@.locale_ids =~= seq![]);
        assert(res@.client_software_certificates =~= seq![]);
        res
    }

    /// Sets the identity of the user.
    pub fn identity_token(self, identity_token: IdentityToken) -> (res: Self)
        ensures
            res@ == (ActivateSessionView { identity_token: identity_token@, ..self@ }),
    {
        ActivateSession { identity_token, ..self }
    }

    /// Sets the private key of the client.
    pub fn private_key(self, private_key: PrivateKey) -> (res: Self)
        ensures
            res@ == (ActivateSessionView { private_key: Some(private_key@), ..self@ }),
    {
        ActivateSession { private_key: Some(private_key), ..self }
    }

    /// Sets the locales to ask for.
    pub fn locale_ids(self, locale_ids: Vec<UAString>) -> (res: Self)
        ensures
            res@ == (ActivateSessionView { locale_ids: text_views(locale_ids@), ..self@ }),
    {
        ActivateSession { locale_ids, ..self }
    }

    /// Adds a locale to ask for.
    pub fn locale_id(self, locale_id: impl Into<UAString>) -> (res: Self)
        ensures
            exists|value: UAString| #[trigger]
                call_ensures(Into::<UAString>::into, (locale_id,), value) && res@ == (
                ActivateSessionView { locale_ids: self@.locale_ids.push(value@), ..self@ }),
    {
        let value: UAString = locale_id.into();
        let mut locale_ids = self.locale_ids;
        let ghost earlier = text_views(locale_ids@);
        locale_ids.push(value);
        assert(text_views(locale_ids@) =~= earlier.push(value@));
        ActivateSession { locale_ids, ..self }
    }

    /// Sets the software certificates of the client.
    pub fn client_software_certificates(self, certificates: Vec<SignedSoftwareCertificate>) -> (res:
        Self)
        ensures
            res@ == (ActivateSessionView {
                client_software_certificates: software_views(certificates@),
                ..self@
            }),
    {
        ActivateSession { client_software_certificates: certificates, ..self }
    }

    /// Adds a software certificate of the client.
    pub fn client_software_certificate(self, certificate: SignedSoftwareCertificate) -> (res: Self)
        ensures
            res@ == (ActivateSessionView {
                client_software_certificates: self@.client_software_certificates.push(
                    certificate@,
                ),
                ..self@
            }),
    {
        let mut certificates = self.client_software_certificates;
        let ghost earlier = software_views(certificates@);
        certificates.push(certificate);
        assert(software_views(certificates@) =~= earlier.push(certificate@));
        ActivateSession { client_software_certificates: certificates, ..self }
    }

    /// How long to wait for the response.
    pub fn timeout(&self) -> (res: Duration)
        ensures
            res == self@.header.timeout,
    {
        self.header.timeout
    }
}

/// The error for an endpoint that accepts no token of the type.
pub open spec fn no_token_policy(token_type: UserTokenType) -> ErrorView {
    error_view(
        BAD_SECURITY_POLICY_REJECTED,
        "Cannot find user token type "@ + token_type.spec_name()
            + " for this endpoint, cannot connect"@,
    )
}

/// The error for a user token policy with a security policy that is not known.
pub open spec fn unknown_token_policy(uri: Option<Seq<char>>) -> ErrorView {
    error_view(BAD_SECURITY_POLICY_REJECTED, "Unknown security policy "@ + shown_text(uri))
}

/// The error for a user certificate on a channel whose server has none.
pub open spec fn no_certificate_to_sign() -> ErrorView {
    error_view(
        BAD_CERTIFICATE_INVALID,
        "Cannot create an X509IdentityToken because the remote server has no cert with which to create a signature"@,
    )
}

/// The security policy of a user token. One that names no policy has no security.
pub open spec fn token_security(policy: UserTokenPolicyView) -> SecurityPolicy {
    match named_policy(policy.security_policy_uri) {
        Some(security_policy) => security_policy,
        None => SecurityPolicy::Unsecured,
    }
}

/// What a token and its signature are, or why there are none.
pub type Identity = Result<(UserIdentityToken, SignatureData), Error>;

/// The secret that a token holds.
pub open spec fn secret_in(identity: Identity) -> Result<LegacyEncryptedSecret, Error> {
    match identity {
        Ok((UserIdentityToken::UserName { policy_id, password, encryption_algorithm, .. }, _)) => {
            Ok(LegacyEncryptedSecret { policy: policy_id, secret: password, encryption_algorithm })
        },
        Ok((UserIdentityToken::Issued { policy_id, token_data, encryption_algorithm }, _)) => Ok(
            LegacyEncryptedSecret { policy: policy_id, secret: token_data, encryption_algorithm },
        ),
        Ok(_) => arbitrary(),
        Err(error) => Err(error),
    }
}

/// The signature that goes with a token.
pub open spec fn signature_in(identity: Identity) -> Result<SignatureData, Error> {
    match identity {
        Ok((_, signature)) => Ok(signature),
        Err(error) => Err(error),
    }
}

impl ActivateSessionView {
    /// The user token policy that the identity goes by: the endpoint's first one for
    /// tokens of its type, as long as its security policy is known.
    pub open spec fn token_policy(self) -> Result<UserTokenPolicyView, ErrorView> {
        match first_policy(self.endpoint.user_identity_tokens, self.identity_token.token_type()) {
            Some(policy) => if named_policy(policy.security_policy_uri) == Some(
                SecurityPolicy::Unknown,
            ) {
                Err(unknown_token_policy(policy.security_policy_uri))
            } else {
                Ok(policy)
            },
            None => Err(no_token_policy(self.identity_token.token_type())),
        }
    }

    /// Whether the token holds a secret: a password, or a token that was issued.
    pub open spec fn sends_secret(self, issued_token: Result<ByteString, Error>) -> bool {
        match self.identity_token {
            IdentityTokenView::UserName(_, _) => true,
            IdentityTokenView::IssuedToken => issued_token is Ok,
            _ => false,
        }
    }

    /// Whether the cryptography has an answer for making the token.
    pub open spec fn identity_defined(
        self,
        issued_token: Result<ByteString, Error>,
        certificate: Option<Seq<u8>>,
        mode: MessageSecurityMode,
        channel_policy: SecurityPolicy,
    ) -> bool {
        self.token_policy() is Ok && self.sends_secret(issued_token) ==> encryption_defined(
            encryption_mode_of(
                channel_policy,
                mode,
                named_policy(self.token_policy()->Ok_0.security_policy_uri),
            ),
            certificate,
        )
    }

    /// What the token and its signature are. Only a user certificate is signed for:
    /// its key signs the server's certificate followed by the server's nonce.
    pub open spec fn identity_outcome(
        self,
        issued_token: Result<ByteString, Error>,
        nonce: Seq<u8>,
        certificate: Option<Seq<u8>>,
        mode: MessageSecurityMode,
        channel_policy: SecurityPolicy,
        identity: Identity,
    ) -> bool {
        match self.token_policy() {
            Err(error) => identity is Err && identity->Err_0@ == error,
            Ok(policy) => {
                let encryption = encryption_mode_of(
                    channel_policy,
                    mode,
                    named_policy(policy.security_policy_uri),
                );
                match self.identity_token {
                    IdentityTokenView::Anonymous => {
                        &&& identity is Ok
                        &&& identity->Ok_0.0@ == (UserIdentityTokenView::Anonymous {
                            policy_id: policy.policy_id,
                        })
                        &&& identity->Ok_0.1@ == null_signature()
                    },
                    IdentityTokenView::UserName(user, password) => {
                        &&& identity matches Ok((token, signature)) ==> {
                            &&& token is UserName
                            &&& token->user_name@ == Some(user)
                            &&& signature@ == null_signature()
                        }
                        &&& secret_outcome(
                            encryption,
                            policy.policy_id,
                            nonce,
                            certificate,
                            encode_utf8(password),
                            secret_in(identity),
                        )
                    },
                    IdentityTokenView::X509(user_certificate, key) => match certificate {
                        Some(server_certificate) => {
                            &&& identity matches Ok((token, _)) ==> token@ == (
                            UserIdentityTokenView::X509 {
                                policy_id: policy.policy_id,
                                certificate_data: certificate_der(user_certificate),
                            })
                            &&& signing_outcome(
                                key,
                                token_security(policy),
                                certificate_der(server_certificate)->0,
                                nonce,
                                signature_in(identity),
                            )
                        },
                        None => identity is Err && identity->Err_0@ == no_certificate_to_sign(),
                    },
                    IdentityTokenView::IssuedToken => match issued_token {
                        Ok(issued) => {
                            &&& identity matches Ok((token, signature)) ==> {
                                &&& token is Issued
                                &&& signature@ == null_signature()
                            }
                            &&& secret_outcome(
                                encryption,
                                policy.policy_id,
                                nonce,
                                certificate,
                                bytes_or_empty(issued@),
                                secret_in(identity),
                            )
                        },
                        Err(error) => identity is Err && identity->Err_0@ == error@,
                    },
                }
            },
        }
    }
}

impl ActivateSession {
    /// The user token policy that the identity goes by.
    pub fn find_token_policy(&self) -> (res: Result<&UserTokenPolicy, Error>)
        ensures
            match res {
                Ok(policy) => self@.token_policy() == Ok::<UserTokenPolicyView, ErrorView>(policy@),
                Err(error) => self@.token_policy() == Err::<UserTokenPolicyView, ErrorView>(
                    error@,
                ),
            },
    {
        let token_type = self.identity_token.token_type();
        match self.endpoint.find_policy(token_type) {
            Some(policy) => match policy_named_by(&policy.security_policy_uri) {
                Some(SecurityPolicy::Unknown) => {
                    let message = String::from_str("Unknown security policy ").concat(
                        policy.security_policy_uri.shown(),
                    );
                    Err(Error::new(BAD_SECURITY_POLICY_REJECTED, message.as_str()))
                },
                _ => Ok(policy),
            },
            None => {
                let message = String::from_str("Cannot find user token type ").concat(
                    token_type.name(),
                ).concat(" for this endpoint, cannot connect");
                Err(Error::new(BAD_SECURITY_POLICY_REJECTED, message.as_str()))
            },
        }
    }

    /// Whether the request needs a token that has to be issued first.
    pub fn needs_issued_token(&self) -> (res: bool)
        ensures
            res == (self@.identity_token is IssuedToken && self@.token_policy() is Ok),
    {
        match &self.identity_token {
            IdentityToken::IssuedToken => self.find_token_policy().is_ok(),
            _ => false,
        }
    }

    /// The token that tells the server who the user is, and its signature.
    /// `issued_token` is what the service that issues tokens answered; it is read only
    /// where [`needs_issued_token`](ActivateSession::needs_issued_token) says so.
    pub fn user_identity_token(
        &self,
        issued_token: Result<ByteString, Error>,
        remote_nonce: &ByteString,
        remote_cert: &Option<X509>,
        security_mode: MessageSecurityMode,
        channel_security_policy: SecurityPolicy,
    ) -> (res: Identity)
        requires
            self@.identity_defined(
                issued_token,
                certificate_view(*remote_cert),
                security_mode,
                channel_security_policy,
            ),
        ensures
            self@.identity_outcome(
                issued_token,
                bytes_or_empty(remote_nonce@),
                certificate_view(*remote_cert),
                security_mode,
                channel_security_policy,
                res,
            ),
    {
        let policy = match self.find_token_policy() {
            Ok(policy) => policy,
            Err(error) => {
                return Err(error);
            },
        };
        match &self.identity_token {
            IdentityToken::Anonymous => Ok(
                (
                    UserIdentityToken::Anonymous { policy_id: policy.policy_id.clone() },
                    SignatureData::null(),
                ),
            ),
            IdentityToken::UserName(user, password) => {
                let secret = legacy_encrypt_secret(
                    channel_security_policy,
                    security_mode,
                    &policy.policy_id,
                    &policy.security_policy_uri,
                    remote_nonce,
                    remote_cert,
                    password.0.as_str().as_bytes(),
                );
                user_name_identity(user.as_str(), secret)
            },
            IdentityToken::X509(certificate, private_key) => {
                let server_cert = match remote_cert {
                    Some(server_cert) => server_cert,
                    None => {
                        return Err(
                            Error::new(
                                BAD_CERTIFICATE_INVALID,
                                "Cannot create an X509IdentityToken because the remote server has no cert with which to create a signature",
                            ),
                        );
                    },
                };
                let security_policy = match policy_named_by(&policy.security_policy_uri) {
                    Some(security_policy) => security_policy,
                    None => SecurityPolicy::Unsecured,
                };
                let signature = create_signature_data(
                    private_key,
                    security_policy,
                    &server_cert.as_byte_string(),
                    remote_nonce,
                );
                certificate_identity(&policy.policy_id, certificate, signature)
            },
            IdentityToken::IssuedToken => {
                let token = match issued_token {
                    Ok(token) => token.to_bytes(),
                    Err(error) => {
                        return Err(error);
                    },
                };
                let secret = legacy_encrypt_secret(
                    channel_security_policy,
                    security_mode,
                    &policy.policy_id,
                    &policy.security_policy_uri,
                    remote_nonce,
                    remote_cert,
                    token.as_slice(),
                );
                issued_identity(secret)
            },
        }
    }
}

/// The token for a user name, from what became of the password.
pub fn user_name_identity(user: &str, secret: Result<LegacyEncryptedSecret, Error>) -> (res:
    Identity)
    ensures
        match secret {
            Ok(held) => {
                &&& res is Ok
                &&& res->Ok_0.0@ == (UserIdentityTokenView::UserName {
                    policy_id: held.policy@,
                    user_name: Some(user@),
                    password: held.secret@,
                    encryption_algorithm: held.encryption_algorithm@,
                })
                &&& res->Ok_0.1@ == null_signature()
                &&& secret_in(res) == secret
            },
            Err(error) => res == Err::<(UserIdentityToken, SignatureData), Error>(error),
        },
{
    match secret {
        Ok(held) => Ok(
            (
                UserIdentityToken::UserName {
                    policy_id: held.policy,
                    user_name: UAString::from_text(user),
                    password: held.secret,
                    encryption_algorithm: held.encryption_algorithm,
                },
                SignatureData::null(),
            ),
        ),
        Err(error) => Err(error),
    }
}

/// The token for a user certificate, from what became of the signature.
pub fn certificate_identity(
    policy_id: &UAString,
    certificate: &X509,
    signature: Result<SignatureData, Error>,
) -> (res: Identity)
    ensures
        match signature {
            Ok(data) => {
                &&& res is Ok
                &&& res->Ok_0.0@ == (UserIdentityTokenView::X509 {
                    policy_id: policy_id@,
                    certificate_data: certificate_der(certificate@),
                })
                &&& res->Ok_0.1 == data
            },
            Err(error) => res == Err::<(UserIdentityToken, SignatureData), Error>(error),
        },
{
    match signature {
        Ok(data) => Ok(
            (
                UserIdentityToken::X509 {
                    policy_id: policy_id.clone(),
                    certificate_data: certificate.as_byte_string(),
                },
                data,
            ),
        ),
        Err(error) => Err(error),
    }
}

/// The token for a token that was issued, from what became of it as a secret.
pub fn issued_identity(secret: Result<LegacyEncryptedSecret, Error>) -> (res: Identity)
    ensures
        match secret {
            Ok(held) => {
                &&& res is Ok
                &&& res->Ok_0.0@ == (UserIdentityTokenView::Issued {
                    policy_id: held.policy@,
                    token_data: held.secret@,
                    encryption_algorithm: held.encryption_algorithm@,
                })
                &&& res->Ok_0.1@ == null_signature()
                &&& secret_in(res) == secret
            },
            Err(error) => res == Err::<(UserIdentityToken, SignatureData), Error>(error),
        },
{
    match secret {
        Ok(held) => Ok(
            (
                UserIdentityToken::Issued {
                    policy_id: held.policy,
                    token_data: held.secret,
                    encryption_algorithm: held.encryption_algorithm,
                },
                SignatureData::null(),
            ),
        ),
        Err(error) => Err(error),
    }
}

/// A list as a request carries it: null where it is empty.
pub open spec fn list_or_null<T>(list: Seq<T>) -> Option<Seq<T>> {
    if list.len() == 0 {
        None
    } else {
        Some(list)
    }
}

impl ActivateSessionView {
    /// The request that carries the given token and signatures.
    pub open spec fn request(
        self,
        token: UserIdentityTokenView,
        token_signature: SignatureDataView,
        client_signature: SignatureDataView,
    ) -> ActivateSessionRequestView {
        ActivateSessionRequestView {
            request_header: self.header.header,
            client_signature,
            client_software_certificates: list_or_null(self.client_software_certificates),
            locale_ids: list_or_null(self.locale_ids),
            user_identity_token: token,
            user_token_signature: token_signature,
        }
    }

    /// Why the client cannot sign on a secured channel, whatever its key; `None` where
    /// the key decides.
    pub open spec fn client_signing_refusal(self, channel: SecureChannelView) -> Option<ErrorView> {
        if self.private_key is None {
            Some(
                error_view(BAD_UNEXPECTED_ERROR, "Cannot sign request, no private key provided"@),
            )
        } else if channel.remote_cert is None {
            Some(
                error_view(
                    BAD_UNEXPECTED_ERROR,
                    "Cannot sign request, missing server certificate"@,
                ),
            )
        } else if channel.remote_nonce.len() == 0 {
            Some(error_view(BAD_UNEXPECTED_ERROR, "Cannot sign request, empty remote nonce"@))
        } else {
            None
        }
    }

    /// What the client's signature is: null without security, and else one over the
    /// server's certificate followed by the server's nonce.
    pub open spec fn client_signature_outcome(
        self,
        channel: SecureChannelView,
        signature: Result<SignatureData, Error>,
    ) -> bool {
        if channel.security_policy == SecurityPolicy::Unsecured {
            signature is Ok && signature->Ok_0@ == null_signature()
        } else {
            match self.client_signing_refusal(channel) {
                Some(error) => signature is Err && signature->Err_0@ == error,
                None => signing_outcome(
                    self.private_key->0,
                    channel.security_policy,
                    certificate_der(channel.remote_cert->0)->0,
                    channel.remote_nonce,
                    signature,
                ),
            }
        }
    }

    /// What the identity is on `channel`.
    pub open spec fn channel_identity(
        self,
        issued_token: Result<ByteString, Error>,
        channel: SecureChannelView,
        identity: Identity,
    ) -> bool {
        self.identity_outcome(
            issued_token,
            channel.remote_nonce,
            channel.remote_cert,
            channel.security_mode,
            channel.security_policy,
            identity,
        )
    }

    /// Whether the cryptography has an answer for making the request on `channel`.
    pub open spec fn request_defined(
        self,
        issued_token: Result<ByteString, Error>,
        channel: SecureChannelView,
    ) -> bool {
        self.identity_defined(
            issued_token,
            channel.remote_cert,
            channel.security_mode,
            channel.security_policy,
        )
    }

    /// What the request is: one that carries the user's identity and the client's
    /// signature. Where the identity fails, that is the error; only where it can
    /// succeed is the error that of the signature.
    pub open spec fn request_outcome(
        self,
        issued_token: Result<ByteString, Error>,
        channel: SecureChannelView,
        outcome: Result<ActivateSessionRequest, Error>,
    ) -> bool {
        match outcome {
            Ok(request) => {
                &&& self.channel_identity(
                    issued_token,
                    channel,
                    Ok((request.user_identity_token, request.user_token_signature)),
                )
                &&& self.client_signature_outcome(channel, Ok(request.client_signature))
                &&& request@ == self.request(
                    request.user_identity_token@,
                    request.user_token_signature@,
                    request.client_signature@,
                )
            },
            Err(error) => {
                ||| self.channel_identity(issued_token, channel, Err(error))
                ||| {
                    &&& self.client_signature_outcome(channel, Err(error))
                    &&& exists|token: UserIdentityToken, signature: SignatureData|
                        self.channel_identity(issued_token, channel, Ok((token, signature)))
                }
            },
        }
    }
}

impl ActivateSession {
    /// The client's signature over what the server sent last.
    pub fn client_signature(&self, channel: &SecureChannel) -> (res: Result<SignatureData, Error>)
        ensures
            self@.client_signature_outcome(channel@, res),
    {
        let security_policy = channel.security_policy();
        if security_policy == SecurityPolicy::Unsecured {
            return Ok(SignatureData::null());
        }
        let private_key = match &self.private_key {
            Some(private_key) => private_key,
            None => {
                return Err(
                    Error::new(
                        BAD_UNEXPECTED_ERROR,
                        "Cannot sign request, no private key provided",
                    ),
                );
            },
        };
        let server_cert = match channel.remote_cert() {
            Some(server_cert) => server_cert,
            None => {
                return Err(
                    Error::new(
                        BAD_UNEXPECTED_ERROR,
                        "Cannot sign request, missing server certificate",
                    ),
                );
            },
        };
        let server_nonce = channel.remote_nonce_as_byte_string();
        if server_nonce.is_null_or_empty() {
            return Err(
                Error::new(BAD_UNEXPECTED_ERROR, "Cannot sign request, empty remote nonce"),
            );
        }
        create_signature_data(
            private_key,
            security_policy,
            &server_cert.as_byte_string(),
            &server_nonce,
        )
    }

    /// The request to send, from what became of the identity and of the client's
    /// signature. The identity's error comes first.
    pub fn assemble(self, identity: Identity, client_signature: Result<SignatureData, Error>) -> (res:
        Result<ActivateSessionRequest, Error>)
        ensures
            match (identity, client_signature) {
                (Err(error), _) => res == Err::<ActivateSessionRequest, Error>(error),
                (Ok(_), Err(error)) => res == Err::<ActivateSessionRequest, Error>(error),
                (Ok((token, token_signature)), Ok(signature)) => {
                    &&& res is Ok
                    &&& res->Ok_0@ == self@.request(token@, token_signature@, signature@)
                    &&& res->Ok_0.user_identity_token == token
                    &&& res->Ok_0.user_token_signature == token_signature
                    &&& res->Ok_0.client_signature == signature
                },
            },
    {
        let (user_identity_token, user_token_signature) = match identity {
            Ok(made) => made,
            Err(error) => {
                return Err(error);
            },
        };
        let client_signature = match client_signature {
            Ok(signature) => signature,
            Err(error) => {
                return Err(error);
            },
        };
        Ok(
            ActivateSessionRequest {
                request_header: self.header.header,
                client_signature,
                client_software_certificates: if self.client_software_certificates.len() == 0 {
                    None
                } else {
                    Some(self.client_software_certificates)
                },
                locale_ids: if self.locale_ids.len() == 0 {
                    None
                } else {
                    Some(self.locale_ids)
                },
                user_identity_token,
                user_token_signature,
            },
        )
    }

    /// The request to send over `channel`. `issued_token` is what the service that
    /// issues tokens answered; it is read only where
    /// [`needs_issued_token`](ActivateSession::needs_issued_token) says so.
    pub fn build_request(
        self,
        channel: &SecureChannel,
        issued_token: Result<ByteString, Error>,
    ) -> (res: Result<ActivateSessionRequest, Error>)
        requires
            self@.request_defined(issued_token, channel@),
        ensures
            self@.request_outcome(issued_token, channel@, res),
    {
        let remote_nonce = channel.remote_nonce_as_byte_string();
        assert(bytes_or_empty(remote_nonce@) =~= channel@.remote_nonce);
        let identity = self.user_identity_token(
            issued_token,
            &remote_nonce,
            channel.remote_cert(),
            channel.security_mode(),
            channel.security_policy(),
        );
        assert(self@.channel_identity(issued_token, channel@, identity));
        match identity {
            Ok((token, token_signature)) => {
                let client_signature = self.client_signature(channel);
                self.assemble(Ok((token, token_signature)), client_signature)
            },
            Err(error) => Err(error),
        }
    }

    /// The request to send over `channel`; `None` where the user's secret has to be
    /// encrypted for a server whose certificate is missing or too short for it.
    pub fn try_build_request(
        self,
        channel: &SecureChannel,
        issued_token: Result<ByteString, Error>,
    ) -> (res: Option<Result<ActivateSessionRequest, Error>>)
        ensures
            res is Some <==> self@.request_defined(issued_token, channel@),
            res matches Some(outcome) ==> self@.request_outcome(issued_token, channel@, outcome),
    {
        if self.request_has_answer(channel, &issued_token) {
            Some(self.build_request(channel, issued_token))
        } else {
            None
        }
    }

    /// Whether the cryptography has an answer for making the request.
    fn request_has_answer(
        &self,
        channel: &SecureChannel,
        issued_token: &Result<ByteString, Error>,
    ) -> (res: bool)
        ensures
            res == self@.request_defined(*issued_token, channel@),
    {
        let sends_secret = match &self.identity_token {
            IdentityToken::UserName(_, _) => true,
            IdentityToken::IssuedToken => issued_token.is_ok(),
            _ => false,
        };
        match self.find_token_policy() {
            Ok(policy) => !sends_secret || encryption_has_answer(
                channel.security_policy(),
                channel.security_mode(),
                &policy.security_policy_uri,
                channel.remote_cert(),
            ),
            Err(_) => true,
        }
    }

    /// Takes what came back. The channel takes over the server's nonce; an error leaves
    /// it as it was.
    pub fn on_response(channel: &mut SecureChannel, response: Result<ResponseMessage, Error>) -> (res:
        Result<ActivateSessionResponse, Error>)
        ensures
            match ActivateSessionResponse::accepted(response) {
                Err(error) => {
                    &&& res is Err
                    &&& res->Err_0@ == error
                    &&& final(channel)@ == old(channel)@
                },
                Ok(answer) => if old(channel)@.takes_nonce(answer.server_nonce@) {
                    &&& res == Ok::<ActivateSessionResponse, Error>(answer)
                    &&& final(channel)@ == old(channel)@.with_nonce(answer.server_nonce@)
                } else {
                    &&& res is Err
                    &&& res->Err_0@ == nonce_refusal()
                    &&& final(channel)@ == old(channel)@
                },
            },
    {
        match ActivateSessionResponse::accept(response) {
            Ok(answer) => match channel.update_from_activated_session(&answer.server_nonce) {
                Ok(()) => Ok(answer),
                Err(error) => Err(error),
            },
            Err(error) => Err(error),
        }
    }
}

} // verus!
