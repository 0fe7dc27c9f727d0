//! What holds of the session services taken together.

use vstd::prelude::*;
use vstd::utf8::encode_utf8;

use crate::activate_session::{ActivateSessionView, Identity};
use crate::channel::SecureChannelView;
use crate::create_session::{
    CertificateCheckView, CreateSessionView, PendingSessionView, session_stored,
};
use crate::crypto::{
    SignatureData, certificate_der, certificate_key_bits, is_encryption, is_signature,
    named_policy, null_signature, private_key_size, signature_check, signing_outcome,
};
use crate::error::{BAD_UNEXPECTED_ERROR, BAD_UNKNOWN_RESPONSE, Error, ErrorView, error_view};
use crate::identity::IdentityTokenView;
use crate::messages::{
    ActivateSessionRequest, ActivateSessionResponse, CancelResponse, CloseSessionResponse,
    CreateSessionResponse, ResponseHeader, ResponseMessage, UserIdentityTokenView,
};
use crate::security::{
    EncryptionMode, MessageSecurityMode, SecurityPolicy, encryption_mode_of,
};
use crate::session::Session;
use crate::types::{ByteString, bytes_or_empty, chars_or_empty};
use crate::url::url_hostname;

verus! {

/// Once a session is created, every request of the session carries the
/// authentication token that the server gave it: the requests to create it anew, to
/// activate it, to cancel and to close.
pub proof fn law_created_token_is_sent(
    before: SecureChannelView,
    response: CreateSessionResponse,
    certificate: Option<Seq<u8>>,
    session: Session,
)
    requires
        session_stored(
            before,
            response,
            certificate,
            session.channel@,
            Ok::<CreateSessionResponse, Error>(response),
        ),
    ensures
        session.header_view().header.authentication_token == response.authentication_token@,
        session.creation().header == session.header_view(),
        session.activation().header == session.header_view(),
{
}

/// Activating a session leaves its authentication token, and the certificate of its
/// server, as they are.
pub proof fn law_activation_keeps_token(channel: SecureChannelView, nonce: Option<Seq<u8>>)
    ensures
        channel.with_nonce(nonce).auth_token == channel.auth_token,
        channel.with_nonce(nonce).remote_cert == channel.remote_cert,
        channel.with_nonce(nonce).security_policy == channel.security_policy,
        channel.with_nonce(nonce).security_mode == channel.security_mode,
{
}

/// The server has to sign what the session request carried: its client certificate
/// followed by its client nonce.
pub proof fn law_server_signs_the_request(
    creation: CreateSessionView,
    policy: SecurityPolicy,
    nonce: Option<Seq<u8>>,
    check: CertificateCheckView,
)
    requires
        creation.client_certificate is Some,
        check.pending == creation.pending(policy, nonce),
        creation.request(nonce).client_certificate is Some,
    ensures
        check.refusal(Ok(())) == match signature_check(
            bytes_or_empty(check.response.server_signature@.signature),
            policy,
            check.certificate,
            creation.request(nonce).client_certificate->0 + bytes_or_empty(
                creation.request(nonce).client_nonce,
            ),
        ) {
            Ok(()) => None,
            Err(error) => Some(error),
        },
{
}

/// A session on a secured channel comes about if and only if the server brought the
/// certificate of the endpoint, that certificate parses and was found valid for the
/// endpoint's host, the client sent a certificate too, and the server's signature
/// holds.
pub proof fn law_secured_session_is_checked(
    pending: PendingSessionView,
    answer: CreateSessionResponse,
    check: CertificateCheckView,
    verdict: Result<(), ErrorView>,
)
    requires
        check.pending == pending,
        check.response == answer,
        check.certificate == bytes_or_empty(answer.server_certificate@),
    ensures
        pending.refusal(answer) is None && check.refusal(verdict) is None <==> {
            &&& answer.server_certificate@ == pending.endpoint.server_certificate
            &&& certificate_der(bytes_or_empty(answer.server_certificate@)) is Some
            &&& url_hostname(chars_or_empty(pending.endpoint.endpoint_url)) is Ok
            &&& verdict is Ok
            &&& pending.client_certificate is Some
            &&& signature_check(
                bytes_or_empty(answer.server_signature@.signature),
                pending.security_policy,
                bytes_or_empty(answer.server_certificate@),
                certificate_der(pending.client_certificate->0)->0 + bytes_or_empty(
                    pending.client_nonce,
                ),
            ) is Ok
        },
{
}

/// Without security a good response is enough: the session is stored whatever nonce
/// the server sent, and no certificate with it.
pub proof fn law_unsecured_session_needs_no_nonce(
    before: SecureChannelView,
    response: CreateSessionResponse,
    after: SecureChannelView,
    outcome: Result<CreateSessionResponse, Error>,
)
    requires
        before.security_policy == SecurityPolicy::Unsecured,
        session_stored(before, response, None, after, outcome),
    ensures
        outcome == Ok::<CreateSessionResponse, Error>(response),
        after.auth_token == response.authentication_token@,
        after.remote_cert is None,
{
}

/// The activation that follows the creation of a session on a secured channel signs
/// the certificate and the nonce that the creation brought.
pub proof fn law_activation_signs_what_creation_brought(
    before: SecureChannelView,
    response: CreateSessionResponse,
    certificate: Seq<u8>,
    after: SecureChannelView,
    activation: ActivateSessionView,
    signature: Result<SignatureData, Error>,
)
    requires
        before.security_policy != SecurityPolicy::Unsecured,
        session_stored(
            before,
            response,
            Some(certificate),
            after,
            Ok::<CreateSessionResponse, Error>(response),
        ),
        bytes_or_empty(response.server_nonce@).len() > 0,
        activation.private_key is Some,
    ensures
        activation.client_signature_outcome(after, signature) <==> signing_outcome(
            activation.private_key->0,
            before.security_policy,
            certificate_der(certificate)->0,
            bytes_or_empty(response.server_nonce@),
            signature,
        ),
{
}

/// Each activation on a secured channel signs the nonce that the one before it
/// brought.
pub proof fn law_activation_signs_the_latest_nonce(
    channel: SecureChannelView,
    nonce: Seq<u8>,
    activation: ActivateSessionView,
    signature: Result<SignatureData, Error>,
)
    requires
        channel.security_policy != SecurityPolicy::Unsecured,
        channel.remote_cert is Some,
        nonce.len() > 0,
        activation.private_key is Some,
    ensures
        activation.client_signature_outcome(channel.with_nonce(Some(nonce)), signature)
            <==> signing_outcome(
            activation.private_key->0,
            channel.security_policy,
            certificate_der(channel.remote_cert->0)->0,
            nonce,
            signature,
        ),
{
}

/// A request that the server refuses fails with the status that the server gave as
/// the reason, whatever the request was.
pub proof fn law_refusal_keeps_the_status(
    header: ResponseHeader,
    create: CreateSessionResponse,
    activate: ActivateSessionResponse,
    close: CloseSessionResponse,
    cancel: CancelResponse,
)
    requires
        header.service_result.bad(),
        create.response_header == header,
        activate.response_header == header,
        close.response_header == header,
        cancel.response_header == header,
    ensures
        ({
            let refused = Ok::<ResponseMessage, Error>(ResponseMessage::CreateSession(create));
            &&& CreateSessionResponse::accepted(refused) is Err
            &&& CreateSessionResponse::accepted(refused)->Err_0.status == header.service_result
        }),
        ({
            let refused = Ok::<ResponseMessage, Error>(ResponseMessage::ActivateSession(activate));
            &&& ActivateSessionResponse::accepted(refused) is Err
            &&& ActivateSessionResponse::accepted(refused)->Err_0.status == header.service_result
        }),
        ({
            let refused = Ok::<ResponseMessage, Error>(ResponseMessage::CloseSession(close));
            &&& CloseSessionResponse::accepted(refused) is Err
            &&& CloseSessionResponse::accepted(refused)->Err_0.status == header.service_result
        }),
        ({
            let refused = Ok::<ResponseMessage, Error>(ResponseMessage::Cancel(cancel));
            &&& CancelResponse::accepted(refused) is Err
            &&& CancelResponse::accepted(refused)->Err_0.status == header.service_result
        }),
{
}

/// A service fault fails every request, with the status that the fault gives as the
/// reason, good or bad.
pub proof fn law_fault_keeps_the_status(header: ResponseHeader)
    ensures
        ({
            let fault = Ok::<ResponseMessage, Error>(ResponseMessage::ServiceFault(header));
            &&& CreateSessionResponse::accepted(fault) is Err
            &&& CreateSessionResponse::accepted(fault)->Err_0.status == header.service_result
            &&& ActivateSessionResponse::accepted(fault) is Err
            &&& ActivateSessionResponse::accepted(fault)->Err_0.status == header.service_result
            &&& CloseSessionResponse::accepted(fault) is Err
            &&& CloseSessionResponse::accepted(fault)->Err_0.status == header.service_result
            &&& CancelResponse::accepted(fault) is Err
            &&& CancelResponse::accepted(fault)->Err_0.status == header.service_result
        }),
{
}

/// At most one of the four services accepts a response; every other one fails on it.
pub proof fn law_responses_are_not_confused(response: ResponseMessage)
    requires
        response !is ServiceFault,
    ensures
        ({
            let answer = Ok::<ResponseMessage, Error>(response);
            &&& response !is CreateSession ==> CreateSessionResponse::accepted(answer) is Err
                && CreateSessionResponse::accepted(answer)->Err_0.status.bits
                == BAD_UNKNOWN_RESPONSE
            &&& response !is ActivateSession ==> ActivateSessionResponse::accepted(answer) is Err
                && ActivateSessionResponse::accepted(answer)->Err_0.status.bits
                == BAD_UNKNOWN_RESPONSE
            &&& response !is CloseSession ==> CloseSessionResponse::accepted(answer) is Err
                && CloseSessionResponse::accepted(answer)->Err_0.status.bits
                == BAD_UNKNOWN_RESPONSE
            &&& response !is Cancel ==> CancelResponse::accepted(answer) is Err
                && CancelResponse::accepted(answer)->Err_0.status.bits == BAD_UNKNOWN_RESPONSE
        }),
{
}

/// The token goes by the policy that was selected for it, and it is signed for only
/// where it is a certificate.
pub proof fn law_token_names_its_policy(
    activation: ActivateSessionView,
    issued_token: Result<ByteString, Error>,
    channel: SecureChannelView,
    identity: Identity,
)
    requires
        identity is Ok,
        activation.channel_identity(issued_token, channel, identity),
    ensures
        activation.token_policy() is Ok,
        match identity->Ok_0.0@ {
            UserIdentityTokenView::Anonymous { policy_id } => policy_id,
            UserIdentityTokenView::UserName { policy_id, .. } => policy_id,
            UserIdentityTokenView::X509 { policy_id, .. } => policy_id,
            UserIdentityTokenView::Issued { policy_id, .. } => policy_id,
        } == activation.token_policy()->Ok_0.policy_id,
        activation.identity_token !is X509 ==> identity->Ok_0.1@ == null_signature(),
{
}

/// A request carries a list if and only if it has something in it.
pub proof fn law_empty_lists_are_left_out(
    activation: ActivateSessionView,
    issued_token: Result<ByteString, Error>,
    channel: SecureChannelView,
    request: ActivateSessionRequest,
)
    requires
        activation.request_outcome(issued_token, channel, Ok(request)),
    ensures
        request@.locale_ids is None <==> activation.locale_ids.len() == 0,
        request@.locale_ids is Some ==> request@.locale_ids->0 == activation.locale_ids,
        request@.client_software_certificates is None
            <==> activation.client_software_certificates.len() == 0,
        request@.client_software_certificates is Some
            ==> request@.client_software_certificates->0
            == activation.client_software_certificates,
{
}

/// Without security, a user who stays anonymous is activated wherever the endpoint
/// lets them: nothing is signed.
pub proof fn law_anonymous_activation_succeeds(
    activation: ActivateSessionView,
    issued_token: Result<ByteString, Error>,
    channel: SecureChannelView,
    outcome: Result<ActivateSessionRequest, Error>,
)
    requires
        activation.identity_token is Anonymous,
        activation.token_policy() is Ok,
        channel.security_policy == SecurityPolicy::Unsecured,
        activation.request_outcome(issued_token, channel, outcome),
    ensures
        outcome is Ok,
        outcome->Ok_0@ == activation.request(
            UserIdentityTokenView::Anonymous {
                policy_id: activation.token_policy()->Ok_0.policy_id,
            },
            null_signature(),
            null_signature(),
        ),
{
}

/// Where a secret travels as it is, a password reaches the server as its UTF-8
/// bytes.
pub proof fn law_plain_password(
    activation: ActivateSessionView,
    user: Seq<char>,
    password: Seq<char>,
    issued_token: Result<ByteString, Error>,
    channel: SecureChannelView,
    identity: Identity,
)
    requires
        activation.identity_token == IdentityTokenView::UserName(user, password),
        activation.token_policy() is Ok,
        encryption_mode_of(
            channel.security_policy,
            channel.security_mode,
            named_policy(activation.token_policy()->Ok_0.security_policy_uri),
        ) == Ok::<EncryptionMode, ErrorView>(EncryptionMode::Plain),
        activation.channel_identity(issued_token, channel, identity),
    ensures
        identity is Ok,
        identity->Ok_0.0@ == (UserIdentityTokenView::UserName {
            policy_id: activation.token_policy()->Ok_0.policy_id,
            user_name: Some(user),
            password: Some(encode_utf8(password)),
            encryption_algorithm: None,
        }),
{
}

/// Where a secret is encrypted, a password reaches the server encrypted for the
/// server's certificate and latest nonce, whenever that certificate holds an RSA key.
pub proof fn law_encrypted_password(
    activation: ActivateSessionView,
    user: Seq<char>,
    password: Seq<char>,
    policy: SecurityPolicy,
    issued_token: Result<ByteString, Error>,
    channel: SecureChannelView,
    identity: Identity,
)
    requires
        activation.identity_token == IdentityTokenView::UserName(user, password),
        activation.token_policy() is Ok,
        encryption_mode_of(
            channel.security_policy,
            channel.security_mode,
            named_policy(activation.token_policy()->Ok_0.security_policy_uri),
        ) == Ok::<EncryptionMode, ErrorView>(EncryptionMode::AsymmetricFor(policy)),
        channel.remote_cert is Some,
        certificate_key_bits(channel.remote_cert->0) is Some,
        activation.channel_identity(issued_token, channel, identity),
    ensures
        identity is Ok,
        identity->Ok_0.0@ matches UserIdentityTokenView::UserName {
            policy_id,
            user_name,
            password: sent,
            encryption_algorithm,
        } && {
            &&& policy_id == activation.token_policy()->Ok_0.policy_id
            &&& user_name == Some(user)
            &&& sent is Some
            &&& is_encryption(
                policy,
                channel.remote_cert->0,
                channel.remote_nonce,
                encode_utf8(password),
                sent->0,
            )
            &&& encryption_algorithm == Some(policy.encryption_algorithm())
        },
{
}

/// Where a secret is encrypted, an issued token reaches the server encrypted for the
/// server's certificate and latest nonce, whenever that certificate holds an RSA key.
pub proof fn law_encrypted_issued_token(
    activation: ActivateSessionView,
    policy: SecurityPolicy,
    issued: ByteString,
    channel: SecureChannelView,
    identity: Identity,
)
    requires
        activation.identity_token is IssuedToken,
        activation.token_policy() is Ok,
        encryption_mode_of(
            channel.security_policy,
            channel.security_mode,
            named_policy(activation.token_policy()->Ok_0.security_policy_uri),
        ) == Ok::<EncryptionMode, ErrorView>(EncryptionMode::AsymmetricFor(policy)),
        channel.remote_cert is Some,
        certificate_key_bits(channel.remote_cert->0) is Some,
        activation.channel_identity(Ok(issued), channel, identity),
    ensures
        identity is Ok,
        identity->Ok_0.0@ matches UserIdentityTokenView::Issued {
            policy_id,
            token_data,
            encryption_algorithm,
        } && {
            &&& policy_id == activation.token_policy()->Ok_0.policy_id
            &&& token_data is Some
            &&& is_encryption(
                policy,
                channel.remote_cert->0,
                channel.remote_nonce,
                bytes_or_empty(issued@),
                token_data->0,
            )
            &&& encryption_algorithm == Some(policy.encryption_algorithm())
        },
{
}

/// Without security the identity alone decides: a request comes about if and only if
/// the identity does, and nothing but the identity can fail.
pub proof fn law_unsecured_activation_follows_the_identity(
    activation: ActivateSessionView,
    issued_token: Result<ByteString, Error>,
    channel: SecureChannelView,
    outcome: Result<ActivateSessionRequest, Error>,
)
    requires
        channel.security_policy == SecurityPolicy::Unsecured,
        activation.request_outcome(issued_token, channel, outcome),
    ensures
        activation.channel_identity(
            issued_token,
            channel,
            match outcome {
                Ok(request) => Ok((request.user_identity_token, request.user_token_signature)),
                Err(error) => Err(error),
            },
        ),
        outcome matches Ok(request) ==> request.client_signature@ == null_signature(),
{
}

/// A secret travels as it is in two cases only: the channel has no security and the
/// token policy asks for none, or the channel encrypts its messages and the token
/// policy says that it needs no security of its own.
pub proof fn law_when_secrets_travel_plain(
    channel_policy: SecurityPolicy,
    mode: MessageSecurityMode,
    token_policy: Option<SecurityPolicy>,
)
    ensures
        encryption_mode_of(channel_policy, mode, token_policy) == Ok::<EncryptionMode, ErrorView>(
            EncryptionMode::Plain,
        ) <==> {
            ||| {
                &&& mode == MessageSecurityMode::Unsecured
                &&& channel_policy == SecurityPolicy::Unsecured
                &&& token_policy is None || token_policy == Some(SecurityPolicy::Unsecured)
            }
            ||| {
                &&& mode == MessageSecurityMode::SignAndEncrypt
                &&& channel_policy != SecurityPolicy::Unknown
                &&& token_policy == Some(SecurityPolicy::Unsecured)
            }
        },
{
}

/// A request that goes over a secured channel is signed by the client: its key
/// signed the server's certificate followed by the server's latest nonce. Without a
/// key, a certificate or a nonce there is no request.
pub proof fn law_secured_request_is_signed(
    activation: ActivateSessionView,
    issued_token: Result<ByteString, Error>,
    channel: SecureChannelView,
    outcome: Result<ActivateSessionRequest, Error>,
)
    requires
        channel.security_policy != SecurityPolicy::Unsecured,
        activation.request_outcome(issued_token, channel, outcome),
    ensures
        outcome matches Ok(request) ==> {
            &&& activation.private_key is Some
            &&& channel.remote_cert is Some
            &&& channel.remote_nonce.len() > 0
            &&& request.client_signature@.algorithm == Some(
                channel.security_policy.signature_algorithm(),
            )
            &&& request.client_signature@.signature is Some
            &&& is_signature(
                activation.private_key->0,
                channel.security_policy,
                certificate_der(channel.remote_cert->0)->0 + channel.remote_nonce,
                request.client_signature@.signature->0,
            )
        },
{
}

/// A client whose key is too short for the channel's policy sends no request over that
/// channel.
pub proof fn law_short_key_never_signs(
    activation: ActivateSessionView,
    issued_token: Result<ByteString, Error>,
    channel: SecureChannelView,
    outcome: Result<ActivateSessionRequest, Error>,
)
    requires
        channel.security_policy != SecurityPolicy::Unsecured,
        activation.private_key is Some,
        private_key_size(activation.private_key->0) is Some,
        private_key_size(activation.private_key->0)->0
            < channel.security_policy.minimum_signing_size(),
        activation.request_outcome(issued_token, channel, outcome),
    ensures
        outcome is Err,
{
}

/// The error of the client's signature tells its cause: each of the client's own three
/// errors comes if and only if what it names is missing and nothing before it is.
pub proof fn law_signature_error_tells_its_cause(
    activation: ActivateSessionView,
    channel: SecureChannelView,
    error: Error,
)
    requires
        channel.security_policy != SecurityPolicy::Unsecured,
        activation.client_signature_outcome(channel, Err(error)),
    ensures
        error@ == error_view(
            BAD_UNEXPECTED_ERROR,
            "Cannot sign request, no private key provided"@,
        ) <==> activation.private_key is None,
        error@ == error_view(
            BAD_UNEXPECTED_ERROR,
            "Cannot sign request, missing server certificate"@,
        ) <==> activation.private_key is Some && channel.remote_cert is None,
        error@ == error_view(
            BAD_UNEXPECTED_ERROR,
            "Cannot sign request, empty remote nonce"@,
        ) <==> activation.private_key is Some && channel.remote_cert is Some
            && channel.remote_nonce.len() == 0,
{
    reveal_strlit("Cannot sign request, no private key provided");
    reveal_strlit("Cannot sign request, missing server certificate");
    reveal_strlit("Cannot sign request, empty remote nonce");
    reveal_strlit("signature error: message too long");
    reveal_strlit("signature error: internal error");
    assert("Cannot sign request, no private key provided"@.len() == 44);
    assert("Cannot sign request, missing server certificate"@.len() == 47);
    assert("Cannot sign request, empty remote nonce"@.len() == 39);
    assert("signature error: message too long"@.len() == 33);
    assert("signature error: internal error"@.len() == 31);
}

} // verus!
