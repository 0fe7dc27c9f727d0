//! What activating a session comes to, from the fields of the session and of the
//! messages.

use vstd::prelude::*;
use vstd::utf8::encode_utf8;

use crate::activate_session::{ActivateSessionView, Identity};
use crate::channel::SecureChannelView;
use crate::crypto::{
    SignatureData, certificate_der, certificate_key_bits, certificate_key_refusal, is_encryption,
    is_signature, named_policy, private_key_size, signing_outcome,
};
use crate::endpoint::{UserTokenPolicyView, UserTokenType, is_first_policy, lemma_first_policy};
use crate::error::{Error, ErrorView};
use crate::identity::{IdentityToken, IdentityTokenView};
use crate::messages::{ActivateSessionRequest, UserIdentityToken};
use crate::security::{
    EncryptionMode, MessageSecurityMode, SecurityPolicy, encryption_mode_of, policy_of_uri,
};
use crate::session::Session;
use crate::types::{ByteString, bytes_or_empty};

verus! {

/// The request that activates a session goes by what the session was set up with: its
/// identity, its own key, its locales in their order and its endpoint. It brings no
/// software certificates.
pub proof fn law_activation_goes_by_the_session(session: Session)
    ensures
        match session.endpoint_info.user_identity_token {
            IdentityToken::Anonymous => session.activation().identity_token is Anonymous,
            IdentityToken::UserName(user, password) => session.activation().identity_token
                == IdentityTokenView::UserName(user@, password.0@),
            IdentityToken::X509(certificate, key) => session.activation().identity_token
                == IdentityTokenView::X509(certificate@, key@),
            IdentityToken::IssuedToken => session.activation().identity_token is IssuedToken,
        },
        session.own_private_key is None <==> session.activation().private_key is None,
        session.own_private_key matches Some(own) ==> session.activation().private_key == Some(
            own@,
        ),
        session.activation().locale_ids.len()
            == session.endpoint_info.preferred_locales@.len(),
        forall|i: int|
            0 <= i < session.endpoint_info.preferred_locales@.len() ==> (
            #[trigger] session.activation().locale_ids[i]) == Some(
                session.endpoint_info.preferred_locales@[i]@,
            ),
        session.activation().client_software_certificates.len() == 0,
        session.activation().endpoint == session.endpoint_info.endpoint@,
        session.activation().header.header.authentication_token == session.channel@.auth_token,
        session.activation().header.header.request_handle == session.request_handle,
{
}

/// The token that a session's request carries is that of the session's own identity: an
/// anonymous one, one with the user's name and password, one with the user's
/// certificate, or one that was issued. The password is sent as its UTF-8 bytes, or
/// encrypted for the server's certificate and latest nonce. Only a certificate comes
/// with a signature of the user.
pub proof fn law_session_identity_is_sent(
    session: Session,
    issued_token: Result<ByteString, Error>,
    request: ActivateSessionRequest,
)
    requires
        session.activation().request_outcome(issued_token, session.channel@, Ok(request)),
    ensures
        match session.endpoint_info.user_identity_token {
            IdentityToken::Anonymous => request.user_identity_token is Anonymous,
            IdentityToken::UserName(user, password) => {
                &&& request.user_identity_token is UserName
                &&& request.user_identity_token->user_name.value is Some
                &&& request.user_identity_token->user_name.value->0@ == user@
                &&& request.user_identity_token->password.value is Some
                &&& request.user_identity_token->password.value->0@ == encode_utf8(password.0@)
                    || exists|policy: SecurityPolicy| #[trigger]
                    is_encryption(
                        policy,
                        session.channel@.remote_cert->0,
                        session.channel@.remote_nonce,
                        encode_utf8(password.0@),
                        request.user_identity_token->password.value->0@,
                    )
            },
            IdentityToken::X509(certificate, key) => {
                &&& request.user_identity_token is X509
                &&& request.user_identity_token->certificate_data@ == certificate_der(
                    certificate@,
                )
            },
            IdentityToken::IssuedToken => {
                &&& request.user_identity_token is Issued
                &&& issued_token is Ok
                &&& request.user_identity_token->token_data.value is Some
            },
        },
        session.endpoint_info.user_identity_token !is X509 ==> {
            &&& request.user_token_signature.algorithm.value is None
            &&& request.user_token_signature.signature.value is None
        },
{
}

/// A session's request carries the session's token, its handle and its locales in their
/// order, and none where the session has none. On a secured channel the session's own
/// key signed the server's certificate and latest nonce.
pub proof fn law_session_request_says_what_the_session_says(
    session: Session,
    issued_token: Result<ByteString, Error>,
    request: ActivateSessionRequest,
)
    requires
        session.activation().request_outcome(issued_token, session.channel@, Ok(request)),
    ensures
        request.request_header.authentication_token@ == session.channel@.auth_token,
        request.request_header.request_handle == session.request_handle,
        request.locale_ids is None <==> session.endpoint_info.preferred_locales@.len() == 0,
        request.locale_ids matches Some(locales) ==> {
            &&& locales@.len() == session.endpoint_info.preferred_locales@.len()
            &&& forall|i: int|
                0 <= i < locales@.len() ==> (#[trigger] locales@[i])@ == Some(
                    session.endpoint_info.preferred_locales@[i]@,
                )
        },
        request.client_software_certificates is None,
        session.channel@.security_policy == SecurityPolicy::Unsecured ==> {
            &&& request.client_signature.algorithm.value is None
            &&& request.client_signature.signature.value is None
        },
        session.channel@.security_policy != SecurityPolicy::Unsecured ==> {
            &&& session.own_private_key is Some
            &&& request.client_signature.signature.value is Some
            &&& is_signature(
                session.own_private_key->0@,
                session.channel@.security_policy,
                certificate_der(session.channel@.remote_cert->0)->0
                    + session.channel@.remote_nonce,
                request.client_signature.signature.value->0@,
            )
        },
{
    let preferred = session.endpoint_info.preferred_locales@;
    assert(request@.locale_ids is None <==> session.activation().locale_ids.len() == 0);
    if request.locale_ids is Some {
        let locales = request.locale_ids->0@;
        assert(request@.locale_ids == Some(session.activation().locale_ids));
        assert(locales.len() == preferred.len());
        assert forall|i: int| 0 <= i < locales.len() implies (#[trigger] locales[i])@ == Some(
            preferred[i]@,
        ) by {
            assert(request@.locale_ids->0[i] == locales[i]@);
            assert(session.activation().locale_ids[i] == Some(preferred[i]@));
        }
    }
}

/// Any request carries the header, the locales and the software certificates that were
/// set, each list in its order and null where it is empty, and the very token and
/// signatures that were made.
pub proof fn law_request_carries_what_was_set(
    activation: ActivateSessionView,
    issued_token: Result<ByteString, Error>,
    channel: SecureChannelView,
    request: ActivateSessionRequest,
)
    requires
        activation.request_outcome(issued_token, channel, Ok(request)),
    ensures
        request.request_header@ == activation.header.header,
        request.locale_ids is None <==> activation.locale_ids.len() == 0,
        request.locale_ids matches Some(locales) ==> {
            &&& locales@.len() == activation.locale_ids.len()
            &&& forall|i: int|
                0 <= i < locales@.len() ==> (#[trigger] locales@[i])@ == activation.locale_ids[i]
        },
        request.client_software_certificates is None
            <==> activation.client_software_certificates.len() == 0,
        request.client_software_certificates matches Some(certificates) ==> {
            &&& certificates@.len() == activation.client_software_certificates.len()
            &&& forall|i: int|
                0 <= i < certificates@.len() ==> (#[trigger] certificates@[i])@
                    == activation.client_software_certificates[i]
        },
        activation.channel_identity(
            issued_token,
            channel,
            Ok((request.user_identity_token, request.user_token_signature)),
        ),
        activation.client_signature_outcome(channel, Ok(request.client_signature)),
{
    if request.locale_ids is Some {
        let locales = request.locale_ids->0@;
        assert(request@.locale_ids == Some(activation.locale_ids));
        assert(locales.len() == activation.locale_ids.len());
        assert forall|i: int| 0 <= i < locales.len() implies (#[trigger] locales[i])@
            == activation.locale_ids[i] by {
            assert(request@.locale_ids->0[i] == locales[i]@);
        }
    }
    if request.client_software_certificates is Some {
        let certificates = request.client_software_certificates->0@;
        assert(request@.client_software_certificates == Some(
            activation.client_software_certificates,
        ));
        assert(certificates.len() == activation.client_software_certificates.len());
        assert forall|i: int| 0 <= i < certificates.len() implies (#[trigger] certificates[i])@
            == activation.client_software_certificates[i] by {
            assert(request@.client_software_certificates->0[i] == certificates[i]@);
        }
    }
}

/// The identity goes by the first of the endpoint's policies for its kind, whatever
/// stands behind it. That policy is refused where it names a security policy that is not
/// known, and its URI is shown; one that names none is taken.
pub proof fn law_first_policy_of_the_kind_decides(
    activation: ActivateSessionView,
    policies: Seq<UserTokenPolicyView>,
    kind: UserTokenType,
    index: int,
)
    requires
        activation.endpoint.user_identity_tokens == Some(policies),
        kind == match activation.identity_token {
            IdentityTokenView::Anonymous => UserTokenType::Anonymous,
            IdentityTokenView::UserName(_, _) => UserTokenType::UserName,
            IdentityTokenView::X509(_, _) => UserTokenType::Certificate,
            IdentityTokenView::IssuedToken => UserTokenType::IssuedToken,
        },
        0 <= index < policies.len(),
        policies[index].token_type == kind,
        forall|i: int| 0 <= i < index ==> (#[trigger] policies[i]).token_type != kind,
    ensures
        policies[index].security_policy_uri is None ==> activation.token_policy() == Ok::<
            UserTokenPolicyView,
            ErrorView,
        >(policies[index]),
        policies[index].security_policy_uri matches Some(uri) ==> {
            &&& uri.len() == 0 || policy_of_uri(uri) != SecurityPolicy::Unknown
                ==> activation.token_policy() == Ok::<UserTokenPolicyView, ErrorView>(
                policies[index],
            )
            &&& uri.len() > 0 && policy_of_uri(uri) == SecurityPolicy::Unknown ==> {
                &&& activation.token_policy() is Err
                &&& activation.token_policy()->Err_0.status.bits == 0x8055_0000
                &&& activation.token_policy()->Err_0.message == "Unknown security policy "@ + uri
            }
        },
{
    assert(is_first_policy(policies, kind, index));
    lemma_first_policy(policies, kind, index);
}

/// An endpoint without a policy for the identity's kind refuses it, and the kind is
/// named.
pub proof fn law_missing_policy_is_refused(activation: ActivateSessionView, kind: UserTokenType)
    requires
        kind == match activation.identity_token {
            IdentityTokenView::Anonymous => UserTokenType::Anonymous,
            IdentityTokenView::UserName(_, _) => UserTokenType::UserName,
            IdentityTokenView::X509(_, _) => UserTokenType::Certificate,
            IdentityTokenView::IssuedToken => UserTokenType::IssuedToken,
        },
        activation.endpoint.user_identity_tokens matches Some(policies) ==> forall|i: int|
            0 <= i < policies.len() ==> (#[trigger] policies[i]).token_type != kind,
    ensures
        activation.token_policy() is Err,
        activation.token_policy()->Err_0.status.bits == 0x8055_0000,
        activation.token_policy()->Err_0.message == "Cannot find user token type "@ + (
        match activation.identity_token {
            IdentityTokenView::Anonymous => "Anonymous"@,
            IdentityTokenView::UserName(_, _) => "UserName"@,
            IdentityTokenView::X509(_, _) => "Certificate"@,
            IdentityTokenView::IssuedToken => "IssuedToken"@,
        }) + " for this endpoint, cannot connect"@,
{
}

/// A policy that was selected is one of the endpoint's, for the identity's kind, with no
/// other for that kind before it, and its security policy is known.
pub proof fn law_selected_policy_is_the_endpoints(
    activation: ActivateSessionView,
    policy: UserTokenPolicyView,
)
    requires
        activation.token_policy() == Ok::<UserTokenPolicyView, ErrorView>(policy),
    ensures
        activation.endpoint.user_identity_tokens is Some,
        exists|index: int|
            0 <= index < activation.endpoint.user_identity_tokens->0.len()
                && #[trigger] activation.endpoint.user_identity_tokens->0[index] == policy
                && forall|i: int|
                0 <= i < index ==> (
                #[trigger] activation.endpoint.user_identity_tokens->0[i]).token_type
                    != policy.token_type,
        policy.token_type == match activation.identity_token {
            IdentityTokenView::Anonymous => UserTokenType::Anonymous,
            IdentityTokenView::UserName(_, _) => UserTokenType::UserName,
            IdentityTokenView::X509(_, _) => UserTokenType::Certificate,
            IdentityTokenView::IssuedToken => UserTokenType::IssuedToken,
        },
        policy.security_policy_uri matches Some(uri) ==> uri.len() == 0 || policy_of_uri(uri)
            != SecurityPolicy::Unknown,
{
    let list = activation.endpoint.user_identity_tokens->0;
    let kind = activation.identity_token.token_type();
    let index = choose|i: int| is_first_policy(list, kind, i);
    assert(is_first_policy(list, kind, index));
    assert(list[index] == policy);
}

/// A user token policy names the security policy of its URI, and none where the URI is
/// null or empty.
pub proof fn law_uri_names_the_policy(uri: Seq<char>)
    ensures
        named_policy(None) is None,
        uri.len() == 0 ==> named_policy(Some(uri)) is None,
        uri.len() > 0 ==> named_policy(Some(uri)) == Some(policy_of_uri(uri)),
{
}

/// The token of a user certificate holds that certificate under the id of its policy.
/// Where that policy names a security policy other than the one without security, the
/// token comes with a signature made under that very policy: the user's key signed the
/// server's certificate followed by the server's nonce, with the policy's algorithm.
pub proof fn law_user_certificate_is_signed_under_its_policy(
    activation: ActivateSessionView,
    user: Seq<u8>,
    key: Seq<u8>,
    policy: UserTokenPolicyView,
    uri: Seq<char>,
    issued_token: Result<ByteString, Error>,
    channel: SecureChannelView,
    token: UserIdentityToken,
    signature: SignatureData,
)
    requires
        activation.identity_token == IdentityTokenView::X509(user, key),
        activation.token_policy() == Ok::<UserTokenPolicyView, ErrorView>(policy),
        policy.security_policy_uri == Some(uri),
        uri.len() > 0,
        policy_of_uri(uri) != SecurityPolicy::Unsecured,
        activation.channel_identity(issued_token, channel, Ok((token, signature))),
    ensures
        token matches UserIdentityToken::X509 { policy_id, certificate_data } && policy_id@
            == policy.policy_id && certificate_data@ == certificate_der(user),
        channel.remote_cert is Some,
        signature.algorithm.value is Some,
        signature.algorithm.value->0@ == policy_of_uri(uri).signature_algorithm(),
        signature.signature.value is Some,
        is_signature(
            key,
            policy_of_uri(uri),
            certificate_der(channel.remote_cert->0)->0 + channel.remote_nonce,
            signature.signature.value->0@,
        ),
{
}

/// The token of a user certificate comes without a signature if and only if its policy
/// names no security policy, or the one without security.
pub proof fn law_unsecured_user_certificate_is_not_signed(
    activation: ActivateSessionView,
    user: Seq<u8>,
    key: Seq<u8>,
    policy: UserTokenPolicyView,
    issued_token: Result<ByteString, Error>,
    channel: SecureChannelView,
    token: UserIdentityToken,
    signature: SignatureData,
)
    requires
        activation.identity_token == IdentityTokenView::X509(user, key),
        activation.token_policy() == Ok::<UserTokenPolicyView, ErrorView>(policy),
        activation.channel_identity(issued_token, channel, Ok((token, signature))),
    ensures
        signature.signature.value is None <==> match policy.security_policy_uri {
            None => true,
            Some(uri) => uri.len() == 0 || policy_of_uri(uri) == SecurityPolicy::Unsecured,
        },
{
}

/// A user certificate fails for a reason: the endpoint has no policy for it, the server
/// has no certificate, there is nothing of the server's to sign, or signing with the
/// user's key can fail.
pub proof fn law_user_certificate_fails_for_a_reason(
    activation: ActivateSessionView,
    user: Seq<u8>,
    key: Seq<u8>,
    policy: UserTokenPolicyView,
    issued_token: Result<ByteString, Error>,
    channel: SecureChannelView,
    error: Error,
)
    requires
        activation.identity_token == IdentityTokenView::X509(user, key),
        activation.token_policy() == Ok::<UserTokenPolicyView, ErrorView>(policy),
        activation.channel_identity(issued_token, channel, Err(error)),
    ensures
        channel.remote_cert is None ==> error.status.bits == 0x8012_0000 && error.message@
            == "Cannot create an X509IdentityToken because the remote server has no cert with which to create a signature"@,
        channel.remote_cert matches Some(server) ==> {
            &&& policy.security_policy_uri is Some
            &&& policy.security_policy_uri->0.len() > 0
            &&& policy_of_uri(policy.security_policy_uri->0) != SecurityPolicy::Unsecured
            &&& certificate_der(server)->0.len() > 0 && channel.remote_nonce.len() > 0
                ==> is_signature(
                key,
                policy_of_uri(policy.security_policy_uri->0),
                certificate_der(server)->0 + channel.remote_nonce,
                Seq::empty(),
            )
            &&& certificate_der(server)->0.len() > 0 && channel.remote_nonce.len() == 0
                ==> error.status.bits == 0x8024_0000 && error.message@
                == "Cannot create signature, missing nonce"@
        },
{
}

/// A secret that the channel and the token policy rule out fails with their refusal,
/// and one that is to be encrypted fails if and only if the server's certificate holds
/// no RSA key. This holds of a password and of a token that was issued.
pub proof fn law_secret_fails_for_a_reason(
    activation: ActivateSessionView,
    policy: UserTokenPolicyView,
    issued_token: Result<ByteString, Error>,
    channel: SecureChannelView,
    identity: Identity,
)
    requires
        activation.identity_token is UserName || activation.identity_token is IssuedToken
            && issued_token is Ok,
        activation.token_policy() == Ok::<UserTokenPolicyView, ErrorView>(policy),
        activation.channel_identity(issued_token, channel, identity),
    ensures
        match encryption_mode_of(
            channel.security_policy,
            channel.security_mode,
            named_policy(policy.security_policy_uri),
        ) {
            Err(refusal) => identity is Err && identity->Err_0@ == refusal,
            Ok(EncryptionMode::Plain) => identity is Ok,
            Ok(EncryptionMode::AsymmetricFor(_)) => {
                &&& identity is Err <==> certificate_key_bits(channel.remote_cert->0) is None
                &&& identity is Err ==> identity->Err_0.status.bits == 0x8012_0000
                    && identity->Err_0.message@ == certificate_key_refusal(
                    channel.remote_cert->0,
                )
            },
        },
{
}

/// Where a secret travels as it is, an issued token reaches the server as its bytes.
/// Where none was issued, the reason is the error.
pub proof fn law_issued_token_is_sent_or_its_error(
    activation: ActivateSessionView,
    policy: UserTokenPolicyView,
    issued_token: Result<ByteString, Error>,
    channel: SecureChannelView,
    identity: Identity,
)
    requires
        activation.identity_token is IssuedToken,
        activation.token_policy() == Ok::<UserTokenPolicyView, ErrorView>(policy),
        activation.channel_identity(issued_token, channel, identity),
    ensures
        issued_token matches Err(reason) ==> identity is Err && identity->Err_0@ == reason@,
        issued_token is Ok && encryption_mode_of(
            channel.security_policy,
            channel.security_mode,
            named_policy(policy.security_policy_uri),
        ) == Ok::<EncryptionMode, ErrorView>(EncryptionMode::Plain) ==> {
            &&& identity is Ok
            &&& identity->Ok_0.0 matches UserIdentityToken::Issued {
                policy_id,
                token_data,
                encryption_algorithm,
            } && policy_id@ == policy.policy_id && token_data@ == Some(
                bytes_or_empty(issued_token->Ok_0@),
            ) && encryption_algorithm.value is None
        },
{
}

/// A secret is encrypted under the token policy's own security policy where that names
/// one with security, and under the channel's where it names none and the channel signs.
/// An unsecured channel encrypts only where the token policy asks for it.
pub proof fn law_when_secrets_are_encrypted(
    channel_policy: SecurityPolicy,
    mode: MessageSecurityMode,
    token_policy: Option<SecurityPolicy>,
    policy: SecurityPolicy,
)
    ensures
        encryption_mode_of(channel_policy, mode, token_policy) == Ok::<EncryptionMode, ErrorView>(
            EncryptionMode::AsymmetricFor(policy),
        ) <==> {
            &&& channel_policy != SecurityPolicy::Unknown
            &&& token_policy != Some(SecurityPolicy::Unknown)
            &&& mode == MessageSecurityMode::Sign || mode == MessageSecurityMode::SignAndEncrypt
                || mode == MessageSecurityMode::Unsecured && channel_policy
                == SecurityPolicy::Unsecured && token_policy is Some
            &&& token_policy is None ==> policy == channel_policy
            &&& token_policy is Some ==> token_policy == Some(policy) && policy
                != SecurityPolicy::Unsecured
        },
{
}

/// A secret is refused where a policy is not known, where the mode does not fit the
/// channel's policy, and where it would go in the open over a channel that only signs.
pub proof fn law_when_secrets_are_refused(
    channel_policy: SecurityPolicy,
    mode: MessageSecurityMode,
    token_policy: Option<SecurityPolicy>,
)
    ensures
        encryption_mode_of(channel_policy, mode, token_policy) is Err <==> {
            ||| channel_policy == SecurityPolicy::Unknown
            ||| token_policy == Some(SecurityPolicy::Unknown)
            ||| mode == MessageSecurityMode::Invalid
            ||| mode == MessageSecurityMode::Unsecured && channel_policy
                != SecurityPolicy::Unsecured
            ||| mode == MessageSecurityMode::Sign && token_policy == Some(
                SecurityPolicy::Unsecured,
            )
        },
        encryption_mode_of(channel_policy, mode, token_policy) matches Err(error) ==> {
            &&& error.status.bits == 0x8055_0000 || error.status.bits == 0x8013_0000
            &&& error.status.bits == 0x8013_0000 <==> error.message
                == "Invalid message security mode"@
            &&& error.status.bits == 0x8013_0000 <==> channel_policy != SecurityPolicy::Unknown
                && token_policy != Some(SecurityPolicy::Unknown) && (mode
                == MessageSecurityMode::Invalid || mode == MessageSecurityMode::Unsecured)
        },
{
    reveal_strlit("Invalid message security mode");
    reveal_strlit("Unknown user token security policy");
    reveal_strlit("User token policy security policy is None but message security mode is Sign");
    assert("Invalid message security mode"@.len() == 29);
    assert("Unknown user token security policy"@.len() == 34);
    assert("User token policy security policy is None but message security mode is Sign"@.len()
        == 75);
}

/// A server key that is longer than the padding is all that an encrypted secret needs:
/// 11 bytes of padding under Basic128Rsa15, 66 under Aes256-Sha256-RsaPss, and 42 under
/// every other policy with encryption.
pub proof fn law_server_key_longer_than_the_padding_is_enough(
    activation: ActivateSessionView,
    issued_token: Result<ByteString, Error>,
    channel: SecureChannelView,
    policy: SecurityPolicy,
)
    requires
        activation.token_policy() is Ok,
        encryption_mode_of(
            channel.security_policy,
            channel.security_mode,
            named_policy(activation.token_policy()->Ok_0.security_policy_uri),
        ) == Ok::<EncryptionMode, ErrorView>(EncryptionMode::AsymmetricFor(policy)),
        policy != SecurityPolicy::Unsecured,
        channel.remote_cert is Some,
        certificate_key_bits(channel.remote_cert->0) is Some,
        certificate_key_bits(channel.remote_cert->0)->0 / 8 > match policy {
            SecurityPolicy::Basic128Rsa15 => 11int,
            SecurityPolicy::Aes256Sha256RsaPss => 66int,
            _ => 42int,
        },
    ensures
        activation.request_defined(issued_token, channel),
{
}

/// A server key of more than 66 bytes is long enough for every policy, wherever the token
/// policy names one.
pub proof fn law_long_server_key_is_always_enough(
    activation: ActivateSessionView,
    issued_token: Result<ByteString, Error>,
    channel: SecureChannelView,
)
    requires
        activation.token_policy() is Ok,
        activation.token_policy()->Ok_0.security_policy_uri is Some,
        activation.token_policy()->Ok_0.security_policy_uri->0.len() > 0,
        channel.remote_cert is Some,
        certificate_key_bits(channel.remote_cert->0) is Some,
        certificate_key_bits(channel.remote_cert->0)->0 / 8 > 66,
    ensures
        activation.request_defined(issued_token, channel),
{
}

/// A longer server key never takes a request away: what can be encrypted for one
/// certificate can be encrypted for any with a longer key.
pub proof fn law_longer_server_key_is_no_worse(
    activation: ActivateSessionView,
    issued_token: Result<ByteString, Error>,
    channel: SecureChannelView,
    shorter: Seq<u8>,
    longer: Seq<u8>,
)
    requires
        channel.remote_cert == Some(shorter),
        certificate_key_bits(shorter) is Some,
        certificate_key_bits(longer) is Some,
        certificate_key_bits(shorter)->0 <= certificate_key_bits(longer)->0,
        activation.request_defined(issued_token, channel),
    ensures
        activation.request_defined(
            issued_token,
            SecureChannelView { remote_cert: Some(longer), ..channel },
        ),
{
}

/// Only an encrypted secret asks anything of the server's certificate: an anonymous user,
/// a user certificate, a secret in the open and one that is refused always have an
/// answer. An encrypted secret has none without a certificate, under a policy without
/// encryption, or with a key no longer than the padding.
pub proof fn law_only_encrypted_secrets_need_a_certificate(
    activation: ActivateSessionView,
    issued_token: Result<ByteString, Error>,
    channel: SecureChannelView,
)
    ensures
        activation.identity_token is Anonymous || activation.identity_token is X509
            || activation.token_policy() is Err || activation.identity_token is IssuedToken
            && issued_token is Err ==> activation.request_defined(issued_token, channel),
        encryption_mode_of(
            channel.security_policy,
            channel.security_mode,
            named_policy(activation.token_policy()->Ok_0.security_policy_uri),
        ) !is Ok || encryption_mode_of(
            channel.security_policy,
            channel.security_mode,
            named_policy(activation.token_policy()->Ok_0.security_policy_uri),
        )->Ok_0 is Plain ==> activation.request_defined(issued_token, channel),
        activation.token_policy() is Ok && (activation.identity_token is UserName
            || activation.identity_token is IssuedToken && issued_token is Ok)
            && activation.request_defined(issued_token, channel) ==> (encryption_mode_of(
            channel.security_policy,
            channel.security_mode,
            named_policy(activation.token_policy()->Ok_0.security_policy_uri),
        ) matches Ok(EncryptionMode::AsymmetricFor(policy)) ==> {
            &&& channel.remote_cert is Some
            &&& certificate_key_bits(channel.remote_cert->0) matches Some(bits) ==> policy
                != SecurityPolicy::Unsecured && bits / 8 > match policy {
                SecurityPolicy::Basic128Rsa15 => 11int,
                SecurityPolicy::Aes256Sha256RsaPss => 66int,
                _ => 42int,
            }
        }),
{
}

/// A sound key signs. A key is as long as a policy needs from 46 bytes on for SHA-1, 62
/// for SHA-256, and 66 for SHA-256 with PSS; a sound one never fails to sign under a
/// policy that it is long enough for. Then everything that there is to sign comes back
/// signed, with the policy's algorithm and a signature as long as the key.
pub proof fn law_sound_key_signs(
    key: Seq<u8>,
    size: usize,
    policy: SecurityPolicy,
    contained: Seq<u8>,
    nonce: Seq<u8>,
    outcome: Result<SignatureData, Error>,
)
    requires
        policy != SecurityPolicy::Unknown,
        policy != SecurityPolicy::Unsecured,
        contained.len() > 0,
        nonce.len() > 0,
        private_key_size(key) == Some(size),
        size >= match policy {
            SecurityPolicy::Basic128Rsa15 => 46int,
            SecurityPolicy::Basic256 => 46int,
            SecurityPolicy::Aes256Sha256RsaPss => 66int,
            _ => 62int,
        },
        forall|any: SecurityPolicy, signed: Seq<u8>|
            size >= (match any {
                SecurityPolicy::Basic128Rsa15 => 46int,
                SecurityPolicy::Basic256 => 46int,
                SecurityPolicy::Aes256Sha256RsaPss => 66int,
                _ => 62int,
            }) ==> !(#[trigger] is_signature(key, any, signed, Seq::empty())),
        signing_outcome(key, policy, contained, nonce, outcome),
    ensures
        outcome is Ok,
        outcome->Ok_0.algorithm.value is Some,
        outcome->Ok_0.algorithm.value->0@ == policy.signature_algorithm(),
        outcome->Ok_0.signature.value is Some,
        outcome->Ok_0.signature.value->0@.len() == size,
        is_signature(key, policy, contained + nonce, outcome->Ok_0.signature.value->0@),
{
}

/// Signing fails for a reason: the policy is not known, there is nothing to sign, or
/// signing with the key can fail. Without security it never fails and signs nothing.
pub proof fn law_signing_fails_for_a_reason(
    key: Seq<u8>,
    policy: SecurityPolicy,
    contained: Seq<u8>,
    nonce: Seq<u8>,
    outcome: Result<SignatureData, Error>,
)
    requires
        signing_outcome(key, policy, contained, nonce, outcome),
    ensures
        policy == SecurityPolicy::Unsecured ==> {
            &&& outcome is Ok
            &&& outcome->Ok_0.algorithm.value is None
            &&& outcome->Ok_0.signature.value is None
        },
        policy == SecurityPolicy::Unknown ==> {
            &&& outcome is Err
            &&& outcome->Err_0.status.bits == 0x8055_0000
            &&& outcome->Err_0.message@ == "Cannot create signature for Unknown security policy"@
        },
        policy != SecurityPolicy::Unknown && policy != SecurityPolicy::Unsecured ==> {
            &&& contained.len() == 0 ==> {
                &&& outcome is Err
                &&& outcome->Err_0.status.bits == 0x8012_0000
                &&& outcome->Err_0.message@
                    == "Cannot create signature, missing signing certificate"@
            }
            &&& contained.len() > 0 && nonce.len() == 0 ==> {
                &&& outcome is Err
                &&& outcome->Err_0.status.bits == 0x8024_0000
                &&& outcome->Err_0.message@ == "Cannot create signature, missing nonce"@
            }
            &&& contained.len() > 0 && nonce.len() > 0 && outcome is Err ==> {
                &&& outcome->Err_0.status.bits == 0x8001_0000
                &&& is_signature(key, policy, contained + nonce, Seq::empty())
            }
        },
{
}

/// Each policy has its algorithms: the same signature and encryption under the same
/// policy, and the names that go over the wire.
pub proof fn law_policies_have_their_algorithms(policy: SecurityPolicy)
    ensures
        policy == SecurityPolicy::Basic128Rsa15 || policy == SecurityPolicy::Basic256
            ==> policy.signature_algorithm() == "http://www.w3.org/2000/09/xmldsig#rsa-sha1"@,
        policy == SecurityPolicy::Basic256Sha256 || policy == SecurityPolicy::Aes128Sha256RsaOaep
            ==> policy.signature_algorithm()
            == "http://www.w3.org/2001/04/xmldsig-more#rsa-sha256"@,
        policy == SecurityPolicy::Aes256Sha256RsaPss ==> policy.signature_algorithm()
            == "http://opcfoundation.org/UA/security/rsa-pss-sha2-256"@,
        policy == SecurityPolicy::Basic128Rsa15 ==> policy.encryption_algorithm()
            == "http://www.w3.org/2001/04/xmlenc#rsa-1_5"@,
        policy == SecurityPolicy::Basic256 || policy == SecurityPolicy::Basic256Sha256 || policy
            == SecurityPolicy::Aes128Sha256RsaOaep ==> policy.encryption_algorithm()
            == "http://www.w3.org/2001/04/xmlenc#rsa-oaep"@,
        policy == SecurityPolicy::Aes256Sha256RsaPss ==> policy.encryption_algorithm()
            == "http://opcfoundation.org/UA/security/rsa-oaep-sha2-256"@,
{
}

/// The client's signature on a secured channel fails for a reason: the key, the server's
/// certificate or its nonce is missing, the policy is not known, or signing with the key
/// can fail. Where it comes about, the key signed the server's certificate followed by
/// the server's latest nonce. Without security there is no signature.
pub proof fn law_client_signature_fails_for_a_reason(
    activation: ActivateSessionView,
    channel: SecureChannelView,
    signature: Result<SignatureData, Error>,
)
    requires
        activation.client_signature_outcome(channel, signature),
    ensures
        channel.security_policy == SecurityPolicy::Unsecured ==> {
            &&& signature is Ok
            &&& signature->Ok_0.algorithm.value is None
            &&& signature->Ok_0.signature.value is None
        },
        channel.security_policy != SecurityPolicy::Unsecured ==> {
            &&& signature is Ok ==> {
                &&& activation.private_key is Some
                &&& channel.remote_cert is Some
                &&& channel.remote_nonce.len() > 0
                &&& signature->Ok_0.algorithm@ == Some(
                    channel.security_policy.signature_algorithm(),
                )
                &&& signature->Ok_0.signature.value is Some
                &&& is_signature(
                    activation.private_key->0,
                    channel.security_policy,
                    certificate_der(channel.remote_cert->0)->0 + channel.remote_nonce,
                    signature->Ok_0.signature.value->0@,
                )
            }
            &&& activation.private_key is None ==> {
                &&& signature is Err
                &&& signature->Err_0.status.bits == 0x8001_0000
                &&& signature->Err_0.message@ == "Cannot sign request, no private key provided"@
            }
            &&& activation.private_key is Some && channel.remote_cert is None ==> {
                &&& signature is Err
                &&& signature->Err_0.status.bits == 0x8001_0000
                &&& signature->Err_0.message@
                    == "Cannot sign request, missing server certificate"@
            }
            &&& activation.private_key is Some && channel.remote_cert is Some
                && channel.remote_nonce.len() == 0 ==> {
                &&& signature is Err
                &&& signature->Err_0.status.bits == 0x8001_0000
                &&& signature->Err_0.message@ == "Cannot sign request, empty remote nonce"@
            }
            &&& activation.private_key is Some && channel.remote_cert is Some
                && channel.remote_nonce.len() > 0 && channel.security_policy
                != SecurityPolicy::Unknown && certificate_der(channel.remote_cert->0)->0.len() > 0
                && signature is Err ==> is_signature(
                activation.private_key->0,
                channel.security_policy,
                certificate_der(channel.remote_cert->0)->0 + channel.remote_nonce,
                Seq::empty(),
            )
        },
{
}

/// With a sound key that is long enough, a server certificate and a server nonce, a
/// request comes about on a secured channel whenever the user's identity cannot fail, as
/// that of an anonymous user cannot where the endpoint has a policy for it.
pub proof fn law_sound_key_activates(
    activation: ActivateSessionView,
    size: usize,
    issued_token: Result<ByteString, Error>,
    channel: SecureChannelView,
    outcome: Result<ActivateSessionRequest, Error>,
)
    requires
        channel.security_policy != SecurityPolicy::Unknown,
        channel.security_policy != SecurityPolicy::Unsecured,
        channel.remote_cert is Some,
        certificate_der(channel.remote_cert->0)->0.len() > 0,
        channel.remote_nonce.len() > 0,
        activation.private_key is Some,
        private_key_size(activation.private_key->0) == Some(size),
        size >= match channel.security_policy {
            SecurityPolicy::Basic128Rsa15 => 46int,
            SecurityPolicy::Basic256 => 46int,
            SecurityPolicy::Aes256Sha256RsaPss => 66int,
            _ => 62int,
        },
        forall|any: SecurityPolicy, signed: Seq<u8>|
            size >= (match any {
                SecurityPolicy::Basic128Rsa15 => 46int,
                SecurityPolicy::Basic256 => 46int,
                SecurityPolicy::Aes256Sha256RsaPss => 66int,
                _ => 62int,
            }) ==> !(#[trigger] is_signature(activation.private_key->0, any, signed, Seq::empty())),
        activation.identity_token is Anonymous && activation.token_policy() is Ok || forall|
            error: Error,
        | !(#[trigger] activation.channel_identity(issued_token, channel, Err(error))),
        activation.request_outcome(issued_token, channel, outcome),
    ensures
        outcome is Ok,
        outcome->Ok_0.client_signature.signature.value is Some,
        outcome->Ok_0.client_signature.signature.value->0@.len() == size,
        is_signature(
            activation.private_key->0,
            channel.security_policy,
            certificate_der(channel.remote_cert->0)->0 + channel.remote_nonce,
            outcome->Ok_0.client_signature.signature.value->0@,
        ),
{
}

/// Where the identity has no policy at the endpoint, that is the error, whatever else is
/// missing. Where the identity cannot fail, what is missing for the client's signature is
/// the error.
pub proof fn law_identity_errors_come_first(
    activation: ActivateSessionView,
    issued_token: Result<ByteString, Error>,
    channel: SecureChannelView,
    outcome: Result<ActivateSessionRequest, Error>,
)
    requires
        activation.request_outcome(issued_token, channel, outcome),
    ensures
        activation.token_policy() matches Err(error) ==> outcome is Err && outcome->Err_0@ == error,
        activation.token_policy() is Ok && activation.identity_token is X509
            && channel.remote_cert is None ==> outcome is Err && outcome->Err_0.status.bits
            == 0x8012_0000,
        activation.token_policy() is Ok && activation.identity_token is IssuedToken
            && issued_token is Err ==> outcome is Err && outcome->Err_0@ == issued_token->Err_0@,
        activation.token_policy() is Ok && activation.identity_token is Anonymous
            && channel.security_policy != SecurityPolicy::Unsecured && activation.private_key is None
            ==> outcome is Err && outcome->Err_0.message@
            == "Cannot sign request, no private key provided"@,
{
}

/// A request fails for one of two reasons: the identity's, or that of the client's
/// signature.
pub proof fn law_request_fails_for_a_reason(
    activation: ActivateSessionView,
    issued_token: Result<ByteString, Error>,
    channel: SecureChannelView,
    error: Error,
)
    requires
        activation.request_outcome(issued_token, channel, Err(error)),
    ensures
        activation.channel_identity(issued_token, channel, Err(error))
            || activation.client_signature_outcome(channel, Err(error)),
{
}

/// An anonymous identity never fails where the endpoint has a policy for it, and an
/// identity that has none fails with the reason.
pub proof fn law_anonymous_identity_never_fails(
    activation: ActivateSessionView,
    issued_token: Result<ByteString, Error>,
    channel: SecureChannelView,
    identity: Identity,
)
    requires
        activation.channel_identity(issued_token, channel, identity),
    ensures
        activation.token_policy() matches Err(error) ==> identity is Err && identity->Err_0@
            == error,
        activation.identity_token is Anonymous && activation.token_policy() is Ok ==> {
            &&& identity is Ok
            &&& identity->Ok_0.0 is Anonymous
            &&& identity->Ok_0.1.signature.value is None
        },
{
}

} // verus!
