//! What the values of the library's types stand for, down to their characters, bytes
//! and numbers.

use vstd::prelude::*;

use crate::activate_session::{key_view, present_texts};
use crate::crypto::{
    PrivateKey, SignatureData, X509, certificate_view, null_signature, result_view,
};
use crate::endpoint::{
    ApplicationDescription, ApplicationType, EndpointDescription, UserTokenPolicy, UserTokenType,
    blank_description, policy_views, text_views,
};
use crate::error::{
    BAD_CERTIFICATE_INVALID, BAD_NONCE_INVALID, BAD_SECURITY_CHECKS_FAILED,
    BAD_SECURITY_POLICY_REJECTED, BAD_UNEXPECTED_ERROR, BAD_UNKNOWN_RESPONSE, Error, ErrorView,
    StatusCode, error_view, outcome_is,
};
use crate::identity::{IdentityToken, IdentityTokenView};
use crate::messages::{
    ActivateSessionRequest, CreateSessionRequest, RequestHeader, SignedSoftwareCertificate,
    UserIdentityToken, UserIdentityTokenView, software_views,
};
use crate::request_builder::RequestHeaderBuilder;
use crate::types::{
    ByteString, Identifier, IdentifierView, LocalizedText, NodeId, UAString, bytes_or_empty,
    chars_or_empty, shown_text,
};

verus! {

/// A string stands for its characters. Null stands for none of them, is told apart from
/// the empty string, and is shown as `[null]`.
pub proof fn law_text_is_its_characters(text: UAString)
    ensures
        text.value is None <==> text@ is None,
        text.value is None ==> chars_or_empty(text@).len() == 0 && shown_text(text@) == "[null]"@,
        text.value matches Some(held) ==> {
            &&& text@ == Some(held@)
            &&& chars_or_empty(text@) == held@
            &&& shown_text(text@) == held@
        },
{
}

/// A byte string stands for its bytes. Null stands for none of them, and is told apart
/// from the empty byte string.
pub proof fn law_bytes_are_their_bytes(data: ByteString)
    ensures
        data.value is None <==> data@ is None,
        data.value is None ==> bytes_or_empty(data@).len() == 0,
        data.value matches Some(held) ==> data@ == Some(held@) && bytes_or_empty(data@) == held@,
{
}

/// Two node ids have one value if and only if they have one namespace and one
/// identifier, of one kind.
pub proof fn law_node_id_is_namespace_and_identifier(left: NodeId, right: NodeId)
    ensures
        left@ == right@ <==> left.namespace == right.namespace && match (
            left.identifier,
            right.identifier,
        ) {
            (Identifier::Numeric(a), Identifier::Numeric(b)) => a == b,
            (Identifier::String(a), Identifier::String(b)) => a@ == b@,
            (Identifier::Guid(a), Identifier::Guid(b)) => a@ == b@,
            (Identifier::ByteString(a), Identifier::ByteString(b)) => a@ == b@,
            _ => false,
        },
        left@.namespace == left.namespace,
        left.identifier matches Identifier::Numeric(number) ==> left@.identifier
            == IdentifierView::Numeric(number),
{
}

/// A localized text is its locale and its text.
pub proof fn law_localized_text_is_locale_and_text(text: LocalizedText)
    ensures
        text@.locale == text.locale@,
        text@.text == text.text@,
{
}

/// A list of strings stands for the strings in their order.
pub proof fn law_text_list_keeps_order(texts: Seq<UAString>, index: int)
    requires
        0 <= index < texts.len(),
    ensures
        text_views(texts).len() == texts.len(),
        text_views(texts)[index] == texts[index]@,
{
}

/// The locales that a user prefers stand in their order, and none of them is null.
pub proof fn law_locales_keep_order(locales: Seq<String>, index: int)
    requires
        0 <= index < locales.len(),
    ensures
        present_texts(locales).len() == locales.len(),
        present_texts(locales)[index] == Some(locales[index]@),
{
}

/// A list of user token policies stands for the policies in their order.
pub proof fn law_policy_list_keeps_order(policies: Seq<UserTokenPolicy>, index: int)
    requires
        0 <= index < policies.len(),
    ensures
        policy_views(policies).len() == policies.len(),
        policy_views(policies)[index] == policies[index]@,
{
}

/// A list of software certificates stands for the certificates in their order.
pub proof fn law_software_list_keeps_order(
    certificates: Seq<SignedSoftwareCertificate>,
    index: int,
)
    requires
        0 <= index < certificates.len(),
    ensures
        software_views(certificates).len() == certificates.len(),
        software_views(certificates)[index] == certificates[index]@,
        certificates[index]@.certificate_data == certificates[index].certificate_data@,
        certificates[index]@.signature == certificates[index].signature@,
{
}

/// The empty lists stand for no elements.
pub proof fn law_empty_lists_have_no_elements()
    ensures
        text_views(seq![]).len() == 0,
        present_texts(seq![]).len() == 0,
        policy_views(seq![]).len() == 0,
        software_views(seq![]).len() == 0,
{
}

/// A description is what its fields say, its list of URLs null or not.
pub proof fn law_description_is_its_fields(description: ApplicationDescription)
    ensures
        description@.application_uri == description.application_uri@,
        description@.product_uri == description.product_uri@,
        description@.application_name == description.application_name@,
        description@.application_type == description.application_type,
        description@.gateway_server_uri == description.gateway_server_uri@,
        description@.discovery_profile_uri == description.discovery_profile_uri@,
        description.discovery_urls is None <==> description@.discovery_urls is None,
        description.discovery_urls matches Some(urls) ==> description@.discovery_urls == Some(
            text_views(urls@),
        ),
{
}

/// The blank description says nothing.
pub proof fn law_blank_description_says_nothing()
    ensures
        blank_description().application_uri is None,
        blank_description().product_uri is None,
        blank_description().application_name.locale is None,
        blank_description().application_name.text is None,
        blank_description().application_type == ApplicationType::Server,
        blank_description().gateway_server_uri is None,
        blank_description().discovery_profile_uri is None,
        blank_description().discovery_urls is None,
{
}

/// A user token policy is what its fields say.
pub proof fn law_token_policy_is_its_fields(policy: UserTokenPolicy)
    ensures
        policy@.policy_id == policy.policy_id@,
        policy@.token_type == policy.token_type,
        policy@.issued_token_type == policy.issued_token_type@,
        policy@.issuer_endpoint_url == policy.issuer_endpoint_url@,
        policy@.security_policy_uri == policy.security_policy_uri@,
{
}

/// An endpoint is what its fields say, its list of policies null or not.
pub proof fn law_endpoint_is_its_fields(endpoint: EndpointDescription)
    ensures
        endpoint@.endpoint_url == endpoint.endpoint_url@,
        endpoint@.server == endpoint.server@,
        endpoint@.server_certificate == endpoint.server_certificate@,
        endpoint@.security_mode == endpoint.security_mode,
        endpoint@.security_policy_uri == endpoint.security_policy_uri@,
        endpoint.user_identity_tokens is None <==> endpoint@.user_identity_tokens is None,
        endpoint.user_identity_tokens matches Some(policies)
            ==> endpoint@.user_identity_tokens == Some(policy_views(policies@)),
        endpoint@.transport_profile_uri == endpoint.transport_profile_uri@,
        endpoint@.security_level == endpoint.security_level,
{
}

/// Each type of user token has its own name.
pub proof fn law_token_types_have_names()
    ensures
        UserTokenType::Anonymous.spec_name() == "Anonymous"@,
        UserTokenType::UserName.spec_name() == "UserName"@,
        UserTokenType::Certificate.spec_name() == "Certificate"@,
        UserTokenType::IssuedToken.spec_name() == "IssuedToken"@,
{
}

/// An identity is its kind with its values: the name and the password, or the
/// certificate and the key.
pub proof fn law_identity_is_its_kind_and_values(identity: IdentityToken)
    ensures
        match identity {
            IdentityToken::Anonymous => identity@ is Anonymous,
            IdentityToken::UserName(user, password) => identity@ == IdentityTokenView::UserName(
                user@,
                password.0@,
            ),
            IdentityToken::X509(certificate, key) => identity@ == IdentityTokenView::X509(
                certificate@,
                key@,
            ),
            IdentityToken::IssuedToken => identity@ is IssuedToken,
        },
        identity@.token_type() == match identity {
            IdentityToken::Anonymous => UserTokenType::Anonymous,
            IdentityToken::UserName(_, _) => UserTokenType::UserName,
            IdentityToken::X509(_, _) => UserTokenType::Certificate,
            IdentityToken::IssuedToken => UserTokenType::IssuedToken,
        },
{
}

/// A header carries a token and a handle, and its builder a timeout and a session
/// number besides.
pub proof fn law_header_is_its_fields(header: RequestHeader, builder: RequestHeaderBuilder)
    ensures
        header@.authentication_token == header.authentication_token@,
        header@.request_handle == header.request_handle,
        builder@.header == builder.header@,
        builder@.timeout == builder.timeout,
        builder@.session_id == builder.session_id,
{
}

/// A session request is what its fields say.
pub proof fn law_create_request_is_its_fields(request: CreateSessionRequest)
    ensures
        request@.request_header == request.request_header@,
        request@.client_description == request.client_description@,
        request@.server_uri == request.server_uri@,
        request@.endpoint_url == request.endpoint_url@,
        request@.session_name == request.session_name@,
        request@.client_nonce == request.client_nonce@,
        request@.client_certificate == request.client_certificate@,
        request@.requested_session_timeout == request.requested_session_timeout,
        request@.max_response_message_size == request.max_response_message_size,
{
}

/// A user token is its kind with its values.
pub proof fn law_user_token_is_its_kind_and_values(token: UserIdentityToken)
    ensures
        match token {
            UserIdentityToken::Anonymous { policy_id } => token@
                == (UserIdentityTokenView::Anonymous { policy_id: policy_id@ }),
            UserIdentityToken::UserName {
                policy_id,
                user_name,
                password,
                encryption_algorithm,
            } => token@ == (UserIdentityTokenView::UserName {
                policy_id: policy_id@,
                user_name: user_name@,
                password: password@,
                encryption_algorithm: encryption_algorithm@,
            }),
            UserIdentityToken::X509 { policy_id, certificate_data } => token@
                == (UserIdentityTokenView::X509 {
                policy_id: policy_id@,
                certificate_data: certificate_data@,
            }),
            UserIdentityToken::Issued { policy_id, token_data, encryption_algorithm } => token@
                == (UserIdentityTokenView::Issued {
                policy_id: policy_id@,
                token_data: token_data@,
                encryption_algorithm: encryption_algorithm@,
            }),
        },
{
}

/// A request to activate a session is what its fields say, its lists null or not.
pub proof fn law_activate_request_is_its_fields(request: ActivateSessionRequest)
    ensures
        request@.request_header == request.request_header@,
        request@.client_signature == request.client_signature@,
        request.client_software_certificates is None
            <==> request@.client_software_certificates is None,
        request.client_software_certificates matches Some(certificates)
            ==> request@.client_software_certificates == Some(software_views(certificates@)),
        request.locale_ids is None <==> request@.locale_ids is None,
        request.locale_ids matches Some(locales) ==> request@.locale_ids == Some(
            text_views(locales@),
        ),
        request@.user_identity_token == request.user_identity_token@,
        request@.user_token_signature == request.user_token_signature@,
{
}

/// A signature is its algorithm and its bytes, and the null signature has neither.
pub proof fn law_signature_is_algorithm_and_bytes(data: SignatureData)
    ensures
        data@.algorithm == data.algorithm@,
        data@.signature == data.signature@,
        data@ == null_signature() <==> data.algorithm.value is None
            && data.signature.value is None,
{
}

/// An optional certificate or key is there if and only if its bytes are, and a check
/// passed if and only if it gave no error.
pub proof fn law_optional_values_are_kept(
    certificate: Option<X509>,
    key: Option<PrivateKey>,
    result: Result<(), Error>,
)
    ensures
        certificate_view(certificate) is None <==> certificate is None,
        certificate matches Some(held) ==> certificate_view(certificate) == Some(held@),
        key_view(key) is None <==> key is None,
        key matches Some(held) ==> key_view(key) == Some(held@),
        result_view(result) is Ok <==> result is Ok,
        result matches Err(error) ==> result_view(result) == Err::<(), ErrorView>(error@),
{
}

/// An error is its status code and its explanation.
pub proof fn law_error_is_status_and_message(error: Error, bits: u32, message: Seq<char>)
    ensures
        error@.status.bits == error.status.bits,
        error@.message == error.message@,
        error@ == error_view(bits, message) <==> error.status.bits == bits && error.message@
            == message,
{
}

/// An outcome that is to be a value is that very value, and one that is to be an error
/// has its status code and its explanation.
pub proof fn law_outcome_is_what_is_expected<T>(
    outcome: Result<T, Error>,
    expected: Result<T, ErrorView>,
)
    requires
        outcome_is(outcome, expected),
    ensures
        outcome is Ok <==> expected is Ok,
        expected matches Ok(value) ==> outcome->Ok_0 == value,
        expected matches Err(error) ==> outcome->Err_0.status == error.status
            && outcome->Err_0.message@ == error.message,
{
}

/// The status codes have the numbers that go over the wire, and a code is bad if and
/// only if its highest bit is set.
pub proof fn law_status_codes_have_their_numbers(code: StatusCode)
    ensures
        BAD_UNEXPECTED_ERROR == 0x8001_0000,
        BAD_UNKNOWN_RESPONSE == 0x8009_0000,
        BAD_CERTIFICATE_INVALID == 0x8012_0000,
        BAD_SECURITY_CHECKS_FAILED == 0x8013_0000,
        BAD_NONCE_INVALID == 0x8024_0000,
        BAD_SECURITY_POLICY_REJECTED == 0x8055_0000,
        code.bad() <==> code.bits >= 0x8000_0000,
{
}

} // verus!
