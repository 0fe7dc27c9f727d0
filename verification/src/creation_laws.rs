//! What creating a session comes to, from the fields of the session and of the
//! messages.

use vstd::prelude::*;

use crate::channel::{SecureChannelView, nonce_refusal};
use crate::create_session::{
    CertificateCheckView, CreateSessionView, PendingSessionView, session_stored,
};
use crate::crypto::{X509, certificate_der, signature_check};
use crate::error::{Error, ErrorView};
use crate::messages::{
    ActivateSessionResponse, CancelResponse, CloseSessionResponse, CreateSessionRequest,
    CreateSessionResponse, ResponseHeader, ResponseMessage, bad_result, unexpected_response,
};
use crate::security::SecurityPolicy;
use crate::session::Session;
use crate::types::{bytes_or_empty, chars_or_empty};
use crate::url::url_hostname;

verus! {

/// The header of a session's requests holds the token that the channel holds, the
/// session's next handle, its timeout and its number.
pub proof fn law_header_comes_from_the_session(session: Session)
    ensures
        session.header_view().header.authentication_token == session.channel@.auth_token,
        session.header_view().header.request_handle == session.request_handle,
        session.header_view().timeout == session.request_timeout,
        session.header_view().session_id == session.internal_session_id,
{
}

/// The request that creates a session says what the session says: its description, its
/// name, its timeout, the URL of its endpoint, its own certificate, and the nonce. It
/// names no server and sets no limit to the size of responses.
pub proof fn law_creation_request_says_what_the_session_says(
    session: Session,
    request: CreateSessionRequest,
)
    requires
        request@ == session.creation().request(request@.client_nonce),
    ensures
        request.request_header.authentication_token@ == session.channel@.auth_token,
        request.request_header.request_handle == session.request_handle,
        request.client_description@ == session.application_description@,
        request.server_uri.value is None,
        request.endpoint_url@ == session.endpoint_info.endpoint.endpoint_url@,
        request.session_name@ == session.session_name@,
        session.own_certificate is None ==> request.client_certificate.value is None,
        session.own_certificate matches Some(own) ==> request.client_certificate@
            == certificate_der(own@),
        request.requested_session_timeout == session.session_timeout,
        request.max_response_message_size == 0,
        session.creation().nonce_length == session.session_nonce_length,
{
}

/// The response to a session's request is held against what was sent: the policy of
/// the channel, the session's own certificate, its endpoint and the nonce.
pub proof fn law_creation_is_held_against_what_was_sent(
    session: Session,
    policy: SecurityPolicy,
    nonce: Option<Seq<u8>>,
)
    ensures
        session.creation().pending(policy, nonce).security_policy == policy,
        session.creation().pending(policy, nonce).client_nonce == nonce,
        session.creation().pending(policy, nonce).endpoint == session.endpoint_info.endpoint@,
        session.own_certificate is None ==> session.creation().pending(
            policy,
            nonce,
        ).client_certificate is None,
        session.own_certificate matches Some(own) ==> session.creation().pending(
            policy,
            nonce,
        ).client_certificate == Some(own@),
{
}

/// A session that holds its own certificate sends it, and once the server's certificate
/// is found valid, the session comes about if and only if the server signed that
/// certificate followed by the nonce that was sent.
pub proof fn law_own_certificate_is_sent_and_signed(
    session: Session,
    own: X509,
    request: CreateSessionRequest,
    check: CertificateCheckView,
)
    requires
        session.own_certificate == Some(own),
        certificate_der(own@) is Some,
        request@ == session.creation().request(request@.client_nonce),
        check.pending == session.creation().pending(
            session.channel@.security_policy,
            request@.client_nonce,
        ),
    ensures
        request.client_certificate@ == certificate_der(own@),
        check.refusal(Ok(())) is None <==> signature_check(
            bytes_or_empty(check.response.server_signature.signature@),
            session.channel@.security_policy,
            check.certificate,
            bytes_or_empty(request.client_certificate@) + bytes_or_empty(request.client_nonce@),
        ) is Ok,
{
}

/// A session request carries each thing that was set for it, and nothing else.
pub proof fn law_creation_request_carries_what_was_set(
    creation: CreateSessionView,
    request: CreateSessionRequest,
)
    requires
        request@ == creation.request(request@.client_nonce),
    ensures
        request.request_header@ == creation.header.header,
        request.client_description@ == creation.client_description,
        request.server_uri@ == creation.server_uri,
        request.endpoint_url@ == creation.endpoint_url,
        request.session_name@ == creation.session_name,
        creation.client_certificate is None ==> request.client_certificate.value is None,
        creation.client_certificate matches Some(own) ==> request.client_certificate@
            == certificate_der(own),
        request.requested_session_timeout == creation.session_timeout,
        request.max_response_message_size == creation.max_response_message_size,
{
}

/// Two requests that differ in their nonce alone are the same but for the nonce, and
/// what their responses are held against is the same but for the nonce and the policy.
pub proof fn law_nonce_changes_nothing_else(
    creation: CreateSessionView,
    first: Option<Seq<u8>>,
    second: Option<Seq<u8>>,
    policy: SecurityPolicy,
)
    ensures
        creation.request(first).client_nonce == first,
        creation.request(first).client_certificate == creation.request(second).client_certificate,
        creation.request(first).session_name == creation.request(second).session_name,
        creation.request(first).request_header == creation.request(second).request_header,
        creation.pending(policy, first).client_nonce == first,
        creation.pending(policy, first).security_policy == policy,
        creation.pending(policy, first).client_certificate == creation.client_certificate,
        creation.pending(policy, first).endpoint == creation.endpoint,
{
}

/// A good response of the right kind is taken as it is, by each of the services.
pub proof fn law_good_response_is_taken(
    create: CreateSessionResponse,
    activate: ActivateSessionResponse,
    close: CloseSessionResponse,
    cancel: CancelResponse,
)
    ensures
        create.response_header.service_result.bits < 0x8000_0000
            ==> CreateSessionResponse::accepted(Ok(ResponseMessage::CreateSession(create))) == Ok::<
            CreateSessionResponse,
            ErrorView,
        >(create),
        activate.response_header.service_result.bits < 0x8000_0000
            ==> ActivateSessionResponse::accepted(Ok(ResponseMessage::ActivateSession(activate)))
            == Ok::<ActivateSessionResponse, ErrorView>(activate),
        close.response_header.service_result.bits < 0x8000_0000
            ==> CloseSessionResponse::accepted(Ok(ResponseMessage::CloseSession(close))) == Ok::<
            CloseSessionResponse,
            ErrorView,
        >(close),
        cancel.response_header.service_result.bits < 0x8000_0000 ==> CancelResponse::accepted(
            Ok(ResponseMessage::Cancel(cancel)),
        ) == Ok::<CancelResponse, ErrorView>(cancel),
{
}

/// A response that never came fails each of the services with the error of the
/// transport.
pub proof fn law_lost_response_is_the_transports_error(error: Error)
    ensures
        CreateSessionResponse::accepted(Err(error)) == Err::<CreateSessionResponse, ErrorView>(
            error@,
        ),
        ActivateSessionResponse::accepted(Err(error)) == Err::<ActivateSessionResponse, ErrorView>(
            error@,
        ),
        CloseSessionResponse::accepted(Err(error)) == Err::<CloseSessionResponse, ErrorView>(
            error@,
        ),
        CancelResponse::accepted(Err(error)) == Err::<CancelResponse, ErrorView>(error@),
{
}

/// The words of a failed exchange: a bad result, a fault and a response to something
/// else are told apart.
pub proof fn law_failed_exchanges_are_told_apart(header: ResponseHeader)
    ensures
        bad_result(header).status == header.service_result,
        bad_result(header).message == "The server answered with a bad service result"@,
        unexpected_response(ResponseMessage::ServiceFault(header)).status
            == header.service_result,
        unexpected_response(ResponseMessage::ServiceFault(header)).message
            == "The server answered with a service fault"@,
        unexpected_response(ResponseMessage::Other).status.bits == 0x8009_0000,
        unexpected_response(ResponseMessage::Other).message
            == "Received an unexpected response to the request"@,
{
}

/// A response with another certificate than the endpoint's is refused for that, whatever
/// else is wrong with it.
pub proof fn law_other_certificate_is_refused(
    pending: PendingSessionView,
    answer: CreateSessionResponse,
)
    requires
        answer.server_certificate@ != pending.endpoint.server_certificate,
    ensures
        pending.refusal(answer) matches Some(error) && error.status.bits == 0x8012_0000
            && error.message
            == "Server certificate in CreateSession response does not match channel certificate"@,
{
}

/// A response that brings the endpoint's certificate is refused where those bytes hold
/// no certificate, and for lack of bytes where there are none.
pub proof fn law_broken_certificate_is_refused(
    pending: PendingSessionView,
    answer: CreateSessionResponse,
)
    requires
        answer.server_certificate@ == pending.endpoint.server_certificate,
        certificate_der(bytes_or_empty(answer.server_certificate@)) is None,
    ensures
        pending.refusal(answer) matches Some(error) && error.status.bits == 0x8012_0000
            && error.message == if bytes_or_empty(answer.server_certificate@).len() == 0 {
            "Cannot make certificate from null bytestring"@
        } else {
            "X509Error"@
        },
{
}

/// A response that brings the endpoint's certificate, as one that parses, goes on to
/// its validation if and only if the endpoint's URL has a host name. The refusal shows
/// the URL and the reason.
pub proof fn law_missing_host_is_refused(
    pending: PendingSessionView,
    answer: CreateSessionResponse,
)
    requires
        answer.server_certificate@ == pending.endpoint.server_certificate,
        certificate_der(bytes_or_empty(answer.server_certificate@)) is Some,
    ensures
        pending.refusal(answer) is None <==> url_hostname(
            chars_or_empty(pending.endpoint.endpoint_url),
        ) is Ok,
        url_hostname(chars_or_empty(pending.endpoint.endpoint_url)) matches Err(reason) ==> {
            &&& pending.refusal(answer)->0.status.bits == 0x8001_0000
            &&& pending.refusal(answer)->0.message
                == "Failed to extract hostname from endpoint URL ("@ + (
            match pending.endpoint.endpoint_url {
                Some(url) => url,
                None => "[null]"@,
            }) + "): "@ + reason
        },
{
}

/// A certificate that was found invalid fails the session with the verdict. A valid one
/// fails it where the client sent no certificate, and else if and only if the check of
/// the server's signature fails, with the error of that check.
pub proof fn law_verdict_decides(check: CertificateCheckView, verdict: Result<(), ErrorView>)
    ensures
        verdict matches Err(error) ==> check.refusal(verdict) == Some(error),
        verdict is Ok && check.pending.client_certificate is None ==> {
            &&& check.refusal(verdict) is Some
            &&& check.refusal(verdict)->0.status.bits == 0x8012_0000
            &&& check.refusal(verdict)->0.message == "Missing client certificate in request"@
        },
        verdict is Ok ==> (check.pending.client_certificate matches Some(own) ==> {
            let checked = signature_check(
                bytes_or_empty(check.response.server_signature.signature@),
                check.pending.security_policy,
                check.certificate,
                certificate_der(own)->0 + bytes_or_empty(check.pending.client_nonce),
            );
            &&& checked is Ok ==> check.refusal(verdict) is None
            &&& checked matches Err(error) ==> check.refusal(verdict) == Some(error)
        }),
{
}

/// A session that passed every check is stored: the channel then holds the server's
/// nonce, its certificate and the session's token, and keeps its policy and its mode.
/// Only a secured channel without a nonce from the server fails, and is left as it was.
pub proof fn law_session_is_stored(
    before: SecureChannelView,
    response: CreateSessionResponse,
    certificate: Option<Seq<u8>>,
    after: SecureChannelView,
    outcome: Result<CreateSessionResponse, Error>,
)
    requires
        session_stored(before, response, certificate, after, outcome),
    ensures
        outcome is Ok <==> response.server_nonce.value is Some || before.security_policy
            == SecurityPolicy::Unsecured,
        outcome is Ok ==> {
            &&& outcome->Ok_0 == response
            &&& after.auth_token == response.authentication_token@
            &&& after.remote_cert == certificate
            &&& after.security_policy == before.security_policy
            &&& after.security_mode == before.security_mode
            &&& response.server_nonce.value matches Some(nonce) ==> after.remote_nonce == nonce@
            &&& response.server_nonce.value is None ==> after.remote_nonce == before.remote_nonce
        },
        outcome is Err ==> {
            &&& after == before
            &&& outcome->Err_0.status.bits == 0x8024_0000
            &&& outcome->Err_0.message@ == "Remote nonce is invalid"@
        },
{
}

/// A channel takes a nonce as it is, and does without one only where it has no security.
/// Nothing but the nonce changes.
pub proof fn law_channel_takes_the_nonce(
    channel: SecureChannelView,
    nonce: Seq<u8>,
    later: Option<Seq<u8>>,
)
    ensures
        channel.takes_nonce(Some(nonce)),
        channel.takes_nonce(None) <==> channel.security_policy == SecurityPolicy::Unsecured,
        channel.with_nonce(Some(nonce)).remote_nonce == nonce,
        channel.with_nonce(None) == channel,
        channel.with_nonce(Some(nonce)).with_nonce(later).remote_nonce == match later {
            Some(bytes) => bytes,
            None => nonce,
        },
        channel.with_nonce(Some(nonce)) == (SecureChannelView { remote_nonce: nonce, ..channel }),
        nonce_refusal().status.bits == 0x8024_0000,
        nonce_refusal().message == "Remote nonce is invalid"@,
{
}

} // verus!
