use std::time::Duration;

use opcua_session::error::BAD_UNKNOWN_RESPONSE;
use opcua_session::{
    ActivateSessionResponse, ApplicationDescription, ByteString, Cancel, CancelResponse,
    CloseSession, CloseSessionResponse, CreateSessionResponse, EndpointDescription, Error,
    Identifier, IdentityToken, MessageSecurityMode, Milliseconds, NodeId, ResponseHeader,
    ResponseMessage, SecureChannel, SecurityPolicy, Session, SessionInfo, SessionProgress,
    SignatureData, StatusCode, UAString, UserIdentityToken, UserTokenPolicy, UserTokenType,
};

fn number(value: u32) -> NodeId {
    NodeId { namespace: 0, identifier: Identifier::Numeric(value) }
}

fn numeric(id: &NodeId) -> u32 {
    match id.identifier {
        Identifier::Numeric(value) => value,
        _ => panic!("not a number"),
    }
}

fn session() -> Session {
    Session {
        session_id: number(0),
        internal_session_id: 7,
        channel: SecureChannel::new(
            SecurityPolicy::Unsecured,
            MessageSecurityMode::Unsecured,
            None,
            vec![],
            number(0),
        ),
        endpoint_info: SessionInfo {
            endpoint: EndpointDescription {
                endpoint_url: UAString::from("opc.tcp://server"),
                server: ApplicationDescription::default(),
                server_certificate: ByteString::null(),
                security_mode: MessageSecurityMode::Unsecured,
                security_policy_uri: UAString::null(),
                user_identity_tokens: Some(vec![UserTokenPolicy {
                    policy_id: UAString::from("anon"),
                    token_type: UserTokenType::Anonymous,
                    issued_token_type: UAString::null(),
                    issuer_endpoint_url: UAString::null(),
                    security_policy_uri: UAString::null(),
                }]),
                transport_profile_uri: UAString::null(),
                security_level: 0,
            },
            user_identity_token: IdentityToken::Anonymous,
            preferred_locales: vec!["en".to_string(), "de".to_string()],
        },
        application_description: ApplicationDescription::default(),
        session_name: UAString::from("mine"),
        session_timeout: Milliseconds { bits: 60.5f64.to_bits() },
        session_nonce_length: 48,
        own_certificate: None,
        own_private_key: None,
        request_timeout: Duration::from_secs(4),
        request_handle: 21,
    }
}

fn header(bits: u32) -> ResponseHeader {
    ResponseHeader { request_handle: 21, service_result: StatusCode { bits } }
}

fn created() -> CreateSessionResponse {
    CreateSessionResponse {
        response_header: header(0),
        session_id: number(100),
        authentication_token: number(200),
        revised_session_timeout: Milliseconds { bits: 0 },
        server_nonce: ByteString::from_bytes(&[1]),
        server_certificate: ByteString::null(),
        server_endpoints: None,
        server_software_certificates: None,
        server_signature: SignatureData::null(),
        max_request_message_size: 0,
    }
}

#[test]
fn created_token_goes_with_every_later_request() {
    let mut session = session();
    let (request, pending) = session.create_session();
    assert_eq!(numeric(&request.request_header.authentication_token), 0);
    assert_eq!(request.request_header.request_handle, 21);
    assert_eq!(request.endpoint_url.value.as_deref(), Some("opc.tcp://server"));
    assert_eq!(request.session_name.value.as_deref(), Some("mine"));
    assert_eq!(request.server_uri.value, None);
    assert_eq!(f64::from_bits(request.requested_session_timeout.bits), 60.5);
    assert_eq!(request.client_nonce.value.unwrap().len(), 48);

    let response = Ok(ResponseMessage::CreateSession(created()));
    let outcome = match pending.on_response(&mut session.channel, response) {
        Ok(SessionProgress::Created(response)) => Ok(response),
        Ok(SessionProgress::Validate(_)) => panic!("nothing to validate"),
        Err(error) => Err(error),
    };
    let id = session.session_created(outcome).unwrap();
    assert_eq!(numeric(&id), 100);
    assert_eq!(numeric(&session.session_id), 100);

    let token = |id: &NodeId| assert_eq!(numeric(id), 200);
    token(&session.create_session().0.request_header.authentication_token);
    token(&session.cancel(3).request_header.authentication_token);
    token(&session.close_session(true).request_header.authentication_token);

    assert!(!session.needs_issued_token());
    let request = session.activate_session(Ok(ByteString::null())).unwrap().unwrap();
    token(&request.request_header.authentication_token);
    assert_eq!(request.locale_ids.unwrap()[1].value.as_deref(), Some("de"));
    assert!(matches!(request.user_identity_token, UserIdentityToken::Anonymous { .. }));
    let response = Ok(ResponseMessage::ActivateSession(ActivateSessionResponse {
        response_header: header(0),
        server_nonce: ByteString::from_bytes(&[2]),
        results: None,
    }));
    assert!(session.session_activated(response).is_ok());
    assert_eq!(session.channel.remote_nonce_as_byte_string().value, Some(vec![2]));
    token(&session.cancel(3).request_header.authentication_token);
}

#[test]
fn failed_creation_leaves_the_session_id() {
    let mut session = session();
    let error = session.session_created(Err(Error::new(5, "lost"))).unwrap_err();
    assert_eq!(error.status.bits, 5);
    assert_eq!(numeric(&session.session_id), 0);
    let lost = Ok(ResponseMessage::ServiceFault(header(0x8026_0000)));
    assert_eq!(session.session_activated(lost).unwrap_err().status.bits, 0x8026_0000);
    assert_eq!(numeric(session.channel.auth_token()), 0);
}

#[test]
fn closing_deletes_subscriptions_unless_told_not_to() {
    let close = CloseSession::new_manual(7, Duration::from_secs(1), number(5), 11);
    assert_eq!(close.timeout(), Duration::from_secs(1));
    let request = close.clone().request();
    assert!(request.delete_subscriptions);
    assert_eq!(request.request_header.request_handle, 11);
    assert_eq!(numeric(&request.request_header.authentication_token), 5);
    assert!(!close.delete_subscriptions(false).request().delete_subscriptions);
    let session = session();
    assert!(CloseSession::new(&session).request().delete_subscriptions);
    assert!(!session.close_session(false).delete_subscriptions);
}

#[test]
fn close_answers_are_checked() {
    let close = |bits: u32| {
        Ok(ResponseMessage::CloseSession(CloseSessionResponse { response_header: header(bits) }))
    };
    assert!(Session::session_closed(close(0)).is_ok());
    assert!(CloseSession::on_response(close(0)).is_ok());
    assert_eq!(Session::session_closed(close(0x8025_0000)).unwrap_err().status.bits, 0x8025_0000);
    let other = Ok(ResponseMessage::Other);
    assert_eq!(Session::session_closed(other).unwrap_err().status.bits, BAD_UNKNOWN_RESPONSE);
}

#[test]
fn cancel_names_the_request_and_counts() {
    let cancel = Cancel::new_manual(33, 7, Duration::from_secs(2), number(5), 11);
    assert_eq!(cancel.timeout(), Duration::from_secs(2));
    let request = cancel.clone().request();
    assert_eq!(request.request_handle, 33);
    assert_eq!(request.request_header.request_handle, 11);
    let session = session();
    let request = Cancel::new(34, &session).request();
    assert_eq!(request.request_handle, 34);
    assert_eq!(request.request_header.request_handle, 21);
    assert_eq!(session.cancel(35).request_handle, 35);

    let answer = |bits: u32| {
        Ok(ResponseMessage::Cancel(CancelResponse {
            response_header: header(bits),
            cancel_count: 2,
        }))
    };
    assert_eq!(Session::cancelled(answer(0)).unwrap(), 2);
    assert_eq!(Cancel::on_response(answer(0)).unwrap().cancel_count, 2);
    assert_eq!(Session::cancelled(answer(0x8000_0000)).unwrap_err().status.bits, 0x8000_0000);
    let fault = Ok(ResponseMessage::ServiceFault(header(0)));
    assert_eq!(Session::cancelled(fault).unwrap_err().status.bits, 0);
    let wrong = Ok(ResponseMessage::CreateSession(created()));
    assert_eq!(Session::cancelled(wrong).unwrap_err().status.bits, BAD_UNKNOWN_RESPONSE);
}
