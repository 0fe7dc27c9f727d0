use std::time::Duration;

use opcua_session::crypto::{create_signature_data, verify_signature_data};
use opcua_session::error::{
    BAD_CERTIFICATE_INVALID, BAD_NONCE_INVALID, BAD_SECURITY_CHECKS_FAILED, BAD_UNEXPECTED_ERROR,
    BAD_UNKNOWN_RESPONSE,
};
use opcua_session::{
    ApplicationDescription, ApplicationType, ByteString, CancelResponse, CertificateCheck,
    CreateSession, CreateSessionResponse, EndpointDescription, Error, Identifier, LocalizedText,
    MessageSecurityMode, Milliseconds, NodeId, PendingSession, PrivateKey, ResponseHeader,
    ResponseMessage, SecureChannel, SecurityPolicy, SessionProgress, SignatureData, StatusCode,
    UAString, X509,
};

fn number(value: u32) -> NodeId {
    NodeId { namespace: 0, identifier: Identifier::Numeric(value) }
}

fn numeric(id: &NodeId) -> u32 {
    match id.identifier {
        Identifier::Numeric(value) => value,
        _ => panic!("not a number"),
    }
}

fn endpoint(url: Option<&str>, certificate: ByteString) -> EndpointDescription {
    let mut server = ApplicationDescription::default();
    server.application_uri = UAString::from("urn:server");
    EndpointDescription {
        endpoint_url: UAString { value: url.map(String::from) },
        server,
        server_certificate: certificate,
        security_mode: MessageSecurityMode::SignAndEncrypt,
        security_policy_uri: UAString::null(),
        user_identity_tokens: None,
        transport_profile_uri: UAString::null(),
        security_level: 0,
    }
}

fn plain_endpoint() -> EndpointDescription {
    endpoint(Some("opc.tcp://server.example:4840/path"), ByteString::null())
}

fn channel(policy: SecurityPolicy) -> SecureChannel {
    SecureChannel::new(
        policy,
        MessageSecurityMode::SignAndEncrypt,
        None,
        vec![9, 9],
        number(1),
    )
}

fn assert_unchanged(channel: &SecureChannel) {
    assert_eq!(numeric(channel.auth_token()), 1);
    assert_eq!(channel.remote_nonce_as_byte_string().value, Some(vec![9, 9]));
    assert!(channel.remote_cert().is_none());
}

fn manual(endpoint: &EndpointDescription) -> CreateSession<'_> {
    CreateSession::new_manual(endpoint, 7, Duration::from_secs(3), number(5), 11)
}

fn response(certificate: ByteString) -> CreateSessionResponse {
    CreateSessionResponse {
        response_header: ResponseHeader {
            request_handle: 11,
            service_result: StatusCode { bits: 0 },
        },
        session_id: number(100),
        authentication_token: number(200),
        revised_session_timeout: Milliseconds { bits: 5.0f64.to_bits() },
        server_nonce: ByteString { value: Some(vec![1, 2, 3]) },
        server_certificate: certificate,
        server_endpoints: None,
        server_software_certificates: None,
        server_signature: SignatureData::null(),
        max_request_message_size: 0,
    }
}

fn answer(response: CreateSessionResponse) -> Result<ResponseMessage, Error> {
    Ok(ResponseMessage::CreateSession(response))
}

fn cert_and_key(bits: u32) -> (Vec<u8>, opcua_crypto::PrivateKey) {
    let data = opcua_crypto::X509Data {
        key_size: bits,
        common_name: "test".to_string(),
        organization: "test".to_string(),
        organizational_unit: "test".to_string(),
        country: "IE".to_string(),
        state: "test".to_string(),
        alt_host_names: vec!["urn:test".to_string(), "server.example".to_string()].into(),
        certificate_duration_days: 60,
    };
    let (certificate, key) = opcua_crypto::X509::cert_and_pkey(&data).unwrap();
    (certificate.to_der().unwrap(), key)
}

fn x509(der: &[u8]) -> X509 {
    X509::from_byte_string(&ByteString::from_bytes(der)).unwrap()
}

fn failure<T>(result: Result<T, Error>) -> Error {
    match result {
        Ok(_) => panic!("expected an error"),
        Err(error) => error,
    }
}

fn validate(progress: Result<SessionProgress, Error>) -> CertificateCheck {
    match progress {
        Ok(SessionProgress::Validate(check)) => check,
        Ok(SessionProgress::Created(_)) => panic!("the certificate was not validated"),
        Err(error) => panic!("{}", error.message),
    }
}

#[test]
fn blank_request_has_only_a_nonce() {
    let endpoint = plain_endpoint();
    let create = manual(&endpoint);
    assert_eq!(create.timeout(), Duration::from_secs(3));
    assert_eq!(create.nonce_size(), 32);
    let (request, _) = create.start(&channel(SecurityPolicy::Unsecured));
    assert_eq!(numeric(&request.request_header.authentication_token), 5);
    assert_eq!(request.request_header.request_handle, 11);
    assert_eq!(request.client_description.application_uri.value, None);
    assert_eq!(request.client_description.application_type, ApplicationType::Server);
    assert_eq!(request.server_uri.value, None);
    assert_eq!(request.endpoint_url.value, None);
    assert_eq!(request.session_name.value, None);
    assert_eq!(request.client_nonce.value.unwrap().len(), 32);
    assert_eq!(request.client_certificate.value, None);
    assert_eq!(request.requested_session_timeout, Milliseconds { bits: 0.0f64.to_bits() });
    assert_eq!(request.max_response_message_size, 0);
}

#[test]
fn setters_reach_the_request() {
    let endpoint = plain_endpoint();
    let (der, _) = cert_and_key(1024);
    let description = ApplicationDescription {
        application_uri: UAString::from("urn:client"),
        product_uri: UAString::null(),
        application_name: LocalizedText { locale: UAString::null(), text: UAString::from("me") },
        application_type: ApplicationType::Client,
        gateway_server_uri: UAString::null(),
        discovery_profile_uri: UAString::null(),
        discovery_urls: Some(vec![UAString::from("opc.tcp://d")]),
    };
    let create = manual(&endpoint)
        .client_description(description)
        .server_uri("urn:server")
        .endpoint_url(String::from("opc.tcp://server"))
        .session_name(UAString::from("mine"))
        .client_certificate(x509(&der))
        .session_timeout(Milliseconds { bits: 1000.0f64.to_bits() })
        .max_response_message_size(4096)
        .nonce_length(16);
    let (request, _) = create.clone().start(&channel(SecurityPolicy::Unsecured));
    assert_eq!(request.client_description.application_uri.value.as_deref(), Some("urn:client"));
    assert_eq!(request.client_description.application_name.text.value.as_deref(), Some("me"));
    assert_eq!(request.client_description.discovery_urls.unwrap().len(), 1);
    assert_eq!(request.server_uri.value.as_deref(), Some("urn:server"));
    assert_eq!(request.endpoint_url.value.as_deref(), Some("opc.tcp://server"));
    assert_eq!(request.session_name.value.as_deref(), Some("mine"));
    assert_eq!(request.client_certificate.value, Some(der));
    assert_eq!(f64::from_bits(request.requested_session_timeout.bits), 1000.0);
    assert_eq!(request.max_response_message_size, 4096);
    assert_eq!(request.client_nonce.value.unwrap().len(), 16);
    let (last, _) = create.session_name("later").start(&channel(SecurityPolicy::Unsecured));
    assert_eq!(last.session_name.value.as_deref(), Some("later"));
    assert_eq!(last.server_uri.value.as_deref(), Some("urn:server"));
}

#[test]
fn nonces_are_drawn_anew() {
    let endpoint = plain_endpoint();
    let channel = channel(SecurityPolicy::Unsecured);
    let (first, _) = manual(&endpoint).start(&channel);
    let (second, _) = manual(&endpoint).start(&channel);
    assert_ne!(first.client_nonce.value, second.client_nonce.value);
    let (empty, _) = manual(&endpoint).nonce_length(0).start(&channel);
    assert_eq!(empty.client_nonce.value, Some(vec![]));
}

#[test]
fn store_gives_the_certificate_or_none() {
    let endpoint = plain_endpoint();
    let channel = channel(SecurityPolicy::Unsecured);
    let (der, _) = cert_and_key(1024);
    let create = manual(&endpoint).client_cert_from_store(Ok(x509(&der)));
    let (request, _) = create.clone().start(&channel);
    assert_eq!(request.client_certificate.value, Some(der));
    let failed = create.client_cert_from_store(Err(Error::new(BAD_UNEXPECTED_ERROR, "no file")));
    let (request, _) = failed.start(&channel);
    assert_eq!(request.client_certificate.value, None);
}

fn pending(endpoint: &EndpointDescription, policy: SecurityPolicy) -> PendingSession {
    manual(endpoint).start(&channel(policy)).1
}

#[test]
fn unsecured_session_is_created_at_once() {
    let mut channel = channel(SecurityPolicy::Unsecured);
    let endpoint = plain_endpoint();
    let pending = pending(&endpoint, SecurityPolicy::Unsecured);
    let response = response(ByteString::from_bytes(&[1]));
    match pending.on_response(&mut channel, answer(response)) {
        Ok(SessionProgress::Created(created)) => assert_eq!(numeric(&created.session_id), 100),
        _ => panic!("no session"),
    }
    assert_eq!(numeric(channel.auth_token()), 200);
    assert_eq!(channel.remote_nonce_as_byte_string().value, Some(vec![1, 2, 3]));
    assert!(channel.remote_cert().is_none());
}

#[test]
fn unsecured_session_keeps_the_nonce_when_none_comes() {
    let mut channel = channel(SecurityPolicy::Unsecured);
    let endpoint = plain_endpoint();
    let pending = pending(&endpoint, SecurityPolicy::Unsecured);
    let mut response = response(ByteString::null());
    response.server_nonce = ByteString::null();
    assert!(pending.on_response(&mut channel, answer(response)).is_ok());
    assert_eq!(numeric(channel.auth_token()), 200);
    assert_eq!(channel.remote_nonce_as_byte_string().value, Some(vec![9, 9]));
}

#[test]
fn refused_creation_keeps_the_status_and_the_channel() {
    let endpoint = plain_endpoint();
    let mut channel = channel(SecurityPolicy::Unsecured);
    let header = ResponseHeader { request_handle: 11, service_result: StatusCode { bits: 0x8025_0000 } };

    let fault = Ok(ResponseMessage::ServiceFault(header));
    let error = failure(
        pending(&endpoint, SecurityPolicy::Unsecured).on_response(&mut channel, fault),
    );
    assert_eq!(error.status.bits, 0x8025_0000);

    let mut bad = response(ByteString::null());
    bad.response_header = header;
    let error = failure(
        pending(&endpoint, SecurityPolicy::Unsecured).on_response(&mut channel, answer(bad)),
    );
    assert_eq!(error.status.bits, 0x8025_0000);

    let good = ResponseHeader { request_handle: 11, service_result: StatusCode { bits: 0 } };
    let other = Ok(ResponseMessage::Cancel(CancelResponse { response_header: good, cancel_count: 1 }));
    let error = failure(
        pending(&endpoint, SecurityPolicy::Unsecured).on_response(&mut channel, other),
    );
    assert_eq!(error.status.bits, BAD_UNKNOWN_RESPONSE);

    let lost = Err(Error::new(0x800A_0000, "timed out"));
    let error = failure(
        pending(&endpoint, SecurityPolicy::Unsecured).on_response(&mut channel, lost),
    );
    assert_eq!(error.status.bits, 0x800A_0000);
    assert_eq!(error.message, "timed out");
    assert_unchanged(&channel);
}

#[test]
fn uncertain_result_is_no_refusal() {
    let endpoint = plain_endpoint();
    let mut channel = channel(SecurityPolicy::Unsecured);
    let mut uncertain = response(ByteString::null());
    uncertain.response_header.service_result = StatusCode { bits: 0x4000_0000 };
    let pending = pending(&endpoint, SecurityPolicy::Unsecured);
    assert!(pending.on_response(&mut channel, answer(uncertain)).is_ok());
}

#[test]
fn other_certificate_than_the_endpoints_is_refused() {
    let endpoint = endpoint(Some("opc.tcp://h"), ByteString::from_bytes(&[1, 2]));
    for policy in [SecurityPolicy::Basic256Sha256, SecurityPolicy::Unknown] {
        let mut channel = channel(policy);
        for certificate in [
            ByteString::from_bytes(&[1, 3]),
            ByteString::from_bytes(&[1, 2, 3]),
            ByteString::null(),
        ] {
            let pending = pending(&endpoint, policy);
            let error = failure(pending.on_response(&mut channel, answer(response(certificate))));
            assert_eq!(error.status.bits, BAD_CERTIFICATE_INVALID);
            assert_eq!(
                error.message,
                "Server certificate in CreateSession response does not match channel certificate"
            );
        }
        assert_unchanged(&channel);
    }
}

#[test]
fn certificate_must_parse() {
    for (certificate, message) in [
        (ByteString::from_bytes(&[1, 2]), "X509Error"),
        (ByteString::from_bytes(&[]), "Cannot make certificate from null bytestring"),
        (ByteString::null(), "Cannot make certificate from null bytestring"),
    ] {
        let mut channel = channel(SecurityPolicy::Basic256Sha256);
        let endpoint = endpoint(Some("opc.tcp://h"), certificate.clone());
        let pending = pending(&endpoint, SecurityPolicy::Basic256Sha256);
        let error = failure(pending.on_response(&mut channel, answer(response(certificate))));
        assert_eq!(error.status.bits, BAD_CERTIFICATE_INVALID);
        assert_eq!(error.message, message);
        assert_unchanged(&channel);
    }
}

#[test]
fn endpoint_url_must_have_a_host() {
    let (der, _) = cert_and_key(1024);
    for (url, message) in [
        (
            None,
            "Failed to extract hostname from endpoint URL ([null]): Failed to parse URL: relative URL without a base",
        ),
        (
            Some("urn:server"),
            "Failed to extract hostname from endpoint URL (urn:server): URL missing host",
        ),
    ] {
        let mut channel = channel(SecurityPolicy::Basic256Sha256);
        let endpoint = endpoint(url, ByteString::from_bytes(&der));
        let pending = pending(&endpoint, SecurityPolicy::Basic256Sha256);
        let error = failure(
            pending.on_response(&mut channel, answer(response(ByteString::from_bytes(&der)))),
        );
        assert_eq!(error.status.bits, BAD_UNEXPECTED_ERROR);
        assert_eq!(error.message, message);
        assert_unchanged(&channel);
    }
}

#[test]
fn given_hostname_is_what_is_validated() {
    let (der, _) = cert_and_key(1024);
    let endpoint = endpoint(None, ByteString::from_bytes(&der));
    let pending_session = pending(&endpoint, SecurityPolicy::Basic256);
    let made = pending_session.begin_validation(
        response(ByteString::from_bytes(&der)),
        x509(&der),
        Ok(String::from("given")),
    );
    match made {
        Ok(check) => assert_eq!(check.hostname(), "given"),
        Err(error) => panic!("{}", error.message),
    }
    let pending_session = pending(&endpoint, SecurityPolicy::Basic256);
    let error = failure(pending_session.begin_validation(
        response(ByteString::from_bytes(&der)),
        x509(&der),
        Err(String::from("why")),
    ));
    assert_eq!(error.message, "Failed to extract hostname from endpoint URL ([null]): why");
}

/// A secured exchange up to the validation: the client's certificate, the nonce that
/// was sent, and the check.
fn secured_exchange(
    policy: SecurityPolicy,
    server: &(Vec<u8>, opcua_crypto::PrivateKey),
    client: Option<&[u8]>,
    signed_nonce: Option<&[u8]>,
    channel: &mut SecureChannel,
) -> CertificateCheck {
    let endpoint = endpoint(
        Some("opc.tcp://server.example:4840/path"),
        ByteString::from_bytes(&server.0),
    );
    let mut create = manual(&endpoint);
    if let Some(der) = client {
        create = create.client_certificate(x509(der));
    }
    let (request, pending) = create.start(channel);
    let mut response = response(ByteString::from_bytes(&server.0));
    let nonce = signed_nonce.map_or(request.client_nonce.to_bytes(), |nonce| nonce.to_vec());
    let signature = opcua_crypto::create_signature_data(
        &server.1,
        opcua_crypto::SecurityPolicy::from_uri(policy.uri()),
        &opcua_types::ByteString::from(client.unwrap_or(&[1]).to_vec()),
        &opcua_types::ByteString::from(nonce),
    )
    .unwrap();
    response.server_signature = SignatureData {
        algorithm: UAString::null(),
        signature: ByteString { value: signature.signature.value },
    };
    validate(pending.on_response(channel, answer(response)))
}

#[test]
fn secured_session_is_created_when_every_check_passes() {
    let server = cert_and_key(1024);
    let (client, _) = cert_and_key(1024);
    for policy in [
        SecurityPolicy::Basic256Sha256,
        SecurityPolicy::Basic128Rsa15,
        SecurityPolicy::Basic256,
        SecurityPolicy::Aes128Sha256RsaOaep,
        SecurityPolicy::Aes256Sha256RsaPss,
    ] {
        let mut channel = channel(policy);
        let check = secured_exchange(policy, &server, Some(&client), None, &mut channel);
        assert_eq!(check.hostname(), "server.example");
        assert_eq!(check.application_uri(), "urn:server");
        assert_eq!(check.security_policy(), policy);
        assert!(check.has_client_certificate());
        assert_eq!(check.certificate().as_byte_string().value.as_ref(), Some(&server.0));
        assert_unchanged(&channel);
        let created = match check.on_verdict(&mut channel, Ok(())) {
            Ok(created) => created,
            Err(error) => panic!("{}", error.message),
        };
        assert_eq!(numeric(&created.session_id), 100);
        assert_eq!(numeric(channel.auth_token()), 200);
        assert_eq!(channel.remote_nonce_as_byte_string().value, Some(vec![1, 2, 3]));
        match channel.remote_cert() {
            Some(held) => assert_eq!(held.as_byte_string().value.as_ref(), Some(&server.0)),
            None => panic!("no certificate"),
        }
    }
}

#[test]
fn rejected_certificate_gives_the_verdict() {
    let server = cert_and_key(1024);
    let policy = SecurityPolicy::Basic256Sha256;
    let mut channel = channel(policy);
    let check = secured_exchange(policy, &server, None, None, &mut channel);
    let verdict = Err(Error::new(0x801A_0000, "untrusted"));
    let error = failure(check.on_verdict(&mut channel, verdict));
    assert_eq!(error.status.bits, 0x801A_0000);
    assert_eq!(error.message, "untrusted");
    assert_unchanged(&channel);
}

#[test]
fn secured_session_needs_a_client_certificate() {
    let server = cert_and_key(1024);
    let policy = SecurityPolicy::Basic256Sha256;
    let mut channel = channel(policy);
    let check = secured_exchange(policy, &server, None, None, &mut channel);
    let error = failure(check.on_verdict(&mut channel, Ok(())));
    assert_eq!(error.status.bits, BAD_CERTIFICATE_INVALID);
    assert_eq!(error.message, "Missing client certificate in request");
    assert_unchanged(&channel);
}

#[test]
fn server_must_sign_the_nonce_of_the_request() {
    let server = cert_and_key(1024);
    let (client, _) = cert_and_key(1024);
    let policy = SecurityPolicy::Basic256Sha256;
    let mut channel = channel(policy);
    let check = secured_exchange(policy, &server, Some(&client), Some(&[4, 4]), &mut channel);
    let error = failure(check.on_verdict(&mut channel, Ok(())));
    assert_eq!(error.status.bits, BAD_SECURITY_CHECKS_FAILED);
    assert_eq!(error.message, "Signature mismatch");
    assert_unchanged(&channel);
}

#[test]
fn secured_session_needs_a_server_nonce() {
    let server = cert_and_key(1024);
    let policy = SecurityPolicy::Basic256Sha256;
    let mut channel = channel(policy);
    let endpoint = endpoint(Some("opc.tcp://h"), ByteString::from_bytes(&server.0));
    let mut bare = response(ByteString::from_bytes(&server.0));
    bare.server_nonce = ByteString::null();
    let check = validate(pending(&endpoint, policy).on_response(&mut channel, answer(bare)));
    let error = failure(check.conclude(&mut channel, Ok(())));
    assert_eq!(error.status.bits, BAD_NONCE_INVALID);
    assert_eq!(error.message, "Remote nonce is invalid");
    assert_unchanged(&channel);
}

#[test]
fn failed_signature_check_is_the_error() {
    let server = cert_and_key(1024);
    let policy = SecurityPolicy::Basic256Sha256;
    let mut channel = channel(policy);
    let check = secured_exchange(policy, &server, None, None, &mut channel);
    let error = failure(check.conclude(&mut channel, Err(Error::new(1, "why"))));
    assert_eq!(error.message, "why");
    assert_unchanged(&channel);
}

#[test]
fn signatures_verify() {
    let (der, key) = cert_and_key(1024);
    let pem = key.to_der().unwrap().to_pem("PRIVATE KEY", rsa::pkcs8::LineEnding::LF).unwrap();
    let key = PrivateKey::from_pem(pem.as_bytes()).unwrap();
    let contained = ByteString::from_bytes(&der);
    let nonce = ByteString::from_bytes(&[1, 2, 3]);
    let policy = SecurityPolicy::Basic256Sha256;
    let data = create_signature_data(&key, policy, &contained, &nonce).unwrap();
    assert_eq!(
        data.algorithm.value.as_deref(),
        Some("http://www.w3.org/2001/04/xmldsig-more#rsa-sha256")
    );
    assert_eq!(data.signature.value.as_ref().unwrap().len(), 128);
    let certificate = x509(&der);
    assert!(verify_signature_data(&data, policy, &certificate, &certificate, &nonce).is_ok());
    let other = ByteString::from_bytes(&[1, 2]);
    assert!(verify_signature_data(&data, policy, &certificate, &certificate, &other).is_err());
}

#[test]
fn signing_is_refused_without_something_to_sign() {
    let (der, key) = cert_and_key(1024);
    let pem = key.to_der().unwrap().to_pem("PRIVATE KEY", rsa::pkcs8::LineEnding::LF).unwrap();
    let key = PrivateKey::from_pem(pem.as_bytes()).unwrap();
    let contained = ByteString::from_bytes(&der);
    let nonce = ByteString::from_bytes(&[1]);
    let null = ByteString::null();
    let policy = SecurityPolicy::Basic256;
    let unknown = create_signature_data(&key, SecurityPolicy::Unknown, &contained, &nonce);
    assert_eq!(
        unknown.unwrap_err().message,
        "Cannot create signature for Unknown security policy"
    );
    let missing = create_signature_data(&key, policy, &null, &nonce).unwrap_err();
    assert_eq!(missing.status.bits, BAD_CERTIFICATE_INVALID);
    assert_eq!(missing.message, "Cannot create signature, missing signing certificate");
    let missing = create_signature_data(&key, policy, &contained, &null).unwrap_err();
    assert_eq!(missing.status.bits, BAD_NONCE_INVALID);
    assert_eq!(missing.message, "Cannot create signature, missing nonce");
    let nothing = create_signature_data(&key, SecurityPolicy::Unsecured, &null, &null).unwrap();
    assert_eq!(nothing.algorithm.value, None);
    assert_eq!(nothing.signature.value, None);
}

fn generated_key(bits: u32) -> PrivateKey {
    let key = opcua_crypto::PrivateKey::new(bits).unwrap();
    let pem = key.to_der().unwrap().to_pem("PRIVATE KEY", rsa::pkcs8::LineEnding::LF).unwrap();
    PrivateKey::from_pem(pem.as_bytes()).unwrap()
}

#[test]
fn short_keys_never_sign() {
    let contained = ByteString::from_bytes(&[1]);
    let nonce = ByteString::from_bytes(&[2]);
    for (policy, shortest, message) in [
        (SecurityPolicy::Basic128Rsa15, 46, "signature error: message too long"),
        (SecurityPolicy::Basic256, 46, "signature error: message too long"),
        (SecurityPolicy::Basic256Sha256, 62, "signature error: message too long"),
        (SecurityPolicy::Aes128Sha256RsaOaep, 62, "signature error: message too long"),
        (SecurityPolicy::Aes256Sha256RsaPss, 66, "signature error: internal error"),
    ] {
        let key = generated_key(8 * (shortest - 1));
        let error = create_signature_data(&key, policy, &contained, &nonce).unwrap_err();
        assert_eq!(error.status.bits, BAD_UNEXPECTED_ERROR);
        assert_eq!(error.message, message);
        let key = generated_key(8 * shortest);
        let data = create_signature_data(&key, policy, &contained, &nonce).unwrap();
        assert_eq!(data.signature.value.unwrap().len(), shortest as usize);
    }
}

#[test]
fn keys_and_certificates_parse() {
    assert!(PrivateKey::from_pem(b"not a key").is_none());
    let (der, _) = cert_and_key(1024);
    let mut trailing = der.clone();
    trailing.push(0);
    assert!(X509::from_byte_string(&ByteString::from_bytes(&trailing)).is_err());
    let certificate = x509(&der);
    assert_eq!(certificate.key_length(), Some(1024));
    assert_eq!(certificate.clone().as_byte_string().value, Some(der));
}

#[test]
fn policies_have_uris() {
    for policy in [
        SecurityPolicy::Unsecured,
        SecurityPolicy::Aes128Sha256RsaOaep,
        SecurityPolicy::Basic256Sha256,
        SecurityPolicy::Aes256Sha256RsaPss,
        SecurityPolicy::Basic128Rsa15,
        SecurityPolicy::Basic256,
        SecurityPolicy::Unknown,
    ] {
        assert_eq!(SecurityPolicy::from_uri(policy.uri()), policy);
    }
    assert_eq!(SecurityPolicy::from_uri("Basic256"), SecurityPolicy::Unknown);
    assert_eq!(
        SecurityPolicy::from_uri("http://opcfoundation.org/UA/SecurityPolicy#None"),
        SecurityPolicy::Unsecured
    );
}
