use std::time::Duration;

use opcua_session::error::{
    BAD_CERTIFICATE_INVALID, BAD_NONCE_INVALID, BAD_SECURITY_CHECKS_FAILED,
    BAD_SECURITY_POLICY_REJECTED, BAD_UNEXPECTED_ERROR, BAD_UNKNOWN_RESPONSE,
};
use opcua_session::{
    ActivateSession, ActivateSessionRequest, ActivateSessionResponse, ApplicationDescription,
    ByteString, EndpointDescription, Error, Identifier, IdentityToken, MessageSecurityMode, NodeId,
    Password, PrivateKey, ResponseHeader, ResponseMessage, SecureChannel, SecurityPolicy,
    SignedSoftwareCertificate, StatusCode, UAString, UserIdentityToken, UserTokenPolicy,
    UserTokenType, X509,
};

fn number(value: u32) -> NodeId {
    NodeId { namespace: 0, identifier: Identifier::Numeric(value) }
}

fn policy(id: &str, token_type: UserTokenType, uri: &str) -> UserTokenPolicy {
    UserTokenPolicy {
        policy_id: UAString::from(id),
        token_type,
        issued_token_type: UAString::null(),
        issuer_endpoint_url: UAString::null(),
        security_policy_uri: UAString::from(uri),
    }
}

fn endpoint(policies: Vec<UserTokenPolicy>) -> EndpointDescription {
    EndpointDescription {
        endpoint_url: UAString::from("opc.tcp://server"),
        server: ApplicationDescription::default(),
        server_certificate: ByteString::null(),
        security_mode: MessageSecurityMode::Unsecured,
        security_policy_uri: UAString::null(),
        user_identity_tokens: Some(policies),
        transport_profile_uri: UAString::null(),
        security_level: 0,
    }
}

fn manual(policies: Vec<UserTokenPolicy>) -> ActivateSession {
    ActivateSession::new_manual(
        endpoint(policies),
        7,
        Duration::from_secs(3),
        number(5),
        11,
    )
}

fn unsecured() -> SecureChannel {
    SecureChannel::new(
        SecurityPolicy::Unsecured,
        MessageSecurityMode::Unsecured,
        None,
        vec![],
        number(5),
    )
}

const NONCE: [u8; 4] = [4, 3, 2, 1];

fn secured(policy: SecurityPolicy, mode: MessageSecurityMode, certificate: &[u8]) -> SecureChannel {
    SecureChannel::new(policy, mode, Some(x509(certificate)), NONCE.to_vec(), number(5))
}

fn x509(der: &[u8]) -> X509 {
    X509::from_byte_string(&ByteString::from_bytes(der)).unwrap()
}

fn cert_and_key(bits: u32) -> (Vec<u8>, opcua_crypto::PrivateKey) {
    let data = opcua_crypto::X509Data {
        key_size: bits,
        common_name: "test".to_string(),
        organization: "test".to_string(),
        organizational_unit: "test".to_string(),
        country: "IE".to_string(),
        state: "test".to_string(),
        alt_host_names: vec!["urn:test".to_string(), "server.example".to_string()].into(),
        certificate_duration_days: 60,
    };
    let (certificate, key) = opcua_crypto::X509::cert_and_pkey(&data).unwrap();
    (certificate.to_der().unwrap(), key)
}

fn held(key: &opcua_crypto::PrivateKey) -> PrivateKey {
    let pem = key.to_der().unwrap().to_pem("PRIVATE KEY", rsa::pkcs8::LineEnding::LF).unwrap();
    PrivateKey::from_pem(pem.as_bytes()).unwrap()
}

fn no_token() -> Result<ByteString, Error> {
    Ok(ByteString::null())
}

fn built(
    activate: ActivateSession,
    channel: &SecureChannel,
    issued: Result<ByteString, Error>,
) -> Result<ActivateSessionRequest, Error> {
    match activate.try_build_request(channel, issued) {
        Some(outcome) => outcome,
        None => panic!("no answer"),
    }
}

fn assert_signed_by(
    signature: &opcua_session::SignatureData,
    policy: SecurityPolicy,
    signer: &[u8],
    contained: &[u8],
) {
    let mut data = opcua_types::SignatureData::null();
    data.signature = opcua_types::ByteString { value: signature.signature.value.clone() };
    assert!(opcua_crypto::verify_signature_data(
        &data,
        opcua_crypto::SecurityPolicy::from_uri(policy.uri()),
        &opcua_crypto::X509::from_der(signer).unwrap(),
        &opcua_crypto::X509::from_der(contained).unwrap(),
        &NONCE,
    )
    .is_ok());
}

fn decrypted(secret: &ByteString, algorithm: &UAString, key: &opcua_crypto::PrivateKey) -> Vec<u8> {
    let held = opcua_crypto::LegacyEncryptedSecret {
        policy: opcua_types::UAString::null(),
        secret: opcua_types::ByteString { value: secret.value.clone() },
        encryption_algorithm: opcua_types::UAString::from(algorithm.value.clone()),
    };
    opcua_crypto::legacy_decrypt_secret(&held, &NONCE, key).unwrap().value.unwrap()
}

#[test]
fn anonymous_request_signs_nothing() {
    let activate = manual(vec![policy("anon", UserTokenType::Anonymous, "")]);
    assert_eq!(activate.timeout(), Duration::from_secs(3));
    assert!(!activate.needs_issued_token());
    let request = built(activate.clone(), &unsecured(), no_token()).unwrap();
    assert_eq!(request.request_header.request_handle, 11);
    match request.user_identity_token {
        UserIdentityToken::Anonymous { policy_id } => {
            assert_eq!(policy_id.value.as_deref(), Some("anon"))
        }
        _ => panic!("wrong token"),
    }
    assert_eq!(request.user_token_signature.signature.value, None);
    assert_eq!(request.user_token_signature.algorithm.value, None);
    assert_eq!(request.client_signature.signature.value, None);
    assert!(request.locale_ids.is_none());
    assert!(request.client_software_certificates.is_none());
    assert!(activate.build_request(&unsecured(), no_token()).is_ok());
}

#[test]
fn lists_reach_the_request_in_order() {
    let certificate = |byte: u8| SignedSoftwareCertificate {
        certificate_data: ByteString::from_bytes(&[byte]),
        signature: ByteString::null(),
    };
    let activate = manual(vec![policy("anon", UserTokenType::Anonymous, "")])
        .locale_ids(vec![UAString::from("en"), UAString::null()])
        .locale_id("de")
        .client_software_certificates(vec![certificate(1)])
        .client_software_certificate(certificate(2));
    let request = built(activate.clone(), &unsecured(), no_token()).unwrap();
    let locales: Vec<Option<String>> =
        request.locale_ids.unwrap().into_iter().map(|locale| locale.value).collect();
    assert_eq!(locales, vec![Some("en".to_string()), None, Some("de".to_string())]);
    let certificates = request.client_software_certificates.unwrap();
    assert_eq!(certificates.len(), 2);
    assert_eq!(certificates[1].certificate_data.value, Some(vec![2]));
    let emptied = activate.locale_ids(vec![]).client_software_certificates(vec![]);
    let request = built(emptied, &unsecured(), no_token()).unwrap();
    assert!(request.locale_ids.is_none());
    assert!(request.client_software_certificates.is_none());
}

#[test]
fn endpoint_must_accept_the_token_type() {
    let user = IdentityToken::UserName("me".to_string(), Password("secret".to_string()));
    for (token, name) in [
        (user, "UserName"),
        (IdentityToken::IssuedToken, "IssuedToken"),
    ] {
        let activate = manual(vec![policy("anon", UserTokenType::Anonymous, "")])
            .identity_token(token);
        assert!(!activate.needs_issued_token());
        let error = built(activate, &unsecured(), no_token()).unwrap_err();
        assert_eq!(error.status.bits, BAD_SECURITY_POLICY_REJECTED);
        assert_eq!(
            error.message,
            format!("Cannot find user token type {name} for this endpoint, cannot connect")
        );
    }
    let mut bare = endpoint(vec![]);
    bare.user_identity_tokens = None;
    let activate = ActivateSession::new_manual(bare, 7, Duration::ZERO, number(5), 11);
    let error = built(activate, &unsecured(), no_token()).unwrap_err();
    assert_eq!(
        error.message,
        "Cannot find user token type Anonymous for this endpoint, cannot connect"
    );
    let (der, key) = cert_and_key(1024);
    let activate = manual(vec![]).identity_token(IdentityToken::X509(x509(&der), held(&key)));
    let error = built(activate, &unsecured(), no_token()).unwrap_err();
    assert_eq!(
        error.message,
        "Cannot find user token type Certificate for this endpoint, cannot connect"
    );
}

#[test]
fn unknown_token_policy_is_refused() {
    let activate = manual(vec![
        policy("first", UserTokenType::Anonymous, "urn:odd"),
        policy("second", UserTokenType::Anonymous, ""),
    ]);
    let error = built(activate, &unsecured(), no_token()).unwrap_err();
    assert_eq!(error.status.bits, BAD_SECURITY_POLICY_REJECTED);
    assert_eq!(error.message, "Unknown security policy urn:odd");
}

#[test]
fn first_policy_of_the_type_is_taken() {
    let activate = manual(vec![
        policy("user", UserTokenType::UserName, ""),
        policy("one", UserTokenType::Anonymous, ""),
        policy("two", UserTokenType::Anonymous, ""),
    ]);
    match built(activate, &unsecured(), no_token()).unwrap().user_identity_token {
        UserIdentityToken::Anonymous { policy_id } => {
            assert_eq!(policy_id.value.as_deref(), Some("one"))
        }
        _ => panic!("wrong token"),
    }
}

fn user_activation(uri: &str) -> ActivateSession {
    manual(vec![policy("user", UserTokenType::UserName, uri)]).identity_token(
        IdentityToken::UserName("me".to_string(), Password("s\u{e9}cret".to_string())),
    )
}

#[test]
fn password_travels_plain_without_security() {
    let request = built(user_activation(""), &unsecured(), no_token()).unwrap();
    match request.user_identity_token {
        UserIdentityToken::UserName { policy_id, user_name, password, encryption_algorithm } => {
            assert_eq!(policy_id.value.as_deref(), Some("user"));
            assert_eq!(user_name.value.as_deref(), Some("me"));
            assert_eq!(password.value, Some("s\u{e9}cret".as_bytes().to_vec()));
            assert_eq!(encryption_algorithm.value, None);
        }
        _ => panic!("wrong token"),
    }
    assert_eq!(request.user_token_signature.signature.value, None);
}

#[test]
fn password_is_encrypted_for_the_server() {
    let (server, server_key) = cert_and_key(1024);
    let (_, client_key) = cert_and_key(1024);
    for (channel_policy, uri, algorithm) in [
        (SecurityPolicy::Basic256Sha256, "", "http://www.w3.org/2001/04/xmlenc#rsa-oaep"),
        (SecurityPolicy::Basic128Rsa15, "", "http://www.w3.org/2001/04/xmlenc#rsa-1_5"),
        (
            SecurityPolicy::Basic128Rsa15,
            SecurityPolicy::Aes256Sha256RsaPss.uri(),
            "http://opcfoundation.org/UA/security/rsa-oaep-sha2-256",
        ),
    ] {
        let channel = secured(channel_policy, MessageSecurityMode::Sign, &server);
        let activate = user_activation(uri).private_key(held(&client_key));
        match built(activate, &channel, no_token()).unwrap().user_identity_token {
            UserIdentityToken::UserName { password, encryption_algorithm, .. } => {
                assert_eq!(encryption_algorithm.value.as_deref(), Some(algorithm));
                assert_ne!(password.value, Some("s\u{e9}cret".as_bytes().to_vec()));
                assert_eq!(
                    decrypted(&password, &encryption_algorithm, &server_key),
                    "s\u{e9}cret".as_bytes()
                );
            }
            _ => panic!("wrong token"),
        }
    }
}

#[test]
fn password_of_any_length_is_encrypted() {
    let (server, server_key) = cert_and_key(1024);
    let channel = secured(SecurityPolicy::Unsecured, MessageSecurityMode::Unsecured, &server);
    for token_policy in [
        SecurityPolicy::Basic128Rsa15,
        SecurityPolicy::Basic256,
        SecurityPolicy::Basic256Sha256,
        SecurityPolicy::Aes128Sha256RsaOaep,
        SecurityPolicy::Aes256Sha256RsaPss,
    ] {
        for length in [0, 1, 54, 78, 109, 110, 1000] {
            let password = "x".repeat(length);
            let activate =
                manual(vec![policy("user", UserTokenType::UserName, token_policy.uri())])
                    .identity_token(IdentityToken::UserName(
                        "me".to_string(),
                        Password(password.clone()),
                    ));
            let request = built(activate, &channel, no_token()).unwrap();
            assert_eq!(request.client_signature.signature.value, None);
            match request.user_identity_token {
                UserIdentityToken::UserName { password: sent, encryption_algorithm, .. } => {
                    let held = decrypted(&sent, &encryption_algorithm, &server_key);
                    assert_eq!(held, password.as_bytes());
                }
                _ => panic!("wrong token"),
            }
        }
    }
}

#[test]
fn certificate_without_an_rsa_key_encrypts_nothing() {
    let (mut server, _) = cert_and_key(1024);
    let rsa_algorithm: [u8; 9] = [0x2a, 0x86, 0x48, 0x86, 0xf7, 0x0d, 0x01, 0x01, 0x01];
    let place = server.windows(9).position(|window| window == rsa_algorithm).unwrap();
    server[place + 8] = 2;
    assert_eq!(x509(&server).key_length(), None);
    let channel = secured(SecurityPolicy::Unsecured, MessageSecurityMode::Unsecured, &server);
    let activate = user_activation(SecurityPolicy::Basic256Sha256.uri());
    let error = built(activate, &channel, no_token()).unwrap_err();
    assert_eq!(error.status.bits, BAD_CERTIFICATE_INVALID);
    let reason = match opcua_crypto::X509::from_der(&server).unwrap().public_key() {
        Ok(_) => panic!("there is no RSA key"),
        Err(reason) => std::error::Error::source(&reason).unwrap().to_string(),
    };
    assert_eq!(error.message, reason);
    assert_eq!(reason, "unknown/unsupported algorithm OID: 1.2.840.113549.1.1.1");
}

#[test]
fn short_client_key_sends_nothing() {
    let (server, _) = cert_and_key(1024);
    let (_, key) = cert_and_key(512);
    let channel = secured(
        SecurityPolicy::Aes256Sha256RsaPss,
        MessageSecurityMode::Sign,
        &server,
    );
    let activate = manual(vec![policy("anon", UserTokenType::Anonymous, "")])
        .private_key(held(&key));
    let error = built(activate, &channel, no_token()).unwrap_err();
    assert_eq!(error.status.bits, BAD_UNEXPECTED_ERROR);
    assert_eq!(error.message, "signature error: internal error");
}

#[test]
fn signing_channel_refuses_a_plain_password() {
    let (server, _) = cert_and_key(1024);
    let channel = secured(SecurityPolicy::Basic256, MessageSecurityMode::Sign, &server);
    let activate = user_activation(SecurityPolicy::Unsecured.uri());
    let error = built(activate, &channel, no_token()).unwrap_err();
    assert_eq!(error.status.bits, BAD_SECURITY_POLICY_REJECTED);
    assert_eq!(
        error.message,
        "User token policy security policy is None but message security mode is Sign"
    );
}

#[test]
fn channel_mode_must_fit_its_policy() {
    let (server, _) = cert_and_key(1024);
    for mode in [MessageSecurityMode::Invalid, MessageSecurityMode::Unsecured] {
        let channel = secured(SecurityPolicy::Basic256, mode, &server);
        let error = built(user_activation(""), &channel, no_token()).unwrap_err();
        assert_eq!(error.status.bits, BAD_SECURITY_CHECKS_FAILED);
        assert_eq!(error.message, "Invalid message security mode");
    }
    let channel = secured(SecurityPolicy::Unknown, MessageSecurityMode::Sign, &server);
    let error = built(user_activation(""), &channel, no_token()).unwrap_err();
    assert_eq!(error.message, "Unknown user token security policy");
}

#[test]
fn password_without_a_fitting_certificate_has_no_answer() {
    let sealed = SecurityPolicy::Aes256Sha256RsaPss.uri();
    assert!(user_activation(sealed).try_build_request(&unsecured(), no_token()).is_none());
    let (short, _) = cert_and_key(512);
    let channel = secured(
        SecurityPolicy::Aes256Sha256RsaPss,
        MessageSecurityMode::SignAndEncrypt,
        &short,
    );
    assert!(user_activation(sealed).try_build_request(&channel, no_token()).is_none());
}

#[test]
fn user_certificate_is_signed_for() {
    let (server, _) = cert_and_key(1024);
    let (user, user_key) = cert_and_key(1024);
    let (client, client_key) = cert_and_key(1024);
    let channel_policy = SecurityPolicy::Basic256Sha256;
    let token_policy = SecurityPolicy::Basic256;
    let channel = secured(channel_policy, MessageSecurityMode::Sign, &server);
    let activate = manual(vec![policy("x", UserTokenType::Certificate, token_policy.uri())])
        .identity_token(IdentityToken::X509(x509(&user), held(&user_key)))
        .private_key(held(&client_key));
    let request = built(activate, &channel, no_token()).unwrap();
    match &request.user_identity_token {
        UserIdentityToken::X509 { policy_id, certificate_data } => {
            assert_eq!(policy_id.value.as_deref(), Some("x"));
            assert_eq!(certificate_data.value.as_ref(), Some(&user));
        }
        _ => panic!("wrong token"),
    }
    assert_eq!(
        request.user_token_signature.algorithm.value.as_deref(),
        Some("http://www.w3.org/2000/09/xmldsig#rsa-sha1")
    );
    assert_signed_by(&request.user_token_signature, token_policy, &user, &server);
    assert_eq!(
        request.client_signature.algorithm.value.as_deref(),
        Some("http://www.w3.org/2001/04/xmldsig-more#rsa-sha256")
    );
    assert_signed_by(&request.client_signature, channel_policy, &client, &server);
}

#[test]
fn user_certificate_needs_a_server_certificate() {
    let (user, user_key) = cert_and_key(1024);
    let activate = manual(vec![policy("x", UserTokenType::Certificate, "")])
        .identity_token(IdentityToken::X509(x509(&user), held(&user_key)));
    let error = built(activate.clone(), &unsecured(), no_token()).unwrap_err();
    assert_eq!(error.status.bits, BAD_CERTIFICATE_INVALID);
    assert_eq!(
        error.message,
        "Cannot create an X509IdentityToken because the remote server has no cert with which to create a signature"
    );
    let (server, _) = cert_and_key(1024);
    let channel = secured(SecurityPolicy::Unsecured, MessageSecurityMode::Unsecured, &server);
    let request = built(activate, &channel, no_token()).unwrap();
    assert_eq!(request.user_token_signature.signature.value, None);
}

#[test]
fn user_signature_needs_a_nonce() {
    let (user, user_key) = cert_and_key(1024);
    let channel = SecureChannel::new(
        SecurityPolicy::Unsecured,
        MessageSecurityMode::Unsecured,
        Some(x509(&user)),
        vec![],
        number(5),
    );
    let uri = SecurityPolicy::Basic256.uri();
    let activate = manual(vec![policy("x", UserTokenType::Certificate, uri)])
        .identity_token(IdentityToken::X509(x509(&user), held(&user_key)));
    let error = built(activate, &channel, no_token()).unwrap_err();
    assert_eq!(error.status.bits, BAD_NONCE_INVALID);
    assert_eq!(error.message, "Cannot create signature, missing nonce");
}

#[test]
fn issued_token_is_sent() {
    let activate = manual(vec![policy("issued", UserTokenType::IssuedToken, "")])
        .identity_token(IdentityToken::IssuedToken);
    assert!(activate.needs_issued_token());
    let issued = Ok(ByteString::from_bytes(&[7, 8]));
    let request = built(activate.clone(), &unsecured(), issued).unwrap();
    match request.user_identity_token {
        UserIdentityToken::Issued { policy_id, token_data, encryption_algorithm } => {
            assert_eq!(policy_id.value.as_deref(), Some("issued"));
            assert_eq!(token_data.value, Some(vec![7, 8]));
            assert_eq!(encryption_algorithm.value, None);
        }
        _ => panic!("wrong token"),
    }
    let error = built(activate, &unsecured(), Err(Error::new(3, "no service"))).unwrap_err();
    assert_eq!(error.status.bits, 3);
    assert_eq!(error.message, "no service");
}

#[test]
fn issued_token_is_encrypted_for_the_server() {
    let (server, server_key) = cert_and_key(1024);
    let channel = secured(SecurityPolicy::Unsecured, MessageSecurityMode::Unsecured, &server);
    let uri = SecurityPolicy::Basic256Sha256.uri();
    let activate = manual(vec![policy("issued", UserTokenType::IssuedToken, uri)])
        .identity_token(IdentityToken::IssuedToken);
    let issued = Ok(ByteString::from_bytes(&[7, 8]));
    match built(activate, &channel, issued).unwrap().user_identity_token {
        UserIdentityToken::Issued { token_data, encryption_algorithm, .. } => {
            assert_eq!(decrypted(&token_data, &encryption_algorithm, &server_key), vec![7, 8]);
        }
        _ => panic!("wrong token"),
    }
}

#[test]
fn secured_request_must_be_signed() {
    let (server, key) = cert_and_key(1024);
    let anonymous = || manual(vec![policy("anon", UserTokenType::Anonymous, "")]);
    let channel_policy = SecurityPolicy::Basic256Sha256;

    let channel = secured(channel_policy, MessageSecurityMode::Sign, &server);
    let error = built(anonymous(), &channel, no_token()).unwrap_err();
    assert_eq!(error.status.bits, BAD_UNEXPECTED_ERROR);
    assert_eq!(error.message, "Cannot sign request, no private key provided");

    let channel = SecureChannel::new(
        channel_policy,
        MessageSecurityMode::Sign,
        None,
        NONCE.to_vec(),
        number(5),
    );
    let error = built(anonymous().private_key(held(&key)), &channel, no_token()).unwrap_err();
    assert_eq!(error.status.bits, BAD_UNEXPECTED_ERROR);
    assert_eq!(error.message, "Cannot sign request, missing server certificate");

    let channel = SecureChannel::new(
        channel_policy,
        MessageSecurityMode::Sign,
        Some(x509(&server)),
        vec![],
        number(5),
    );
    let error = built(anonymous().private_key(held(&key)), &channel, no_token()).unwrap_err();
    assert_eq!(error.status.bits, BAD_UNEXPECTED_ERROR);
    assert_eq!(error.message, "Cannot sign request, empty remote nonce");
}

#[test]
fn identity_error_comes_before_the_signature_error() {
    let (server, _) = cert_and_key(1024);
    let channel = secured(SecurityPolicy::Basic256Sha256, MessageSecurityMode::Sign, &server);
    let error = built(manual(vec![]), &channel, no_token()).unwrap_err();
    assert_eq!(error.status.bits, BAD_SECURITY_POLICY_REJECTED);
    let first = Err(Error::new(1, "first"));
    let second = Err(Error::new(2, "second"));
    assert_eq!(manual(vec![]).assemble(first, second).unwrap_err().message, "first");
}

fn activated(nonce: ByteString) -> Result<ResponseMessage, Error> {
    Ok(ResponseMessage::ActivateSession(ActivateSessionResponse {
        response_header: ResponseHeader {
            request_handle: 11,
            service_result: StatusCode { bits: 0 },
        },
        server_nonce: nonce,
        results: None,
    }))
}

#[test]
fn activation_brings_the_next_nonce() {
    let (server, _) = cert_and_key(1024);
    let mut channel = secured(SecurityPolicy::Basic256, MessageSecurityMode::Sign, &server);
    let before = channel.clone();
    let nonce = ByteString::from_bytes(&[5, 5]);
    assert!(ActivateSession::on_response(&mut channel, activated(nonce)).is_ok());
    assert_eq!(channel.remote_nonce_as_byte_string().value, Some(vec![5, 5]));
    assert!(channel.remote_cert().is_some());
    assert_eq!(before.remote_nonce_as_byte_string().value, Some(NONCE.to_vec()));
    assert!(before.remote_cert().is_some());

    let missing = activated(ByteString::null());
    let error = ActivateSession::on_response(&mut channel, missing).unwrap_err();
    assert_eq!(error.status.bits, BAD_NONCE_INVALID);
    let other = Ok(ResponseMessage::Other);
    let error = ActivateSession::on_response(&mut channel, other).unwrap_err();
    assert_eq!(error.status.bits, BAD_UNKNOWN_RESPONSE);
    assert_eq!(channel.remote_nonce_as_byte_string().value, Some(vec![5, 5]));

    let mut channel = unsecured();
    assert!(ActivateSession::on_response(&mut channel, activated(ByteString::null())).is_ok());
}
