//! Certificates, keys and secrets: what the `opcua_crypto` crate computes.

use vstd::prelude::*;

use crate::error::{
    BAD_CERTIFICATE_INVALID, BAD_NONCE_INVALID, BAD_SECURITY_POLICY_REJECTED,
    BAD_UNEXPECTED_ERROR, Error, ErrorView, StatusCode, error_view,
};
use crate::security::{
    EncryptionMode, MessageSecurityMode, SecurityPolicy, encryption_mode, encryption_mode_of,
    mode_of_name, policy_of_uri,
};
use crate::types::{ByteString, UAString, bytes_or_empty, chars_or_empty};

verus! {

/// The DER form of the certificate that `data` holds; `None` where `data` holds
/// no certificate.
pub uninterp spec fn certificate_der(data: Seq<u8>) -> Option<Seq<u8>>;

/// The length in bits of the RSA key in the certificate that `data` holds;
/// `None` where there is no certificate or it holds no RSA key.
pub uninterp spec fn certificate_key_bits(data: Seq<u8>) -> Option<usize>;

/// Why the certificate that `data` holds has no RSA key, in words.
pub uninterp spec fn certificate_key_refusal(data: Seq<u8>) -> Seq<char>;

/// The size in bytes of the private key that `pem` holds; `None` where it holds
/// no RSA key.
pub uninterp spec fn private_key_size(pem: Seq<u8>) -> Option<usize>;

/// What checking `signature` over `signed` answers, against the public key of
/// the certificate that `certificate` holds.
pub uninterp spec fn signature_check(
    signature: Seq<u8>,
    policy: SecurityPolicy,
    certificate: Seq<u8>,
    signed: Seq<u8>,
) -> Result<(), ErrorView>;

/// Whether `signature` is one that signing `signed` with the private key `pem`
/// can give. The empty one, which no key gives, stands for no signature at all: it
/// says that signing can fail.
pub uninterp spec fn is_signature(
    pem: Seq<u8>,
    policy: SecurityPolicy,
    signed: Seq<u8>,
    signature: Seq<u8>,
) -> bool;

/// Whether `cipher` is one that encrypting `secret` with `nonce` can give, for
/// the public key of the certificate that `certificate` holds.
pub uninterp spec fn is_encryption(
    policy: SecurityPolicy,
    certificate: Seq<u8>,
    nonce: Seq<u8>,
    secret: Seq<u8>,
    cipher: Seq<u8>,
) -> bool;

/// Calls `opcua_crypto::X509::from_byte_string` and, on the certificate that it
/// gives, `as_byte_string`. Whether `data` parses, and the DER form that the
/// parsed certificate is written back as, depend on `data` alone. Bytes that do
/// not parse, none at all among them, are refused as an invalid certificate.
#[verifier::external_body]
fn parse_certificate(data: &[u8]) -> (res: Result<Vec<u8>, (u32, String)>)
    ensures
        match res {
            Ok(der) => data@.len() > 0 && certificate_der(data@) == Some(der@),
            Err((bits, message)) => {
                &&& certificate_der(data@) is None
                &&& error_view(bits, message@) == certificate_refusal(data@)
            },
        },
{
    match opcua_crypto::X509::from_byte_string(&opcua_types::ByteString::from(data)) {
        Ok(certificate) => Ok(certificate.as_byte_string().value.unwrap_or_default()),
        Err(e) => Err((e.status().bits(), std::error::Error::source(&e).unwrap().to_string())),
    }
}

/// Calls `opcua_crypto::random::byte_string`, which fills `length` bytes by chance.
/// It panics on a length that no vector can have.
#[verifier::external_body]
pub(crate) fn random_byte_string(length: usize) -> (res: ByteString)
    requires
        length <= isize::MAX,
    ensures
        res@ is Some,
        res@->0.len() == length,
{
    ByteString { value: opcua_crypto::random::byte_string(length).value }
}

/// The error for bytes that hold no certificate.
pub open spec fn certificate_refusal(data: Seq<u8>) -> ErrorView {
    error_view(
        BAD_CERTIFICATE_INVALID,
        if data.len() == 0 {
            "Cannot make certificate from null bytestring"@
        } else {
            "X509Error"@
        },
    )
}

/// Calls `opcua_crypto::X509::key_length` on the certificate that `data` holds.
/// Its result depends on the certificate alone.
#[verifier::external_body]
fn key_length(data: &[u8]) -> (res: Option<usize>)
    ensures
        res == certificate_key_bits(data@),
{
    match opcua_crypto::X509::from_der(data) {
        Ok(certificate) => certificate.key_length().ok(),
        Err(_) => None,
    }
}

/// Calls `opcua_crypto::PrivateKey::from_pem` and, on the key that it gives,
/// `KeySize::size`. Both depend on `pem` alone.
#[verifier::external_body]
fn parse_private_key(pem: &[u8]) -> (res: Option<usize>)
    ensures
        res == private_key_size(pem@),
{
    match opcua_crypto::PrivateKey::from_pem(pem) {
        Ok(key) => Some(opcua_crypto::KeySize::size(&key)),
        Err(_) => None,
    }
}

/// Calls `opcua_crypto::verify_signature_data`, which checks the signature over
/// the DER form of `contained` followed by `nonce`, and does not look at the name
/// of the algorithm that comes with a signature. It panics on the policy
/// `Unknown`. What it answers depends on its arguments alone.
#[verifier::external_body]
fn check_signature(
    signature: &[u8],
    policy: &str,
    certificate: &[u8],
    contained: &[u8],
    nonce: &[u8],
) -> (res: Result<(), (u32, String)>)
    requires
        policy_of_uri(policy@) != SecurityPolicy::Unknown,
        certificate_der(certificate@) is Some,
        certificate_der(contained@) is Some,
    ensures
        match res {
            Ok(()) => Ok::<(), ErrorView>(()),
            Err((bits, message)) => Err::<(), ErrorView>(error_view(bits, message@)),
        } == signature_check(
            signature@,
            policy_of_uri(policy@),
            certificate@,
            certificate_der(contained@)->0 + nonce@,
        ),
{
    let signing = opcua_crypto::X509::from_der(certificate).unwrap();
    let held = opcua_crypto::X509::from_der(contained).unwrap();
    let mut data = opcua_types::SignatureData::null();
    data.signature = opcua_types::ByteString::from(signature);
    let policy = opcua_crypto::SecurityPolicy::from_uri(policy);
    opcua_crypto::verify_signature_data(&data, policy, &signing, &held, nonce).map_err(
        |e| (e.status().bits(), std::error::Error::source(&e).unwrap().to_string()),
    )
}

/// The value of a check's result.
pub open spec fn result_view(result: Result<(), Error>) -> Result<(), ErrorView> {
    match result {
        Ok(()) => Ok(()),
        Err(error) => Err(error@),
    }
}

/// The error for what cannot be signed, whatever the key; `None` where the key
/// decides.
pub open spec fn signing_refusal(
    policy: SecurityPolicy,
    contained: Seq<u8>,
    nonce: Seq<u8>,
) -> Option<ErrorView> {
    if policy == SecurityPolicy::Unknown {
        Some(
            error_view(
                BAD_SECURITY_POLICY_REJECTED,
                "Cannot create signature for Unknown security policy"@,
            ),
        )
    } else if policy == SecurityPolicy::Unsecured {
        None
    } else if contained.len() == 0 {
        Some(
            error_view(
                BAD_CERTIFICATE_INVALID,
                "Cannot create signature, missing signing certificate"@,
            ),
        )
    } else if nonce.len() == 0 {
        Some(error_view(BAD_NONCE_INVALID, "Cannot create signature, missing nonce"@))
    } else {
        None
    }
}

/// The error for a key of `size` bytes that cannot sign.
pub open spec fn signing_failure(policy: SecurityPolicy, size: nat) -> ErrorView {
    error_view(
        BAD_UNEXPECTED_ERROR,
        if size < policy.minimum_signing_size() && policy != SecurityPolicy::Aes256Sha256RsaPss {
            "signature error: message too long"@
        } else {
            "signature error: internal error"@
        },
    )
}

/// Calls `opcua_crypto::create_signature_data`. It refuses the policy `Unknown`,
/// and without a certificate or a nonce to sign it refuses every other policy but
/// the one without security, for which the signature is null. In all other cases
/// it signs the certificate followed by the nonce: the signature is as long as the
/// key, and which one it is rests on chance under one of the policies. A key that is
/// too short for the digest and the padding never signs. A longer one signs
/// behind a factor drawn by chance, and the result is checked; since the key's primes
/// are not tested when it is read, that the check passes is left unsaid. The text of
/// either failure is fixed, and a failure comes only where signing can fail.
#[verifier::external_body]
fn sign(pem: &[u8], policy: &str, contained: &[u8], nonce: &[u8]) -> (res: Result<
    (Option<String>, Option<Vec<u8>>),
    (u32, String),
>)
    requires
        private_key_size(pem@) is Some,
    ensures
        signing_refusal(policy_of_uri(policy@), contained@, nonce@) matches Some(refusal) ==> {
            &&& res is Err
            &&& error_view(res->Err_0.0, res->Err_0.1@) == refusal
        },
        policy_of_uri(policy@) == SecurityPolicy::Unsecured ==> {
            &&& res is Ok
            &&& res->Ok_0.0 is None
            &&& res->Ok_0.1 is None
        },
        signing_refusal(policy_of_uri(policy@), contained@, nonce@) is None && policy_of_uri(
            policy@,
        ) != SecurityPolicy::Unsecured ==> match res {
            Ok((algorithm, signature)) => {
                &&& private_key_size(pem@)->0 >= policy_of_uri(policy@).minimum_signing_size()
                &&& algorithm is Some
                &&& algorithm->0@ == policy_of_uri(policy@).signature_algorithm()
                &&& signature is Some
                &&& signature->0@.len() == private_key_size(pem@)->0
                &&& is_signature(
                    pem@,
                    policy_of_uri(policy@),
                    contained@ + nonce@,
                    signature->0@,
                )
            },
            Err((bits, message)) => {
                &&& error_view(bits, message@) == signing_failure(
                    policy_of_uri(policy@),
                    private_key_size(pem@)->0 as nat,
                )
                &&& is_signature(
                    pem@,
                    policy_of_uri(policy@),
                    contained@ + nonce@,
                    Seq::empty(),
                )
            },
        },
{
    let key = opcua_crypto::PrivateKey::from_pem(pem).unwrap();
    let policy = opcua_crypto::SecurityPolicy::from_uri(policy);
    let contained = opcua_types::ByteString::from(contained);
    let nonce = opcua_types::ByteString::from(nonce);
    match opcua_crypto::create_signature_data(&key, policy, &contained, &nonce) {
        Ok(data) => Ok((data.algorithm.value().clone(), data.signature.value)),
        Err(e) => Err((e.status().bits(), std::error::Error::source(&e).unwrap().to_string())),
    }
}

/// The policy that the URI of a user token policy names; `None` where the URI is
/// null or empty.
pub open spec fn named_policy(uri: Option<Seq<char>>) -> Option<SecurityPolicy> {
    if chars_or_empty(uri).len() == 0 {
        None
    } else {
        Some(policy_of_uri(chars_or_empty(uri)))
    }
}

/// Whether encrypting a secret for `certificate` in this mode is an operation
/// that the cryptography has an answer for. An encrypted secret needs a
/// certificate. Where that holds an RSA key, it needs a policy with encryption and
/// a key that is longer than the policy's padding.
pub open spec fn encryption_defined(
    mode: Result<EncryptionMode, ErrorView>,
    certificate: Option<Seq<u8>>,
) -> bool {
    mode matches Ok(EncryptionMode::AsymmetricFor(policy)) ==> {
        &&& certificate is Some
        &&& certificate_key_bits(certificate->0) matches Some(bits) ==> {
            &&& policy != SecurityPolicy::Unsecured
            &&& bits / 8 > policy.padding_overhead()
        }
    }
}

/// Calls `opcua_crypto::legacy_encrypt_secret`. The modes of the channel and the
/// token policy decide whether the secret is refused, sent as it is or encrypted.
/// Where it is to be encrypted, a certificate without an RSA key is invalid, for a
/// reason that depends on the certificate alone, and one with a key always gives an
/// encrypted secret: the plaintext is cut into blocks that the key takes, and the key
/// was checked when it was read. The encrypted secret names the policy's algorithm;
/// which bytes it has rests on chance. Without the certificate, on a policy without
/// encryption, or with a key that is no longer than the padding, it panics. A token policy's short name, which it would take too, is left out.
#[verifier::external_body]
fn encrypt(
    channel: (&str, &str),
    policy_id: &UAString,
    policy_uri: &UAString,
    nonce: &[u8],
    certificate: Option<&[u8]>,
    secret: &[u8],
) -> (res: Result<(Option<String>, Option<Vec<u8>>, Option<String>), (u32, String)>)
    requires
        named_policy(policy_uri@) != Some(SecurityPolicy::Unknown),
        certificate is Some ==> certificate_der(certificate->0@) is Some,
        encryption_defined(
            encryption_mode_of(
                policy_of_uri(channel.0@),
                mode_of_name(channel.1@),
                named_policy(policy_uri@),
            ),
            optional_bytes(certificate),
        ),
    ensures
        match encryption_mode_of(
            policy_of_uri(channel.0@),
            mode_of_name(channel.1@),
            named_policy(policy_uri@),
        ) {
            Err(refusal) => {
                &&& res is Err
                &&& error_view(res->Err_0.0, res->Err_0.1@) == refusal
            },
            Ok(EncryptionMode::Plain) => {
                &&& res is Ok
                &&& (UAString { value: res->Ok_0.0 })@ == policy_id@
                &&& (ByteString { value: res->Ok_0.1 })@ == Some(secret@)
                &&& res->Ok_0.2 is None
            },
            Ok(EncryptionMode::AsymmetricFor(policy)) => match res {
                Ok((held_id, cipher, algorithm)) => {
                    &&& certificate_key_bits(certificate->0@) is Some
                    &&& (UAString { value: held_id })@ == policy_id@
                    &&& cipher is Some
                    &&& is_encryption(policy, certificate->0@, nonce@, secret@, cipher->0@)
                    &&& algorithm is Some
                    &&& algorithm->0@ == policy.encryption_algorithm()
                },
                Err((bits, message)) => {
                    &&& certificate_key_bits(certificate->0@) is None
                    &&& bits == BAD_CERTIFICATE_INVALID
                    &&& message@ == certificate_key_refusal(certificate->0@)
                },
            },
        },
{
    let parsed = certificate.map(|data| opcua_crypto::X509::from_der(data).unwrap());
    let mut token = opcua_types::UserTokenPolicy::default();
    token.policy_id = policy_id.value.clone().into();
    token.security_policy_uri = policy_uri.value.clone().into();
    let policy = opcua_crypto::SecurityPolicy::from_uri(channel.0);
    match opcua_crypto::legacy_encrypt_secret(policy, channel.1.into(), &token, nonce, &parsed, secret) {
        Ok(s) => Ok((s.policy.value().clone(), s.secret.value, s.encryption_algorithm.value().clone())),
        Err(e) => Err((e.status().bits(), std::error::Error::source(&e).unwrap().to_string())),
    }
}

/// The bytes that an optional slice holds.
pub open spec fn optional_bytes(data: Option<&[u8]>) -> Option<Seq<u8>> {
    match data {
        Some(bytes) => Some(bytes@),
        None => None,
    }
}

/// A secret as it goes into a user identity token.
#[derive(Debug)]
pub struct LegacyEncryptedSecret {
    /// The id of the user token policy that it was made for.
    pub policy: UAString,
    pub secret: ByteString,
    /// The algorithm that it was encrypted with; null where it was not encrypted.
    pub encryption_algorithm: UAString,
}

/// What becomes of a secret. One that is to be encrypted fails only where the
/// certificate holds no RSA key.
pub open spec fn secret_outcome(
    mode: Result<EncryptionMode, ErrorView>,
    policy_id: Option<Seq<char>>,
    nonce: Seq<u8>,
    certificate: Option<Seq<u8>>,
    secret: Seq<u8>,
    outcome: Result<LegacyEncryptedSecret, Error>,
) -> bool {
    match mode {
        Err(refusal) => outcome is Err && outcome->Err_0@ == refusal,
        Ok(EncryptionMode::Plain) => {
            &&& outcome is Ok
            &&& outcome->Ok_0.policy@ == policy_id
            &&& outcome->Ok_0.secret@ == Some(secret)
            &&& outcome->Ok_0.encryption_algorithm@ is None
        },
        Ok(EncryptionMode::AsymmetricFor(policy)) => match outcome {
            Ok(held) => {
                &&& certificate_key_bits(certificate->0) is Some
                &&& held.policy@ == policy_id
                &&& held.secret@ is Some
                &&& is_encryption(policy, certificate->0, nonce, secret, held.secret@->0)
                &&& held.encryption_algorithm@ == Some(policy.encryption_algorithm())
            },
            Err(error) => {
                &&& certificate_key_bits(certificate->0) is None
                &&& error@ == error_view(
                    BAD_CERTIFICATE_INVALID,
                    certificate_key_refusal(certificate->0),
                )
            },
        },
    }
}

/// An X.509 certificate: bytes that were parsed as one, and its DER form.
pub struct X509 {
    source: Vec<u8>,
    der: Vec<u8>,
}

impl View for X509 {
    type V = Seq<u8>;

    /// The bytes that the certificate was parsed from.
    closed spec fn view(&self) -> Seq<u8> {
        self.source@
    }
}

impl X509 {
    #[verifier::type_invariant]
    spec fn parsed(self) -> bool {
        certificate_der(self.source@) == Some(self.der@)
    }

    /// Parses a certificate. It fails on bytes that hold none, and on null.
    pub fn from_byte_string(data: &ByteString) -> (res: Result<X509, Error>)
        ensures
            match res {
                Ok(certificate) => {
                    &&& certificate@ == bytes_or_empty(data@)
                    &&& certificate_der(bytes_or_empty(data@)) is Some
                },
                Err(error) => {
                    &&& certificate_der(bytes_or_empty(data@)) is None
                    &&& error@ == certificate_refusal(bytes_or_empty(data@))
                },
            },
    {
        let source = data.to_bytes();
        match parse_certificate(source.as_slice()) {
            Ok(der) => Ok(X509 { source, der }),
            Err((bits, message)) => Err(Error { status: StatusCode { bits }, message }),
        }
    }

    /// The DER form of the certificate.
    pub fn as_byte_string(&self) -> (res: ByteString)
        ensures
            res@ == certificate_der(self@),
            res@ is Some,
    {
        proof {
            use_type_invariant(self);
        }
        ByteString::from_bytes(self.der.as_slice())
    }

    /// The length in bits of the certificate's RSA key, if it holds one.
    pub fn key_length(&self) -> (res: Option<usize>)
        ensures
            res == certificate_key_bits(self@),
    {
        key_length(self.source.as_slice())
    }
}

impl Clone for X509 {
    fn clone(&self) -> (res: Self)
        ensures
            res@ == self@,
    {
        proof {
            use_type_invariant(self);
        }
        X509 {
            source: vstd::slice::slice_to_vec(self.source.as_slice()),
            der: vstd::slice::slice_to_vec(self.der.as_slice()),
        }
    }
}

/// An RSA private key, held in PEM form.
pub struct PrivateKey {
    pem: Vec<u8>,
}

impl View for PrivateKey {
    type V = Seq<u8>;

    /// The PEM form of the key.
    closed spec fn view(&self) -> Seq<u8> {
        self.pem@
    }
}

impl PrivateKey {
    #[verifier::type_invariant]
    spec fn parsed(self) -> bool {
        private_key_size(self.pem@) is Some
    }

    /// Parses a key in PEM form; `None` where the bytes hold none.
    pub fn from_pem(pem: &[u8]) -> (res: Option<PrivateKey>)
        ensures
            match res {
                Some(key) => key@ == pem@ && private_key_size(pem@) is Some,
                None => private_key_size(pem@) is None,
            },
    {
        match parse_private_key(pem) {
            Some(_) => Some(PrivateKey { pem: vstd::slice::slice_to_vec(pem) }),
            None => None,
        }
    }
}

impl Clone for PrivateKey {
    fn clone(&self) -> (res: Self)
        ensures
            res@ == self@,
    {
        proof {
            use_type_invariant(self);
        }
        PrivateKey { pem: vstd::slice::slice_to_vec(self.pem.as_slice()) }
    }
}

/// A signature and the algorithm that made it.
#[derive(Debug)]
pub struct SignatureData {
    pub algorithm: UAString,
    pub signature: ByteString,
}

/// The value of a [`SignatureData`].
pub struct SignatureDataView {
    pub algorithm: Option<Seq<char>>,
    pub signature: Option<Seq<u8>>,
}

impl View for SignatureData {
    type V = SignatureDataView;

    open spec fn view(&self) -> SignatureDataView {
        SignatureDataView { algorithm: self.algorithm@, signature: self.signature@ }
    }
}

/// The signature that signs nothing.
pub open spec fn null_signature() -> SignatureDataView {
    SignatureDataView { algorithm: None, signature: None }
}

impl SignatureData {
    /// The signature that signs nothing.
    pub fn null() -> (res: Self)
        ensures
            res@ == null_signature(),
    {
        SignatureData { algorithm: UAString::null(), signature: ByteString::null() }
    }
}

/// What becomes of signing `contained` followed by `nonce`: a refusal, a null
/// signature without security, or else a signature by the key, unless the key
/// cannot sign. One that is too short for the policy never can, and no key fails
/// unless signing with it can fail.
pub open spec fn signing_outcome(
    key: Seq<u8>,
    policy: SecurityPolicy,
    contained: Seq<u8>,
    nonce: Seq<u8>,
    outcome: Result<SignatureData, Error>,
) -> bool {
    match signing_refusal(policy, contained, nonce) {
        Some(refusal) => outcome is Err && outcome->Err_0@ == refusal,
        None => if policy == SecurityPolicy::Unsecured {
            outcome is Ok && outcome->Ok_0@ == null_signature()
        } else {
            match outcome {
                Ok(data) => {
                    &&& private_key_size(key)->0 >= policy.minimum_signing_size()
                    &&& data@.algorithm == Some(policy.signature_algorithm())
                    &&& data@.signature is Some
                    &&& private_key_size(key) is Some
                    &&& data@.signature->0.len() == private_key_size(key)->0
                    &&& is_signature(key, policy, contained + nonce, data@.signature->0)
                },
                Err(error) => {
                    &&& error@ == signing_failure(policy, private_key_size(key)->0 as nat)
                    &&& is_signature(key, policy, contained + nonce, Seq::empty())
                },
            }
        },
    }
}

/// Signs a certificate and a nonce.
pub fn create_signature_data(
    key: &PrivateKey,
    policy: SecurityPolicy,
    contained: &ByteString,
    nonce: &ByteString,
) -> (res: Result<SignatureData, Error>)
    ensures
        signing_outcome(
            key@,
            policy,
            bytes_or_empty(contained@),
            bytes_or_empty(nonce@),
            res,
        ),
        private_key_size(key@) is Some,
        policy != SecurityPolicy::Unknown && policy != SecurityPolicy::Unsecured && bytes_or_empty(
            contained@,
        ).len() > 0 && bytes_or_empty(nonce@).len() > 0 && res is Err ==> is_signature(
            key@,
            policy,
            bytes_or_empty(contained@) + bytes_or_empty(nonce@),
            Seq::empty(),
        ),
{
    proof {
        use_type_invariant(key);
    }
    let contained = contained.to_bytes();
    let nonce = nonce.to_bytes();
    match sign(key.pem.as_slice(), policy.uri(), contained.as_slice(), nonce.as_slice()) {
        Ok((algorithm, signature)) => Ok(
            SignatureData {
                algorithm: UAString { value: algorithm },
                signature: ByteString { value: signature },
            },
        ),
        Err((bits, message)) => Err(Error { status: StatusCode { bits }, message }),
    }
}

/// Checks a signature over the DER form of `contained` followed by `nonce`.
pub fn verify_signature_data(
    signature: &SignatureData,
    policy: SecurityPolicy,
    certificate: &X509,
    contained: &X509,
    nonce: &ByteString,
) -> (res: Result<(), Error>)
    requires
        policy != SecurityPolicy::Unknown,
    ensures
        certificate_der(contained@) is Some,
        result_view(res) == signature_check(
            bytes_or_empty(signature@.signature),
            policy,
            certificate@,
            certificate_der(contained@)->0 + bytes_or_empty(nonce@),
        ),
{
    proof {
        use_type_invariant(certificate);
        use_type_invariant(contained);
    }
    let signature = signature.signature.to_bytes();
    let nonce = nonce.to_bytes();
    match check_signature(
        signature.as_slice(),
        policy.uri(),
        certificate.source.as_slice(),
        contained.source.as_slice(),
        nonce.as_slice(),
    ) {
        Ok(()) => Ok(()),
        Err((bits, message)) => Err(Error { status: StatusCode { bits }, message }),
    }
}

/// The bytes that an optional certificate was parsed from.
pub open spec fn certificate_view(certificate: Option<X509>) -> Option<Seq<u8>> {
    match certificate {
        Some(held) => Some(held@),
        None => None,
    }
}

/// Protects a secret as the channel and the user token policy demand.
pub fn legacy_encrypt_secret(
    channel_policy: SecurityPolicy,
    channel_mode: MessageSecurityMode,
    policy_id: &UAString,
    policy_uri: &UAString,
    nonce: &ByteString,
    certificate: &Option<X509>,
    secret: &[u8],
) -> (res: Result<LegacyEncryptedSecret, Error>)
    requires
        named_policy(policy_uri@) != Some(SecurityPolicy::Unknown),
        encryption_defined(
            encryption_mode_of(channel_policy, channel_mode, named_policy(policy_uri@)),
            certificate_view(*certificate),
        ),
    ensures
        secret_outcome(
            encryption_mode_of(channel_policy, channel_mode, named_policy(policy_uri@)),
            policy_id@,
            bytes_or_empty(nonce@),
            certificate_view(*certificate),
            secret@,
            res,
        ),
{
    let nonce = nonce.to_bytes();
    let source: Option<&[u8]> = match certificate {
        Some(held) => {
            proof {
                use_type_invariant(held);
            }
            Some(held.source.as_slice())
        },
        None => None,
    };
    match encrypt(
        (channel_policy.uri(), channel_mode.name()),
        policy_id,
        policy_uri,
        nonce.as_slice(),
        source,
        secret,
    ) {
        Ok((policy, held, algorithm)) => Ok(
            LegacyEncryptedSecret {
                policy: UAString { value: policy },
                secret: ByteString { value: held },
                encryption_algorithm: UAString { value: algorithm },
            },
        ),
        Err((bits, message)) => Err(Error { status: StatusCode { bits }, message }),
    }
}

/// The policy that the URI of a user token policy names; `None` where the URI is
/// null or empty.
pub fn policy_named_by(uri: &UAString) -> (res: Option<SecurityPolicy>)
    ensures
        res == named_policy(uri@),
{
    if uri.is_empty() {
        None
    } else {
        Some(SecurityPolicy::from_uri(uri.as_text()))
    }
}

/// Whether the cryptography has an answer for protecting a secret like this.
pub fn encryption_has_answer(
    channel_policy: SecurityPolicy,
    channel_mode: MessageSecurityMode,
    policy_uri: &UAString,
    certificate: &Option<X509>,
) -> (res: bool)
    ensures
        res == encryption_defined(
            encryption_mode_of(channel_policy, channel_mode, named_policy(policy_uri@)),
            certificate_view(*certificate),
        ),
        chars_or_empty(policy_uri@).len() > 0 ==> (*certificate matches Some(held) ==> (
        certificate_key_bits(held@) matches Some(bits) ==> bits / 8 > 66 ==> res)),
{
    match encryption_mode(channel_policy, channel_mode, policy_named_by(policy_uri)) {
        Some(EncryptionMode::AsymmetricFor(policy)) => match certificate {
            Some(held) => match held.key_length() {
                Some(bits) => policy != SecurityPolicy::Unsecured && policy.fits_padding(bits),
                None => true,
            },
            None => false,
        },
        _ => true,
    }
}

} // verus!
