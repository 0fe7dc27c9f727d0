//! Security policies and modes, and what they decide about secrets and signatures.

use vstd::prelude::*;

use crate::error::{BAD_SECURITY_CHECKS_FAILED, BAD_SECURITY_POLICY_REJECTED, ErrorView, error_view};

verus! {

/// The algorithms that secure a channel or a user token.
#[derive(Debug, Clone, Copy, PartialEq, Eq, Structural)]
pub enum SecurityPolicy {
    Unknown,
    /// No security.
    Unsecured,
    Aes128Sha256RsaOaep,
    Basic256Sha256,
    Aes256Sha256RsaPss,
    Basic128Rsa15,
    Basic256,
}

/// How the messages of a channel are protected.
#[derive(Debug, Clone, Copy, PartialEq, Eq, Structural)]
pub enum MessageSecurityMode {
    Invalid,
    /// Neither signed nor encrypted.
    Unsecured,
    Sign,
    SignAndEncrypt,
}

/// The policy that a URI stands for; `Unknown` for any URI that is not one of
/// the six listed here.
pub open spec fn policy_of_uri(uri: Seq<char>) -> SecurityPolicy {
    if uri == "http://opcfoundation.org/UA/SecurityPolicy#None"@ {
        SecurityPolicy::Unsecured
    } else if uri == "http://opcfoundation.org/UA/SecurityPolicy#Basic128Rsa15"@ {
        SecurityPolicy::Basic128Rsa15
    } else if uri == "http://opcfoundation.org/UA/SecurityPolicy#Basic256"@ {
        SecurityPolicy::Basic256
    } else if uri == "http://opcfoundation.org/UA/SecurityPolicy#Basic256Sha256"@ {
        SecurityPolicy::Basic256Sha256
    } else if uri == "http://opcfoundation.org/UA/SecurityPolicy#Aes128_Sha256_RsaOaep"@ {
        SecurityPolicy::Aes128Sha256RsaOaep
    } else if uri == "http://opcfoundation.org/UA/SecurityPolicy#Aes256_Sha256_RsaPss"@ {
        SecurityPolicy::Aes256Sha256RsaPss
    } else {
        SecurityPolicy::Unknown
    }
}

/// The mode that a name stands for; `Invalid` for any other name.
pub open spec fn mode_of_name(name: Seq<char>) -> MessageSecurityMode {
    if name == "None"@ {
        MessageSecurityMode::Unsecured
    } else if name == "Sign"@ {
        MessageSecurityMode::Sign
    } else if name == "SignAndEncrypt"@ {
        MessageSecurityMode::SignAndEncrypt
    } else {
        MessageSecurityMode::Invalid
    }
}

impl SecurityPolicy {
    /// The policy that `uri` stands for.
    pub fn from_uri(uri: &str) -> (res: SecurityPolicy)
        ensures
            res == policy_of_uri(uri@),
    {
        security_policy_from_uri(uri)
    }

    /// The URI of the policy. `Unknown` has none: its text is empty.
    pub fn uri(self) -> (res: &'static str)
        ensures
            policy_of_uri(res@) == self,
            self == SecurityPolicy::Unknown ==> res@.len() == 0,
    {
        proof {
            lemma_policy_uri_lengths();
        }
        match self {
            SecurityPolicy::Unknown => "",
            SecurityPolicy::Unsecured => "http://opcfoundation.org/UA/SecurityPolicy#None",
            SecurityPolicy::Aes128Sha256RsaOaep => {
                "http://opcfoundation.org/UA/SecurityPolicy#Aes128_Sha256_RsaOaep"
            },
            SecurityPolicy::Basic256Sha256 => {
                "http://opcfoundation.org/UA/SecurityPolicy#Basic256Sha256"
            },
            SecurityPolicy::Aes256Sha256RsaPss => {
                "http://opcfoundation.org/UA/SecurityPolicy#Aes256_Sha256_RsaPss"
            },
            SecurityPolicy::Basic128Rsa15 => {
                "http://opcfoundation.org/UA/SecurityPolicy#Basic128Rsa15"
            },
            SecurityPolicy::Basic256 => "http://opcfoundation.org/UA/SecurityPolicy#Basic256",
        }
    }

    /// The bytes of an RSA block that the policy's encryption padding takes up.
    pub open spec fn padding_overhead(self) -> nat {
        match self {
            SecurityPolicy::Basic128Rsa15 => 11,
            SecurityPolicy::Aes256Sha256RsaPss => 66,
            _ => 42,
        }
    }

    /// Whether an RSA key of `bits` bits is longer than the policy's encryption
    /// padding.
    pub fn fits_padding(self, bits: usize) -> (res: bool)
        ensures
            res == (bits / 8 > self.padding_overhead()),
            bits / 8 > 66 ==> res,
            bits / 8 <= 11 ==> !res,
    {
        let overhead: usize = match self {
            SecurityPolicy::Basic128Rsa15 => 11,
            SecurityPolicy::Aes256Sha256RsaPss => 66,
            _ => 42,
        };
        bits / 8 > overhead
    }

    /// The URI of the policy's asymmetric encryption algorithm.
    pub open spec fn encryption_algorithm(self) -> Seq<char> {
        match self {
            SecurityPolicy::Basic128Rsa15 => "http://www.w3.org/2001/04/xmlenc#rsa-1_5"@,
            SecurityPolicy::Aes256Sha256RsaPss => {
                "http://opcfoundation.org/UA/security/rsa-oaep-sha2-256"@
            },
            _ => "http://www.w3.org/2001/04/xmlenc#rsa-oaep"@,
        }
    }

    /// The size in bytes of the shortest RSA key that the policy's digest and signature
    /// padding fit into.
    pub open spec fn minimum_signing_size(self) -> nat {
        match self {
            SecurityPolicy::Basic128Rsa15 | SecurityPolicy::Basic256 => 46,
            SecurityPolicy::Aes256Sha256RsaPss => 66,
            _ => 62,
        }
    }

    /// The URI of the policy's asymmetric signature algorithm.
    pub open spec fn signature_algorithm(self) -> Seq<char> {
        match self {
            SecurityPolicy::Basic128Rsa15 | SecurityPolicy::Basic256 => {
                "http://www.w3.org/2000/09/xmldsig#rsa-sha1"@
            },
            SecurityPolicy::Aes256Sha256RsaPss => {
                "http://opcfoundation.org/UA/security/rsa-pss-sha2-256"@
            },
            _ => "http://www.w3.org/2001/04/xmldsig-more#rsa-sha256"@,
        }
    }
}

/// The six policy URIs have six different lengths, none of them zero.
proof fn lemma_policy_uri_lengths()
    ensures
        ""@.len() == 0,
        "http://opcfoundation.org/UA/SecurityPolicy#None"@.len() == 47,
        "http://opcfoundation.org/UA/SecurityPolicy#Basic256"@.len() == 51,
        "http://opcfoundation.org/UA/SecurityPolicy#Basic128Rsa15"@.len() == 56,
        "http://opcfoundation.org/UA/SecurityPolicy#Basic256Sha256"@.len() == 57,
        "http://opcfoundation.org/UA/SecurityPolicy#Aes256_Sha256_RsaPss"@.len() == 63,
        "http://opcfoundation.org/UA/SecurityPolicy#Aes128_Sha256_RsaOaep"@.len() == 64,
{
    reveal_strlit("");
    reveal_strlit("http://opcfoundation.org/UA/SecurityPolicy#None");
    reveal_strlit("http://opcfoundation.org/UA/SecurityPolicy#Basic256");
    reveal_strlit("http://opcfoundation.org/UA/SecurityPolicy#Basic128Rsa15");
    reveal_strlit("http://opcfoundation.org/UA/SecurityPolicy#Basic256Sha256");
    reveal_strlit("http://opcfoundation.org/UA/SecurityPolicy#Aes256_Sha256_RsaPss");
    reveal_strlit("http://opcfoundation.org/UA/SecurityPolicy#Aes128_Sha256_RsaOaep");
}

impl MessageSecurityMode {
    /// The name of the mode. `Invalid` has none: its text is empty.
    pub fn name(self) -> (res: &'static str)
        ensures
            mode_of_name(res@) == self,
            self == MessageSecurityMode::Invalid ==> res@.len() == 0,
    {
        proof {
            reveal_strlit("");
            reveal_strlit("None");
            reveal_strlit("Sign");
            reveal_strlit("SignAndEncrypt");
            assert(""@.len() == 0 && "None"@.len() == 4 && "Sign"@.len() == 4);
            assert("SignAndEncrypt"@.len() == 14);
            assert("None"@[0] != "Sign"@[0]);
        }
        match self {
            MessageSecurityMode::Invalid => "",
            MessageSecurityMode::Unsecured => "None",
            MessageSecurityMode::Sign => "Sign",
            MessageSecurityMode::SignAndEncrypt => "SignAndEncrypt",
        }
    }
}

/// How a secret travels to the server.
#[derive(Debug, Clone, Copy, PartialEq, Eq, Structural)]
pub enum EncryptionMode {
    /// As it is.
    Plain,
    /// Encrypted with the server's public key, as this policy says.
    AsymmetricFor(SecurityPolicy),
}

/// How a secret travels over a channel with the policy `channel_policy` and
/// the mode `mode`, when the user token policy names `token_policy` (`None`
/// where it names no policy); or why it cannot.
pub open spec fn encryption_mode_of(
    channel_policy: SecurityPolicy,
    mode: MessageSecurityMode,
    token_policy: Option<SecurityPolicy>,
) -> Result<EncryptionMode, ErrorView> {
    if channel_policy == SecurityPolicy::Unknown || token_policy == Some(SecurityPolicy::Unknown) {
        Err(error_view(BAD_SECURITY_POLICY_REJECTED, "Unknown user token security policy"@))
    } else if mode == MessageSecurityMode::Invalid {
        Err(error_view(BAD_SECURITY_CHECKS_FAILED, "Invalid message security mode"@))
    } else if mode == MessageSecurityMode::Unsecured {
        if channel_policy != SecurityPolicy::Unsecured {
            Err(error_view(BAD_SECURITY_CHECKS_FAILED, "Invalid message security mode"@))
        } else {
            match token_policy {
                None | Some(SecurityPolicy::Unsecured) => Ok(EncryptionMode::Plain),
                Some(policy) => Ok(EncryptionMode::AsymmetricFor(policy)),
            }
        }
    } else {
        match token_policy {
            None => Ok(EncryptionMode::AsymmetricFor(channel_policy)),
            Some(SecurityPolicy::Unsecured) => if mode == MessageSecurityMode::SignAndEncrypt {
                Ok(EncryptionMode::Plain)
            } else {
                Err(
                    error_view(
                        BAD_SECURITY_POLICY_REJECTED,
                        "User token policy security policy is None but message security mode is Sign"@,
                    ),
                )
            },
            Some(policy) => Ok(EncryptionMode::AsymmetricFor(policy)),
        }
    }
}

/// How a secret travels; `None` where it cannot.
pub fn encryption_mode(
    channel_policy: SecurityPolicy,
    mode: MessageSecurityMode,
    token_policy: Option<SecurityPolicy>,
) -> (res: Option<EncryptionMode>)
    ensures
        res == (match encryption_mode_of(channel_policy, mode, token_policy) {
            Ok(encryption) => Some(encryption),
            Err(_) => None,
        }),
{
    if channel_policy == SecurityPolicy::Unknown {
        return None;
    }
    match (mode, token_policy) {
        (_, Some(SecurityPolicy::Unknown)) => None,
        (MessageSecurityMode::Invalid, _) => None,
        (MessageSecurityMode::Unsecured, _) if channel_policy != SecurityPolicy::Unsecured => None,
        (MessageSecurityMode::Unsecured, None) => Some(EncryptionMode::Plain),
        (MessageSecurityMode::Sign, Some(SecurityPolicy::Unsecured)) => None,
        (_, Some(SecurityPolicy::Unsecured)) => Some(EncryptionMode::Plain),
        (_, Some(policy)) => Some(EncryptionMode::AsymmetricFor(policy)),
        (_, None) => Some(EncryptionMode::AsymmetricFor(channel_policy)),
    }
}

/// Calls `opcua_crypto::SecurityPolicy::from_uri`, which matches the URI against
/// the six that it knows and answers `Unknown` for every other text.
#[verifier::external_body]
fn security_policy_from_uri(uri: &str) -> (res: SecurityPolicy)
    ensures
        res == policy_of_uri(uri@),
{
    match opcua_crypto::SecurityPolicy::from_uri(uri) {
        opcua_crypto::SecurityPolicy::Unknown => SecurityPolicy::Unknown,
        opcua_crypto::SecurityPolicy::None => SecurityPolicy::Unsecured,
        opcua_crypto::SecurityPolicy::Aes128Sha256RsaOaep => SecurityPolicy::Aes128Sha256RsaOaep,
        opcua_crypto::SecurityPolicy::Basic256Sha256 => SecurityPolicy::Basic256Sha256,
        opcua_crypto::SecurityPolicy::Aes256Sha256RsaPss => SecurityPolicy::Aes256Sha256RsaPss,
        opcua_crypto::SecurityPolicy::Basic128Rsa15 => SecurityPolicy::Basic128Rsa15,
        opcua_crypto::SecurityPolicy::Basic256 => SecurityPolicy::Basic256,
    }
}

} // verus!
