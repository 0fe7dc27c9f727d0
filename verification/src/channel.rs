//! What the client knows of the secure channel that a session runs over.

use vstd::prelude::*;

use crate::crypto::{X509, certificate_view};
use crate::error::{BAD_NONCE_INVALID, Error, ErrorView, error_view};
use crate::security::{MessageSecurityMode, SecurityPolicy};
use crate::types::{ByteString, NodeId, NodeIdView};

verus! {

/// The state of a secure channel, as far as the session services read and change
/// it.
pub struct SecureChannel {
    security_policy: SecurityPolicy,
    security_mode: MessageSecurityMode,
    remote_cert: Option<X509>,
    remote_nonce: Vec<u8>,
    auth_token: NodeId,
}

/// The value of a [`SecureChannel`].
pub struct SecureChannelView {
    pub security_policy: SecurityPolicy,
    pub security_mode: MessageSecurityMode,
    /// The server's certificate.
    pub remote_cert: Option<Seq<u8>>,
    /// The server's latest nonce; empty as long as there is none.
    pub remote_nonce: Seq<u8>,
    /// The token that stands for the session in every request.
    pub auth_token: NodeIdView,
}

impl View for SecureChannel {
    type V = SecureChannelView;

    closed spec fn view(&self) -> SecureChannelView {
        SecureChannelView {
            security_policy: self.security_policy,
            security_mode: self.security_mode,
            remote_cert: certificate_view(self.remote_cert),
            remote_nonce: self.remote_nonce@,
            auth_token: self.auth_token@,
        }
    }
}

impl Clone for SecureChannel {
    fn clone(&self) -> (res: Self)
        ensures
            res@ == self@,
    {
        SecureChannel {
            security_policy: self.security_policy,
            security_mode: self.security_mode,
            remote_cert: match &self.remote_cert {
                Some(certificate) => Some(certificate.clone()),
                None => None,
            },
            remote_nonce: vstd::slice::slice_to_vec(self.remote_nonce.as_slice()),
            auth_token: self.auth_token.clone(),
        }
    }
}

impl SecureChannelView {
    /// Whether the channel takes `nonce` as the server's. Only a channel without
    /// security does without one.
    pub open spec fn takes_nonce(self, nonce: Option<Seq<u8>>) -> bool {
        nonce is Some || self.security_policy == SecurityPolicy::Unsecured
    }

    /// The channel once it took `nonce`. A missing nonce leaves the earlier one.
    pub open spec fn with_nonce(self, nonce: Option<Seq<u8>>) -> SecureChannelView {
        SecureChannelView {
            remote_nonce: match nonce {
                Some(bytes) => bytes,
                None => self.remote_nonce,
            },
            ..self
        }
    }

    /// The channel once the server made a session on it.
    pub open spec fn with_session(
        self,
        nonce: Option<Seq<u8>>,
        certificate: Option<Seq<u8>>,
        auth_token: NodeIdView,
    ) -> SecureChannelView {
        SecureChannelView { remote_cert: certificate, auth_token, ..self.with_nonce(nonce) }
    }
}

/// The error for a nonce that the channel does not take.
pub open spec fn nonce_refusal() -> ErrorView {
    error_view(BAD_NONCE_INVALID, "Remote nonce is invalid"@)
}

impl SecureChannel {
    /// A channel with the given state.
    pub fn new(
        security_policy: SecurityPolicy,
        security_mode: MessageSecurityMode,
        remote_cert: Option<X509>,
        remote_nonce: Vec<u8>,
        auth_token: NodeId,
    ) -> (res: Self)
        ensures
            res@ == (SecureChannelView {
                security_policy,
                security_mode,
                remote_cert: certificate_view(remote_cert),
                remote_nonce: remote_nonce@,
                auth_token: auth_token@,
            }),
    {
        SecureChannel { security_policy, security_mode, remote_cert, remote_nonce, auth_token }
    }

    /// The policy that secures the channel.
    pub fn security_policy(&self) -> (res: SecurityPolicy)
        ensures
            res == self@.security_policy,
    {
        self.security_policy
    }

    /// How the channel's messages are protected.
    pub fn security_mode(&self) -> (res: MessageSecurityMode)
        ensures
            res == self@.security_mode,
    {
        self.security_mode
    }

    /// The server's certificate.
    pub fn remote_cert(&self) -> (res: &Option<X509>)
        ensures
            certificate_view(*res) == self@.remote_cert,
    {
        &self.remote_cert
    }

    /// The server's latest nonce; null as long as there is none, or it is empty.
    pub fn remote_nonce_as_byte_string(&self) -> (res: ByteString)
        ensures
            self@.remote_nonce.len() == 0 ==> res@ is None,
            self@.remote_nonce.len() > 0 ==> res@ == Some(self@.remote_nonce),
    {
        if self.remote_nonce.len() == 0 {
            ByteString::null()
        } else {
            ByteString::from_bytes(self.remote_nonce.as_slice())
        }
    }

    /// The token that stands for the session in every request.
    pub fn auth_token(&self) -> (res: &NodeId)
        ensures
            res@ == self@.auth_token,
    {
        &self.auth_token
    }

    /// Stores the server's nonce.
    pub fn set_remote_nonce_from_byte_string(&mut self, nonce: &ByteString) -> (res: Result<
        (),
        Error,
    >)
        ensures
            res is Ok <==> old(self)@.takes_nonce(nonce@),
            res is Ok ==> final(self)@ == old(self)@.with_nonce(nonce@),
            res is Err ==> res->Err_0@ == nonce_refusal() && *final(self) == *old(self),
    {
        match &nonce.value {
            Some(bytes) => {
                self.remote_nonce = vstd::slice::slice_to_vec(bytes.as_slice());
                Ok(())
            },
            None => if self.security_policy != SecurityPolicy::Unsecured {
                Err(Error::new(BAD_NONCE_INVALID, "Remote nonce is invalid"))
            } else {
                Ok(())
            },
        }
    }

    /// Takes over what the response to a session request brought: the server's
    /// nonce and certificate, and the token that later requests carry. A nonce
    /// that the channel does not take leaves the channel as it was.
    pub fn update_from_created_session(
        &mut self,
        nonce: &ByteString,
        certificate: Option<X509>,
        auth_token: &NodeId,
    ) -> (res: Result<(), Error>)
        ensures
            res is Ok <==> old(self)@.takes_nonce(nonce@),
            res is Ok ==> final(self)@ == old(self)@.with_session(
                nonce@,
                certificate_view(certificate),
                auth_token@,
            ),
            res is Err ==> res->Err_0@ == nonce_refusal() && *final(self) == *old(self),
    {
        match self.set_remote_nonce_from_byte_string(nonce) {
            Ok(()) => {
                self.remote_cert = certificate;
                self.auth_token = auth_token.clone();
                Ok(())
            },
            Err(error) => Err(error),
        }
    }

    /// Takes over the nonce that the response to an activation brought.
    pub fn update_from_activated_session(&mut self, nonce: &ByteString) -> (res: Result<(), Error>)
        ensures
            res is Ok <==> old(self)@.takes_nonce(nonce@),
            res is Ok ==> final(self)@ == old(self)@.with_nonce(nonce@),
            res is Err ==> res->Err_0@ == nonce_refusal() && *final(self) == *old(self),
    {
        self.set_remote_nonce_from_byte_string(nonce)
    }
}

} // verus!
