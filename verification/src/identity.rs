//! How the client's user identifies themselves.

use vstd::prelude::*;

use crate::crypto::{PrivateKey, X509};
use crate::endpoint::UserTokenType;

verus! {

/// A password. It has no `Debug` form, so that it stays out of logs.
pub struct Password(pub String);

/// The identity that a session is activated with.
pub enum IdentityToken {
    Anonymous,
    UserName(String, Password),
    X509(X509, PrivateKey),
    /// A token that some service issues each time a session is activated.
    IssuedToken,
}

/// The value of an [`IdentityToken`].
pub enum IdentityTokenView {
    Anonymous,
    UserName(Seq<char>, Seq<char>),
    X509(Seq<u8>, Seq<u8>),
    IssuedToken,
}

impl View for IdentityToken {
    type V = IdentityTokenView;

    open spec fn view(&self) -> IdentityTokenView {
        match self {
            IdentityToken::Anonymous => IdentityTokenView::Anonymous,
            IdentityToken::UserName(user, password) => IdentityTokenView::UserName(
                user@,
                password.0@,
            ),
            IdentityToken::X509(certificate, key) => IdentityTokenView::X509(certificate@, key@),
            IdentityToken::IssuedToken => IdentityTokenView::IssuedToken,
        }
    }
}

impl IdentityTokenView {
    /// The type of token that a server has to accept for this identity.
    pub open spec fn token_type(self) -> UserTokenType {
        match self {
            IdentityTokenView::Anonymous => UserTokenType::Anonymous,
            IdentityTokenView::UserName(_, _) => UserTokenType::UserName,
            IdentityTokenView::X509(_, _) => UserTokenType::Certificate,
            IdentityTokenView::IssuedToken => UserTokenType::IssuedToken,
        }
    }
}

impl IdentityToken {
    /// The type of token that a server has to accept for this identity.
    pub fn token_type(&self) -> (res: UserTokenType)
        ensures
            res == self@.token_type(),
    {
        match self {
            IdentityToken::Anonymous => UserTokenType::Anonymous,
            IdentityToken::UserName(_, _) => UserTokenType::UserName,
            IdentityToken::X509(_, _) => UserTokenType::Certificate,
            IdentityToken::IssuedToken => UserTokenType::IssuedToken,
        }
    }
}

impl Clone for IdentityToken {
    fn clone(&self) -> (res: Self)
        ensures
            res@ == self@,
    {
        match self {
            IdentityToken::Anonymous => IdentityToken::Anonymous,
            IdentityToken::UserName(user, password) => IdentityToken::UserName(
                user.clone(),
                Password(password.0.clone()),
            ),
            IdentityToken::X509(certificate, key) => IdentityToken::X509(
                certificate.clone(),
                key.clone(),
            ),
            IdentityToken::IssuedToken => IdentityToken::IssuedToken,
        }
    }
}

} // verus!
