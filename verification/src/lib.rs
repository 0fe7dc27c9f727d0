//! The client side of the OPC UA session services.
//!
//! Each service has a builder for its request and takes what came back. Sending
//! the request and waiting for the response is left to the caller.

pub mod activate_session;
pub mod activation_laws;
pub mod cancel;
pub mod channel;
pub mod close_session;
pub mod create_session;
pub mod creation_laws;
pub mod crypto;
pub mod endpoint;
pub mod error;
pub mod identity;
pub mod laws;
pub mod messages;
pub mod request_builder;
pub mod security;
pub mod session;
pub mod types;
pub mod url;
pub mod value_laws;

pub use activate_session::ActivateSession;
pub use cancel::Cancel;
pub use channel::SecureChannel;
pub use close_session::CloseSession;
pub use create_session::{CertificateCheck, CreateSession, PendingSession, SessionProgress};
pub use crypto::{PrivateKey, SignatureData, X509};
pub use endpoint::{
    ApplicationDescription, ApplicationType, EndpointDescription, UserTokenPolicy, UserTokenType,
};
pub use error::{Error, StatusCode};
pub use identity::{IdentityToken, Password};
pub use messages::{
    ActivateSessionRequest, ActivateSessionResponse, CancelRequest, CancelResponse,
    CloseSessionRequest, CloseSessionResponse, CreateSessionRequest, CreateSessionResponse,
    Milliseconds, RequestHeader, ResponseHeader, ResponseMessage, SignedSoftwareCertificate,
    UserIdentityToken,
};
pub use request_builder::RequestHeaderBuilder;
pub use security::{MessageSecurityMode, SecurityPolicy};
pub use session::{Session, SessionInfo};
pub use types::{ByteString, Identifier, LocalizedText, NodeId, UAString};
