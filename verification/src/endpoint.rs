//! Descriptions of applications and of the endpoints that servers offer.

use vstd::prelude::*;

use crate::security::MessageSecurityMode;
use crate::types::{ByteString, LocalizedText, LocalizedTextView, UAString};

verus! {

/// What an application is.
#[derive(Debug, Clone, Copy, PartialEq, Eq, Structural)]
pub enum ApplicationType {
    Server,
    Client,
    ClientAndServer,
    DiscoveryServer,
}

/// How an application describes itself.
#[derive(Debug)]
pub struct ApplicationDescription {
    pub application_uri: UAString,
    pub product_uri: UAString,
    pub application_name: LocalizedText,
    pub application_type: ApplicationType,
    pub gateway_server_uri: UAString,
    pub discovery_profile_uri: UAString,
    pub discovery_urls: Option<Vec<UAString>>,
}

/// The value of an [`ApplicationDescription`].
pub struct ApplicationDescriptionView {
    pub application_uri: Option<Seq<char>>,
    pub product_uri: Option<Seq<char>>,
    pub application_name: LocalizedTextView,
    pub application_type: ApplicationType,
    pub gateway_server_uri: Option<Seq<char>>,
    pub discovery_profile_uri: Option<Seq<char>>,
    pub discovery_urls: Option<Seq<Option<Seq<char>>>>,
}

/// The values of a list of strings.
pub open spec fn text_views(texts: Seq<UAString>) -> Seq<Option<Seq<char>>> {
    texts.map_values(|text: UAString| text@)
}

impl View for ApplicationDescription {
    type V = ApplicationDescriptionView;

    open spec fn view(&self) -> ApplicationDescriptionView {
        ApplicationDescriptionView {
            application_uri: self.application_uri@,
            product_uri: self.product_uri@,
            application_name: self.application_name@,
            application_type: self.application_type,
            gateway_server_uri: self.gateway_server_uri@,
            discovery_profile_uri: self.discovery_profile_uri@,
            discovery_urls: match self.discovery_urls {
                Some(urls) => Some(text_views(urls@)),
                None => None,
            },
        }
    }
}

/// The description that says nothing: every text in it is null.
pub open spec fn blank_description() -> ApplicationDescriptionView {
    ApplicationDescriptionView {
        application_uri: None,
        product_uri: None,
        application_name: LocalizedTextView { locale: None, text: None },
        application_type: ApplicationType::Server,
        gateway_server_uri: None,
        discovery_profile_uri: None,
        discovery_urls: None,
    }
}

impl Default for ApplicationDescription {
    fn default() -> (res: Self)
        ensures
            res@ == blank_description(),
    {
        ApplicationDescription {
            application_uri: UAString::null(),
            product_uri: UAString::null(),
            application_name: LocalizedText { locale: UAString::null(), text: UAString::null() },
            application_type: ApplicationType::Server,
            gateway_server_uri: UAString::null(),
            discovery_profile_uri: UAString::null(),
            discovery_urls: None,
        }
    }
}

impl Clone for ApplicationDescription {
    fn clone(&self) -> (res: Self)
        ensures
            res@ == self@,
    {
        ApplicationDescription {
            application_uri: self.application_uri.clone(),
            product_uri: self.product_uri.clone(),
            application_name: self.application_name.clone(),
            application_type: self.application_type,
            gateway_server_uri: self.gateway_server_uri.clone(),
            discovery_profile_uri: self.discovery_profile_uri.clone(),
            discovery_urls: match &self.discovery_urls {
                Some(urls) => {
                    let copy = urls.clone();
                    assert(text_views(copy@) =~= text_views(urls@));
                    Some(copy)
                },
                None => None,
            },
        }
    }
}

/// How a user can identify themselves.
#[derive(Debug, Clone, Copy, PartialEq, Eq, Structural)]
pub enum UserTokenType {
    Anonymous,
    UserName,
    Certificate,
    IssuedToken,
}

impl UserTokenType {
    /// The name of the type.
    pub open spec fn spec_name(self) -> Seq<char> {
        match self {
            UserTokenType::Anonymous => "Anonymous"@,
            UserTokenType::UserName => "UserName"@,
            UserTokenType::Certificate => "Certificate"@,
            UserTokenType::IssuedToken => "IssuedToken"@,
        }
    }

    /// The name of the type.
    pub fn name(self) -> (res: &'static str)
        ensures
            res@ == self.spec_name(),
    {
        match self {
            UserTokenType::Anonymous => "Anonymous",
            UserTokenType::UserName => "UserName",
            UserTokenType::Certificate => "Certificate",
            UserTokenType::IssuedToken => "IssuedToken",
        }
    }
}

/// One way of identifying a user that an endpoint accepts.
#[derive(Debug)]
pub struct UserTokenPolicy {
    pub policy_id: UAString,
    pub token_type: UserTokenType,
    pub issued_token_type: UAString,
    pub issuer_endpoint_url: UAString,
    pub security_policy_uri: UAString,
}

/// The value of a [`UserTokenPolicy`].
pub struct UserTokenPolicyView {
    pub policy_id: Option<Seq<char>>,
    pub token_type: UserTokenType,
    pub issued_token_type: Option<Seq<char>>,
    pub issuer_endpoint_url: Option<Seq<char>>,
    pub security_policy_uri: Option<Seq<char>>,
}

impl View for UserTokenPolicy {
    type V = UserTokenPolicyView;

    open spec fn view(&self) -> UserTokenPolicyView {
        UserTokenPolicyView {
            policy_id: self.policy_id@,
            token_type: self.token_type,
            issued_token_type: self.issued_token_type@,
            issuer_endpoint_url: self.issuer_endpoint_url@,
            security_policy_uri: self.security_policy_uri@,
        }
    }
}

impl Clone for UserTokenPolicy {
    fn clone(&self) -> (res: Self)
        ensures
            res@ == self@,
    {
        UserTokenPolicy {
            policy_id: self.policy_id.clone(),
            token_type: self.token_type,
            issued_token_type: self.issued_token_type.clone(),
            issuer_endpoint_url: self.issuer_endpoint_url.clone(),
            security_policy_uri: self.security_policy_uri.clone(),
        }
    }
}

/// The values of a list of user token policies.
pub open spec fn policy_views(policies: Seq<UserTokenPolicy>) -> Seq<UserTokenPolicyView> {
    policies.map_values(|policy: UserTokenPolicy| policy@)
}

/// Whether `index` is where the first policy for `token_type` stands.
pub open spec fn is_first_policy(
    policies: Seq<UserTokenPolicyView>,
    token_type: UserTokenType,
    index: int,
) -> bool {
    &&& 0 <= index < policies.len()
    &&& policies[index].token_type == token_type
    &&& forall|i: int| 0 <= i < index ==> policies[i].token_type != token_type
}

/// The first policy for `token_type`, if there is one.
pub open spec fn first_policy(
    policies: Option<Seq<UserTokenPolicyView>>,
    token_type: UserTokenType,
) -> Option<UserTokenPolicyView> {
    match policies {
        Some(list) => if exists|index: int| is_first_policy(list, token_type, index) {
            Some(list[choose|index: int| is_first_policy(list, token_type, index)])
        } else {
            None
        },
        None => None,
    }
}

/// There is only one first policy for a type.
pub proof fn lemma_first_policy(
    policies: Seq<UserTokenPolicyView>,
    token_type: UserTokenType,
    index: int,
)
    requires
        is_first_policy(policies, token_type, index),
    ensures
        first_policy(Some(policies), token_type) == Some(policies[index]),
{
    let found = choose|i: int| is_first_policy(policies, token_type, i);
    assert(is_first_policy(policies, token_type, found));
    assert(found == index);
}

/// How a server can be reached.
#[derive(Debug)]
pub struct EndpointDescription {
    pub endpoint_url: UAString,
    pub server: ApplicationDescription,
    pub server_certificate: ByteString,
    pub security_mode: MessageSecurityMode,
    pub security_policy_uri: UAString,
    pub user_identity_tokens: Option<Vec<UserTokenPolicy>>,
    pub transport_profile_uri: UAString,
    pub security_level: u8,
}

/// The value of an [`EndpointDescription`].
pub struct EndpointDescriptionView {
    pub endpoint_url: Option<Seq<char>>,
    pub server: ApplicationDescriptionView,
    pub server_certificate: Option<Seq<u8>>,
    pub security_mode: MessageSecurityMode,
    pub security_policy_uri: Option<Seq<char>>,
    pub user_identity_tokens: Option<Seq<UserTokenPolicyView>>,
    pub transport_profile_uri: Option<Seq<char>>,
    pub security_level: u8,
}

impl View for EndpointDescription {
    type V = EndpointDescriptionView;

    open spec fn view(&self) -> EndpointDescriptionView {
        EndpointDescriptionView {
            endpoint_url: self.endpoint_url@,
            server: self.server@,
            server_certificate: self.server_certificate@,
            security_mode: self.security_mode,
            security_policy_uri: self.security_policy_uri@,
            user_identity_tokens: match self.user_identity_tokens {
                Some(policies) => Some(policy_views(policies@)),
                None => None,
            },
            transport_profile_uri: self.transport_profile_uri@,
            security_level: self.security_level,
        }
    }
}

impl Clone for EndpointDescription {
    fn clone(&self) -> (res: Self)
        ensures
            res@ == self@,
    {
        EndpointDescription {
            endpoint_url: self.endpoint_url.clone(),
            server: self.server.clone(),
            server_certificate: self.server_certificate.clone(),
            security_mode: self.security_mode,
            security_policy_uri: self.security_policy_uri.clone(),
            user_identity_tokens: match &self.user_identity_tokens {
                Some(policies) => {
                    let copy = policies.clone();
                    assert(policy_views(copy@) =~= policy_views(policies@));
                    Some(copy)
                },
                None => None,
            },
            transport_profile_uri: self.transport_profile_uri.clone(),
            security_level: self.security_level,
        }
    }
}

impl EndpointDescription {
    /// The first of the endpoint's policies for `token_type`.
    pub fn find_policy(&self, token_type: UserTokenType) -> (res: Option<&UserTokenPolicy>)
        ensures
            match res {
                Some(policy) => first_policy(self@.user_identity_tokens, token_type) == Some(
                    policy@,
                ),
                None => first_policy(self@.user_identity_tokens, token_type) is None,
            },
    {
        match &self.user_identity_tokens {
            Some(policies) => {
                let ghost views = policy_views(policies@);
                let mut index: usize = 0;
                while index < policies.len()
                    invariant
                        index <= policies@.len(),
                        views == policy_views(policies@),
                        self@.user_identity_tokens == Some(views),
                        forall|i: int| 0 <= i < index ==> views[i].token_type != token_type,
                    decreases policies@.len() - index,
                {
                    if policies[index].token_type == token_type {
                        proof {
                            lemma_first_policy(views, token_type, index as int);
                            assert(views[index as int] == policies[index as int]@);
                        }
                        return Some(&policies[index]);
                    }
                    index = index + 1;
                }
                None
            },
            None => None,
        }
    }
}

} // verus!
