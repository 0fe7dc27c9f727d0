//! What all request builders have in common.

use core::time::Duration;

use vstd::prelude::*;

use crate::messages::{RequestHeader, RequestHeaderView};
use crate::types::NodeId;

verus! {

/// The header of a request, and how long to wait for the response.
#[derive(Debug)]
pub struct RequestHeaderBuilder {
    pub header: RequestHeader,
    pub timeout: Duration,
    /// The number by which the client tells its sessions apart.
    pub session_id: u32,
}

/// The value of a [`RequestHeaderBuilder`].
pub struct RequestHeaderBuilderView {
    pub header: RequestHeaderView,
    pub timeout: Duration,
    pub session_id: u32,
}

impl View for RequestHeaderBuilder {
    type V = RequestHeaderBuilderView;

    open spec fn view(&self) -> RequestHeaderBuilderView {
        RequestHeaderBuilderView {
            header: self.header@,
            timeout: self.timeout,
            session_id: self.session_id,
        }
    }
}

impl Clone for RequestHeaderBuilder {
    fn clone(&self) -> (res: Self)
        ensures
            res@ == self@,
    {
        RequestHeaderBuilder {
            header: self.header.clone(),
            timeout: self.timeout,
            session_id: self.session_id,
        }
    }
}

impl RequestHeaderBuilder {
    /// A header that carries the given token and handle.
    pub fn new(session_id: u32, timeout: Duration, auth_token: NodeId, request_handle: u32) -> (res:
        Self)
        ensures
            res@ == (RequestHeaderBuilderView {
                header: RequestHeaderView {
                    authentication_token: auth_token@,
                    request_handle,
                },
                timeout,
                session_id,
            }),
    {
        RequestHeaderBuilder {
            header: RequestHeader { authentication_token: auth_token, request_handle },
            timeout,
            session_id,
        }
    }
}

} // verus!
