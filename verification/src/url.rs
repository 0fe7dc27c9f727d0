//! Host names of endpoint URLs.

use vstd::prelude::*;

verus! {

/// The host name in `url`; where there is none, the reason in words.
pub uninterp spec fn url_hostname(url: Seq<char>) -> Result<Seq<char>, Seq<char>>;

/// Calls `opcua_core::comms::url::hostname_from_url`, and on its error `to_string`.
/// Both depend on `url` alone.
#[verifier::external_body]
pub(crate) fn hostname_from_url(url: &str) -> (res: Result<String, String>)
    ensures
        match res {
            Ok(hostname) => url_hostname(url@) == Ok::<Seq<char>, Seq<char>>(hostname@),
            Err(reason) => url_hostname(url@) == Err::<Seq<char>, Seq<char>>(reason@),
        },
{
    opcua_core::comms::url::hostname_from_url(url).map_err(|error| error.to_string())
}

} // verus!
