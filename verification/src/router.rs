//! Backend URLs from the page's location, and the safe-area classes for
//! edge-to-edge mobile webviews.

use vstd::prelude::*;

verus! {

/// `{protocol}//{host}{api_uri}`.
pub open spec fn endpoint_spec(protocol: Seq<char>, host: Seq<char>, api_uri: Seq<char>) -> Seq<char> {
    protocol + "//"@ + host + api_uri
}

/// The URL of `api_uri` on the backend that served the page, from the
/// location's protocol (with its colon, `"http:"`) and host (`"127.0.0.1:8080"`).
pub fn endpoint(protocol: &str, host: &str, api_uri: &str) -> (url: String)
    ensures
        url@ == endpoint_spec(protocol@, host@, api_uri@),
{
    let mut url = String::from_str(protocol);
    url.append("//");
    url.append(host);
    url.append(api_uri);
    proof {
        assert(url@ =~= endpoint_spec(protocol@, host@, api_uri@));
    }
    url
}

/// The protocol as the location reports it: the scheme and a colon.
pub fn scheme_protocol(scheme: &str) -> (p: String)
    ensures
        p@ == scheme@ + ":"@,
{
    let mut p = String::from_str(scheme);
    p.append(":");
    p
}

/// The server-side endpoint: without a request context the protocol falls
/// back to `http:` and the host to the empty string.
pub fn endpoint_or_default(protocol: Option<&str>, host: Option<&str>, api_uri: &str) -> (url: String)
    ensures
        url@ == endpoint_spec(
            match protocol { Some(p) => p@, None => "http:"@ },
            match host { Some(h) => h@, None => ""@ },
            api_uri@,
        ),
{
    let p: &str = match protocol { Some(p) => p, None => "http:" };
    let h: &str = match host { Some(h) => h, None => "" };
    endpoint(p, h, api_uri)
}

/// Clears the status bar / notch.
pub const SAFE_AREA_TOP: &'static str = "pt-[env(safe-area-inset-top)]";
/// Clears the home indicator / gesture bar.
pub const SAFE_AREA_BOTTOM: &'static str = "pb-[env(safe-area-inset-bottom)]";
/// Clears rounded corners and landscape cutouts on both sides.
pub const SAFE_AREA_X: &'static str = "pl-[env(safe-area-inset-left)] pr-[env(safe-area-inset-right)]";
/// All four edges, for a container that owns the whole viewport.
pub const SAFE_AREA_ALL: &'static str = "pt-[env(safe-area-inset-top)] pr-[env(safe-area-inset-right)] pb-[env(safe-area-inset-bottom)] pl-[env(safe-area-inset-left)]";

} // verus!
