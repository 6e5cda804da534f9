//! The request that asks the upstream service for one address's award flow.

use crate::text::{decimal, decimal_is_injective, push_decimal};
use vstd::prelude::*;
use vstd::string::*;

verus! {

/// The text of the query URL for `address` at `unix_seconds`: the fixed
/// endpoint with the address as `account` and the time as `t`. The address is
/// inserted as it is, without escaping.
pub open spec fn request_url_text(address: Seq<char>, unix_seconds: nat) -> Seq<char> {
    "https://opapi.kiloex.io/point/queryKiloAccountAwardFlow?type=0&account="@ + address + "&t="@
        + decimal(unix_seconds)
}

/// The URL to `GET` for `address` when the wall clock reads `unix_seconds`
/// seconds since the epoch.
pub fn request_url(address: &str, unix_seconds: u64) -> (url: String)
    ensures
        url@ == request_url_text(address@, unix_seconds as nat),
{
    let mut url = String::from_str(
        "https://opapi.kiloex.io/point/queryKiloAccountAwardFlow?type=0&account=",
    );
    url.append(address);
    url.append("&t=");
    push_decimal(&mut url, unix_seconds);
    url
}

/// The URL tells the seconds apart: for one address, requests at different
/// times have different URLs.
pub proof fn request_url_tells_time(address: Seq<char>, first: nat, second: nat)
    requires
        request_url_text(address, first) == request_url_text(address, second),
    ensures
        first == second,
{
    let front = "https://opapi.kiloex.io/point/queryKiloAccountAwardFlow?type=0&account="@ + address
        + "&t="@;
    let one = request_url_text(address, first);
    let other = request_url_text(address, second);
    assert(one.skip(front.len() as int) =~= decimal(first));
    assert(other.skip(front.len() as int) =~= decimal(second));
    decimal_is_injective(first, second);
}

/// The text of the URL under which a `host:port` proxy is reached: the plain
/// HTTP scheme in front of the descriptor.
pub open spec fn proxy_url_text(proxy: Seq<char>) -> Seq<char> {
    "http://"@ + proxy
}

/// The URL of the proxy that `proxy`, a `host:port` descriptor, names.
pub fn proxy_url(proxy: &str) -> (url: String)
    ensures
        url@ == proxy_url_text(proxy@),
{
    let mut url = String::from_str("http://");
    url.append(proxy);
    url
}

} // verus!
