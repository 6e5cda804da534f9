//! The HTTP client that one query is sent with.

use crate::request::{proxy_url, proxy_url_text};
use vstd::prelude::*;

verus! {

/// `reqwest::Client`: an opaque value, with nothing claimed of it.
#[verifier::external_type_specification]
#[verifier::external_body]
pub struct ExClient(reqwest::Client);

/// `reqwest::ClientBuilder`: an opaque value, with nothing claimed of it.
#[verifier::external_type_specification]
#[verifier::external_body]
pub struct ExClientBuilder(reqwest::ClientBuilder);

/// `reqwest::Proxy`: an opaque value, with nothing claimed of it.
#[verifier::external_type_specification]
#[verifier::external_body]
pub struct ExProxy(reqwest::Proxy);

/// `reqwest::Error`: an opaque value, with nothing claimed of it.
#[verifier::external_type_specification]
#[verifier::external_body]
pub struct ExError(reqwest::Error);

/// `reqwest::redirect::Policy`: an opaque value, with nothing claimed of it.
#[verifier::external_type_specification]
#[verifier::external_body]
pub struct ExPolicy(reqwest::redirect::Policy);

/// Whether `reqwest::Proxy::all` accepts `url` as the address of a proxy.
pub uninterp spec fn proxy_accepted(url: Seq<char>) -> bool;

/// `reqwest::Client::builder` makes a builder with reqwest's defaults.
/// Nothing is claimed of the result.
pub assume_specification[ reqwest::Client::builder ]() -> (builder: reqwest::ClientBuilder)
;

/// `reqwest::redirect::Policy::none` makes the policy that follows no
/// redirect. Nothing is claimed of the result.
pub assume_specification[ reqwest::redirect::Policy::none ]() -> (policy: reqwest::redirect::Policy)
;

/// `reqwest::ClientBuilder::redirect` replaces the redirect policy of the
/// builder. Nothing is claimed of the result.
pub assume_specification[ reqwest::ClientBuilder::redirect ](
    builder: reqwest::ClientBuilder,
    policy: reqwest::redirect::Policy,
) -> (configured: reqwest::ClientBuilder)
;

/// `reqwest::ClientBuilder::proxy` adds a proxy to the builder. Nothing is
/// claimed of the result.
pub assume_specification[ reqwest::ClientBuilder::proxy ](
    builder: reqwest::ClientBuilder,
    proxy: reqwest::Proxy,
) -> (configured: reqwest::ClientBuilder)
;

/// `reqwest::ClientBuilder::build` makes the client, or fails where reqwest
/// cannot set up its transport. Nothing is claimed of the result.
pub assume_specification[ reqwest::ClientBuilder::build ](builder: reqwest::ClientBuilder) -> (client:
    Result<reqwest::Client, reqwest::Error>)
;

/// `reqwest::Proxy::all` makes a proxy for all traffic out of `url`, or fails
/// where it cannot read `url` as the address of a proxy. Claimed: which of
/// the two happens depends on `url` alone.
#[verifier::external_body]
fn proxy_for_all(url: &str) -> (proxy: Result<reqwest::Proxy, reqwest::Error>)
    ensures
        proxy is Ok <==> proxy_accepted(url@),
{
    reqwest::Proxy::all(url)
}

/// Why no client could be made.
#[derive(Debug)]
pub enum ClientError {
    /// reqwest does not accept the proxy's URL.
    Proxy(reqwest::Error),
    /// reqwest could not set the client up.
    Setup(reqwest::Error),
}

impl ClientError {
    /// The error of reqwest that is behind this one.
    pub fn into_source(self) -> (source: reqwest::Error)
        ensures
            source == match self {
                ClientError::Proxy(refusal) => refusal,
                ClientError::Setup(failure) => failure,
            },
    {
        match self {
            ClientError::Proxy(refusal) => refusal,
            ClientError::Setup(failure) => failure,
        }
    }
}

/// A client that follows no redirect and sends through `proxy`, or directly
/// where `proxy` is `None`, given what reqwest made of the proxy's URL. A
/// refusal of the proxy is passed on; beyond that, reqwest decides whether
/// the client can be set up.
pub fn client_through(proxy: Option<Result<reqwest::Proxy, reqwest::Error>>) -> (client: Result<
    reqwest::Client,
    ClientError,
>)
    ensures
        match proxy {
            Some(Err(refusal)) => client == Err::<reqwest::Client, ClientError>(
                ClientError::Proxy(refusal),
            ),
            _ => client is Ok || client matches Err(ClientError::Setup(_)),
        },
{
    let builder = reqwest::Client::builder().redirect(reqwest::redirect::Policy::none());
    let configured = match proxy {
        None => builder,
        Some(Ok(through)) => builder.proxy(through),
        Some(Err(refusal)) => {
            return Err(ClientError::Proxy(refusal));
        },
    };
    match configured.build() {
        Ok(client) => Ok(client),
        Err(failure) => Err(ClientError::Setup(failure)),
    }
}

/// A client that follows no redirect and sends through `proxy`, a `host:port`
/// descriptor, over plain HTTP, or directly where `proxy` is `None`.
///
/// Fails with [`ClientError::Proxy`] exactly where reqwest does not accept
/// the proxy's URL, and with [`ClientError::Setup`] where reqwest fails to
/// set the client up.
pub fn build_client(proxy: Option<&str>) -> (client: Result<reqwest::Client, ClientError>)
    ensures
        client matches Err(ClientError::Proxy(_)) <==> (proxy matches Some(descriptor)
            && !proxy_accepted(proxy_url_text(descriptor@))),
{
    match proxy {
        None => client_through(None),
        Some(descriptor) => {
            let url = proxy_url(descriptor);
            client_through(Some(proxy_for_all(url.as_str())))
        },
    }
}

} // verus!
