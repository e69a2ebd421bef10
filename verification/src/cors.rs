//! The cross-origin policy of the service, held in a `tower-http` layer.

use tower_http::cors::{Any, CorsLayer};
use vstd::prelude::*;

verus! {

#[verifier::external_type_specification]
#[verifier::external_body]
pub struct ExCorsLayer(tower_http::cors::CorsLayer);

/// A response header by which a server grants access across origins.
#[derive(Clone, Copy, Debug, PartialEq, Eq, Structural)]
pub enum Grant {
    /// `access-control-allow-origin`
    AllowOrigin,
    /// `access-control-allow-methods`
    AllowMethods,
    /// `access-control-allow-headers`
    AllowHeaders,
    /// `access-control-allow-credentials`
    AllowCredentials,
}

/// The header value that grants without restriction.
pub open spec fn wildcard() -> Seq<char> {
    "*"@
}

/// What a layer has been set to grant: each of the four headers that it
/// sends with a fixed value, and that value. The origin and the credentials
/// go out with every response, the methods and the request headers with the
/// answer to a preflight request.
pub uninterp spec fn cors_grants(layer: CorsLayer) -> Map<Grant, Seq<char>>;

/// A layer that grants nothing.
pub open spec fn no_grants() -> Map<Grant, Seq<char>> {
    Map::empty()
}

/// Every origin, every method and every request header; no credentials.
pub open spec fn permissive_grants() -> Map<Grant, Seq<char>> {
    map![
        Grant::AllowOrigin => wildcard(),
        Grant::AllowMethods => wildcard(),
        Grant::AllowHeaders => wildcard(),
    ]
}

/// `CorsLayer::new`: a layer that has not been told to grant anything, and
/// sends no grant header.
#[verifier::external_body]
fn new_layer() -> (layer: CorsLayer)
    ensures
        cors_grants(layer) == no_grants(),
{
    CorsLayer::new()
}

/// `CorsLayer::allow_origin` with `Any`: the layer answers with the wildcard
/// as the allowed origin, whatever it answered before; its other grants stay.
#[verifier::external_body]
fn allow_any_origin(layer: CorsLayer) -> (out: CorsLayer)
    ensures
        cors_grants(out) == cors_grants(layer).insert(Grant::AllowOrigin, wildcard()),
{
    layer.allow_origin(Any)
}

/// `CorsLayer::allow_methods` with `Any`: the layer answers with the wildcard
/// as the allowed methods, whatever it answered before; its other grants stay.
#[verifier::external_body]
fn allow_any_method(layer: CorsLayer) -> (out: CorsLayer)
    ensures
        cors_grants(out) == cors_grants(layer).insert(Grant::AllowMethods, wildcard()),
{
    layer.allow_methods(Any)
}

/// `CorsLayer::allow_headers` with `Any`: the layer answers with the wildcard
/// as the allowed request headers, whatever it answered before; its other
/// grants stay.
#[verifier::external_body]
fn allow_any_header(layer: CorsLayer) -> (out: CorsLayer)
    ensures
        cors_grants(out) == cors_grants(layer).insert(Grant::AllowHeaders, wildcard()),
{
    layer.allow_headers(Any)
}

/// The policy of the service: any origin may ask, by any method, with any
/// request header.
pub fn cors_policy() -> (layer: CorsLayer)
    ensures
        cors_grants(layer) == permissive_grants(),
{
    let layer = new_layer();
    let layer = allow_any_origin(layer);
    let layer = allow_any_method(layer);
    let layer = allow_any_header(layer);
    assert(cors_grants(layer) =~= permissive_grants());
    layer
}

} // verus!
