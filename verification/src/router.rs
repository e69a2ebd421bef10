//! The routing table of the service, held in an `axum` router.

use crate::cors::{cors_grants, cors_policy, permissive_grants, wildcard, Grant};
use crate::health::{health_body, health_payload, json_media_type, Payload};
use axum::http::header::CONTENT_TYPE;
use axum::routing::get;
use axum::Router;
use tower_http::cors::CorsLayer;
use vstd::prelude::*;

verus! {

#[verifier::external_type_specification]
#[verifier::external_body]
#[verifier::reject_recursive_types(S)]
pub struct ExRouter<S>(axum::Router<S>);

/// What the handler of a route sends: a status, and a body under a media
/// type.
pub struct Answer {
    pub status: int,
    pub media_type: Seq<char>,
    pub body: Seq<char>,
}

/// The routes of a router. A key is a method and a path that a route was
/// registered with; its value is what the route's handler sends. What a
/// router answers where it has no route is its own affair: the fallback for
/// an unknown path, a refusal for another method on a known one, and for
/// HEAD the answer of the GET route without its body.
pub uninterp spec fn router_routes(router: Router) -> Map<(Seq<char>, Seq<char>), Answer>;

/// The cross-origin layers that stand around the routes and the fallback of
/// a router, innermost first, each by what it grants.
pub uninterp spec fn router_layers(router: Router) -> Seq<Map<Grant, Seq<char>>>;

/// A router without a route.
pub open spec fn no_routes() -> Map<(Seq<char>, Seq<char>), Answer> {
    Map::empty()
}

/// A router without a layer.
pub open spec fn no_layers() -> Seq<Map<Grant, Seq<char>>> {
    Seq::empty()
}

/// The path of the liveness route.
pub open spec fn health_path() -> Seq<char> {
    "/health"@
}

/// The method of the liveness route.
pub open spec fn get_method() -> Seq<char> {
    "GET"@
}

/// The answer of a handler that succeeds.
pub open spec fn ok_answer(media_type: Seq<char>, body: Seq<char>) -> Answer {
    Answer { status: 200, media_type, body }
}

/// A character to which a route pattern may give a meaning of its own.
pub open spec fn is_capture_char(c: char) -> bool {
    c == '{' || c == '}' || c == ':' || c == '*'
}

/// A path that a router takes as it is written and matches letter by
/// letter.
pub open spec fn is_literal_path(path: Seq<char>) -> bool {
    &&& path.len() > 0
    &&& path[0] == '/'
    &&& forall|i: int| 0 <= i < path.len() ==> !is_capture_char(#[trigger] path[i])
}

/// Text that can stand as the value of a header: printable ASCII.
pub open spec fn is_header_text(text: Seq<char>) -> bool {
    forall|i: int| 0 <= i < text.len() ==> ' ' <= #[trigger] text[i] <= '~'
}

/// `Router::new`: a router without routes and without layers, which answers
/// every request with its fallback.
#[verifier::external_body]
fn new_router() -> (router: Router)
    ensures
        router_routes(router) == no_routes(),
        router_layers(router) == no_layers(),
{
    Router::new()
}

/// `Router::route` with `routing::get`, on a router that has no route and no
/// layer yet: the router gets one route, for GET on `path`, whose handler
/// sends, each time and with the status 200, the payload's body under the
/// payload's media type.
#[verifier::external_body]
fn route_get(router: Router, path: &str, payload: Payload) -> (out: Router)
    requires
        is_literal_path(path@),
        is_header_text(payload.content_type@),
        router_routes(router) == no_routes(),
        router_layers(router) == no_layers(),
    ensures
        router_routes(out) == router_routes(router).insert(
            (get_method(), path@),
            ok_answer(payload.content_type@, payload.body@),
        ),
        router_layers(out) == router_layers(router),
{
    let Payload { content_type, body } = payload;
    router.route(
        path,
        get(move || std::future::ready(([(CONTENT_TYPE, content_type.clone())], body.clone()))),
    )
}

/// `Router::layer` with a `CorsLayer` that grants no credentials: the layer
/// is put around every route that the router has and around its fallback;
/// the routes stay as they are.
#[verifier::external_body]
fn with_cors(router: Router, layer: CorsLayer) -> (out: Router)
    requires
        !cors_grants(layer).contains_key(Grant::AllowCredentials),
    ensures
        router_routes(out) == router_routes(router),
        router_layers(out) == router_layers(router).push(cors_grants(layer)),
{
    router.layer(layer)
}

/// A router set up as the service is: one route, GET on the liveness path,
/// which sends the liveness record as JSON; and around everything one layer,
/// the permissive policy.
pub open spec fn is_service(router: Router) -> bool {
    &&& router_routes(router) == map![
        (get_method(), health_path()) => ok_answer(json_media_type(), health_body()),
    ]
    &&& router_layers(router) == seq![permissive_grants()]
}

/// Whether a router has a route that was registered with `method` and `path`.
pub open spec fn is_routed(router: Router, method: Seq<char>, path: Seq<char>) -> bool {
    router_routes(router).contains_key((method, path))
}

/// The service routes one thing: GET on the liveness path. No other method
/// is registered there, and no other path has a route.
pub proof fn only_health_get_is_routed(router: Router, method: Seq<char>, path: Seq<char>)
    requires
        is_service(router),
    ensures
        is_routed(router, method, path) <==> method == get_method() && path == health_path(),
{
}

/// The liveness route sends the same thing each time: the status 200 and
/// the record as JSON, letter for letter.
pub proof fn health_route_sends_ok(router: Router)
    requires
        is_service(router),
    ensures
        is_routed(router, get_method(), health_path()),
        router_routes(router)[(get_method(), health_path())].status == 200,
        router_routes(router)[(get_method(), health_path())].media_type == "application/json"@,
        router_routes(router)[(get_method(), health_path())].body == "{\"status\":\"ok\"}"@,
{
}

/// Around the service stands one layer, which grants any origin, any method
/// and any request header, and no credentials. It stands around the fallback
/// as around the route, so the grant depends neither on the path asked for
/// nor on who asks.
pub proof fn service_grants_every_origin(router: Router)
    requires
        is_service(router),
    ensures
        router_layers(router).len() == 1,
        router_layers(router)[0][Grant::AllowOrigin] == wildcard(),
        router_layers(router)[0][Grant::AllowMethods] == wildcard(),
        router_layers(router)[0][Grant::AllowHeaders] == wildcard(),
        router_layers(router)[0].dom() =~= set![
            Grant::AllowOrigin,
            Grant::AllowMethods,
            Grant::AllowHeaders,
        ],
{
}

/// The service: the liveness route, and the permissive policy around it and
/// around the fallback.
pub fn app() -> (router: Router)
    ensures
        is_service(router),
{
    let router = new_router();
    let payload = health_payload();
    proof {
        reveal_strlit("/health");
        reveal_strlit("application/json");
    }
    let router = route_get(router, "/health", payload);
    let router = with_cors(router, cors_policy());
    assert(router_routes(router) =~= map![
        (get_method(), health_path()) => ok_answer(json_media_type(), health_body()),
    ]);
    assert(router_layers(router) =~= seq![permissive_grants()]);
    router
}

} // verus!
