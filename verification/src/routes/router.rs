//! Which requests go where, how often, and from which browser pages.

use vstd::prelude::*;

use crate::config::Config;
use crate::outside::{header_text, is_header_value, opt_text};
use crate::routes::opt_str;

verus! {

/// The longest body that a request may have, in bytes.
pub const MAX_BODY_BYTES: usize = 1_048_576;

/// How long a request may take, in seconds, before it is answered with 408.
pub const TIMEOUT_SECS: u64 = 30;

/// How often the memory of the rate limits is swept, in seconds.
pub const SWEEP_SECS: u64 = 60;

#[derive(Clone, Copy, Debug, PartialEq, Eq, Structural)]
pub enum Method {
    Get,
    Post,
    Put,
    Delete,
}

/// What answers a request.
#[derive(Clone, Copy, Debug, PartialEq, Eq, Structural)]
pub enum Endpoint {
    Greet,
    SignUp,
    SignIn,
    Pending,
    Approve,
    ListIdentities,
    DeleteIdentity,
    ToggleIdentity,
    ListUsers,
    ToggleUser,
    Export,
    Import,
    Health,
    Resign,
    Refresh,
    Verify,
    ListPasswords,
    CreatePassword,
    UpdatePassword,
    GetPassword,
    CreateGroup,
    ListGroups,
}

/// How strictly requests from one address are limited.
#[derive(Clone, Copy, Debug, PartialEq, Eq, Structural)]
pub enum Tier {
    Strict,
    Admin,
    Moderate,
    Unlimited,
}

/// One more request is granted every so many milliseconds, up to a burst.
#[derive(Clone, Copy, Debug, PartialEq, Eq, Structural)]
pub struct Limit {
    pub period_millis: u64,
    pub burst: u32,
}

/// A route.
#[derive(Debug)]
pub struct Route {
    pub method: Method,
    pub path: String,
    pub endpoint: Endpoint,
    pub tier: Tier,
}

/// The value of a [`Route`].
pub struct RouteValue {
    pub method: Method,
    pub path: Seq<char>,
    pub endpoint: Endpoint,
    pub tier: Tier,
}

impl View for Route {
    type V = RouteValue;

    open spec fn view(&self) -> RouteValue {
        RouteValue {
            method: self.method,
            path: self.path@,
            endpoint: self.endpoint,
            tier: self.tier,
        }
    }
}

/// Requests per second and burst of a tier.
pub open spec fn tier_rate(tier: Tier) -> Option<(nat, nat)> {
    match tier {
        Tier::Strict => Some((2, 5)),
        Tier::Admin => Some((5, 10)),
        Tier::Moderate => Some((10, 20)),
        Tier::Unlimited => None,
    }
}

/// The limit of a tier.
pub fn tier_limit(tier: Tier) -> (r: Option<Limit>)
    ensures
        match (r, tier_rate(tier)) {
            (Some(limit), Some((rate, burst))) => limit.period_millis * rate == 1000 && limit.burst
                == burst,
            (None, None) => true,
            _ => false,
        },
{
    match tier {
        Tier::Strict => Some(Limit { period_millis: 500, burst: 5 }),
        Tier::Admin => Some(Limit { period_millis: 200, burst: 10 }),
        Tier::Moderate => Some(Limit { period_millis: 100, burst: 20 }),
        Tier::Unlimited => None,
    }
}

/// The routes: every endpoint with its method, its path and its tier.
pub open spec fn route_table() -> Seq<RouteValue> {
    let r = |method: Method, path: &str, endpoint: Endpoint, tier: Tier|
        RouteValue { method, path: path@, endpoint, tier };
    seq![
        r(Method::Post, "/greet", Endpoint::Greet, Tier::Strict),
        r(Method::Post, "/sign-up", Endpoint::SignUp, Tier::Strict),
        r(Method::Post, "/sign-in", Endpoint::SignIn, Tier::Strict),
        r(Method::Get, "/admin/pending", Endpoint::Pending, Tier::Admin),
        r(Method::Post, "/admin/approve/{uuid}", Endpoint::Approve, Tier::Admin),
        r(Method::Get, "/admin/identities", Endpoint::ListIdentities, Tier::Admin),
        r(Method::Delete, "/admin/identities/{uuid}", Endpoint::DeleteIdentity, Tier::Admin),
        r(
            Method::Post,
            "/admin/identities/{uuid}/{action}",
            Endpoint::ToggleIdentity,
            Tier::Admin,
        ),
        r(Method::Get, "/admin/users", Endpoint::ListUsers, Tier::Admin),
        r(Method::Post, "/admin/users/{uuid}/{action}", Endpoint::ToggleUser, Tier::Admin),
        r(Method::Get, "/admin/export", Endpoint::Export, Tier::Admin),
        r(Method::Post, "/admin/import", Endpoint::Import, Tier::Admin),
        r(Method::Get, "/health", Endpoint::Health, Tier::Unlimited),
        r(Method::Post, "/re-sign", Endpoint::Resign, Tier::Moderate),
        r(Method::Post, "/refresh", Endpoint::Refresh, Tier::Moderate),
        r(Method::Get, "/verify", Endpoint::Verify, Tier::Moderate),
        r(Method::Get, "/pwd/list", Endpoint::ListPasswords, Tier::Moderate),
        r(Method::Post, "/pwd/create", Endpoint::CreatePassword, Tier::Moderate),
        r(Method::Put, "/pwd/update/{uuid}", Endpoint::UpdatePassword, Tier::Moderate),
        r(Method::Get, "/pwd/get/{uuid}", Endpoint::GetPassword, Tier::Moderate),
        r(Method::Post, "/group/create", Endpoint::CreateGroup, Tier::Moderate),
        r(Method::Get, "/group/list", Endpoint::ListGroups, Tier::Moderate),
    ]
}

fn route(method: Method, path: &str, endpoint: Endpoint, tier: Tier) -> (r: Route)
    ensures
        r@ == (RouteValue { method, path: path@, endpoint, tier }),
{
    Route { method, path: path.to_string(), endpoint, tier }
}

/// Lists the routes.
fn list_routes() -> (r: Vec<Route>)
    ensures
        r@.map_values(|v: Route| v@) == route_table(),
{
    let mut v: Vec<Route> = Vec::new();
    v.push(route(Method::Post, "/greet", Endpoint::Greet, Tier::Strict));
    v.push(route(Method::Post, "/sign-up", Endpoint::SignUp, Tier::Strict));
    v.push(route(Method::Post, "/sign-in", Endpoint::SignIn, Tier::Strict));
    v.push(route(Method::Get, "/admin/pending", Endpoint::Pending, Tier::Admin));
    v.push(route(Method::Post, "/admin/approve/{uuid}", Endpoint::Approve, Tier::Admin));
    v.push(route(Method::Get, "/admin/identities", Endpoint::ListIdentities, Tier::Admin));
    v.push(
        route(Method::Delete, "/admin/identities/{uuid}", Endpoint::DeleteIdentity, Tier::Admin),
    );
    v.push(
        route(
            Method::Post,
            "/admin/identities/{uuid}/{action}",
            Endpoint::ToggleIdentity,
            Tier::Admin,
        ),
    );
    v.push(route(Method::Get, "/admin/users", Endpoint::ListUsers, Tier::Admin));
    v.push(route(Method::Post, "/admin/users/{uuid}/{action}", Endpoint::ToggleUser, Tier::Admin));
    v.push(route(Method::Get, "/admin/export", Endpoint::Export, Tier::Admin));
    v.push(route(Method::Post, "/admin/import", Endpoint::Import, Tier::Admin));
    v.push(route(Method::Get, "/health", Endpoint::Health, Tier::Unlimited));
    v.push(route(Method::Post, "/re-sign", Endpoint::Resign, Tier::Moderate));
    v.push(route(Method::Post, "/refresh", Endpoint::Refresh, Tier::Moderate));
    v.push(route(Method::Get, "/verify", Endpoint::Verify, Tier::Moderate));
    v.push(route(Method::Get, "/pwd/list", Endpoint::ListPasswords, Tier::Moderate));
    v.push(route(Method::Post, "/pwd/create", Endpoint::CreatePassword, Tier::Moderate));
    v.push(route(Method::Put, "/pwd/update/{uuid}", Endpoint::UpdatePassword, Tier::Moderate));
    v.push(route(Method::Get, "/pwd/get/{uuid}", Endpoint::GetPassword, Tier::Moderate));
    v.push(route(Method::Post, "/group/create", Endpoint::CreateGroup, Tier::Moderate));
    v.push(route(Method::Get, "/group/list", Endpoint::ListGroups, Tier::Moderate));
    assert(v@.map_values(|v: Route| v@) =~= route_table());
    v
}

/// Every endpoint has one route.
pub proof fn law_each_endpoint_has_one_route(endpoint: Endpoint)
    ensures
        exists|i: int|
            0 <= i < route_table().len() && #[trigger] route_table()[i].endpoint == endpoint,
        forall|i: int, j: int|
            0 <= i < j < route_table().len() ==> (#[trigger] route_table()[i]).endpoint != (
            #[trigger] route_table()[j]).endpoint,
{
    let t = route_table();
    let at: int = match endpoint {
        Endpoint::Greet => 0,
        Endpoint::SignUp => 1,
        Endpoint::SignIn => 2,
        Endpoint::Pending => 3,
        Endpoint::Approve => 4,
        Endpoint::ListIdentities => 5,
        Endpoint::DeleteIdentity => 6,
        Endpoint::ToggleIdentity => 7,
        Endpoint::ListUsers => 8,
        Endpoint::ToggleUser => 9,
        Endpoint::Export => 10,
        Endpoint::Import => 11,
        Endpoint::Health => 12,
        Endpoint::Resign => 13,
        Endpoint::Refresh => 14,
        Endpoint::Verify => 15,
        Endpoint::ListPasswords => 16,
        Endpoint::CreatePassword => 17,
        Endpoint::UpdatePassword => 18,
        Endpoint::GetPassword => 19,
        Endpoint::CreateGroup => 20,
        Endpoint::ListGroups => 21,
    };
    assert(t[at].endpoint == endpoint);
}

/// Only the health check goes unlimited.
pub proof fn law_only_health_is_unlimited(i: int)
    requires
        0 <= i < route_table().len(),
    ensures
        route_table()[i].tier == Tier::Unlimited <==> route_table()[i].endpoint
            == Endpoint::Health,
{
}

/// Whether a path lies below the admin endpoints.
pub open spec fn admin_path(path: Seq<char>) -> bool {
    path.len() > 7 && path.take(7) == "/admin/"@
}

/// The admin tier is that of the paths below `/admin/`.
pub proof fn law_admin_tier_is_by_path(i: int)
    requires
        0 <= i < route_table().len(),
    ensures
        route_table()[i].tier == Tier::Admin <==> admin_path(route_table()[i].path),
{
    let path = route_table()[i].path;
    reveal_strlit("/admin/");
    reveal_strlit("/greet");
    reveal_strlit("/sign-up");
    reveal_strlit("/sign-in");
    reveal_strlit("/admin/pending");
    reveal_strlit("/admin/approve/{uuid}");
    reveal_strlit("/admin/identities");
    reveal_strlit("/admin/identities/{uuid}");
    reveal_strlit("/admin/identities/{uuid}/{action}");
    reveal_strlit("/admin/users");
    reveal_strlit("/admin/users/{uuid}/{action}");
    reveal_strlit("/admin/export");
    reveal_strlit("/admin/import");
    reveal_strlit("/health");
    reveal_strlit("/re-sign");
    reveal_strlit("/refresh");
    reveal_strlit("/verify");
    reveal_strlit("/pwd/list");
    reveal_strlit("/pwd/create");
    reveal_strlit("/pwd/update/{uuid}");
    reveal_strlit("/pwd/get/{uuid}");
    reveal_strlit("/group/create");
    reveal_strlit("/group/list");
    if route_table()[i].tier == Tier::Admin {
        assert(path.take(7) =~= "/admin/"@);
    } else if path.len() > 7 {
        assert(path.take(7)[1] == path[1]);
        assert("/admin/"@[1] == 'a');
        assert(path[1] != 'a');
    }
}

// ---------------------------------------------------------------------------
// Browser pages
// ---------------------------------------------------------------------------

/// What pages of other origins may do.
#[derive(Debug)]
pub enum Cors {
    /// Nothing, because no origin is set.
    Unset,
    /// Nothing, because what is set cannot stand in a header.
    Invalid(String),
    /// Pages of one origin may use these methods and these headers.
    Allowed { origin: String, methods: Vec<Method>, headers: Vec<String> },
}

/// The headers that a page may send.
pub open spec fn allowed_headers() -> Seq<Seq<char>> {
    seq!["content-type"@, "authorization"@, "device-token"@, "admin-key"@]
}

/// The methods that a page may use: all that some route has.
pub open spec fn allowed_methods() -> Seq<Method> {
    seq![Method::Get, Method::Post, Method::Put, Method::Delete]
}

/// Whether a policy is the one for an origin.
pub open spec fn cors_for(origin: Option<Seq<char>>, policy: Cors) -> bool {
    match (origin, policy) {
        (None, Cors::Unset) => true,
        (Some(o), Cors::Invalid(text)) => !header_text(o) && text@ == o,
        (Some(o), Cors::Allowed { origin: text, methods, headers }) => {
            &&& header_text(o)
            &&& text@ == o
            &&& methods@ == allowed_methods()
            &&& headers@.map_values(|h: String| h@) == allowed_headers()
        },
        _ => false,
    }
}

/// Decides what pages of other origins may do.
pub fn cors_policy(origin: Option<&str>) -> (r: Cors)
    ensures
        cors_for(opt_str(origin), r),
{
    match origin {
        None => Cors::Unset,
        Some(text) => {
            if !is_header_value(text) {
                return Cors::Invalid(text.to_string());
            }
            let mut methods: Vec<Method> = Vec::new();
            methods.push(Method::Get);
            methods.push(Method::Post);
            methods.push(Method::Put);
            methods.push(Method::Delete);
            let mut headers: Vec<String> = Vec::new();
            headers.push("content-type".to_string());
            headers.push("authorization".to_string());
            headers.push("device-token".to_string());
            headers.push("admin-key".to_string());
            assert(methods@ =~= allowed_methods());
            assert(headers@.map_values(|h: String| h@) =~= allowed_headers());
            Cors::Allowed { origin: text.to_string(), methods, headers }
        },
    }
}

/// What a server is put together from.
#[derive(Debug)]
pub struct RouterPlan {
    pub routes: Vec<Route>,
    pub cors: Cors,
}

/// Plans the routes of a server and what pages of other origins may do.
pub fn build_router(config: &Config) -> (r: RouterPlan)
    ensures
        r.routes@.map_values(|v: Route| v@) == route_table(),
        cors_for(opt_text(config.cors_origin), r.cors),
{
    let cors = match &config.cors_origin {
        Some(origin) => cors_policy(Some(origin.as_str())),
        None => cors_policy(None),
    };
    RouterPlan { routes: list_routes(), cors }
}

/// The status of a server that runs.
pub fn health() -> (r: u16)
    ensures
        r == 200,
{
    200
}

/// A page of the allowed origin may use the method of every route.
pub proof fn law_cors_covers_routes(i: int)
    requires
        0 <= i < route_table().len(),
    ensures
        allowed_methods().contains(route_table()[i].method),
{
    let m = allowed_methods();
    assert(m[0] == Method::Get && m[1] == Method::Post && m[2] == Method::Put && m[3]
        == Method::Delete);
}

} // verus!
