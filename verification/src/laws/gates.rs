//! Who gets in: the settings that the server starts with, the two gates of the
//! administrators, and where requests go.

use vstd::bits::lemma_u32_shr_is_div;
use vstd::prelude::*;

use crate::config::{decode_hex_env, Config, ConfigError, Environment, Fault};
use crate::error::AppResult;
use crate::laws::enrolment::generic;
use crate::net::{
    dotted_text, ipv4_value, law_dotted_text_is_unique, law_empty_prefix_holds_all, subnet_holds,
    Peer,
};
use crate::outside::{header_text, hex_bytes, hex_text, is_hex, opt_text};
use crate::routes::router::{
    build_router, cors_policy, health, tier_limit, Cors, Endpoint, Limit, Method, Route,
    RouterPlan, Tier, MAX_BODY_BYTES, SWEEP_SECS, TIMEOUT_SECS,
};
use crate::routes::{check_admin, check_admin_ip, check_admin_key, AdminPass};
use crate::text::{decimal_text, lemma_decimal, parted, unsigned_value};

verus! {

// ---------------------------------------------------------------------------
// Settings
// ---------------------------------------------------------------------------

/// Whether a variable holds a secret: sixty-four hexadecimal digits.
pub open spec fn holds_secret(value: Option<String>) -> bool {
    value is Some && is_hex(value->0@) && value->0@.len() == 64
}

/// Whether a variable holds a size of the connection pool.
pub open spec fn holds_size(value: Option<String>) -> bool {
    value is Some && unsigned_value(value->0@, 4_294_967_295) is Some
}

/// A secret is read from sixty-four hexadecimal digits and from nothing else;
/// what is wrong is told apart, and the variable is named.
pub proof fn law_a_secret_has_64_digits(
    key: &str,
    value: Option<String>,
    r: Result<[u8; 32], ConfigError>,
    complaint: String,
)
    requires
        call_ensures(decode_hex_env, (key, &value), r),
        r is Err ==> call_ensures(ConfigError::text, (&r->Err_0,), complaint),
    ensures
        r is Ok <==> holds_secret(value),
        r matches Ok(secret) ==> secret@ == hex_bytes(value->0@),
        value is None ==> complaint@ == key@ + " must be set"@,
        value is Some && !is_hex(value->0@) ==> complaint@ == key@ + " must be valid hex"@,
        value is Some && is_hex(value->0@) && r is Err ==> complaint@ == key@
            + " must be exactly 32 bytes (64 hex chars)"@,
{
}

/// The server starts exactly with an environment in which every variable is set
/// as it should be, but for the browser origin, which may be left out; and each
/// setting is what its own variable says.
pub proof fn law_settings_are_what_the_environment_says(
    env: Environment,
    r: Result<Config, ConfigError>,
)
    requires
        call_ensures(Config::from_env, (env,), r),
    ensures
        r is Ok <==> {
            &&& holds_secret(env.database_encrypt_secret)
            &&& holds_secret(env.software_secret)
            &&& env.database_url is Some
            &&& env.bind_addr is Some
            &&& holds_size(env.db_pool_size)
            &&& env.admin_allowed_subnet is Some
        },
        r matches Ok(config) ==> {
            &&& config.database_encrypt_secret@ == hex_bytes(env.database_encrypt_secret->0@)
            &&& config.software_secret@ == hex_bytes(env.software_secret->0@)
            &&& config.database_url@ == env.database_url->0@
            &&& config.bind_addr@ == env.bind_addr->0@
            &&& unsigned_value(env.db_pool_size->0@, 4_294_967_295) == Some(
                config.db_pool_size as nat,
            )
            &&& opt_text(config.cors_origin) == opt_text(env.cors_origin)
            &&& config.admin_allowed_subnet@ == env.admin_allowed_subnet->0@
        },
{
}

/// The size of the connection pool is the number that its variable writes down.
pub proof fn law_pool_size_is_the_number_set(
    env: Environment,
    r: Result<Config, ConfigError>,
    n: u32,
)
    requires
        call_ensures(Config::from_env, (env,), r),
        env.db_pool_size is Some,
        env.db_pool_size->0@ == decimal_text(n as nat),
    ensures
        r matches Ok(config) ==> config.db_pool_size == n,
{
    lemma_decimal(n as nat);
    assert(crate::text::is_digit(decimal_text(n as nat)[0]));
}

/// Of several variables that are not as they should be, the first one is
/// complained about.
pub proof fn law_first_wrong_variable_is_named(env: Environment, r: Result<Config, ConfigError>)
    requires
        call_ensures(Config::from_env, (env,), r),
        r is Err,
    ensures
        ({
            let named = match r->Err_0@ {
                Fault::Unset(name) => name,
                Fault::NotHex(name) => name,
                Fault::WrongLength(name) => name,
                Fault::NotInteger(name) => name,
            };
            if !holds_secret(env.database_encrypt_secret) {
                named == "DATABASEENCRYPTSECRET"@
            } else if !holds_secret(env.software_secret) {
                named == "SOFTWARESECRET"@
            } else if env.database_url is None {
                r->Err_0@ == Fault::Unset("DATABASE_URL"@)
            } else if env.bind_addr is None {
                r->Err_0@ == Fault::Unset("BIND_ADDR"@)
            } else if env.db_pool_size is None {
                r->Err_0@ == Fault::Unset("DB_POOL_SIZE"@)
            } else if !holds_size(env.db_pool_size) {
                r->Err_0@ == Fault::NotInteger("DB_POOL_SIZE"@)
            } else {
                r->Err_0@ == Fault::Unset("ADMIN_ALLOWED_SUBNET"@)
            }
        }),
{
}

/// What is wrong with a number is said of the variable that holds it.
pub proof fn law_complaints_name_the_variable(e: ConfigError, r: String)
    requires
        call_ensures(ConfigError::text, (&e,), r),
    ensures
        match e {
            ConfigError::Unset(name) => r@ == name@ + " must be set"@,
            ConfigError::NotHex(name) => r@ == name@ + " must be valid hex"@,
            ConfigError::WrongLength(name) => r@ == name@
                + " must be exactly 32 bytes (64 hex chars)"@,
            ConfigError::NotInteger(name) => r@ == name@ + " must be a valid integer"@,
        },
{
}

// ---------------------------------------------------------------------------
// Administrators
// ---------------------------------------------------------------------------

/// An administrator sends the secret of the server in hexadecimal. Anything else
/// is refused like nothing at all.
pub proof fn law_admin_key_is_the_secret(key: Option<&str>, config: Config, r: AppResult<()>)
    requires
        call_ensures(check_admin_key, (key, &config), r),
    ensures
        r is Ok <==> key is Some && key->0@ == hex_text(config.software_secret@),
        r matches Err(e) ==> generic(e@),
{
}

/// Two addresses are of one subnet if they agree in as many of their first bits
/// as its prefix counts.
pub proof fn law_a_subnet_is_the_first_bits(address: u32, base: u32, prefix: u32, r: bool)
    requires
        prefix <= 32,
        call_ensures(subnet_holds, (address, base, prefix), r),
    ensures
        prefix == 0 ==> r,
        prefix > 0 ==> r == (address >> ((32 - prefix) as u32) == base >> ((32 - prefix) as u32)),
{
    if prefix == 0 {
        law_empty_prefix_holds_all(address, base);
    } else {
        let shift: u32 = (32 - prefix) as u32;
        lemma_u32_shr_is_div(address, shift);
        lemma_u32_shr_is_div(base, shift);
    }
}

/// Where the setting is a base address, a slash and the length of a prefix, the
/// peers of that subnet get in, and no other ones. A peer without an IPv4
/// address is never one of them.
pub proof fn law_admin_address_is_of_the_subnet(
    peer: Peer,
    config: Config,
    r: AppResult<()>,
    base: u32,
    prefix: u32,
)
    requires
        call_ensures(check_admin_ip, (peer, &config), r),
        prefix <= 32,
        parted(config.admin_allowed_subnet@, '/') == Some(
            (dotted_text(base), decimal_text(prefix as nat)),
        ),
    ensures
        r matches Err(e) ==> generic(e@),
        peer is V6 ==> r is Err,
        peer is V4 && prefix == 0 ==> r is Ok,
        peer is V4 && prefix > 0 ==> (r is Ok <==> peer->V4_0 >> ((32 - prefix) as u32) == base
            >> ((32 - prefix) as u32)),
{
    lemma_decimal(prefix as nat);
    assert(crate::text::is_digit(decimal_text(prefix as nat)[0]));
    assert(ipv4_value(dotted_text(base)) is Some);
    law_dotted_text_is_unique(ipv4_value(dotted_text(base))->0, base);
    if peer is V4 {
        let address = peer->V4_0;
        if prefix == 0 {
            law_empty_prefix_holds_all(address, base);
        } else {
            let shift: u32 = (32 - prefix) as u32;
            lemma_u32_shr_is_div(address, shift);
            lemma_u32_shr_is_div(base, shift);
        }
    }
}

/// Where the setting is an address alone, that address gets in and no other one.
pub proof fn law_admin_address_may_be_one(
    peer: Peer,
    config: Config,
    r: AppResult<()>,
    base: u32,
)
    requires
        call_ensures(check_admin_ip, (peer, &config), r),
        parted(config.admin_allowed_subnet@, '/') is None,
        config.admin_allowed_subnet@ == dotted_text(base),
    ensures
        r is Ok <==> peer is V4 && peer->V4_0 == base,
        r matches Err(e) ==> generic(e@),
{
    reveal_strlit("32");
    reveal_with_fuel(crate::text::digits_value, 3);
    assert("32"@ =~= seq!['3', '2']);
    assert(crate::text::digits_value("32"@) == 32) by {
        assert("32"@.drop_last() =~= seq!['3']);
        assert(seq!['3'].drop_last() =~= Seq::<char>::empty());
    }
    assert(crate::text::without_plus("32"@) == "32"@);
    assert(crate::text::all_digits("32"@));
    law_dotted_text_is_unique(ipv4_value(dotted_text(base))->0, base);
    if peer is V4 {
        crate::net::law_full_prefix_holds_one(peer->V4_0, base);
    }
}

/// A setting that is no subnet lets nobody in, and is the fault of the server.
pub proof fn law_a_wrong_subnet_lets_nobody_in(peer: Peer, config: Config, r: AppResult<()>)
    requires
        call_ensures(check_admin_ip, (peer, &config), r),
        match parted(config.admin_allowed_subnet@, '/') {
            Some((base, prefix)) => ipv4_value(base) is None || unsigned_value(prefix, 32) is None,
            None => ipv4_value(config.admin_allowed_subnet@) is None,
        },
    ensures
        r is Err,
        r->Err_0@ is Internal,
{
}

/// An administrator gets in exactly through both gates, and the key is asked for
/// first: whoever does not have it learns nothing of the subnet.
pub proof fn law_admins_pass_both_gates(
    key: Option<&str>,
    peer: Peer,
    config: Config,
    r: AppResult<AdminPass>,
    by_key: AppResult<()>,
    by_ip: AppResult<()>,
)
    requires
        call_ensures(check_admin, (key, peer, &config), r),
        call_ensures(check_admin_key, (key, &config), by_key),
        call_ensures(check_admin_ip, (peer, &config), by_ip),
    ensures
        r is Ok <==> by_key is Ok && by_ip is Ok,
        key is None || key->0@ != hex_text(config.software_secret@) ==> r is Err && generic(
            r->Err_0@,
        ),
        by_key is Ok && by_ip is Err ==> r->Err_0@ == by_ip->Err_0@,
{
}

// ---------------------------------------------------------------------------
// Requests
// ---------------------------------------------------------------------------

/// Whether a route takes requests of a method to a path.
pub open spec fn takes(route: Route, method: Method, path: Seq<char>, tier: Tier) -> bool {
    route.method == method && route.path@ == path && route.tier == tier
}

/// Every request that the server answers goes to the endpoint that is meant by
/// its method and path, at the pace of its kind: making oneself known is held
/// back most, administration less, and the daily work least.
pub proof fn law_requests_go_to_their_endpoints(config: Config, plan: RouterPlan, i: int)
    requires
        call_ensures(build_router, (&config,), plan),
        0 <= i < plan.routes@.len(),
    ensures
        plan.routes@.len() == 22,
        ({
            let route = plan.routes@[i];
            match route.endpoint {
                Endpoint::Greet => takes(route, Method::Post, "/greet"@, Tier::Strict),
                Endpoint::SignUp => takes(route, Method::Post, "/sign-up"@, Tier::Strict),
                Endpoint::SignIn => takes(route, Method::Post, "/sign-in"@, Tier::Strict),
                Endpoint::Pending => takes(route, Method::Get, "/admin/pending"@, Tier::Admin),
                Endpoint::Approve => takes(
                    route,
                    Method::Post,
                    "/admin/approve/{uuid}"@,
                    Tier::Admin,
                ),
                Endpoint::ListIdentities => takes(
                    route,
                    Method::Get,
                    "/admin/identities"@,
                    Tier::Admin,
                ),
                Endpoint::DeleteIdentity => takes(
                    route,
                    Method::Delete,
                    "/admin/identities/{uuid}"@,
                    Tier::Admin,
                ),
                Endpoint::ToggleIdentity => takes(
                    route,
                    Method::Post,
                    "/admin/identities/{uuid}/{action}"@,
                    Tier::Admin,
                ),
                Endpoint::ListUsers => takes(route, Method::Get, "/admin/users"@, Tier::Admin),
                Endpoint::ToggleUser => takes(
                    route,
                    Method::Post,
                    "/admin/users/{uuid}/{action}"@,
                    Tier::Admin,
                ),
                Endpoint::Export => takes(route, Method::Get, "/admin/export"@, Tier::Admin),
                Endpoint::Import => takes(route, Method::Post, "/admin/import"@, Tier::Admin),
                Endpoint::Health => takes(route, Method::Get, "/health"@, Tier::Unlimited),
                Endpoint::Resign => takes(route, Method::Post, "/re-sign"@, Tier::Moderate),
                Endpoint::Refresh => takes(route, Method::Post, "/refresh"@, Tier::Moderate),
                Endpoint::Verify => takes(route, Method::Get, "/verify"@, Tier::Moderate),
                Endpoint::ListPasswords => takes(
                    route,
                    Method::Get,
                    "/pwd/list"@,
                    Tier::Moderate,
                ),
                Endpoint::CreatePassword => takes(
                    route,
                    Method::Post,
                    "/pwd/create"@,
                    Tier::Moderate,
                ),
                Endpoint::UpdatePassword => takes(
                    route,
                    Method::Put,
                    "/pwd/update/{uuid}"@,
                    Tier::Moderate,
                ),
                Endpoint::GetPassword => takes(
                    route,
                    Method::Get,
                    "/pwd/get/{uuid}"@,
                    Tier::Moderate,
                ),
                Endpoint::CreateGroup => takes(
                    route,
                    Method::Post,
                    "/group/create"@,
                    Tier::Moderate,
                ),
                Endpoint::ListGroups => takes(
                    route,
                    Method::Get,
                    "/group/list"@,
                    Tier::Moderate,
                ),
            }
        }),
{
    let values = plan.routes@.map_values(|v: Route| v@);
    assert(values.len() == 22);
    assert(values[i] == plan.routes@[i]@);
}

/// From one address two requests a second are taken that make a device known,
/// five a second of an administrator and ten a second of the others, and five,
/// ten and twenty at once. The health check is not limited.
pub proof fn law_limits_are_requests_per_second(tier: Tier, r: Option<Limit>)
    requires
        call_ensures(tier_limit, (tier,), r),
    ensures
        tier is Unlimited <==> r is None,
        tier is Strict ==> 2 * r->0.period_millis == 1000 && r->0.burst == 5,
        tier is Admin ==> 5 * r->0.period_millis == 1000 && r->0.burst == 10,
        tier is Moderate ==> 10 * r->0.period_millis == 1000 && r->0.burst == 20,
{
}

/// A request has a body of at most one mebibyte and half a minute of time, and
/// the memory of the limits is swept once a minute.
pub proof fn law_requests_are_bounded()
    ensures
        MAX_BODY_BYTES == 1024 * 1024,
        TIMEOUT_SECS == 30,
        SWEEP_SECS == 60,
{
}

/// A server that runs says so with 200.
pub proof fn law_health_is_200(r: u16)
    requires
        call_ensures(health, (), r),
    ensures
        r == 200,
{
}

/// The decision on pages of other origins is by the origin alone.
pub proof fn law_pages_are_let_in_by_their_origin(origin: Option<&str>, r: Cors)
    requires
        call_ensures(cors_policy, (origin,), r),
    ensures
        r is Unset <==> origin is None,
        r is Allowed <==> origin is Some && header_text(origin->0@),
        r matches Cors::Invalid(text) ==> text@ == origin->0@,
        r matches Cors::Allowed { origin: text, methods, headers } ==> {
            &&& text@ == origin->0@
            &&& methods@.len() == 4
            &&& headers@.len() == 4
        },
{
    if r is Allowed {
        let headers = r->headers@;
        assert(headers.map_values(|h: String| h@).len() == headers.len());
    }
}

/// Pages of other origins may do nothing unless an origin is set that can stand
/// in a header. Pages of that origin may use every method and send the headers
/// that requests have.
pub proof fn law_pages_of_the_origin_get_in(config: Config, plan: RouterPlan)
    requires
        call_ensures(build_router, (&config,), plan),
    ensures
        plan.cors is Unset <==> config.cors_origin is None,
        plan.cors is Allowed <==> config.cors_origin is Some && header_text(
            config.cors_origin->0@,
        ),
        plan.cors matches Cors::Invalid(text) ==> text@ == config.cors_origin->0@,
        plan.cors matches Cors::Allowed { origin, methods, headers } ==> {
            &&& origin@ == config.cors_origin->0@
            &&& forall|m: Method| methods@.contains(m)
            &&& methods@.len() == 4
            &&& headers@.len() == 4
            &&& headers@[0]@ == "content-type"@
            &&& headers@[1]@ == "authorization"@
            &&& headers@[2]@ == "device-token"@
            &&& headers@[3]@ == "admin-key"@
        },
{
    if plan.cors is Allowed {
        let methods = plan.cors->methods@;
        let headers = plan.cors->headers@;
        assert(methods[0] == Method::Get && methods[1] == Method::Post && methods[2] == Method::Put
            && methods[3] == Method::Delete);
        let values = headers.map_values(|h: String| h@);
        assert(values.len() == 4);
        assert(values[0] == headers[0]@ && values[1] == headers[1]@ && values[2] == headers[2]@
            && values[3] == headers[3]@);
    }
}

} // verus!
