use vstd::prelude::*;
use vstd::string::StringExecFns;

verus! {

/// The resources whose routers are mounted under the API.
#[derive(Clone, Copy, Debug, PartialEq, Eq, Structural)]
pub enum ApiResource {
    Analytics,
    Auth,
    Groups,
    Members,
    ShareOffers,
    Shares,
    Validation,
}

/// The path prefix under which the API itself is mounted.
pub const API_BASE: &'static str = "/api";

pub const SERVICE_ID: &'static str = "bitsacco-server-api";

pub const SERVICE_NAME: &'static str = "Bitsacco Server API";

pub const SERVICE_DESCRIPTION: &'static str = "REST API for SACCO management system";

/// The resources in the order in which they are mounted and listed.
pub open spec fn all_resources() -> Seq<ApiResource> {
    seq![
        ApiResource::Analytics,
        ApiResource::Auth,
        ApiResource::Groups,
        ApiResource::Members,
        ApiResource::ShareOffers,
        ApiResource::Shares,
        ApiResource::Validation,
    ]
}

/// The prefix, relative to the API, under which a resource's router is nested.
pub open spec fn mount_path_of(r: ApiResource) -> Seq<char> {
    match r {
        ApiResource::Analytics => "/analytics"@,
        ApiResource::Auth => "/auth"@,
        ApiResource::Groups => "/groups"@,
        ApiResource::Members => "/members"@,
        ApiResource::ShareOffers => "/share-offers"@,
        ApiResource::Shares => "/shares"@,
        ApiResource::Validation => "/validation"@,
    }
}

/// The key under which the service description lists a resource.
pub open spec fn info_key_of(r: ApiResource) -> Seq<char> {
    match r {
        ApiResource::Analytics => "analytics"@,
        ApiResource::Auth => "auth"@,
        ApiResource::Groups => "groups"@,
        ApiResource::Members => "members"@,
        ApiResource::ShareOffers => "share_offers"@,
        ApiResource::Shares => "shares"@,
        ApiResource::Validation => "validation"@,
    }
}

/// The seven keys of the service description's endpoint listing, in order.
pub open spec fn endpoint_keys() -> Seq<Seq<char>> {
    seq![
        "analytics"@,
        "auth"@,
        "groups"@,
        "members"@,
        "share_offers"@,
        "shares"@,
        "validation"@,
    ]
}

/// The absolute path of a resource: the API's base, then its mount path.
pub open spec fn endpoint_url_of(r: ApiResource) -> Seq<char> {
    API_BASE@ + mount_path_of(r)
}

impl ApiResource {
    /// Every resource, in mounting order.
    pub fn all() -> (r: Vec<ApiResource>)
        ensures
            r@ == all_resources(),
    {
        let r = vec![
            ApiResource::Analytics,
            ApiResource::Auth,
            ApiResource::Groups,
            ApiResource::Members,
            ApiResource::ShareOffers,
            ApiResource::Shares,
            ApiResource::Validation,
        ];
        assert(r@ =~= all_resources());
        r
    }

    /// The prefix, relative to the API, under which the resource's router is nested.
    pub fn mount_path(&self) -> (r: &'static str)
        ensures
            r@ == mount_path_of(*self),
    {
        match self {
            ApiResource::Analytics => "/analytics",
            ApiResource::Auth => "/auth",
            ApiResource::Groups => "/groups",
            ApiResource::Members => "/members",
            ApiResource::ShareOffers => "/share-offers",
            ApiResource::Shares => "/shares",
            ApiResource::Validation => "/validation",
        }
    }

    /// The key under which the service description lists the resource.
    pub fn info_key(&self) -> (r: &'static str)
        ensures
            r@ == info_key_of(*self),
    {
        match self {
            ApiResource::Analytics => "analytics",
            ApiResource::Auth => "auth",
            ApiResource::Groups => "groups",
            ApiResource::Members => "members",
            ApiResource::ShareOffers => "share_offers",
            ApiResource::Shares => "shares",
            ApiResource::Validation => "validation",
        }
    }

    /// The resource's absolute path.
    pub fn endpoint_url(&self) -> (r: String)
        ensures
            r@ == endpoint_url_of(*self),
    {
        let mut r = String::from_str(API_BASE);
        r.append(self.mount_path());
        r
    }
}

/// An entry of the API's route table.
#[derive(Clone, Copy, Debug, PartialEq, Eq, Structural)]
pub enum ApiRoute {
    /// The liveness report.
    Health,
    /// The service description.
    Info,
    /// A resource's router, nested under its mount path.
    Nested(ApiResource),
}

/// The API's route table: the two fixed endpoints, then each resource in order.
pub open spec fn api_route_table() -> Seq<ApiRoute> {
    seq![ApiRoute::Health, ApiRoute::Info] + all_resources().map_values(
        |r: ApiResource| ApiRoute::Nested(r),
    )
}

/// The request methods that an entry of the route table answers.
#[derive(Clone, Copy, Debug, PartialEq, Eq, Structural)]
pub enum RouteMethod {
    /// `GET` alone (with the `HEAD` that the server derives from it).
    Get,
    /// Every method, each handed to the nested router.
    Any,
}

/// The fixed endpoints answer `GET`; a nested router receives every method.
pub open spec fn route_method_of(r: ApiRoute) -> RouteMethod {
    match r {
        ApiRoute::Health | ApiRoute::Info => RouteMethod::Get,
        ApiRoute::Nested(_) => RouteMethod::Any,
    }
}

pub open spec fn route_path_of(r: ApiRoute) -> Seq<char> {
    match r {
        ApiRoute::Health => "/health"@,
        ApiRoute::Info => "/info"@,
        ApiRoute::Nested(res) => mount_path_of(res),
    }
}

impl ApiRoute {
    /// The request methods that the entry answers.
    pub fn method(&self) -> (r: RouteMethod)
        ensures
            r == route_method_of(*self),
    {
        match self {
            ApiRoute::Health | ApiRoute::Info => RouteMethod::Get,
            ApiRoute::Nested(_) => RouteMethod::Any,
        }
    }

    /// The path, relative to the API, at which the entry is routed or nested.
    pub fn path(&self) -> (r: &'static str)
        ensures
            r@ == route_path_of(*self),
    {
        match self {
            ApiRoute::Health => "/health",
            ApiRoute::Info => "/info",
            ApiRoute::Nested(res) => res.mount_path(),
        }
    }
}

/// In the route table, `/health` is the path of the liveness report and of no
/// other entry, and `/info` that of the service description and of no other:
/// no resource router is nested where either is routed.
pub proof fn lemma_fixed_endpoints_unshadowed()
    ensures
        api_route_table().contains(ApiRoute::Health),
        api_route_table().contains(ApiRoute::Info),
        forall|i: int|
            0 <= i < api_route_table().len() ==> {
                &&& (route_path_of(#[trigger] api_route_table()[i]) == "/health"@ <==> api_route_table()[i]
                    == ApiRoute::Health)
                &&& (route_path_of(api_route_table()[i]) == "/info"@ <==> api_route_table()[i]
                    == ApiRoute::Info)
            },
{
    reveal_strlit("/health");
    reveal_strlit("/info");
    reveal_strlit("/analytics");
    reveal_strlit("/auth");
    reveal_strlit("/groups");
    reveal_strlit("/members");
    reveal_strlit("/share-offers");
    reveal_strlit("/shares");
    reveal_strlit("/validation");
    let t = api_route_table();
    assert(t[0] == ApiRoute::Health);
    assert(t[1] == ApiRoute::Info);
    assert forall|i: int| 2 <= i < t.len() implies {
        &&& route_path_of(#[trigger] t[i])[1] != 'h'
        &&& route_path_of(t[i])[1] != 'i'
        &&& t[i] != ApiRoute::Health
        &&& t[i] != ApiRoute::Info
    } by {
        assert(t[i] == ApiRoute::Nested(all_resources()[i - 2]));
    }
    assert forall|i: int| 0 <= i < t.len() implies {
        &&& (route_path_of(#[trigger] t[i]) == "/health"@ <==> t[i] == ApiRoute::Health)
        &&& (route_path_of(t[i]) == "/info"@ <==> t[i] == ApiRoute::Info)
    } by {
        assert("/health"@[1] == 'h');
        assert("/info"@[1] == 'i');
        if i >= 2 {
            assert(route_path_of(t[i])[1] != 'h');
            assert(route_path_of(t[i])[1] != 'i');
        } else {
            assert("/health"@.len() != "/info"@.len());
        }
    }
}

/// The API's route table, from which the router is assembled.
pub fn api_routes() -> (r: Vec<ApiRoute>)
    ensures
        r@ == api_route_table(),
{
    let resources = ApiResource::all();
    let mut r: Vec<ApiRoute> = vec![ApiRoute::Health, ApiRoute::Info];
    let mut i: usize = 0;
    while i < resources.len()
        invariant
            resources@ == all_resources(),
            i <= resources@.len(),
            r@ =~= seq![ApiRoute::Health, ApiRoute::Info] + resources@.subrange(
                0,
                i as int,
            ).map_values(|res: ApiResource| ApiRoute::Nested(res)),
        decreases resources@.len() - i,
    {
        r.push(ApiRoute::Nested(resources[i]));
        i = i + 1;
    }
    assert(resources@.subrange(0, resources@.len() as int) =~= resources@);
    r
}

/// The body of the liveness report.
pub struct HealthReport {
    pub status: String,
    pub timestamp: String,
    pub service: String,
}

/// The liveness report for a given time of report.
pub fn health_report(timestamp: String) -> (r: HealthReport)
    ensures
        r.status@ == "ok"@,
        r.timestamp@ == timestamp@,
        r.service@ == SERVICE_ID@,
{
    HealthReport { status: String::from_str("ok"), timestamp, service: String::from_str(SERVICE_ID) }
}

/// One entry of the service description's endpoint listing.
pub struct Endpoint {
    pub key: &'static str,
    pub url: String,
}

/// The keys of an endpoint listing, in order.
pub open spec fn keys_of(endpoints: Seq<Endpoint>) -> Seq<Seq<char>> {
    endpoints.map_values(|e: Endpoint| e.key@)
}

/// The service description.
pub struct ApiInfo {
    pub name: String,
    pub version: String,
    pub description: String,
    pub database: String,
    pub environment: String,
    pub endpoints: Vec<Endpoint>,
}

/// The service description for a build of the given version: each resource
/// listed under its key with its absolute path, in mounting order.
pub fn api_info(version: &str) -> (r: ApiInfo)
    ensures
        r.name@ == SERVICE_NAME@,
        r.version@ == version@,
        r.description@ == SERVICE_DESCRIPTION@,
        r.database@ == "connected"@,
        r.environment@ == "development"@,
        r.endpoints@.len() == all_resources().len(),
        forall|i: int|
            0 <= i < r.endpoints@.len() ==> {
                &&& #[trigger] r.endpoints@[i].key@ == info_key_of(all_resources()[i])
                &&& r.endpoints@[i].url@ == endpoint_url_of(all_resources()[i])
            },
        keys_of(r.endpoints@) == endpoint_keys(),
{
    let resources = ApiResource::all();
    let mut endpoints: Vec<Endpoint> = Vec::new();
    let mut i: usize = 0;
    while i < resources.len()
        invariant
            resources@ == all_resources(),
            i <= resources@.len(),
            endpoints@.len() == i,
            forall|j: int|
                0 <= j < i ==> {
                    &&& #[trigger] endpoints@[j].key@ == info_key_of(all_resources()[j])
                    &&& endpoints@[j].url@ == endpoint_url_of(all_resources()[j])
                },
        decreases resources@.len() - i,
    {
        let res = resources[i];
        endpoints.push(Endpoint { key: res.info_key(), url: res.endpoint_url() });
        i = i + 1;
    }
    proof {
        assert forall|j: int| 0 <= j < 7 implies #[trigger] keys_of(endpoints@)[j]
            == endpoint_keys()[j] by {
            assert(endpoints@[j].key@ == info_key_of(all_resources()[j]));
        }
        assert(keys_of(endpoints@) =~= endpoint_keys());
    }
    ApiInfo {
        name: String::from_str(SERVICE_NAME),
        version: String::from_str(version),
        description: String::from_str(SERVICE_DESCRIPTION),
        database: String::from_str("connected"),
        environment: String::from_str("development"),
        endpoints,
    }
}

} // verus!
