//! The decisions of the REST server: how it is configured, and to whom an
//! authentication event is relayed.
use vstd::prelude::*;

verus! {

/// An event of the authentication service, with what the server reads of it.
#[derive(Debug, Clone)]
pub enum AuthEvent {
    CreateAccount,
    CreateSession,
    DeleteSession { user_id: String },
    DeleteAllSessions { user_id: String },
}

/// Who receives a relayed event: every subscribed client, or one user only.
#[derive(Debug, Clone)]
pub enum Delivery {
    Global,
    Private(String),
}

/// Whether `d` is the delivery that the server chooses for `event`: new
/// accounts and sessions go to everyone, ended sessions only to their user.
pub open spec fn delivers_as(event: AuthEvent, d: Delivery) -> bool {
    match event {
        AuthEvent::CreateAccount => d is Global,
        AuthEvent::CreateSession => d is Global,
        AuthEvent::DeleteSession { user_id } => d matches Delivery::Private(id) && id@ == user_id@,
        AuthEvent::DeleteAllSessions { user_id } => d matches Delivery::Private(id) && id@
            == user_id@,
    }
}

/// An ended session, or the end of all of a user's sessions, goes to that user
/// alone, whatever the user's id; new accounts and sessions go to everyone.
pub proof fn lemma_ended_sessions_stay_private(user_id: String, d: Delivery)
    ensures
        delivers_as(AuthEvent::DeleteSession { user_id }, d) ==> (d matches Delivery::Private(id)
            && id@ == user_id@),
        delivers_as(AuthEvent::DeleteAllSessions { user_id }, d) ==> (d matches Delivery::Private(
            id,
        ) && id@ == user_id@),
        delivers_as(AuthEvent::CreateAccount, d) ==> d is Global,
        delivers_as(AuthEvent::CreateSession, d) ==> d is Global,
{
}

/// Chooses to whom an authentication event is relayed.
pub fn delivery_for(event: &AuthEvent) -> (d: Delivery)
    ensures
        delivers_as(*event, d),
        event is CreateAccount ==> d is Global,
        event is CreateSession ==> d is Global,
        event matches AuthEvent::DeleteSession { user_id } ==> (d matches Delivery::Private(id)
            && id@ == user_id@),
        event matches AuthEvent::DeleteAllSessions { user_id } ==> (d matches Delivery::Private(
            id,
        ) && id@ == user_id@),
{
    match event {
        AuthEvent::CreateAccount | AuthEvent::CreateSession => Delivery::Global,
        AuthEvent::DeleteSession { user_id } | AuthEvent::DeleteAllSessions { user_id } => {
            Delivery::Private(user_id.clone())
        },
    }
}

/// Which origins may make cross-origin requests.
#[derive(Debug, Clone)]
pub enum CorsOrigins {
    /// Every origin.
    Any,
    /// Only the origins listed, matched exactly.
    Exact(Vec<String>),
}

/// How the REST server listens, what it accepts across origins, where its API
/// documentation lives, and how it declares its push-notification exchange.
#[derive(Debug, Clone)]
pub struct ServerSettings {
    /// The IPv4 address the server binds to.
    pub address: [u8; 4],
    pub port: u16,
    /// The largest string body accepted, in bytes.
    pub string_limit_bytes: u64,
    pub cors_allowed_origins: CorsOrigins,
    pub cors_allowed_methods: Vec<String>,
    pub cors_exposed_headers: Vec<String>,
    /// Where the documentation page mounted at `/swagger/` reads the API description.
    pub swagger_spec_url: String,
    /// Where the documentation page mounted at `/0.8/swagger/` reads the API description.
    pub legacy_swagger_spec_url: String,
    /// The kind of the exchange that push notifications are published to.
    pub pushd_exchange_kind: String,
    /// Whether that exchange survives a restart of the broker.
    pub pushd_exchange_durable: bool,
}

/// The HTTP methods that cross-origin requests may use.
pub open spec fn allowed_method_names() -> Seq<Seq<char>> {
    seq![
        "Get"@,
        "Put"@,
        "Post"@,
        "Delete"@,
        "Options"@,
        "Head"@,
        "Trace"@,
        "Connect"@,
        "Patch"@,
    ]
}

/// The response headers that cross-origin clients may read: the rate-limit headers.
pub open spec fn exposed_header_names() -> Seq<Seq<char>> {
    seq![
        "X-Ratelimit-Limit"@,
        "X-Ratelimit-Bucket"@,
        "X-Ratelimit-Remaining"@,
        "X-Ratelimit-Reset-After"@,
    ]
}

/// The texts of a list of strings.
pub open spec fn texts(v: Seq<String>) -> Seq<Seq<char>> {
    v.map_values(|s: String| s@)
}

fn push_text(v: &mut Vec<String>, s: &str)
    ensures
        texts(final(v)@) == texts(old(v)@).push(s@),
{
    v.push(String::from_str(s));
    assert(texts(v@) =~= texts(old(v)@).push(s@));
}

impl ServerSettings {
    /// The settings that the REST server runs with.
    pub fn standard() -> (r: ServerSettings)
        ensures
            r.address == [0u8, 0u8, 0u8, 0u8],
            r.port == 14702,
            r.string_limit_bytes == 5_000_000,
            r.cors_allowed_origins is Any,
            texts(r.cors_allowed_methods@) == allowed_method_names(),
            texts(r.cors_exposed_headers@) == exposed_header_names(),
            r.swagger_spec_url@ == "/openapi.json"@,
            r.legacy_swagger_spec_url@ == "/0.8/openapi.json"@,
            r.pushd_exchange_kind@ == "direct"@,
            r.pushd_exchange_durable,
    {
        let mut methods: Vec<String> = Vec::new();
        push_text(&mut methods, "Get");
        push_text(&mut methods, "Put");
        push_text(&mut methods, "Post");
        push_text(&mut methods, "Delete");
        push_text(&mut methods, "Options");
        push_text(&mut methods, "Head");
        push_text(&mut methods, "Trace");
        push_text(&mut methods, "Connect");
        push_text(&mut methods, "Patch");
        let mut headers: Vec<String> = Vec::new();
        push_text(&mut headers, "X-Ratelimit-Limit");
        push_text(&mut headers, "X-Ratelimit-Bucket");
        push_text(&mut headers, "X-Ratelimit-Remaining");
        push_text(&mut headers, "X-Ratelimit-Reset-After");
        assert(texts(methods@) =~= allowed_method_names());
        assert(texts(headers@) =~= exposed_header_names());
        ServerSettings {
            address: [0u8, 0u8, 0u8, 0u8],
            port: 14702,
            string_limit_bytes: 5_000_000,
            cors_allowed_origins: CorsOrigins::Any,
            cors_allowed_methods: methods,
            cors_exposed_headers: headers,
            swagger_spec_url: String::from_str("/openapi.json"),
            legacy_swagger_spec_url: String::from_str("/0.8/openapi.json"),
            pushd_exchange_kind: String::from_str("direct"),
            pushd_exchange_durable: true,
        }
    }
}

} // verus!
