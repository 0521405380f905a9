//! The HTTP client's side of the memory API: its configuration, the request
//! options it accepts, how requests are shaped from them, how responses are
//! unwrapped, and the prompt helpers that put retrieved memories in front of
//! a chat model.
use vstd::prelude::*;
use vstd::utf8::encode_utf8;
use crate::text::{dec_seq, is_blank, push_str, strip_suffix_all, trim, trim_end_matches, trim_seq,
    u64_to_string, views, join, join_seq, all_ws, str_eq};

verus! {

/// `reqwest::Error`, carried through opaquely.
#[verifier::external_type_specification]
#[verifier::external_body]
pub struct ExReqwestError(reqwest::Error);

/// `serde_json::Error`, carried through opaquely.
#[verifier::external_type_specification]
#[verifier::external_body]
pub struct ExSerdeJsonError(serde_json::Error);

/// Errors of the client.
#[derive(Debug)]
pub enum EverMemOSError {
    /// The configuration cannot be used.
    InvalidConfig(&'static str),
    /// The HTTP request failed.
    Http(reqwest::Error),
    /// A body was not the JSON expected.
    Json(serde_json::Error),
    /// The server answered with a status other than `success` or `ok`.
    ApiStatus { status: String, message: String },
}

/// Where and as whom the client talks to the server.
#[derive(Debug, Clone)]
pub struct EverMemOSConfig {
    pub base_url: String,
    pub org_id: String,
    pub user_id: Option<String>,
    pub group_id: Option<String>,
    pub api_key: Option<String>,
}

impl Default for EverMemOSConfig {
    fn default() -> (r: Self)
        ensures
            r.base_url@ == "http://localhost:8080"@,
            r.org_id@ == "default-org"@,
            r.user_id is None,
            r.group_id is None,
            r.api_key is None,
    {
        EverMemOSConfig {
            base_url: "http://localhost:8080".to_owned(),
            org_id: "default-org".to_owned(),
            user_id: None,
            group_id: None,
            api_key: None,
        }
    }
}

/// Builds an [`EverMemOSConfig`] step by step.
#[derive(Debug, Clone)]
pub struct EverMemOSClientBuilder {
    config: EverMemOSConfig,
}

impl Default for EverMemOSClientBuilder {
    fn default() -> (r: Self)
        ensures
            r.config().base_url@ == "http://localhost:8080"@,
            r.config().org_id@ == "default-org"@,
            r.config().user_id is None,
            r.config().group_id is None,
            r.config().api_key is None,
    {
        EverMemOSClientBuilder { config: EverMemOSConfig::default() }
    }
}

impl EverMemOSClientBuilder {
    /// The configuration built so far.
    pub closed spec fn config(&self) -> EverMemOSConfig {
        self.config
    }

    /// The configuration built so far.
    pub fn config_ref(&self) -> (r: &EverMemOSConfig)
        ensures
            *r == self.config(),
    {
        &self.config
    }

    /// The finished configuration.
    pub fn into_config(self) -> (r: EverMemOSConfig)
        ensures
            r == self.config(),
    {
        self.config
    }

    /// Sets the server URL, without trailing slashes.
    pub fn base_url(self, value: &str) -> (r: Self)
        ensures
            r.config().base_url@ == strip_suffix_all(value@, "/"@),
            r.config().org_id == self.config().org_id,
            r.config().user_id == self.config().user_id,
            r.config().group_id == self.config().group_id,
            r.config().api_key == self.config().api_key,
    {
        let mut s = self;
        s.config.base_url = trim_end_matches(value, "/");
        s
    }

    /// Sets the organisation.
    pub fn org_id(self, value: &str) -> (r: Self)
        ensures
            r.config().org_id@ == value@,
            r.config().base_url == self.config().base_url,
            r.config().user_id == self.config().user_id,
            r.config().group_id == self.config().group_id,
            r.config().api_key == self.config().api_key,
    {
        let mut s = self;
        s.config.org_id = value.to_owned();
        s
    }

    /// Sets the default user.
    pub fn user_id(self, value: &str) -> (r: Self)
        ensures
            r.config().user_id matches Some(u) && u@ == value@,
            r.config().base_url == self.config().base_url,
            r.config().org_id == self.config().org_id,
            r.config().group_id == self.config().group_id,
            r.config().api_key == self.config().api_key,
    {
        let mut s = self;
        s.config.user_id = Some(value.to_owned());
        s
    }

    /// Sets the default group.
    pub fn group_id(self, value: &str) -> (r: Self)
        ensures
            r.config().group_id matches Some(g) && g@ == value@,
            r.config().base_url == self.config().base_url,
            r.config().org_id == self.config().org_id,
            r.config().user_id == self.config().user_id,
            r.config().api_key == self.config().api_key,
    {
        let mut s = self;
        s.config.group_id = Some(value.to_owned());
        s
    }

    /// Sets the API key sent as a bearer token.
    pub fn api_key(self, value: &str) -> (r: Self)
        ensures
            r.config().api_key matches Some(k) && k@ == value@,
            r.config().base_url == self.config().base_url,
            r.config().org_id == self.config().org_id,
            r.config().user_id == self.config().user_id,
            r.config().group_id == self.config().group_id,
    {
        let mut s = self;
        s.config.api_key = Some(value.to_owned());
        s
    }
}

/// A character an HTTP header value may hold: any UTF-8 byte of it is a
/// tab or at least a space and not DEL.
pub open spec fn header_char_ok(c: char) -> bool {
    ((c as u32) >= 32 && (c as u32) != 127) || c == '\t'
}

/// The string can be sent as an HTTP header value.
pub open spec fn header_value_ok(s: Seq<char>) -> bool {
    forall|i: int| 0 <= i < s.len() ==> header_char_ok(#[trigger] s[i])
}

/// Whether `s` can be an HTTP header value (the test of
/// `HeaderValue::from_str`).
pub fn header_value_valid(s: &str) -> (r: bool)
    ensures
        r == header_value_ok(s@),
{
    let v = crate::text::chars_of(s);
    let mut i: usize = 0;
    while i < v.len()
        invariant
            i <= v.len(),
            v@ == s@,
            forall|k: int| 0 <= k < i ==> header_char_ok(#[trigger] v@[k]),
        decreases v.len() - i,
    {
        let u = v[i] as u32;
        if !((u >= 32 && u != 127) || v[i] == '\t') {
            return false;
        }
        i = i + 1;
    }
    true
}

/// The error a configuration is refused with, if any, in the order the
/// client checks: an empty URL, an empty organisation, an organisation that
/// cannot be a header, an API key that cannot be a bearer header.
pub open spec fn config_error(c: EverMemOSConfig) -> Option<&'static str> {
    if all_ws(c.base_url@) {
        Some("base_url cannot be empty")
    } else if all_ws(c.org_id@) {
        Some("org_id cannot be empty")
    } else if !header_value_ok(c.org_id@) {
        Some("invalid org_id header")
    } else if c.api_key matches Some(k) && !header_value_ok("Bearer "@ + k@) {
        Some("invalid authorization header")
    } else {
        None
    }
}

/// Checks a configuration before a client is made from it.
pub fn check_config(c: &EverMemOSConfig) -> (r: Result<(), EverMemOSError>)
    ensures
        match config_error(*c) {
            None => r is Ok,
            Some(msg) => r matches Err(EverMemOSError::InvalidConfig(m)) && m@ == msg@,
        },
{
    if is_blank(c.base_url.as_str()) {
        return Err(EverMemOSError::InvalidConfig("base_url cannot be empty"));
    }
    if is_blank(c.org_id.as_str()) {
        return Err(EverMemOSError::InvalidConfig("org_id cannot be empty"));
    }
    if !header_value_valid(c.org_id.as_str()) {
        return Err(EverMemOSError::InvalidConfig("invalid org_id header"));
    }
    match &c.api_key {
        Some(k) => {
            let t = bearer(k.as_str());
            if !header_value_valid(t.as_str()) {
                return Err(EverMemOSError::InvalidConfig("invalid authorization header"));
            }
        },
        None => {},
    }
    Ok(())
}

/// `"Bearer " + key`, the authorization header value.
pub fn bearer(key: &str) -> (r: String)
    ensures
        r@ == "Bearer "@ + key@,
{
    let mut t = "Bearer ".to_owned();
    push_str(&mut t, key);
    t
}

/// Options for listing memories.
#[derive(Debug, Clone, Default)]
pub struct FetchOptions {
    pub memory_type: Option<String>,
    pub limit: Option<u32>,
    pub offset: Option<u32>,
    pub user_id: Option<String>,
    pub group_id: Option<String>,
}

impl FetchOptions {
    pub fn with_memory_type(self, memory_type: &str) -> (r: Self)
        ensures
            r.memory_type matches Some(m) && m@ == memory_type@,
            r.limit == self.limit,
            r.offset == self.offset,
            r.user_id == self.user_id,
            r.group_id == self.group_id,
    {
        let mut s = self;
        s.memory_type = Some(memory_type.to_owned());
        s
    }

    pub fn with_limit(self, limit: u32) -> (r: Self)
        ensures
            r.limit == Some(limit),
            r.memory_type == self.memory_type,
            r.offset == self.offset,
            r.user_id == self.user_id,
            r.group_id == self.group_id,
    {
        let mut s = self;
        s.limit = Some(limit);
        s
    }

    pub fn with_offset(self, offset: u32) -> (r: Self)
        ensures
            r.offset == Some(offset),
            r.memory_type == self.memory_type,
            r.limit == self.limit,
            r.user_id == self.user_id,
            r.group_id == self.group_id,
    {
        let mut s = self;
        s.offset = Some(offset);
        s
    }

    pub fn with_user_id(self, user_id: &str) -> (r: Self)
        ensures
            r.user_id matches Some(u) && u@ == user_id@,
            r.memory_type == self.memory_type,
            r.limit == self.limit,
            r.offset == self.offset,
            r.group_id == self.group_id,
    {
        let mut s = self;
        s.user_id = Some(user_id.to_owned());
        s
    }

    pub fn with_group_id(self, group_id: &str) -> (r: Self)
        ensures
            r.group_id matches Some(g) && g@ == group_id@,
            r.memory_type == self.memory_type,
            r.limit == self.limit,
            r.offset == self.offset,
            r.user_id == self.user_id,
    {
        let mut s = self;
        s.group_id = Some(group_id.to_owned());
        s
    }
}

/// Options for deleting memories.
#[derive(Debug, Clone, Default)]
pub struct DeleteOptions {
    pub user_id: Option<String>,
    pub group_id: Option<String>,
    pub memory_id: Option<String>,
}

impl DeleteOptions {
    pub fn with_user_id(self, user_id: &str) -> (r: Self)
        ensures
            r.user_id matches Some(u) && u@ == user_id@,
            r.group_id == self.group_id,
            r.memory_id == self.memory_id,
    {
        let mut s = self;
        s.user_id = Some(user_id.to_owned());
        s
    }

    pub fn with_group_id(self, group_id: &str) -> (r: Self)
        ensures
            r.group_id matches Some(g) && g@ == group_id@,
            r.user_id == self.user_id,
            r.memory_id == self.memory_id,
    {
        let mut s = self;
        s.group_id = Some(group_id.to_owned());
        s
    }

    pub fn with_memory_id(self, memory_id: &str) -> (r: Self)
        ensures
            r.memory_id matches Some(m) && m@ == memory_id@,
            r.user_id == self.user_id,
            r.group_id == self.group_id,
    {
        let mut s = self;
        s.memory_id = Some(memory_id.to_owned());
        s
    }
}

/// The response envelope every endpoint answers with.
#[derive(Debug, Clone)]
pub struct ApiEnvelope<T> {
    pub status: String,
    pub message: String,
    pub result: Option<T>,
}

/// Statuses that mean success.
pub open spec fn status_ok(s: Seq<char>) -> bool {
    s == "success"@ || s == "ok"@
}

/// The payload of an envelope: its result (or the type's default when it
/// carries none) if the status is `success` or `ok`; otherwise the status
/// and message as an error.
pub fn unwrap_envelope<T: Default>(env: ApiEnvelope<T>) -> (r: Result<T, EverMemOSError>)
    ensures
        status_ok(env.status@) ==> (match env.result {
            Some(v) => r == Ok::<T, EverMemOSError>(v),
            None => (r matches Ok(d) && call_ensures(T::default, (), d)),
        }),
        !status_ok(env.status@) ==> (r matches Err(EverMemOSError::ApiStatus { status, message })
            && status == env.status && message == env.message),
{
    if !str_eq(env.status.as_str(), "success") && !str_eq(env.status.as_str(), "ok") {
        return Err(EverMemOSError::ApiStatus { status: env.status, message: env.message });
    }
    match env.result {
        Some(v) => Ok(v),
        None => Ok(T::default()),
    }
}

/// `a` unless it is absent, then `b`.
pub open spec fn or_else<A>(a: Option<A>, b: Option<A>) -> Option<A> {
    match a {
        Some(x) => Some(x),
        None => b,
    }
}

/// Adds `(key, value)` to a parameter list.
fn push_param(params: &mut Vec<(String, String)>, key: &str, value: String)
    ensures
        final(params)@.len() == old(params)@.len() + 1,
        forall|i: int| 0 <= i < old(params)@.len() ==> final(params)@[i] == old(params)@[i],
        final(params)@.last().0@ == key@,
        final(params)@.last().1 == value,
{
    params.push((key.to_owned(), value));
}

/// A query parameter list by its views.
pub open spec fn param_views(p: Seq<(String, String)>) -> Seq<(Seq<char>, Seq<char>)> {
    p.map_values(|kv: (String, String)| (kv.0@, kv.1@))
}

/// An optional parameter, present when the value is.
pub open spec fn opt_param(key: Seq<char>, value: Option<String>) -> Seq<(Seq<char>, Seq<char>)> {
    match value {
        Some(v) => seq![(key, v@)],
        None => Seq::empty(),
    }
}

/// Query of the search request: the query text, the method (`HYBRID` when
/// unset), `top_k` (5 when unset), the user and group (falling back to the
/// configured ones), the memory types joined with commas when any are
/// given, and the radius when given.
pub open spec fn search_params_spec(
    query: Seq<char>,
    method: Option<String>,
    memory_types: Option<Seq<String>>,
    top_k: Option<u32>,
    user_id: Option<String>,
    group_id: Option<String>,
    radius: Option<String>,
    c: EverMemOSConfig,
) -> Seq<(Seq<char>, Seq<char>)> {
    seq![("query"@, query)] + seq![
        ("retrieve_method"@, match method {
            Some(m) => m@,
            None => "HYBRID"@,
        }),
    ] + seq![
        ("top_k"@, dec_seq(
            (match top_k {
                Some(k) => k,
                None => 5u32,
            }) as nat,
        )),
    ] + opt_param("user_id"@, or_else(user_id, c.user_id)) + opt_param(
        "group_id"@,
        or_else(group_id, c.group_id),
    ) + (match memory_types {
        Some(ts) => if ts.len() > 0 {
            seq![("memory_types"@, join_seq(views(ts), ","@))]
        } else {
            Seq::empty()
        },
        None => Seq::empty(),
    }) + opt_param("radius"@, radius)
}

fn push_opt(params: &mut Vec<(String, String)>, key: &str, value: Option<String>)
    ensures
        param_views(final(params)@) == param_views(old(params)@) + opt_param(key@, value),
{
    match value {
        Some(v) => {
            push_param(params, key, v);
            assert(param_views(final(params)@) =~= param_views(old(params)@) + opt_param(
                key@,
                value,
            ));
        },
        None => {
            assert(param_views(final(params)@) =~= param_views(old(params)@) + opt_param(
                key@,
                value,
            ));
        },
    }
}

/// Builds the search query; the radius comes already rendered as text.
pub fn search_params(
    query: &str,
    method: Option<String>,
    memory_types: Option<Vec<String>>,
    top_k: Option<u32>,
    user_id: Option<String>,
    group_id: Option<String>,
    radius: Option<String>,
    c: &EverMemOSConfig,
) -> (r: Vec<(String, String)>)
    ensures
        param_views(r@) == search_params_spec(
            query@,
            method,
            match memory_types {
                Some(v) => Some(v@),
                None => None,
            },
            top_k,
            user_id,
            group_id,
            radius,
            *c,
        ),
{
    let mut p: Vec<(String, String)> = Vec::new();
    push_param(&mut p, "query", query.to_owned());
    let m = match method {
        Some(m) => m,
        None => "HYBRID".to_owned(),
    };
    push_param(&mut p, "retrieve_method", m);
    let k = match top_k {
        Some(k) => k,
        None => 5u32,
    };
    push_param(&mut p, "top_k", u64_to_string(k as u64));
    let ghost head = param_views(p@);
    assert(head =~= seq![("query"@, query@)] + seq![
        ("retrieve_method"@, match method {
            Some(m) => m@,
            None => "HYBRID"@,
        }),
    ] + seq![("top_k"@, dec_seq(k as nat))]);
    let u = match user_id {
        Some(u) => Some(u),
        None => c.user_id.clone(),
    };
    push_opt(&mut p, "user_id", u);
    let g = match group_id {
        Some(g) => Some(g),
        None => c.group_id.clone(),
    };
    push_opt(&mut p, "group_id", g);
    let ghost before_types = param_views(p@);
    match memory_types {
        Some(ts) => {
            if ts.len() > 0 {
                let joined = join(&ts, ",");
                push_param(&mut p, "memory_types", joined);
                assert(param_views(p@) =~= before_types + seq![
                    ("memory_types"@, join_seq(views(ts@), ","@)),
                ]);
            } else {
                assert(param_views(p@) =~= before_types + Seq::empty());
            }
        },
        None => {
            assert(param_views(p@) =~= before_types + Seq::empty());
        },
    }
    push_opt(&mut p, "radius", radius);
    p
}

/// Query of the list request: `limit` (20 when unset), `offset` (0 when
/// unset), user and group (falling back to the configured ones), and the
/// memory type when given.
pub open spec fn fetch_params_spec(o: FetchOptions, c: EverMemOSConfig) -> Seq<
    (Seq<char>, Seq<char>),
> {
    seq![
        ("limit"@, dec_seq(
            (match o.limit {
                Some(l) => l,
                None => 20u32,
            }) as nat,
        )),
        ("offset"@, dec_seq(
            (match o.offset {
                Some(f) => f,
                None => 0u32,
            }) as nat,
        )),
    ] + opt_param("user_id"@, or_else(o.user_id, c.user_id)) + opt_param(
        "group_id"@,
        or_else(o.group_id, c.group_id),
    ) + opt_param("memory_type"@, o.memory_type)
}

/// A parameter list has a pair with this key.
pub open spec fn has_key(p: Seq<(Seq<char>, Seq<char>)>, key: Seq<char>) -> bool {
    exists|i: int| 0 <= i < p.len() && (#[trigger] p[i]).0 == key
}

proof fn lemma_param_key_lengths()
    ensures
        "query"@.len() == 5,
        "retrieve_method"@.len() == 15,
        "top_k"@.len() == 5,
        "limit"@.len() == 5,
        "offset"@.len() == 6,
        "user_id"@.len() == 7,
        "group_id"@.len() == 8,
        "memory_type"@.len() == 11,
        "memory_types"@.len() == 12,
        "radius"@.len() == 6,
{
    reveal_strlit("query");
    reveal_strlit("retrieve_method");
    reveal_strlit("top_k");
    reveal_strlit("limit");
    reveal_strlit("offset");
    reveal_strlit("user_id");
    reveal_strlit("group_id");
    reveal_strlit("memory_type");
    reveal_strlit("memory_types");
    reveal_strlit("radius");
}

/// The list query is scoped to a user: the one the options name, else the
/// configured one; and it names no user when neither does. Likewise for
/// the group.
pub proof fn law_list_query_scope(o: FetchOptions, c: EverMemOSConfig)
    ensures
        o.user_id matches Some(u) ==> fetch_params_spec(o, c).contains(("user_id"@, u@)),
        o.user_id is None && c.user_id is Some ==> fetch_params_spec(o, c).contains(
            ("user_id"@, c.user_id->0@),
        ),
        o.user_id is None && c.user_id is None ==> !has_key(fetch_params_spec(o, c), "user_id"@),
        o.group_id matches Some(g) ==> fetch_params_spec(o, c).contains(("group_id"@, g@)),
        o.group_id is None && c.group_id is Some ==> fetch_params_spec(o, c).contains(
            ("group_id"@, c.group_id->0@),
        ),
        o.group_id is None && c.group_id is None ==> !has_key(fetch_params_spec(o, c), "group_id"@),
{
    lemma_param_key_lengths();
    let p = fetch_params_spec(o, c);
    let head = seq![
        ("limit"@, dec_seq(
            (match o.limit {
                Some(l) => l,
                None => 20u32,
            }) as nat,
        )),
        ("offset"@, dec_seq(
            (match o.offset {
                Some(f) => f,
                None => 0u32,
            }) as nat,
        )),
    ];
    let up = opt_param("user_id"@, or_else(o.user_id, c.user_id));
    let gp = opt_param("group_id"@, or_else(o.group_id, c.group_id));
    let mp = opt_param("memory_type"@, o.memory_type);
    assert(p == head + up + gp + mp);
    match or_else(o.user_id, c.user_id) {
        Some(u) => {
            assert(p[2] == ("user_id"@, u@));
        },
        None => {},
    }
    match or_else(o.group_id, c.group_id) {
        Some(g) => {
            assert(p[(2 + up.len()) as int] == ("group_id"@, g@));
        },
        None => {},
    }
    assert forall|i: int| 0 <= i < p.len() && (#[trigger] p[i]).0 == "user_id"@ implies or_else(
        o.user_id,
        c.user_id,
    ) is Some by {
        if i >= 2 + up.len() + gp.len() {
            assert(p[i] == mp[i - 2 - up.len() - gp.len()]);
        } else if i >= 2 + up.len() {
            assert(p[i] == gp[i - 2 - up.len()]);
        } else if i >= 2 {
            assert(p[i] == up[i - 2]);
        } else {
            assert(p[i] == head[i]);
        }
    }
    assert forall|i: int| 0 <= i < p.len() && (#[trigger] p[i]).0 == "group_id"@ implies or_else(
        o.group_id,
        c.group_id,
    ) is Some by {
        if i >= 2 + up.len() + gp.len() {
            assert(p[i] == mp[i - 2 - up.len() - gp.len()]);
        } else if i >= 2 + up.len() {
            assert(p[i] == gp[i - 2 - up.len()]);
        } else if i >= 2 {
            assert(p[i] == up[i - 2]);
        } else {
            assert(p[i] == head[i]);
        }
    }
}

/// The search query is scoped like the list query: to the user and group
/// the call names, else the configured ones, and to none when neither does.
pub proof fn law_search_query_scope(
    query: Seq<char>,
    method: Option<String>,
    memory_types: Option<Seq<String>>,
    top_k: Option<u32>,
    user_id: Option<String>,
    group_id: Option<String>,
    radius: Option<String>,
    c: EverMemOSConfig,
)
    ensures
        ({
            let p = search_params_spec(query, method, memory_types, top_k, user_id, group_id, radius, c);
            &&& user_id is Some ==> p.contains(("user_id"@, user_id->0@))
            &&& user_id is None && c.user_id is Some ==> p.contains(("user_id"@, c.user_id->0@))
            &&& user_id is None && c.user_id is None ==> !has_key(p, "user_id"@)
            &&& group_id is Some ==> p.contains(("group_id"@, group_id->0@))
            &&& group_id is None && c.group_id is Some ==> p.contains(("group_id"@, c.group_id->0@))
            &&& group_id is None && c.group_id is None ==> !has_key(p, "group_id"@)
        }),
{
    lemma_param_key_lengths();
    let p = search_params_spec(query, method, memory_types, top_k, user_id, group_id, radius, c);
    let head = seq![("query"@, query)] + seq![
        ("retrieve_method"@, match method {
            Some(m) => m@,
            None => "HYBRID"@,
        }),
    ] + seq![
        ("top_k"@, dec_seq(
            (match top_k {
                Some(k) => k,
                None => 5u32,
            }) as nat,
        )),
    ];
    let up = opt_param("user_id"@, or_else(user_id, c.user_id));
    let gp = opt_param("group_id"@, or_else(group_id, c.group_id));
    let tp: Seq<(Seq<char>, Seq<char>)> = match memory_types {
        Some(ts) => if ts.len() > 0 {
            seq![("memory_types"@, join_seq(views(ts), ","@))]
        } else {
            Seq::empty()
        },
        None => Seq::empty(),
    };
    let rp = opt_param("radius"@, radius);
    assert(p == head + up + gp + tp + rp);
    assert(head.len() == 3);
    match or_else(user_id, c.user_id) {
        Some(u) => {
            assert(p[3] == ("user_id"@, u@));
        },
        None => {},
    }
    match or_else(group_id, c.group_id) {
        Some(g) => {
            assert(p[(3 + up.len()) as int] == ("group_id"@, g@));
        },
        None => {},
    }
    let n = 3 + up.len() + gp.len();
    assert forall|i: int| 0 <= i < p.len() && (#[trigger] p[i]).0 == "user_id"@ implies or_else(
        user_id,
        c.user_id,
    ) is Some by {
        if i >= n + tp.len() {
            assert(p[i] == rp[i - n - tp.len()]);
        } else if i >= n {
            assert(p[i] == tp[i - n]);
        } else if i >= 3 + up.len() {
            assert(p[i] == gp[i - 3 - up.len()]);
        } else if i >= 3 {
            assert(p[i] == up[i - 3]);
        } else {
            assert(p[i] == head[i]);
        }
    }
    assert forall|i: int| 0 <= i < p.len() && (#[trigger] p[i]).0 == "group_id"@ implies or_else(
        group_id,
        c.group_id,
    ) is Some by {
        if i >= n + tp.len() {
            assert(p[i] == rp[i - n - tp.len()]);
        } else if i >= n {
            assert(p[i] == tp[i - n]);
        } else if i >= 3 + up.len() {
            assert(p[i] == gp[i - 3 - up.len()]);
        } else if i >= 3 {
            assert(p[i] == up[i - 3]);
        } else {
            assert(p[i] == head[i]);
        }
    }
}

/// Builds the list query.
pub fn fetch_params(o: FetchOptions, c: &EverMemOSConfig) -> (r: Vec<(String, String)>)
    ensures
        param_views(r@) == fetch_params_spec(o, *c),
{
    let ghost og = o;
    let mut p: Vec<(String, String)> = Vec::new();
    let l = match o.limit {
        Some(l) => l,
        None => 20u32,
    };
    push_param(&mut p, "limit", u64_to_string(l as u64));
    let f = match o.offset {
        Some(f) => f,
        None => 0u32,
    };
    push_param(&mut p, "offset", u64_to_string(f as u64));
    assert(param_views(p@) =~= seq![
        ("limit"@, dec_seq(l as nat)),
        ("offset"@, dec_seq(f as nat)),
    ]);
    let u = match o.user_id {
        Some(u) => Some(u),
        None => c.user_id.clone(),
    };
    push_opt(&mut p, "user_id", u);
    let g = match o.group_id {
        Some(g) => Some(g),
        None => c.group_id.clone(),
    };
    push_opt(&mut p, "group_id", g);
    push_opt(&mut p, "memory_type", o.memory_type);
    p
}

/// The options a profile lookup lists memories with: the given memory type,
/// the caller's limit or 20, the caller's offset and scope.
pub fn profile_fetch_options(memory_type: &str, o: FetchOptions) -> (r: FetchOptions)
    ensures
        r.memory_type matches Some(m) && m@ == memory_type@,
        r.limit == (match o.limit {
            Some(l) => Some(l),
            None => Some(20u32),
        }),
        r.offset == o.offset,
        r.user_id == o.user_id,
        r.group_id == o.group_id,
{
    FetchOptions {
        memory_type: Some(memory_type.to_owned()),
        limit: match o.limit {
            Some(l) => Some(l),
            None => Some(20u32),
        },
        offset: o.offset,
        user_id: o.user_id,
        group_id: o.group_id,
    }
}

/// The scope of a delete request: the caller's user and group, falling back
/// to the configured ones, and the memory id.
pub fn delete_scope(o: DeleteOptions, c: &EverMemOSConfig) -> (r: DeleteOptions)
    ensures
        r.user_id == or_else(o.user_id, c.user_id),
        r.group_id == or_else(o.group_id, c.group_id),
        r.memory_id == o.memory_id,
{
    DeleteOptions {
        user_id: match o.user_id {
            Some(u) => Some(u),
            None => c.user_id.clone(),
        },
        group_id: match o.group_id {
            Some(g) => Some(g),
            None => c.group_id.clone(),
        },
        memory_id: o.memory_id,
    }
}

/// Bytes that the form encoding keeps as they are.
pub open spec fn form_unchanged(b: u8) -> bool {
    b == 0x2a || b == 0x2d || b == 0x2e || b == 0x5f || (0x30 <= b && b <= 0x39) || (0x41 <= b
        && b <= 0x5a) || (0x61 <= b && b <= 0x7a)
}

/// An upper-case hexadecimal digit.
pub open spec fn hex_digit(n: int) -> char {
    if n < 10 {
        (n + 0x30) as char
    } else {
        (n - 10 + 0x41) as char
    }
}

/// One byte of the form encoding: kept, `+` for a space, else `%XX`.
pub open spec fn form_byte(b: u8) -> Seq<char> {
    if b == 0x20 {
        seq!['+']
    } else if form_unchanged(b) {
        seq![b as char]
    } else {
        seq!['%', hex_digit(b as int / 16), hex_digit(b as int % 16)]
    }
}

pub open spec fn form_bytes(bs: Seq<u8>) -> Seq<char>
    decreases bs.len(),
{
    if bs.len() == 0 {
        Seq::empty()
    } else {
        form_bytes(bs.drop_last()) + form_byte(bs.last())
    }
}

/// The form encoding (`application/x-www-form-urlencoded`) of a list of
/// key-value pairs: each pair as `key=value`, both byte-encoded from their
/// UTF-8 form, pairs separated by `&`.
pub open spec fn form_encoding(pairs: Seq<(Seq<char>, Seq<char>)>) -> Seq<char> {
    join_seq(
        Seq::new(
            pairs.len(),
            |i: int| form_bytes(encode_utf8(pairs[i].0)) + "="@ + form_bytes(encode_utf8(pairs[i].1)),
        ),
        "&"@,
    )
}

/// `serde_urlencoded::to_string` on a list of string pairs, trusted to
/// succeed (its pair serializer accepts pairs of strings) and to give the
/// form encoding of the pairs.
#[verifier::external_body]
fn urlencode(pairs: &Vec<(String, String)>) -> (r: Option<String>)
    ensures
        r is Some,
        r matches Some(s) ==> s@ == form_encoding(param_views(pairs@)),
{
    serde_urlencoded::to_string(pairs).ok()
}

/// `prefix` followed by the encoded query. (The encoder accepts every list
/// of string pairs; were it to refuse one, the client's error would be
/// `invalid query params`.)
pub fn path_with_query(prefix: &str, params: &Vec<(String, String)>) -> (r: Result<
    String,
    EverMemOSError,
>)
    ensures
        r is Ok,
        r matches Ok(s) ==> s@ == prefix@ + form_encoding(param_views(params@)),
{
    match urlencode(params) {
        Some(q) => {
            let mut s = prefix.to_owned();
            push_str(&mut s, q.as_str());
            Ok(s)
        },
        None => Err(EverMemOSError::InvalidConfig("invalid query params")),
    }
}

/// The fields of a stored message after defaults are applied.
#[derive(Debug, Clone)]
pub struct MemorizeFields {
    pub sender: String,
    pub sender_name: String,
    pub role: String,
    pub user_id: Option<String>,
    pub group_id: Option<String>,
}

/// Applies the defaults of a memorize request: the sender is `User` unless
/// given; the sender name is the given one, else the sender, else `User`;
/// the role is `user` unless given; user and group fall back to the
/// configured ones.
pub fn memorize_fields(
    sender: Option<String>,
    sender_name: Option<String>,
    role: Option<String>,
    user_id: Option<String>,
    group_id: Option<String>,
    c: &EverMemOSConfig,
) -> (r: MemorizeFields)
    ensures
        r.sender@ == (match sender {
            Some(s) => s@,
            None => "User"@,
        }),
        r.sender_name@ == (match sender_name {
            Some(n) => n@,
            None => match sender {
                Some(s) => s@,
                None => "User"@,
            },
        }),
        r.role@ == (match role {
            Some(x) => x@,
            None => "user"@,
        }),
        r.user_id == or_else(user_id, c.user_id),
        r.group_id == or_else(group_id, c.group_id),
{
    let s = match &sender {
        Some(s) => s.clone(),
        None => "User".to_owned(),
    };
    let n = match sender_name {
        Some(n) => n,
        None => match sender {
            Some(s) => s,
            None => "User".to_owned(),
        },
    };
    let ro = match role {
        Some(x) => x,
        None => "user".to_owned(),
    };
    MemorizeFields {
        sender: s,
        sender_name: n,
        role: ro,
        user_id: match user_id {
            Some(u) => Some(u),
            None => c.user_id.clone(),
        },
        group_id: match group_id {
            Some(g) => Some(g),
            None => c.group_id.clone(),
        },
    }
}

/// A retrieved memory as the context builder shows it; the score comes
/// already rendered, e.g. `" (score=0.912)"`.
#[derive(Debug, Clone)]
pub struct ContextItem {
    pub memory_type: Option<String>,
    pub content: Option<String>,
    pub score: Option<String>,
}

pub open spec fn text_or(v: Option<String>, d: Seq<char>) -> Seq<char> {
    match v {
        Some(s) => s@,
        None => d,
    }
}

/// `n. [type]score content`, with `unknown` for a missing type and the
/// content trimmed.
pub open spec fn context_line(n: nat, m: ContextItem) -> Seq<char> {
    dec_seq(n) + ". ["@ + text_or(m.memory_type, "unknown"@) + "]"@ + text_or(m.score, Seq::empty())
        + " "@ + trim_seq(text_or(m.content, Seq::empty()))
}

/// The memory context handed to a model: one numbered line per memory, or
/// a note that none was found.
pub open spec fn memory_context_spec(ms: Seq<ContextItem>) -> Seq<char> {
    if ms.len() == 0 {
        "No relevant memory found."@
    } else {
        join_seq(Seq::new(ms.len(), |i: int| context_line((i + 1) as nat, ms[i])), "\n"@)
    }
}

/// Renders retrieved memories as the context of a prompt.
pub fn memory_context(memories: &Vec<ContextItem>) -> (r: String)
    requires
        memories@.len() < u64::MAX,
    ensures
        r@ == memory_context_spec(memories@),
{
    if memories.len() == 0 {
        return "No relevant memory found.".to_owned();
    }
    let mut lines: Vec<String> = Vec::new();
    let mut i: usize = 0;
    while i < memories.len()
        invariant
            i <= memories@.len() < u64::MAX,
            lines@.len() == i,
            forall|k: int|
                0 <= k < i ==> #[trigger] lines@[k]@ == context_line((k + 1) as nat, memories@[k]),
        decreases memories@.len() - i,
    {
        let m = &memories[i];
        let mut line = u64_to_string((i + 1) as u64);
        push_str(&mut line, ". [");
        match &m.memory_type {
            Some(t) => push_str(&mut line, t.as_str()),
            None => push_str(&mut line, "unknown"),
        }
        push_str(&mut line, "]");
        match &m.score {
            Some(s) => push_str(&mut line, s.as_str()),
            None => {
                proof {
                    reveal_strlit("");
                }
                push_str(&mut line, "");
            },
        }
        push_str(&mut line, " ");
        let content = match &m.content {
            Some(c) => trim(c.as_str()),
            None => trim(""),
        };
        proof {
            reveal_strlit("");
        }
        push_str(&mut line, content.as_str());
        lines.push(line);
        i = i + 1;
    }
    let r = join(&lines, "\n");
    assert(views(lines@) =~= Seq::new(
        memories@.len(),
        |k: int| context_line((k + 1) as nat, memories@[k]),
    ));
    r
}

/// A chat message for an external chat framework.
#[derive(Debug, Clone)]
pub struct RoleContentMessage {
    pub role: String,
    pub content: String,
}

/// The system prompt with retrieved memories: the base prompt unchanged when
/// the context is blank, otherwise both trimmed around a fixed heading.
pub open spec fn system_prompt_spec(base: Seq<char>, ctx: Seq<char>) -> Seq<char> {
    if all_ws(ctx) {
        base
    } else {
        trim_seq(base) + "\n\nLong-term memory context:\n"@ + trim_seq(ctx)
    }
}

/// Composes a system prompt from a base prompt and memory context.
pub fn compose_system_prompt(base_prompt: &str, memory_context: &str) -> (r: String)
    ensures
        r@ == system_prompt_spec(base_prompt@, memory_context@),
{
    if is_blank(memory_context) {
        return base_prompt.to_owned();
    }
    let mut s = trim(base_prompt);
    push_str(&mut s, "\n\nLong-term memory context:\n");
    let c = trim(memory_context);
    push_str(&mut s, c.as_str());
    s
}

/// The base prompt used when the caller gives none.
pub open spec fn default_base_prompt() -> Seq<char> {
    "You are a helpful assistant."@
}

/// A system message with the composed prompt, then the user's input under
/// `user_role`.
pub open spec fn two_messages_ok(
    r: Seq<RoleContentMessage>,
    user_role: Seq<char>,
    user_input: Seq<char>,
    memory_context: Seq<char>,
    base: Option<Seq<char>>,
) -> bool {
    &&& r.len() == 2
    &&& r[0].role@ == "system"@
    &&& r[0].content@ == system_prompt_spec(
        match base {
            Some(b) => b,
            None => default_base_prompt(),
        },
        memory_context,
    )
    &&& r[1].role@ == user_role
    &&& r[1].content@ == user_input
}

pub open spec fn opt_str_view(o: Option<&str>) -> Option<Seq<char>> {
    match o {
        Some(s) => Some(s@),
        None => None,
    }
}

fn two_messages(
    user_role: &str,
    user_input: &str,
    memory_context: &str,
    base_system_prompt: Option<&str>,
) -> (r: Vec<RoleContentMessage>)
    ensures
        two_messages_ok(r@, user_role@, user_input@, memory_context@, opt_str_view(base_system_prompt)),
{
    let base = match base_system_prompt {
        Some(b) => b,
        None => "You are a helpful assistant.",
    };
    let system = compose_system_prompt(base, memory_context);
    let mut v: Vec<RoleContentMessage> = Vec::new();
    v.push(RoleContentMessage { role: "system".to_owned(), content: system });
    v.push(RoleContentMessage { role: user_role.to_owned(), content: user_input.to_owned() });
    v
}

/// Messages for an OpenAI-style chat: system prompt with memories, then user.
pub fn build_openai_messages(
    user_input: &str,
    memory_context: &str,
    base_system_prompt: Option<&str>,
) -> (r: Vec<RoleContentMessage>)
    ensures
        two_messages_ok(r@, "user"@, user_input@, memory_context@, opt_str_view(base_system_prompt)),
{
    two_messages("user", user_input, memory_context, base_system_prompt)
}

/// Messages for LangChain: system prompt with memories, then `human`.
pub fn build_langchain_messages(
    user_input: &str,
    memory_context: &str,
    base_system_prompt: Option<&str>,
) -> (r: Vec<RoleContentMessage>)
    ensures
        two_messages_ok(r@, "human"@, user_input@, memory_context@, opt_str_view(base_system_prompt)),
{
    two_messages("human", user_input, memory_context, base_system_prompt)
}

/// Chat history for LlamaIndex: system prompt with memories, then user.
pub fn build_llamaindex_chat_history(
    user_input: &str,
    memory_context: &str,
    base_system_prompt: Option<&str>,
) -> (r: Vec<RoleContentMessage>)
    ensures
        two_messages_ok(r@, "user"@, user_input@, memory_context@, opt_str_view(base_system_prompt)),
{
    two_messages("user", user_input, memory_context, base_system_prompt)
}

/// Composing with a blank context leaves the prompt exactly as given; with
/// any other context the prompt keeps the base and the context, each
/// trimmed, in that order.
pub proof fn law_blank_context_leaves_prompt(base: Seq<char>, ctx: Seq<char>)
    ensures
        all_ws(ctx) ==> system_prompt_spec(base, ctx) == base,
        !all_ws(ctx) ==> system_prompt_spec(base, ctx).take(trim_seq(base).len() as int)
            == trim_seq(base),
{
    if !all_ws(ctx) {
        let s = system_prompt_spec(base, ctx);
        assert(s.take(trim_seq(base).len() as int) =~= trim_seq(base));
    }
}

} // verus!
