//! The rules of the HTTP API: the response envelope, request validation,
//! paging limits, how conversation metadata is resolved and looked up, how a
//! request's status is reported, behavior-history statistics, and access
//! control.
use vstd::prelude::*;
use crate::memory::MemorizeResult;
use crate::retrieval::{
    memory_types_named, method_named, parse_memory_types, parse_retrieve_method, MemoryType,
    RetrieveMethod,
};
use crate::table::KeyTable;
use crate::text::{ascii_lower_seq, ascii_only, str_eq, to_lowercase, lowercase, views};

verus! {

/// Default page size of `GET /api/v1/memories`.
pub const DEFAULT_FETCH_LIMIT: u32 = 20;

/// Largest page size of `GET /api/v1/memories`.
pub const MAX_FETCH_LIMIT: u32 = 100;

/// Default number of search results.
pub const DEFAULT_TOP_K: u32 = 10;

/// Largest number of search results.
pub const MAX_TOP_K: u32 = 50;

/// Default page size of the behavior history.
pub const DEFAULT_BEHAVIOR_LIMIT: u32 = 50;

/// Largest page size of the behavior history.
pub const MAX_BEHAVIOR_LIMIT: u32 = 500;

/// Recent behavior records the statistics are computed over.
pub const STATS_SAMPLE: u32 = 200;

/// The envelope of every answer: `success`, a message and the result.
pub struct ApiResponse<T> {
    pub status: &'static str,
    pub message: String,
    pub result: Option<T>,
}

impl<T> ApiResponse<T> {
    /// A successful answer.
    pub fn ok(message: &str, result: T) -> (r: Self)
        ensures
            r.status@ == "success"@,
            r.message@ == message@,
            r.result == Some(result),
    {
        ApiResponse { status: "success", message: message.to_owned(), result: Some(result) }
    }
}

/// A request the API refuses, with the reason given to the client.
#[derive(Debug)]
pub enum ApiError {
    BadRequest(String),
}

/// The value of an optional parameter, `default` when absent, capped at `max`.
pub open spec fn capped_spec(v: Option<u32>, default: u32, max: u32) -> u32 {
    let x = match v {
        Some(x) => x,
        None => default,
    };
    if x < max {
        x
    } else {
        max
    }
}

fn capped(v: Option<u32>, default: u32, max: u32) -> (r: u32)
    ensures
        r == capped_spec(v, default, max),
{
    let x = match v {
        Some(x) => x,
        None => default,
    };
    if x < max {
        x
    } else {
        max
    }
}

/// The search request's parameters that the search reads; its time bounds
/// and radius travel beside it.
pub struct SearchMemoriesQuery {
    pub query: String,
    pub user_id: Option<String>,
    pub group_id: Option<String>,
    /// `KEYWORD`, `VECTOR`, `HYBRID`, `RRF` or `AGENTIC`.
    pub retrieve_method: Option<String>,
    /// Comma-separated memory types.
    pub memory_types: Option<String>,
    pub top_k: Option<u32>,
}

pub open spec fn string_view(o: Option<String>) -> Option<Seq<char>> {
    match o {
        Some(s) => Some(s@),
        None => None,
    }
}

impl SearchMemoriesQuery {
    /// The retrieval method (vector search unless another is named).
    pub fn parse_method(&self) -> (r: RetrieveMethod)
        ensures
            r == method_named(string_view(self.retrieve_method)),
    {
        match &self.retrieve_method {
            Some(m) => parse_retrieve_method(Some(m.as_str())),
            None => parse_retrieve_method(None),
        }
    }

    /// The memory types searched (all of them unless listed).
    pub fn parse_memory_types(&self) -> (r: Vec<MemoryType>)
        ensures
            r@ == memory_types_named(string_view(self.memory_types)),
    {
        match &self.memory_types {
            Some(t) => parse_memory_types(Some(t.as_str())),
            None => parse_memory_types(None),
        }
    }
}

/// Page size of a memory listing: 20 by default, at most 100.
pub fn fetch_limit(limit: Option<u32>) -> (r: u32)
    ensures
        r == capped_spec(limit, DEFAULT_FETCH_LIMIT, MAX_FETCH_LIMIT),
{
    capped(limit, DEFAULT_FETCH_LIMIT, MAX_FETCH_LIMIT)
}

/// Offset of a memory listing: 0 by default.
pub fn fetch_offset(offset: Option<u32>) -> (r: u32)
    ensures
        r == (match offset {
            Some(o) => o,
            None => 0,
        }),
{
    match offset {
        Some(o) => o,
        None => 0,
    }
}

/// Number of search results: 10 by default, at most 50.
pub fn search_top_k(top_k: Option<u32>) -> (r: u32)
    ensures
        r == capped_spec(top_k, DEFAULT_TOP_K, MAX_TOP_K),
{
    capped(top_k, DEFAULT_TOP_K, MAX_TOP_K)
}

/// Page size of the behavior history: 50 by default, at most 500.
pub fn behavior_list_limit(limit: Option<u32>) -> (r: u32)
    ensures
        r == capped_spec(limit, DEFAULT_BEHAVIOR_LIMIT, MAX_BEHAVIOR_LIMIT),
{
    capped(limit, DEFAULT_BEHAVIOR_LIMIT, MAX_BEHAVIOR_LIMIT)
}

/// A listing may continue when it returned a full page.
pub fn has_more(returned: usize, limit: u32) -> (r: bool)
    ensures
        r == (returned == limit),
{
    returned as u64 == limit as u64
}

/// A page never exceeds its cap, whatever the client asked for.
pub proof fn law_page_sizes_are_capped(limit: Option<u32>, top_k: Option<u32>)
    ensures
        capped_spec(limit, DEFAULT_FETCH_LIMIT, MAX_FETCH_LIMIT) <= MAX_FETCH_LIMIT,
        capped_spec(top_k, DEFAULT_TOP_K, MAX_TOP_K) <= MAX_TOP_K,
        capped_spec(limit, DEFAULT_BEHAVIOR_LIMIT, MAX_BEHAVIOR_LIMIT) <= MAX_BEHAVIOR_LIMIT,
{
}

/// Answer of `POST /api/v1/memories`.
pub struct MemorizeResponse {
    pub status: String,
    pub message: String,
    pub saved_count: usize,
}

/// The answer for the pipeline's result.
pub fn memorize_response(r: MemorizeResult) -> (out: MemorizeResponse)
    ensures
        out.status == r.status,
        out.message == r.message,
        out.saved_count == r.saved_count,
{
    MemorizeResponse { status: r.status, message: r.message, saved_count: r.saved_count }
}

/// Body of `DELETE /api/v1/memories`.
pub struct DeleteMemoriesRequest {
    pub user_id: Option<String>,
    pub group_id: Option<String>,
    /// A specific record.
    pub event_id: Option<String>,
    pub memory_type: Option<String>,
}

/// Answer of `DELETE /api/v1/memories`.
pub struct DeleteMemoriesResponse {
    pub deleted_count: u64,
}

/// A deletion needs at least one of `event_id`, `user_id` or `group_id`.
pub fn check_delete(req: &DeleteMemoriesRequest) -> (r: Result<(), ApiError>)
    ensures
        r is Ok <==> (req.user_id.is_some() || req.group_id.is_some() || req.event_id.is_some()),
        match r {
            Err(ApiError::BadRequest(m)) => m@
                == "At least one of event_id, user_id, or group_id is required"@,
            Ok(_) => true,
        },
{
    if req.user_id.is_none() && req.group_id.is_none() && req.event_id.is_none() {
        return Err(
            ApiError::BadRequest(
                "At least one of event_id, user_id, or group_id is required".to_owned(),
            ),
        );
    }
    Ok(())
}

/// Body of `POST /api/v1/memories/conversation-meta`.
pub struct ConversationMetaRequest {
    pub group_id: Option<String>,
    pub conv_id: Option<String>,
    pub user_id: Option<String>,
    pub scene: Option<String>,
    pub name: Option<String>,
    pub title: Option<String>,
    pub summary: Option<String>,
}

/// Query of `GET /api/v1/memories/conversation-meta`.
pub struct ConversationMetaQuery {
    pub group_id: Option<String>,
    pub conv_id: Option<String>,
    pub user_id: Option<String>,
}

/// Conversation metadata as answered.
pub struct ConversationMetaResponse {
    pub conv_id: String,
    pub group_id: Option<String>,
    pub user_id: Option<String>,
    pub title: Option<String>,
    pub summary: Option<String>,
}

/// Conversation metadata to store.
pub struct ConversationMetaDraft {
    pub conv_id: String,
    pub user_id: Option<String>,
    pub group_id: Option<String>,
    pub title: Option<String>,
    pub summary: Option<String>,
    /// Stored by group (replacing the group's record) rather than by id.
    pub by_group: bool,
}

pub open spec fn first_some(a: Option<String>, b: Option<String>) -> Option<String> {
    match a {
        Some(x) => Some(x),
        None => b,
    }
}

/// The metadata a request stores: the conversation id falls back to the
/// group id, then to the empty id; the title falls back to the name; it is
/// stored by group when the request names one.
pub fn conversation_meta_draft(req: ConversationMetaRequest) -> (r: ConversationMetaDraft)
    ensures
        r.conv_id@ == (match first_some(req.conv_id, req.group_id) {
            Some(c) => c@,
            None => Seq::empty(),
        }),
        r.user_id == req.user_id,
        r.group_id == req.group_id,
        r.title == first_some(req.title, req.name),
        r.summary == req.summary,
        r.by_group == req.group_id.is_some(),
{
    let by_group = req.group_id.is_some();
    let conv_id = match req.conv_id {
        Some(c) => c,
        None => match &req.group_id {
            Some(g) => g.clone(),
            None => String::new(),
        },
    };
    let title = match req.title {
        Some(t) => Some(t),
        None => req.name,
    };
    ConversationMetaDraft {
        conv_id,
        user_id: req.user_id,
        group_id: req.group_id,
        title,
        summary: req.summary,
        by_group,
    }
}

/// How stored metadata is looked up.
pub enum MetaLookup {
    ByGroup(String),
    ByConversation(String),
    /// The query names neither: the answer is empty.
    Nothing,
}

/// The group id wins over the conversation id.
pub fn meta_lookup(q: &ConversationMetaQuery) -> (r: MetaLookup)
    ensures
        match r {
            MetaLookup::ByGroup(g) => q.group_id == Some(g),
            MetaLookup::ByConversation(c) => q.group_id.is_none() && q.conv_id == Some(c),
            MetaLookup::Nothing => q.group_id.is_none() && q.conv_id.is_none(),
        },
{
    match &q.group_id {
        Some(g) => MetaLookup::ByGroup(g.clone()),
        None => match &q.conv_id {
            Some(c) => MetaLookup::ByConversation(c.clone()),
            None => MetaLookup::Nothing,
        },
    }
}

/// Query of `GET /api/v1/memories/status`.
pub struct RequestStatusQuery {
    pub request_id: String,
}

/// Answer of `GET /api/v1/memories/status`.
pub struct RequestStatusResponse {
    pub request_id: String,
    pub found: bool,
    /// -1 pending, 0 processing, 1 done, -2 error.
    pub sync_status: Option<i32>,
    pub status_label: String,
}

pub open spec fn status_label_spec(s: i32) -> Seq<char> {
    if s == -1 {
        "pending"@
    } else if s == 0 {
        "processing"@
    } else if s == 1 {
        "done"@
    } else if s == -2 {
        "error"@
    } else {
        "unknown"@
    }
}

/// The name of a synchronisation status.
pub fn status_label(s: i32) -> (r: &'static str)
    ensures
        r@ == status_label_spec(s),
{
    if s == -1 {
        "pending"
    } else if s == 0 {
        "processing"
    } else if s == 1 {
        "done"
    } else if s == -2 {
        "error"
    } else {
        "unknown"
    }
}

/// The status answer: `not_found` when no log entry has the request id.
pub fn request_status(request_id: String, sync_status: Option<i32>) -> (r: RequestStatusResponse)
    ensures
        r.request_id == request_id,
        r.found == sync_status.is_some(),
        r.sync_status == sync_status,
        r.status_label@ == (match sync_status {
            Some(s) => status_label_spec(s),
            None => "not_found"@,
        }),
{
    let label = match sync_status {
        Some(s) => status_label(s).to_owned(),
        None => "not_found".to_owned(),
    };
    RequestStatusResponse {
        request_id,
        found: sync_status.is_some(),
        sync_status,
        status_label: label,
    }
}

/// Answer of a metadata patch: the fields it changed.
pub struct ConversationMetaPatchResponse {
    pub group_id: Option<String>,
    pub updated_fields: Vec<String>,
}

/// A user's own profile entries.
pub struct CustomProfileData {
    pub initial_profile: Vec<String>,
}

/// Body of `POST /api/v1/global-user-profile/custom`.
pub struct UpsertCustomProfileRequest {
    pub user_id: String,
    pub custom_profile_data: CustomProfileData,
}

/// Answer of `POST /api/v1/global-user-profile/custom`.
pub struct UpsertCustomProfileResponse {
    pub success: bool,
    pub user_id: String,
    pub message: Option<String>,
}

/// A custom profile needs a user and at least one entry.
pub fn check_custom_profile(req: &UpsertCustomProfileRequest) -> (r: Result<(), ApiError>)
    ensures
        r is Ok <==> (req.user_id@.len() > 0 && req.custom_profile_data.initial_profile@.len()
            > 0),
        match r {
            Err(ApiError::BadRequest(m)) => m@ == (if req.user_id@.len() == 0 {
                "user_id is required"@
            } else {
                "custom_profile_data.initial_profile is required and cannot be empty"@
            }),
            Ok(_) => true,
        },
{
    if req.user_id.as_str().is_empty() {
        return Err(ApiError::BadRequest("user_id is required".to_owned()));
    }
    if req.custom_profile_data.initial_profile.len() == 0 {
        return Err(
            ApiError::BadRequest(
                "custom_profile_data.initial_profile is required and cannot be empty".to_owned(),
            ),
        );
    }
    Ok(())
}

/// The answer once a custom profile was stored.
pub fn custom_profile_upserted(user_id: String) -> (r: UpsertCustomProfileResponse)
    ensures
        r.success,
        r.user_id == user_id,
        r.message.is_none(),
{
    UpsertCustomProfileResponse { success: true, user_id, message: None }
}

/// A behavior record needs a user and at least one type.
pub fn check_behavior_create(user_id: &str, behavior_type: &Vec<String>) -> (r: Result<(), ApiError>)
    ensures
        r is Ok <==> (user_id@.len() > 0 && behavior_type@.len() > 0),
        match r {
            Err(ApiError::BadRequest(m)) => m@ == (if user_id@.len() == 0 {
                "user_id is required"@
            } else {
                "behavior_type must not be empty"@
            }),
            Ok(_) => true,
        },
{
    if user_id.is_empty() {
        return Err(ApiError::BadRequest("user_id is required".to_owned()));
    }
    if behavior_type.len() == 0 {
        return Err(ApiError::BadRequest("behavior_type must not be empty".to_owned()));
    }
    Ok(())
}

/// Which records a behavior-history listing reads.
pub enum BehaviorQuery {
    /// Between the query's start and end times.
    TimeRange,
    /// Of one type.
    ByType(String),
    /// The most recent.
    Recent,
}

/// A time range needs both ends; otherwise a type filter applies if given.
pub fn behavior_query(has_start: bool, has_end: bool, behavior_type: Option<String>) -> (r:
    BehaviorQuery)
    ensures
        match r {
            BehaviorQuery::TimeRange => has_start && has_end,
            BehaviorQuery::ByType(t) => !(has_start && has_end) && behavior_type == Some(t),
            BehaviorQuery::Recent => !(has_start && has_end) && behavior_type.is_none(),
        },
{
    if has_start && has_end {
        BehaviorQuery::TimeRange
    } else {
        match behavior_type {
            Some(t) => BehaviorQuery::ByType(t),
            None => BehaviorQuery::Recent,
        }
    }
}

/// The type labels of records, record by record.
pub open spec fn flat_labels(rs: Seq<Vec<String>>) -> Seq<Seq<char>>
    decreases rs.len(),
{
    if rs.len() == 0 {
        Seq::empty()
    } else {
        flat_labels(rs.drop_last()) + views(rs.last()@)
    }
}

/// How often each label occurs.
pub open spec fn tally(ls: Seq<Seq<char>>) -> Map<Seq<char>, nat>
    decreases ls.len(),
{
    if ls.len() == 0 {
        Map::empty()
    } else {
        let m = tally(ls.drop_last());
        m.insert(
            ls.last(),
            if m.contains_key(ls.last()) {
                m[ls.last()] + 1
            } else {
                1
            },
        )
    }
}

proof fn lemma_tally_bound(ls: Seq<Seq<char>>)
    ensures
        forall|k: Seq<char>| #[trigger] tally(ls).contains_key(k) ==> tally(ls)[k] <= ls.len(),
    decreases ls.len(),
{
    if ls.len() > 0 {
        let d = ls.drop_last();
        lemma_tally_bound(d);
        let m = tally(d);
        assert forall|k: Seq<char>| #[trigger] tally(ls).contains_key(k) implies tally(ls)[k]
            <= ls.len() by {
            if k != ls.last() {
                assert(m.contains_key(k));
            }
        }
    }
}

/// Every label of the list is counted, and nothing else.
pub proof fn law_tally_counts_every_label(ls: Seq<Seq<char>>)
    ensures
        forall|k: Seq<char>| #[trigger] tally(ls).contains_key(k) <==> ls.contains(k),
        forall|k: Seq<char>| #[trigger] tally(ls).contains_key(k) ==> tally(ls)[k] >= 1,
    decreases ls.len(),
{
    if ls.len() > 0 {
        let d = ls.drop_last();
        law_tally_counts_every_label(d);
        let m = tally(d);
        assert forall|k: Seq<char>| #[trigger] tally(ls).contains_key(k) implies tally(ls)[k]
            >= 1 by {
            if k != ls.last() {
                assert(m.contains_key(k));
            }
        }
        assert forall|k: Seq<char>| #[trigger] tally(ls).contains_key(k) <==> ls.contains(k) by {
            if ls.contains(k) && k != ls.last() {
                let i = choose|i: int| 0 <= i < ls.len() && ls[i] == k;
                assert(i < ls.len() - 1);
                assert(d[i] == k);
                assert(d.contains(k));
            }
            if d.contains(k) {
                let i = choose|i: int| 0 <= i < d.len() && d[i] == k;
                assert(ls[i] == k);
            }
            if k == ls.last() {
                assert(ls[ls.len() - 1] == k);
            }
        }
    }
}

/// Whether a label is `k`.
pub open spec fn is_label(k: Seq<char>) -> spec_fn(Seq<char>) -> bool {
    |x: Seq<char>| x == k
}

/// How many times `k` occurs in the list.
pub open spec fn occurrences(ls: Seq<Seq<char>>, k: Seq<char>) -> nat {
    ls.filter(is_label(k)).len()
}

proof fn lemma_tally_count(ls: Seq<Seq<char>>, k: Seq<char>)
    ensures
        tally(ls).contains_key(k) ==> tally(ls)[k] == occurrences(ls, k),
        !tally(ls).contains_key(k) ==> occurrences(ls, k) == 0,
    decreases ls.len(),
{
    if ls.len() > 0 {
        let d = ls.drop_last();
        lemma_tally_count(d, k);
        assert(d.push(ls.last()) =~= ls);
        d.lemma_filter_len_push(is_label(k), ls.last());
    } else {
        reveal(Seq::filter);
    }
}

/// Each label's count is its number of occurrences in the list, and adding
/// a label raises its own count by one and leaves every other count as it
/// was.
pub proof fn law_tally_is_occurrence_count(ls: Seq<Seq<char>>, k: Seq<char>, x: Seq<char>)
    ensures
        tally(ls).contains_key(k) ==> tally(ls)[k] == occurrences(ls, k),
        !tally(ls).contains_key(k) ==> occurrences(ls, k) == 0,
        tally(ls.push(x)).contains_key(x),
        tally(ls.push(x))[x] == occurrences(ls, x) + 1,
        k != x ==> tally(ls.push(x)).contains_key(k) == tally(ls).contains_key(k),
        k != x && tally(ls).contains_key(k) ==> tally(ls.push(x))[k] == tally(ls)[k],
{
    lemma_tally_count(ls, k);
    lemma_tally_count(ls, x);
    assert(ls.push(x).drop_last() =~= ls);
}

/// Counts each behavior type over the records (`type_breakdown`).
pub fn type_breakdown(records: &Vec<Vec<String>>) -> (r: KeyTable<u64>)
    requires
        flat_labels(records@).len() < u64::MAX,
    ensures
        r@.dom() == tally(flat_labels(records@)).dom(),
        forall|k: Seq<char>| #[trigger] r@.contains_key(k) ==> r@[k] == tally(
            flat_labels(records@),
        )[k],
        forall|k: Seq<char>| #[trigger] r@.contains_key(k) ==> r@[k] == occurrences(
            flat_labels(records@),
            k,
        ),
{
    let ghost all = flat_labels(records@);
    let mut flat: Vec<String> = Vec::new();
    let mut i: usize = 0;
    while i < records.len()
        invariant
            i <= records@.len(),
            views(flat@) == flat_labels(records@.take(i as int)),
        decreases records@.len() - i,
    {
        proof {
            assert(records@.take(i + 1).drop_last() =~= records@.take(i as int));
        }
        let rec = &records[i];
        let ghost base = views(flat@);
        let mut j: usize = 0;
        while j < rec.len()
            invariant
                j <= rec@.len(),
                views(flat@) == base + views(rec@).take(j as int),
            decreases rec@.len() - j,
        {
            let label = rec[j].clone();
            assert(label@ == views(rec@)[j as int]);
            let ghost prev = flat@;
            flat.push(label);
            assert(views(flat@) =~= views(prev).push(label@));
            assert(views(rec@).take(j + 1) =~= views(rec@).take(j as int).push(views(rec@)[j as int]));
            assert(views(flat@) =~= base + views(rec@).take(j + 1));
            j = j + 1;
        }
        assert(views(rec@).take(rec@.len() as int) =~= views(rec@));
        i = i + 1;
    }
    assert(records@.take(records@.len() as int) =~= records@);
    let ghost ls = views(flat@);
    assert(ls == all);
    let mut table: KeyTable<u64> = KeyTable::new();
    let mut k: usize = 0;
    while k < flat.len()
        invariant
            k <= flat@.len(),
            ls == views(flat@),
            ls.len() < u64::MAX,
            table@.dom() == tally(ls.take(k as int)).dom(),
            forall|x: Seq<char>| #[trigger]
                table@.contains_key(x) ==> table@[x] == tally(ls.take(k as int))[x],
        decreases flat@.len() - k,
    {
        let ghost pre = ls.take(k as int);
        proof {
            assert(ls.take(k + 1).drop_last() =~= pre);
            assert(ls.take(k + 1).last() == ls[k as int]);
            lemma_tally_bound(pre);
        }
        let label = &flat[k];
        let n: u64 = match table.get(label.as_str()) {
            Some(c) => *c + 1,
            None => 1,
        };
        table.insert(label.clone(), n);
        proof {
            let t = tally(ls.take(k + 1));
            assert(table@.dom() =~= t.dom());
        }
        k = k + 1;
    }
    assert(ls.take(flat@.len() as int) =~= ls);
    assert forall|x: Seq<char>| #[trigger] table@.contains_key(x) implies table@[x] == occurrences(
        ls,
        x,
    ) by {
        lemma_tally_count(ls, x);
    }
    table
}

/// Whether a request may pass: always when no key is configured (`none`
/// or empty), else only with `Authorization: Bearer <key>`.
pub fn authorized(api_key: &str, authorization: Option<&str>) -> (r: bool)
    ensures
        r == (api_key@ == "none"@ || api_key@.len() == 0 || match authorization {
            Some(h) => h@ == "Bearer "@ + api_key@,
            None => false,
        }),
{
    if str_eq(api_key, "none") || api_key.is_empty() {
        return true;
    }
    match authorization {
        Some(h) => {
            let mut expected = "Bearer ".to_owned();
            crate::text::push_str(&mut expected, api_key);
            str_eq(h, expected.as_str())
        },
        None => false,
    }
}

/// Whether tracing export is on: `OTEL_ENABLED` is `true`, `1` or `yes`,
/// in any case.
pub fn otel_enabled(var: Option<&str>) -> (r: bool)
    ensures
        r == (match var {
            Some(v) => lowercase(v@) == "true"@ || lowercase(v@) == "1"@ || lowercase(v@)
                == "yes"@,
            None => false,
        }),
        match var {
            Some(v) => ascii_only(v@) ==> r == (ascii_lower_seq(v@) == "true"@ || ascii_lower_seq(
                v@,
            ) == "1"@ || ascii_lower_seq(v@) == "yes"@),
            None => true,
        },
{
    match var {
        Some(v) => {
            let l = to_lowercase(v);
            str_eq(l.as_str(), "true") || str_eq(l.as_str(), "1") || str_eq(l.as_str(), "yes")
        },
        None => false,
    }
}

/// The exporter endpoint shown by the health check: `disabled` when export
/// is off, else the configured endpoint or the local default.
pub fn otlp_endpoint_label(enabled: bool, endpoint: Option<&str>) -> (r: String)
    ensures
        r@ == (if !enabled {
            "disabled"@
        } else {
            match endpoint {
                Some(e) => e@,
                None => "http://localhost:4318"@,
            }
        }),
{
    if !enabled {
        return "disabled".to_owned();
    }
    match endpoint {
        Some(e) => e.to_owned(),
        None => "http://localhost:4318".to_owned(),
    }
}

} // verus!
