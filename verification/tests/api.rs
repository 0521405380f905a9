use evermemos_rs::api::{
    authorized, behavior_list_limit, behavior_query, check_behavior_create, check_custom_profile,
    check_delete, conversation_meta_draft, custom_profile_upserted, fetch_limit, fetch_offset,
    has_more, meta_lookup, memorize_response, otel_enabled, otlp_endpoint_label, request_status,
    search_top_k, status_label, type_breakdown, ApiError, ApiResponse, BehaviorQuery,
    ConversationMetaQuery, ConversationMetaRequest, CustomProfileData, DeleteMemoriesRequest,
    MetaLookup, SearchMemoriesQuery, UpsertCustomProfileRequest,
};
use evermemos_rs::retrieval::{MemoryType, RetrieveMethod};
use evermemos_rs::memory::MemorizeResult;

fn bad(r: Result<(), ApiError>) -> Option<String> {
    match r {
        Err(ApiError::BadRequest(m)) => Some(m),
        Ok(()) => None,
    }
}

#[test]
fn envelope() {
    let r = ApiResponse::ok("Search complete", 3u8);
    assert_eq!(r.status, "success");
    assert_eq!(r.message, "Search complete");
    assert_eq!(r.result, Some(3));
}

#[test]
fn limits_default_and_cap() {
    assert_eq!(fetch_limit(None), 20);
    assert_eq!(fetch_limit(Some(500)), 100);
    assert_eq!(fetch_limit(Some(7)), 7);
    assert_eq!(fetch_offset(None), 0);
    assert_eq!(fetch_offset(Some(40)), 40);
    assert_eq!(search_top_k(None), 10);
    assert_eq!(search_top_k(Some(51)), 50);
    assert_eq!(behavior_list_limit(None), 50);
    assert_eq!(behavior_list_limit(Some(10_000)), 500);
    assert!(has_more(20, 20));
    assert!(!has_more(19, 20));
}

#[test]
fn delete_needs_a_scope() {
    let none = DeleteMemoriesRequest { user_id: None, group_id: None, event_id: None, memory_type: Some("x".into()) };
    assert_eq!(bad(check_delete(&none)).as_deref(), Some("At least one of event_id, user_id, or group_id is required"));
    let ev = DeleteMemoriesRequest { user_id: None, group_id: None, event_id: Some("e".into()), memory_type: None };
    assert_eq!(bad(check_delete(&ev)), None);
}

#[test]
fn conversation_meta_resolution() {
    let req = ConversationMetaRequest {
        group_id: Some("g".into()),
        conv_id: None,
        user_id: Some("u".into()),
        scene: None,
        name: Some("Team".into()),
        title: None,
        summary: Some("s".into()),
    };
    let d = conversation_meta_draft(req);
    assert_eq!(d.conv_id, "g");
    assert_eq!(d.title.as_deref(), Some("Team"));
    assert!(d.by_group);
    let req2 = ConversationMetaRequest { group_id: None, conv_id: None, user_id: None, scene: None, name: None, title: Some("T".into()), summary: None };
    let d2 = conversation_meta_draft(req2);
    assert_eq!(d2.conv_id, "");
    assert_eq!(d2.title.as_deref(), Some("T"));
    assert!(!d2.by_group);
}

#[test]
fn conversation_meta_lookup() {
    let q = ConversationMetaQuery { group_id: Some("g".into()), conv_id: Some("c".into()), user_id: None };
    assert!(matches!(meta_lookup(&q), MetaLookup::ByGroup(g) if g == "g"));
    let q2 = ConversationMetaQuery { group_id: None, conv_id: Some("c".into()), user_id: None };
    assert!(matches!(meta_lookup(&q2), MetaLookup::ByConversation(c) if c == "c"));
    let q3 = ConversationMetaQuery { group_id: None, conv_id: None, user_id: Some("u".into()) };
    assert!(matches!(meta_lookup(&q3), MetaLookup::Nothing));
}

#[test]
fn request_status_labels() {
    assert_eq!(status_label(-1), "pending");
    assert_eq!(status_label(0), "processing");
    assert_eq!(status_label(1), "done");
    assert_eq!(status_label(-2), "error");
    assert_eq!(status_label(7), "unknown");
    let r = request_status("r1".into(), None);
    assert!(!r.found);
    assert_eq!(r.status_label, "not_found");
    let s = request_status("r2".into(), Some(1));
    assert!(s.found);
    assert_eq!(s.sync_status, Some(1));
    assert_eq!(s.status_label, "done");
}

#[test]
fn custom_profile_validation() {
    let mk = |u: &str, p: Vec<String>| UpsertCustomProfileRequest {
        user_id: u.into(),
        custom_profile_data: CustomProfileData { initial_profile: p },
    };
    assert_eq!(bad(check_custom_profile(&mk("", vec![]))).as_deref(), Some("user_id is required"));
    assert_eq!(
        bad(check_custom_profile(&mk("u", vec![]))).as_deref(),
        Some("custom_profile_data.initial_profile is required and cannot be empty")
    );
    assert_eq!(bad(check_custom_profile(&mk("u", vec!["likes tea".into()]))), None);
    let ok = custom_profile_upserted("u".into());
    assert!(ok.success && ok.user_id == "u" && ok.message.is_none());
}

#[test]
fn behavior_records() {
    assert_eq!(bad(check_behavior_create("", &vec!["a".into()])).as_deref(), Some("user_id is required"));
    assert_eq!(bad(check_behavior_create("u", &vec![])).as_deref(), Some("behavior_type must not be empty"));
    assert_eq!(bad(check_behavior_create("u", &vec!["a".into()])), None);
    assert!(matches!(behavior_query(true, true, Some("x".into())), BehaviorQuery::TimeRange));
    assert!(matches!(behavior_query(true, false, Some("x".into())), BehaviorQuery::ByType(t) if t == "x"));
    assert!(matches!(behavior_query(false, false, None), BehaviorQuery::Recent));
}

#[test]
fn breakdown_counts_each_type() {
    let records: Vec<Vec<String>> = vec![
        vec!["click".into(), "view".into()],
        vec![],
        vec!["click".into()],
    ];
    let t = type_breakdown(&records);
    assert_eq!(t.len(), 2);
    assert_eq!(t.get("click"), Some(&2));
    assert_eq!(t.get("view"), Some(&1));
    assert_eq!(t.get("buy"), None);
    assert_eq!(type_breakdown(&vec![]).len(), 0);
}

#[test]
fn bearer_authorization() {
    assert!(authorized("none", None));
    assert!(authorized("", None));
    assert!(authorized("k", Some("Bearer k")));
    assert!(!authorized("k", Some("Bearer x")));
    assert!(!authorized("k", Some("k")));
    assert!(!authorized("k", None));
}

#[test]
fn observability_flags() {
    assert!(otel_enabled(Some("TRUE")));
    assert!(otel_enabled(Some("Yes")));
    assert!(otel_enabled(Some("1")));
    assert!(!otel_enabled(Some("on")));
    assert!(!otel_enabled(None));
    assert_eq!(otlp_endpoint_label(false, Some("http://c:4318")), "disabled");
    assert_eq!(otlp_endpoint_label(true, None), "http://localhost:4318");
    assert_eq!(otlp_endpoint_label(true, Some("http://c:4318")), "http://c:4318");
}

#[test]
fn memorize_answer_copies_the_result() {
    let r = memorize_response(MemorizeResult::extracted());
    assert_eq!(r.status, "extracted");
    assert_eq!(r.saved_count, 1);
}

#[test]
fn search_query_parsing() {
    let q = SearchMemoriesQuery {
        query: "tea".into(),
        user_id: None,
        group_id: None,
        retrieve_method: Some("RRF".into()),
        memory_types: Some("profile, EVENT_LOG".into()),
        top_k: None,
    };
    assert_eq!(q.parse_method(), RetrieveMethod::Rrf);
    assert_eq!(q.parse_memory_types(), vec![MemoryType::Profile, MemoryType::EventLogRecord]);
    let d = SearchMemoriesQuery { query: "x".into(), user_id: None, group_id: None, retrieve_method: None, memory_types: None, top_k: None };
    assert_eq!(d.parse_method(), RetrieveMethod::Vector);
    assert_eq!(d.parse_memory_types(), vec![MemoryType::All]);
}
