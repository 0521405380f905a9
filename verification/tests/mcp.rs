use evermemos_rs::mcp::{
    advertised_tools, behavior_tool_named, BehaviorTool,
    behavior_list_params, behavior_stats_message, behavior_stored_message, behavior_types,
    format_behavior_records, BehaviorRecordView,
    add_memory_request, behavior_history_disabled_message, conversation_args,
    conversation_stored_message, format_profile, format_search_hits, method_not_found_message,
    missing_conversation_message, parse_error_message, pending_key, profile_request, route,
    search_request, stored_message, tool_error_message, tool_named, unknown_tool_message,
    ConversationArgs, McpConfig, PendingHistory, RpcRoute, SearchHit, Tool, METHOD_NOT_FOUND,
    PARSE_ERROR,
};

fn cfg() -> McpConfig {
    McpConfig::from_values(None, None, None, None, None)
}

fn pairs(v: &[(&str, &str)]) -> Vec<(String, String)> {
    v.iter().map(|(a, b)| (a.to_string(), b.to_string())).collect()
}

#[test]
fn config_defaults() {
    let c = cfg();
    assert_eq!(c.base_url, "http://localhost:8080");
    assert_eq!(c.group_id, "default_group");
    assert_eq!(c.user_id, "default_user");
    assert_eq!(c.api_key, "");
    assert_eq!(c.retrieve_method, "hybrid");
    assert!(!c.sends_auth());
    let d = McpConfig::from_values(Some("http://x".into()), None, None, Some("k".into()), None);
    assert_eq!(d.base_url, "http://x");
    assert!(d.sends_auth());
}

#[test]
fn pending_key_joins_group_and_user() {
    assert_eq!(pending_key(&cfg()), "default_group::default_user");
}

#[test]
fn routing() {
    assert_eq!(route("initialize", true), RpcRoute::Initialize);
    assert_eq!(route("notifications/initialized", false), RpcRoute::Notification);
    assert_eq!(route("notifications/x", true), RpcRoute::Notification);
    assert_eq!(route("tools/list", true), RpcRoute::ToolsList);
    assert_eq!(route("tools/call", true), RpcRoute::ToolsCall);
    assert_eq!(route("ping", true), RpcRoute::Unknown { respond: true });
    assert_eq!(route("ping", false), RpcRoute::Unknown { respond: false });
    assert_eq!(PARSE_ERROR, -32700);
    assert_eq!(METHOD_NOT_FOUND, -32601);
}

#[test]
fn tool_names() {
    assert_eq!(tool_named("search_memory", false), Tool::SearchMemory);
    assert_eq!(tool_named("add_memory", false), Tool::AddMemory);
    assert_eq!(tool_named("get_profile", false), Tool::GetProfile);
    assert_eq!(tool_named("add_conversation", false), Tool::AddConversation);
    assert_eq!(tool_named("list_behavior_history", false), Tool::BehaviorHistoryDisabled);
    assert_eq!(tool_named("nope", false), Tool::Unknown);
}

#[test]
fn tool_names_with_behavior_history() {
    assert_eq!(tool_named("search_memory", true), Tool::SearchMemory);
    assert_eq!(
        tool_named("add_behavior_history", true),
        Tool::BehaviorHistory(BehaviorTool::Add)
    );
    assert_eq!(
        tool_named("list_behavior_history", true),
        Tool::BehaviorHistory(BehaviorTool::List)
    );
    assert_eq!(
        tool_named("get_behavior_history_stats", true),
        Tool::BehaviorHistory(BehaviorTool::Stats)
    );
    assert_eq!(tool_named("nope", true), Tool::Unknown);
}

#[test]
fn default_build_advertises_core_tools() {
    let tools = advertised_tools(false);
    let names: Vec<&str> = tools.iter().map(|t| t.name).collect();
    assert_eq!(names, vec!["search_memory", "add_memory", "get_profile", "add_conversation"]);
    assert_eq!(tools[0].required, vec!["query"]);
    assert_eq!(tools[1].required, vec!["content"]);
    assert!(tools[2].required.is_empty());
    assert_eq!(tools[3].required, vec!["user_message", "assistant_message"]);
    for t in &tools {
        assert_ne!(tool_named(t.name, false), Tool::Unknown);
        assert_ne!(tool_named(t.name, false), Tool::BehaviorHistoryDisabled);
    }
}

#[test]
fn behavior_build_advertises_every_tool() {
    let tools = advertised_tools(true);
    let names: Vec<&str> = tools.iter().map(|t| t.name).collect();
    assert_eq!(
        names,
        vec![
            "search_memory",
            "add_memory",
            "get_profile",
            "add_conversation",
            "add_behavior_history",
            "list_behavior_history",
            "get_behavior_history_stats",
        ]
    );
    assert_eq!(tools[4].required, vec!["behavior_type"]);
    assert!(tools[5].required.is_empty());
    assert!(tools[6].required.is_empty());
    for t in &tools {
        assert_ne!(tool_named(t.name, true), Tool::Unknown);
        assert_ne!(tool_named(t.name, true), Tool::BehaviorHistoryDisabled);
    }
}

#[test]
fn messages() {
    assert_eq!(unknown_tool_message("x"), "Unknown tool: x");
    assert_eq!(tool_error_message("boom"), "Tool error: boom");
    assert_eq!(parse_error_message("eof"), "Parse error: eof");
    assert_eq!(method_not_found_message("ping"), "Method not found: ping");
    assert_eq!(
        behavior_history_disabled_message(),
        "BehaviorHistory feature is disabled. Rebuild with --features behavior-history"
    );
    assert_eq!(stored_message("hi"), "Stored: \"hi\"");
    assert_eq!(conversation_stored_message("héllo", "ok"), "Stored conversation turn (6 + 2 chars).");
    assert_eq!(
        missing_conversation_message(),
        "Error: 'user_message' and 'assistant_message' are required"
    );
}

#[test]
fn pending_history_follows_the_server() {
    let mut h: PendingHistory<u32> = PendingHistory::new();
    assert!(h.history("k").is_none());
    h.after_reply("k", Some("accumulating"), 1);
    h.after_reply("k", Some("accumulating"), 2);
    assert_eq!(h.history("k"), Some(&vec![1, 2]));
    h.after_reply("k", None, 3);
    h.after_reply("k", Some("other"), 4);
    assert_eq!(h.history("k"), Some(&vec![1, 2]));
    h.after_reply("k", Some("extracted"), 5);
    assert!(h.history("k").is_none());
}

#[test]
fn search_hits_are_formatted() {
    assert_eq!(format_search_hits(&vec![]), "No relevant memories found.");
    let hits = vec![
        SearchHit {
            memory_type: Some("episodic_memory".into()),
            subject: Some("Trip".into()),
            content: Some("Went to Paris".into()),
            score: Some(" (score: 0.912)".into()),
        },
        SearchHit { memory_type: None, subject: Some("".into()), content: None, score: None },
    ];
    assert_eq!(
        format_search_hits(&hits),
        "Found 2 memory item(s):\n\n[1] [episodic_memory] (score: 0.912)\n  Subject: Trip\n  Content: Went to Paris\n\n[2] [unknown]\n\n"
    );
}

#[test]
fn profiles_are_formatted() {
    assert_eq!(format_profile("user_profile", &vec![]), "No user_profile stored yet.");
    let c = vec![Some("likes tea".to_string()), None, Some("".to_string())];
    assert_eq!(format_profile("user_profile", &c), "User profile (3 entries):\n\n• likes tea\n");
}

#[test]
fn conversation_arguments() {
    assert!(matches!(conversation_args(Some("a"), None, None), ConversationArgs::Missing));
    assert!(matches!(conversation_args(Some(""), Some("b"), None), ConversationArgs::Missing));
    match conversation_args(Some("a"), Some("b"), None) {
        ConversationArgs::Turn { user_msg, assistant_msg, user_name } => {
            assert_eq!(user_msg, "a");
            assert_eq!(assistant_msg, "b");
            assert_eq!(user_name, "User");
        }
        ConversationArgs::Missing => panic!("expected a turn"),
    }
}

#[test]
fn search_request_shapes_the_query() {
    assert_eq!(search_request(&cfg(), None, None, None).unwrap_err(), "Error: 'query' is required");
    assert_eq!(search_request(&cfg(), Some(""), None, None).unwrap_err(), "Error: 'query' is required");
    let p = search_request(&cfg(), Some("tea"), None, None).unwrap();
    assert_eq!(
        p,
        pairs(&[
            ("query", "tea"),
            ("group_id", "default_group"),
            ("user_id", "default_user"),
            ("top_k", "5"),
            ("retrieve_method", "HYBRID"),
        ])
    );
    let q = search_request(&cfg(), Some("tea"), Some(12), Some("rrf")).unwrap();
    assert_eq!(q[3].1, "12");
    assert_eq!(q[4].1, "RRF");
}

#[test]
fn add_memory_defaults() {
    assert_eq!(add_memory_request(None, None, None).unwrap_err(), "Error: 'content' is required");
    let (c, s, r) = add_memory_request(Some("hello"), None, None).unwrap();
    assert_eq!((c.as_str(), s.as_str(), r.as_str()), ("hello", "User", "user"));
    let (_, s2, r2) = add_memory_request(Some("x"), Some("Bot"), Some("assistant")).unwrap();
    assert_eq!((s2.as_str(), r2.as_str()), ("Bot", "assistant"));
}

#[test]
fn profile_request_defaults() {
    let (t, p) = profile_request(&cfg(), None);
    assert_eq!(t, "user_profile");
    assert_eq!(
        p,
        pairs(&[
            ("user_id", "default_user"),
            ("group_id", "default_group"),
            ("memory_type", "user_profile"),
            ("limit", "20"),
        ])
    );
    assert_eq!(profile_request(&cfg(), Some("core_memory")).0, "core_memory");
}

#[test]
fn behavior_listing_query() {
    let p = behavior_list_params(&cfg(), None, None, None, None);
    assert_eq!(p, pairs(&[("user_id", "default_user"), ("limit", "50")]));
    let q = behavior_list_params(&cfg(), Some(9_999), Some("click"), None, Some("2024-01-02"));
    assert_eq!(
        q,
        pairs(&[("user_id", "default_user"), ("limit", "500"), ("behavior_type", "click"), ("end_time", "2024-01-02")])
    );
}

#[test]
fn behavior_messages() {
    assert_eq!(behavior_types(vec![]).unwrap_err(), "Error: 'behavior_type' must be a non-empty string array");
    assert_eq!(behavior_types(vec!["a".into()]).unwrap(), vec!["a".to_string()]);
    assert_eq!(behavior_stored_message(Some("bh:1")), "Stored behavior history record: bh:1");
    assert_eq!(behavior_stored_message(None), "Stored behavior history record: unknown");
    assert_eq!(
        behavior_stats_message("u", 3, "{\"click\":2}"),
        "Behavior history stats for user=u:\n- total_records: 3\n- type_breakdown: {\"click\":2}"
    );
}

#[test]
fn behavior_records_are_formatted() {
    assert_eq!(format_behavior_records(&vec![]), "No behavior history records found.");
    let r = vec![
        BehaviorRecordView {
            timestamp: Some("t1".into()),
            behavior_type: Some(vec!["click".into(), "view".into()]),
            event_id: Some("e1".into()),
        },
        BehaviorRecordView { timestamp: None, behavior_type: None, event_id: None },
    ];
    assert_eq!(
        format_behavior_records(&r),
        "Behavior history (2 records):\n\n[1] t1\n  behavior_type: click, view\n  event_id: e1\n\n[2] -\n  behavior_type: -\n  event_id: -\n\n"
    );
}

#[test]
fn behavior_tool_names() {
    assert_eq!(behavior_tool_named("add_behavior_history"), Some(BehaviorTool::Add));
    assert_eq!(behavior_tool_named("list_behavior_history"), Some(BehaviorTool::List));
    assert_eq!(behavior_tool_named("get_behavior_history_stats"), Some(BehaviorTool::Stats));
    assert_eq!(behavior_tool_named("search_memory"), None);
}
