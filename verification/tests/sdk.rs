use evermemos_rs::sdk::{
    bearer, build_langchain_messages, build_llamaindex_chat_history, build_openai_messages,
    check_config, compose_system_prompt, delete_scope, fetch_params, header_value_valid,
    memorize_fields, path_with_query, profile_fetch_options, search_params, unwrap_envelope,
    memory_context, ApiEnvelope, ContextItem, DeleteOptions, EverMemOSClientBuilder, EverMemOSConfig, EverMemOSError,
    FetchOptions,
};

fn pairs(v: &[(&str, &str)]) -> Vec<(String, String)> {
    v.iter().map(|(a, b)| (a.to_string(), b.to_string())).collect()
}

fn invalid(c: &EverMemOSConfig) -> Option<&'static str> {
    match check_config(c) {
        Err(EverMemOSError::InvalidConfig(m)) => Some(m),
        Err(_) => Some("other"),
        Ok(()) => None,
    }
}

#[test]
fn builder_sets_fields() {
    let c = EverMemOSClientBuilder::default()
        .base_url("http://host:9000//")
        .org_id("acme")
        .user_id("u1")
        .group_id("g1")
        .api_key("secret")
        .into_config();
    assert_eq!(c.base_url, "http://host:9000");
    assert_eq!(c.org_id, "acme");
    assert_eq!(c.user_id.as_deref(), Some("u1"));
    assert_eq!(c.group_id.as_deref(), Some("g1"));
    assert_eq!(c.api_key.as_deref(), Some("secret"));
}

#[test]
fn config_defaults_and_checks() {
    let d = EverMemOSConfig::default();
    assert_eq!(d.base_url, "http://localhost:8080");
    assert_eq!(d.org_id, "default-org");
    assert_eq!(invalid(&d), None);
    let mut c = d.clone();
    c.base_url = "   ".into();
    assert_eq!(invalid(&c), Some("base_url cannot be empty"));
    let mut c = d.clone();
    c.org_id = "".into();
    assert_eq!(invalid(&c), Some("org_id cannot be empty"));
    let mut c = d.clone();
    c.org_id = "a\nb".into();
    assert_eq!(invalid(&c), Some("invalid org_id header"));
    let mut c = d.clone();
    c.api_key = Some("bad\u{7f}".into());
    assert_eq!(invalid(&c), Some("invalid authorization header"));
}

#[test]
fn header_values() {
    assert!(header_value_valid("Bearer abc\tdef"));
    assert!(!header_value_valid("x\ry"));
    assert_eq!(bearer("k"), "Bearer k");
}

#[test]
fn search_query_parameters() {
    let mut c = EverMemOSConfig::default();
    c.user_id = Some("u".into());
    let p = search_params("tea", None, Some(vec!["a".into(), "b".into()]), None, None, Some("g".into()), Some("0.5".into()), &c);
    assert_eq!(
        p,
        pairs(&[
            ("query", "tea"),
            ("retrieve_method", "HYBRID"),
            ("top_k", "5"),
            ("user_id", "u"),
            ("group_id", "g"),
            ("memory_types", "a,b"),
            ("radius", "0.5"),
        ])
    );
    let q = search_params("x", Some("RRF".into()), Some(vec![]), Some(7), None, None, None, &EverMemOSConfig::default());
    assert_eq!(q, pairs(&[("query", "x"), ("retrieve_method", "RRF"), ("top_k", "7")]));
}

#[test]
fn fetch_query_parameters() {
    let c = EverMemOSConfig::default();
    let p = fetch_params(FetchOptions::default(), &c);
    assert_eq!(p, pairs(&[("limit", "20"), ("offset", "0")]));
    let o = FetchOptions::default().with_limit(3).with_offset(6).with_user_id("u").with_memory_type("profile");
    let q = fetch_params(o, &c);
    assert_eq!(q, pairs(&[("limit", "3"), ("offset", "6"), ("user_id", "u"), ("memory_type", "profile")]));
    let r = profile_fetch_options("core_memory", FetchOptions::default());
    assert_eq!(r.memory_type.as_deref(), Some("core_memory"));
    assert_eq!(r.limit, Some(20));
}

#[test]
fn delete_falls_back_to_configured_scope() {
    let mut c = EverMemOSConfig::default();
    c.group_id = Some("g".into());
    let o = delete_scope(DeleteOptions::default().with_user_id("u").with_memory_id("m"), &c);
    assert_eq!(o.user_id.as_deref(), Some("u"));
    assert_eq!(o.group_id.as_deref(), Some("g"));
    assert_eq!(o.memory_id.as_deref(), Some("m"));
}

#[test]
fn path_with_query_encodes() {
    let p = path_with_query("/api/v1/memories?", &pairs(&[("query", "a b&c"), ("k", "é")])).unwrap();
    assert_eq!(p, "/api/v1/memories?query=a+b%26c&k=%C3%A9");
    assert_eq!(path_with_query("/x?", &vec![]).unwrap(), "/x?");
}

#[test]
fn memorize_defaults() {
    let mut c = EverMemOSConfig::default();
    c.user_id = Some("cu".into());
    let f = memorize_fields(None, None, None, None, Some("g".into()), &c);
    assert_eq!((f.sender.as_str(), f.sender_name.as_str(), f.role.as_str()), ("User", "User", "user"));
    assert_eq!(f.user_id.as_deref(), Some("cu"));
    assert_eq!(f.group_id.as_deref(), Some("g"));
    let g = memorize_fields(Some("bob".into()), None, Some("assistant".into()), None, None, &c);
    assert_eq!((g.sender.as_str(), g.sender_name.as_str(), g.role.as_str()), ("bob", "bob", "assistant"));
}

#[test]
fn envelopes() {
    let ok = ApiEnvelope { status: "ok".to_string(), message: "".to_string(), result: Some(5u32) };
    assert_eq!(unwrap_envelope(ok).unwrap(), 5);
    let empty: ApiEnvelope<u32> = ApiEnvelope { status: "success".into(), message: "".into(), result: None };
    assert_eq!(unwrap_envelope(empty).unwrap(), 0);
    let bad: ApiEnvelope<u32> = ApiEnvelope { status: "failed".into(), message: "nope".into(), result: Some(1) };
    match unwrap_envelope(bad) {
        Err(EverMemOSError::ApiStatus { status, message }) => {
            assert_eq!(status, "failed");
            assert_eq!(message, "nope");
        }
        _ => panic!("expected an API status error"),
    }
}

#[test]
fn system_prompt_composition() {
    assert_eq!(compose_system_prompt("Base", "  \n "), "Base");
    assert_eq!(
        compose_system_prompt("  Base \n", "\n ctx "),
        "Base\n\nLong-term memory context:\nctx"
    );
}

#[test]
fn adapters_build_two_messages() {
    let m = build_openai_messages("hi", "ctx", None);
    assert_eq!(m.len(), 2);
    assert_eq!(m[0].role, "system");
    assert_eq!(m[0].content, "You are a helpful assistant.\n\nLong-term memory context:\nctx");
    assert_eq!(m[1].role, "user");
    assert_eq!(m[1].content, "hi");
    let l = build_langchain_messages("hi", "", Some("B"));
    assert_eq!(l[0].content, "B");
    assert_eq!(l[1].role, "human");
    let x = build_llamaindex_chat_history("q", "", None);
    assert_eq!(x[1].role, "user");
}

#[test]
fn memory_context_lines() {
    assert_eq!(memory_context(&vec![]), "No relevant memory found.");
    let items = vec![
        ContextItem { memory_type: Some("profile".into()), content: Some("  likes tea \n".into()), score: Some(" (score=0.500)".into()) },
        ContextItem { memory_type: None, content: None, score: None },
    ];
    assert_eq!(memory_context(&items), "1. [profile] (score=0.500) likes tea\n2. [unknown] ");
}
